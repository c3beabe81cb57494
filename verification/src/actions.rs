//! What the user asks for, and what the client does about it.

use vstd::prelude::*;

use crate::input_mode::InputMode;

verus! {

/// A direction key.
#[derive(Clone, Copy, Debug, PartialEq, Eq, Structural)]
pub enum Navigation {
    Up,
    Down,
    Left,
    Right,
}

/// A function key that converts the whole composition.
#[derive(Clone, Copy, Debug, PartialEq, Eq, Structural)]
pub enum Function {
    Six,
    Seven,
    Eight,
    Nine,
    Ten,
}

/// The meaning of one key press.
#[derive(Clone, Copy, Debug, PartialEq, Eq, Structural)]
pub enum UserAction {
    Input(char),
    Number(i8),
    Backspace,
    Enter,
    Space,
    Tab,
    Escape,
    Navigation(Navigation),
    Function(Function),
    SetInputMode(InputMode),
    ToggleInputMode,
    Unknown,
}

/// How the selected candidate moves.
#[derive(Clone, Copy, Debug, PartialEq, Eq, Structural)]
pub enum SetSelectionType {
    Up,
    Down,
    Number(i32),
}

/// The script that the whole composition is converted to.
#[derive(Clone, Copy, Debug, PartialEq, Eq, Structural)]
pub enum SetTextType {
    Hiragana,
    Katakana,
    HalfKatakana,
    FullLatin,
    HalfLatin,
}

/// One step of the client's answer to a key. The text is a `String` in the
/// program and a sequence of characters in contracts.
#[derive(Debug, PartialEq, Eq)]
pub enum ClientAction<T = String> {
    StartComposition,
    EndComposition,
    DiscardComposition,
    AppendText(T),
    RemoveText,
    MoveCursor(i32),
    SetIMEMode(InputMode),
    SetSelection(SetSelectionType),
    CommitPrefixAndAppend(T),
    SetTextWithType(SetTextType),
}

impl View for ClientAction<String> {
    type V = ClientAction<Seq<char>>;

    open spec fn view(&self) -> ClientAction<Seq<char>> {
        match self {
            ClientAction::StartComposition => ClientAction::StartComposition,
            ClientAction::EndComposition => ClientAction::EndComposition,
            ClientAction::DiscardComposition => ClientAction::DiscardComposition,
            ClientAction::AppendText(text) => ClientAction::AppendText(text@),
            ClientAction::RemoveText => ClientAction::RemoveText,
            ClientAction::MoveCursor(offset) => ClientAction::MoveCursor(*offset),
            ClientAction::SetIMEMode(mode) => ClientAction::SetIMEMode(*mode),
            ClientAction::SetSelection(selection) => ClientAction::SetSelection(*selection),
            ClientAction::CommitPrefixAndAppend(text) => ClientAction::CommitPrefixAndAppend(text@),
            ClientAction::SetTextWithType(set_type) => ClientAction::SetTextWithType(*set_type),
        }
    }
}

/// A list of actions, with their texts as sequences of characters.
pub open spec fn actions_view(actions: Seq<ClientAction<String>>) -> Seq<ClientAction<Seq<char>>> {
    actions.map_values(|action: ClientAction<String>| action@)
}

} // verus!
