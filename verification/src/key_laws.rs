//! What holds of the answers to keys, key by key.

use vstd::prelude::*;

use crate::actions::{
    ClientAction, Function, Navigation, SetSelectionType, SetTextType, UserAction,
};
use crate::composition::{key_answer, CompositionState, KeyAnswer, KeySituation};
use crate::input_mode::InputMode;

verus! {

/// The key edits a composition: one is in progress, the server can be reached,
/// and no shortcut key is down.
pub open spec fn is_editing(situation: KeySituation) -> bool {
    &&& situation.ipc_available
    &&& !situation.shortcut_pressed
    &&& situation.state == CompositionState::Composing || situation.state
        == CompositionState::Previewing
}

/// The key asks for an input mode.
pub open spec fn is_mode_key(action: UserAction) -> bool {
    action is SetInputMode || action is ToggleInputMode
}

/// Enter commits what is shown and throws nothing away: with no text behind the
/// preview it ends the composition, otherwise it commits the preview, types
/// nothing, and goes on composing what is left.
pub proof fn enter_commits(situation: KeySituation)
    requires
        is_editing(situation),
    ensures
        situation.suffix_is_empty ==> key_answer(situation, UserAction::Enter) == Some(
            KeyAnswer {
                actions: seq![ClientAction::EndComposition],
                state: CompositionState::Inactive,
            },
        ),
        !situation.suffix_is_empty ==> key_answer(situation, UserAction::Enter) == Some(
            KeyAnswer {
                actions: seq![ClientAction::CommitPrefixAndAppend(Seq::empty())],
                state: CompositionState::Composing,
            },
        ),
{
}

/// A composition is thrown away by Escape, and by Backspace on its last character,
/// and by nothing else.
pub proof fn only_escape_and_the_last_backspace_discard(
    situation: KeySituation,
    action: UserAction,
)
    ensures
        (key_answer(situation, action) matches Some(answered) && exists|i: int|
            0 <= i < answered.actions.len() && #[trigger] answered.actions[i] is DiscardComposition)
            <==> is_editing(situation) && (action is Escape || (action is Backspace
            && situation.is_last_input)),
        is_editing(situation) && (action is Escape || (action is Backspace
            && situation.is_last_input)) ==> key_answer(situation, action) == Some(
            KeyAnswer {
                actions: seq![ClientAction::DiscardComposition],
                state: CompositionState::Inactive,
            },
        ),
{
    if let Some(answered) = key_answer(situation, action) {
        if is_editing(situation) && (action is Escape || (action is Backspace
            && situation.is_last_input)) {
            assert(answered.actions[0] is DiscardComposition);
        }
    }
}

/// Backspace removes one character while more are left, and no other key removes
/// any.
pub proof fn only_backspace_removes(situation: KeySituation, action: UserAction)
    ensures
        (key_answer(situation, action) matches Some(answered) && exists|i: int|
            0 <= i < answered.actions.len() && #[trigger] answered.actions[i] is RemoveText)
            <==> is_editing(situation) && action is Backspace && !situation.is_last_input,
        is_editing(situation) && action is Backspace && !situation.is_last_input ==> key_answer(
            situation,
            action,
        ) == Some(
            KeyAnswer {
                actions: seq![ClientAction::RemoveText],
                state: CompositionState::Composing,
            },
        ),
{
    if let Some(answered) = key_answer(situation, action) {
        if is_editing(situation) && action is Backspace && !situation.is_last_input {
            assert(answered.actions[0] is RemoveText);
        }
    }
}

/// A typed character goes to the converter as it is: it opens a composition in
/// kana mode, it is appended while composing, and behind a preview it commits the
/// preview first. Afterwards the composition is being composed.
pub proof fn what_is_typed_is_sent(situation: KeySituation, c: char)
    requires
        situation.ipc_available,
        !situation.shortcut_pressed,
    ensures
        situation.state == CompositionState::Inactive && situation.mode == InputMode::Kana
            ==> key_answer(situation, UserAction::Input(c)) == Some(
            KeyAnswer {
                actions: seq![
                    ClientAction::StartComposition,
                    ClientAction::AppendText(seq![c]),
                ],
                state: CompositionState::Composing,
            },
        ),
        situation.state == CompositionState::Composing ==> key_answer(
            situation,
            UserAction::Input(c),
        ) == Some(
            KeyAnswer {
                actions: seq![ClientAction::AppendText(seq![c])],
                state: CompositionState::Composing,
            },
        ),
        situation.state == CompositionState::Previewing ==> key_answer(
            situation,
            UserAction::Input(c),
        ) == Some(
            KeyAnswer {
                actions: seq![ClientAction::CommitPrefixAndAppend(seq![c])],
                state: CompositionState::Composing,
            },
        ),
{
}

/// A digit key is answered as the character of its digit is.
pub proof fn a_digit_key_types_its_digit(situation: KeySituation, number: i8, digit: char)
    requires
        0 <= number <= 9,
        digit as u32 == 0x30 + number,
    ensures
        key_answer(situation, UserAction::Number(number)) == key_answer(
            situation,
            UserAction::Input(digit),
        ),
{
    assert((0x30 + number) as char == digit);
}

/// Space, Tab and the down key select the next candidate, the up key the one
/// before it, and the preview shows it. No other key moves the selection.
pub proof fn selection_keys_preview(situation: KeySituation, action: UserAction)
    ensures
        is_editing(situation) && (action is Space || action is Tab || action
            == UserAction::Navigation(Navigation::Down)) ==> key_answer(situation, action) == Some(
            KeyAnswer {
                actions: seq![ClientAction::SetSelection(SetSelectionType::Down)],
                state: CompositionState::Previewing,
            },
        ),
        is_editing(situation) && action == UserAction::Navigation(Navigation::Up) ==> key_answer(
            situation,
            action,
        ) == Some(
            KeyAnswer {
                actions: seq![ClientAction::SetSelection(SetSelectionType::Up)],
                state: CompositionState::Previewing,
            },
        ),
        key_answer(situation, action) matches Some(answered) && answered.actions.last()
            is SetSelection ==> action is Space || action is Tab || action
            == UserAction::Navigation(Navigation::Down) || action == UserAction::Navigation(
            Navigation::Up,
        ),
{
}

/// The right and left keys move the cursor by one, in opposite directions, and
/// leave the composition being composed.
pub proof fn cursor_keys_move_by_one(situation: KeySituation)
    requires
        is_editing(situation),
    ensures
        key_answer(situation, UserAction::Navigation(Navigation::Right)) == Some(
            KeyAnswer {
                actions: seq![ClientAction::MoveCursor(1)],
                state: CompositionState::Composing,
            },
        ),
        key_answer(situation, UserAction::Navigation(Navigation::Left)) == Some(
            KeyAnswer {
                actions: seq![ClientAction::MoveCursor(-1i32)],
                state: CompositionState::Composing,
            },
        ),
{
}

/// Each function key converts the whole composition to a script of its own, from
/// hiragana on the sixth to half-width Latin on the tenth, and shows it as a
/// preview.
pub proof fn function_keys_convert(situation: KeySituation, key: Function, script: SetTextType)
    requires
        is_editing(situation),
        key is Six <==> script is Hiragana,
        key is Seven <==> script is Katakana,
        key is Eight <==> script is HalfKatakana,
        key is Nine <==> script is FullLatin,
        key is Ten <==> script is HalfLatin,
    ensures
        key_answer(situation, UserAction::Function(key)) == Some(
            KeyAnswer {
                actions: seq![ClientAction::SetTextWithType(script)],
                state: CompositionState::Previewing,
            },
        ),
{
}

/// A mode key sets the mode that it names, and the toggle key the mode that is
/// not in effect, with or without a server. The state stays where the mode does,
/// and a change of mode ends the composition. With a shortcut key down the host
/// gets the key.
pub proof fn mode_keys_set_the_mode(situation: KeySituation, mode: InputMode)
    ensures
        !situation.shortcut_pressed ==> ({
            let toggles = mode != situation.mode;
            &&& key_answer(situation, UserAction::SetInputMode(mode)) matches Some(answered)
                && answered.actions == seq![ClientAction::<Seq<char>>::SetIMEMode(mode)]
                && (!toggles ==> answered.state == situation.state) && (toggles ==> answered.state
                == CompositionState::Inactive)
            &&& toggles ==> key_answer(situation, UserAction::ToggleInputMode) == key_answer(
                situation,
                UserAction::SetInputMode(mode),
            )
        }),
        situation.shortcut_pressed ==> key_answer(situation, UserAction::SetInputMode(mode)) is None
            && key_answer(situation, UserAction::ToggleInputMode) is None,
{
}

/// Without a server every key but a mode key ends the composition, whatever the
/// key and whether a shortcut key is down, and throws nothing away; with no
/// composition the host gets it.
pub proof fn an_offline_key_only_ends(situation: KeySituation, action: UserAction)
    requires
        !situation.ipc_available,
        !is_mode_key(action),
    ensures
        situation.tip_exists || situation.state != CompositionState::Inactive ==> key_answer(
            situation,
            action,
        ) == Some(
            KeyAnswer {
                actions: seq![ClientAction::EndComposition],
                state: CompositionState::Inactive,
            },
        ),
        !situation.tip_exists && situation.state == CompositionState::Inactive ==> key_answer(
            situation,
            action,
        ) is None,
{
}

/// With a server, the host gets a key that is no mode key exactly where a shortcut
/// key is down, where candidates are being listed, where nothing is composed and
/// the key types nothing in kana mode, and where the key has no meaning.
pub proof fn the_host_gets_the_other_keys(situation: KeySituation, action: UserAction)
    requires
        situation.ipc_available,
        !is_mode_key(action),
    ensures
        key_answer(situation, action) is None <==> {
            ||| situation.shortcut_pressed
            ||| situation.state == CompositionState::Selecting
            ||| situation.state == CompositionState::Inactive && !(situation.mode
                == InputMode::Kana && (action is Input || action is Number))
            ||| action is Unknown
        },
{
}

} // verus!
