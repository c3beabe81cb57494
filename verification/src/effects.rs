//! Outside work, and what came of it.

use vstd::prelude::*;
use std::sync::Arc;

use crate::actions::UserAction;
use crate::candidates::{Candidates, CandidatesView};
use crate::input_mode::InputMode;

verus! {

/// Outside work that a run asks for.
#[allow(inconsistent_fields)]
#[derive(Debug)]
pub enum Effect {
    /// Tell the server the text in front of the composition.
    UpdateContext { composition_utf16_count: usize, committed_text: Arc<String> },
    /// Open a range in the host.
    StartComposition,
    /// Close the host's range.
    EndComposition,
    /// Move the candidate window to the composition.
    UpdatePosition,
    /// Show `text`, with `subtext` behind it, in the host's range.
    SetText { text: String, subtext: String },
    /// Leave `text` behind as committed and show `subtext`.
    ShiftStart { text: Arc<String>, subtext: String },
    /// Write the input mode to the host's compartments.
    SetInputModeCompartments(InputMode),
    AppendText(String),
    RemoveText,
    CommitPrefixAndAppend { offset: i32, text: String },
    SetCandidateState { candidates: Arc<Candidates>, selection: i32 },
    SetSelection(i32),
    /// Show the input mode in the candidate window.
    SetInputMode(InputMode),
    HideWindow,
    ClearText,
    /// Find out whether there is a connection to the server.
    SnapshotIpc,
    /// Find out what the key means, and in which situation it was pressed.
    ReadKey,
}

/// The contents of an `Effect`.
#[verifier::ext_equal]
pub enum EffectView {
    UpdateContext { composition_utf16_count: usize, committed_text: Seq<char> },
    StartComposition,
    EndComposition,
    UpdatePosition,
    SetText { text: Seq<char>, subtext: Seq<char> },
    ShiftStart { text: Seq<char>, subtext: Seq<char> },
    SetInputModeCompartments(InputMode),
    AppendText(Seq<char>),
    RemoveText,
    CommitPrefixAndAppend { offset: i32, text: Seq<char> },
    SetCandidateState { candidates: CandidatesView, selection: i32 },
    SetSelection(i32),
    SetInputMode(InputMode),
    HideWindow,
    ClearText,
    SnapshotIpc,
    ReadKey,
}

impl View for Effect {
    type V = EffectView;

    open spec fn view(&self) -> EffectView {
        match self {
            Effect::UpdateContext { composition_utf16_count, committed_text } => {
                EffectView::UpdateContext {
                    composition_utf16_count: *composition_utf16_count,
                    committed_text: committed_text@,
                }
            },
            Effect::StartComposition => EffectView::StartComposition,
            Effect::EndComposition => EffectView::EndComposition,
            Effect::UpdatePosition => EffectView::UpdatePosition,
            Effect::SetText { text, subtext } => EffectView::SetText {
                text: text@,
                subtext: subtext@,
            },
            Effect::ShiftStart { text, subtext } => EffectView::ShiftStart {
                text: text@,
                subtext: subtext@,
            },
            Effect::SetInputModeCompartments(mode) => EffectView::SetInputModeCompartments(*mode),
            Effect::AppendText(text) => EffectView::AppendText(text@),
            Effect::RemoveText => EffectView::RemoveText,
            Effect::CommitPrefixAndAppend { offset, text } => EffectView::CommitPrefixAndAppend {
                offset: *offset,
                text: text@,
            },
            Effect::SetCandidateState { candidates, selection } => EffectView::SetCandidateState {
                candidates: candidates@,
                selection: *selection,
            },
            Effect::SetSelection(index) => EffectView::SetSelection(*index),
            Effect::SetInputMode(mode) => EffectView::SetInputMode(*mode),
            Effect::HideWindow => EffectView::HideWindow,
            Effect::ClearText => EffectView::ClearText,
            Effect::SnapshotIpc => EffectView::SnapshotIpc,
            Effect::ReadKey => EffectView::ReadKey,
        }
    }
}

/// What came of outside work.
#[derive(Debug)]
pub enum Reply {
    Done,
    Failed,
    Candidates(Candidates),
    Mode(InputMode),
    Ipc(bool),
    Key { action: UserAction, ipc_available: bool, shortcut_pressed: bool },
}

/// The contents of a `Reply`.
pub enum ReplyView {
    Done,
    Failed,
    Candidates(CandidatesView),
    Mode(InputMode),
    Ipc(bool),
    Key { action: UserAction, ipc_available: bool, shortcut_pressed: bool },
}

impl View for Reply {
    type V = ReplyView;

    open spec fn view(&self) -> ReplyView {
        match self {
            Reply::Done => ReplyView::Done,
            Reply::Failed => ReplyView::Failed,
            Reply::Candidates(candidates) => ReplyView::Candidates(candidates@),
            Reply::Mode(mode) => ReplyView::Mode(*mode),
            Reply::Ipc(available) => ReplyView::Ipc(*available),
            Reply::Key { action, ipc_available, shortcut_pressed } => ReplyView::Key {
                action: *action,
                ipc_available: *ipc_available,
                shortcut_pressed: *shortcut_pressed,
            },
        }
    }
}

} // verus!
