//! The run of the actions that answer a key.
//!
//! Showing text, talking to the server and moving windows is outside work. A run
//! asks for one piece of it at a time, and decides from each reply what comes
//! next. The host may end the composition while the outside work is done, so a
//! run works on a snapshot, checks it after every visible step, and stores it
//! only where the composition has not changed underneath.

use vstd::prelude::*;
use std::sync::Arc;

use crate::actions::{actions_view, ClientAction, SetSelectionType, SetTextType};
use crate::candidates::{count_surface, surface_count, Candidates, CandidatesView};
use crate::composition::{
    candidate_display_text, displayed_units, displayed_utf16_count, snapshot_is_current,
    ActionProgress, Composition, CompositionState, CompositionView,
};
use crate::effects::{Effect, EffectView, Reply, ReplyView};
use crate::input_mode::InputMode;
use crate::kana::{full_width_text, text_with_type, to_fullwidth, typed_text};
use crate::text::share;

verus! {

broadcast use vstd::string::group_string_axioms;

/// Why a run failed.
#[derive(Clone, Copy, Debug, PartialEq, Eq, Structural)]
pub enum ActionError {
    /// The outside work that was asked for last failed.
    Outside,
    IpcMissing,
    CandidateTextEmpty,
    CandidateSubtextEmpty,
    CandidateCountEmpty,
    SelectionOutOfRange,
    SubtextSelectionOutOfRange,
    CountSelectionOutOfRange,
}

impl ActionError {
    /// The text of this error, where it is not that of the outside work.
    pub open spec fn text(self) -> Option<Seq<char>> {
        match self {
            ActionError::Outside => None,
            ActionError::IpcMissing => Some("ipc_service is None"@),
            ActionError::CandidateTextEmpty => Some("candidate text is empty"@),
            ActionError::CandidateSubtextEmpty => Some("candidate subtext is empty"@),
            ActionError::CandidateCountEmpty => Some("candidate corresponding_count is empty"@),
            ActionError::SelectionOutOfRange => Some("candidate selection is out of range"@),
            ActionError::SubtextSelectionOutOfRange => Some(
                "candidate subtext selection is out of range"@,
            ),
            ActionError::CountSelectionOutOfRange => Some(
                "candidate corresponding_count selection is out of range"@,
            ),
        }
    }

    /// The text of this error, where it is not that of the outside work.
    pub fn message(self) -> (message: Option<&'static str>)
        ensures
            match message {
                Some(message) => self.text() == Some(message@),
                None => self.text() is None,
            },
    {
        match self {
            ActionError::Outside => None,
            ActionError::IpcMissing => Some("ipc_service is None"),
            ActionError::CandidateTextEmpty => Some("candidate text is empty"),
            ActionError::CandidateSubtextEmpty => Some("candidate subtext is empty"),
            ActionError::CandidateCountEmpty => Some("candidate corresponding_count is empty"),
            ActionError::SelectionOutOfRange => Some("candidate selection is out of range"),
            ActionError::SubtextSelectionOutOfRange => Some(
                "candidate subtext selection is out of range",
            ),
            ActionError::CountSelectionOutOfRange => Some(
                "candidate corresponding_count selection is out of range",
            ),
        }
    }
}

/// One step of a run.
#[derive(Debug)]
pub enum Step<T = String> {
    /// Tell the server the text in front of a new composition.
    UpdateContext,
    /// Tell the server the text in front of what follows the preview.
    UpdateContextBehindPreview,
    /// Give up where the composition has changed since the snapshot.
    Recheck,
    StartTip,
    UpdatePosition,
    /// From here on the key is kept from the host even on failure.
    MustEat,
    EndTip,
    /// Accept changes that ending the composition has made.
    AdoptGeneration,
    Forget,
    HideWindow,
    ClearText,
    HideWindowQuietly,
    ClearTextQuietly,
    ShowNothing,
    Append(T),
    Remove,
    ShowFirst,
    ShowFirstOrNothing,
    TakeFirst,
    TakeFirstOrNothing,
    Publish,
    EndTipBeforeMode(InputMode),
    SetMode(InputMode),
    ShowMode,
    ClearTextAfterMode,
    Select(SetSelectionType),
    SendSelection,
    ShowSelected,
    TakeSelected,
    CommitPreview(T),
    ShiftStart,
    BackToComposing,
    ShowTyped(SetTextType),
    TakeTyped(SetTextType),
    /// Store the snapshot, unless the composition has changed.
    WriteBack,
}

impl View for Step<String> {
    type V = Step<Seq<char>>;

    open spec fn view(&self) -> Step<Seq<char>> {
        match self {
            Step::UpdateContext => Step::UpdateContext,
            Step::UpdateContextBehindPreview => Step::UpdateContextBehindPreview,
            Step::Recheck => Step::Recheck,
            Step::StartTip => Step::StartTip,
            Step::UpdatePosition => Step::UpdatePosition,
            Step::MustEat => Step::MustEat,
            Step::EndTip => Step::EndTip,
            Step::AdoptGeneration => Step::AdoptGeneration,
            Step::Forget => Step::Forget,
            Step::HideWindow => Step::HideWindow,
            Step::ClearText => Step::ClearText,
            Step::HideWindowQuietly => Step::HideWindowQuietly,
            Step::ClearTextQuietly => Step::ClearTextQuietly,
            Step::ShowNothing => Step::ShowNothing,
            Step::Append(text) => Step::Append(text@),
            Step::Remove => Step::Remove,
            Step::ShowFirst => Step::ShowFirst,
            Step::ShowFirstOrNothing => Step::ShowFirstOrNothing,
            Step::TakeFirst => Step::TakeFirst,
            Step::TakeFirstOrNothing => Step::TakeFirstOrNothing,
            Step::Publish => Step::Publish,
            Step::EndTipBeforeMode(mode) => Step::EndTipBeforeMode(*mode),
            Step::SetMode(mode) => Step::SetMode(*mode),
            Step::ShowMode => Step::ShowMode,
            Step::ClearTextAfterMode => Step::ClearTextAfterMode,
            Step::Select(selection) => Step::Select(*selection),
            Step::SendSelection => Step::SendSelection,
            Step::ShowSelected => Step::ShowSelected,
            Step::TakeSelected => Step::TakeSelected,
            Step::CommitPreview(text) => Step::CommitPreview(text@),
            Step::ShiftStart => Step::ShiftStart,
            Step::BackToComposing => Step::BackToComposing,
            Step::ShowTyped(set_type) => Step::ShowTyped(*set_type),
            Step::TakeTyped(set_type) => Step::TakeTyped(*set_type),
            Step::WriteBack => Step::WriteBack,
        }
    }
}

/// A list of steps, with their texts as sequences of characters.
pub open spec fn steps_view(steps: Seq<Step<String>>) -> Seq<Step<Seq<char>>> {
    steps.map_values(|step: Step<String>| step@)
}

/// The steps of one action.
pub open spec fn script(action: ClientAction<Seq<char>>) -> Seq<Step<Seq<char>>> {
    match action {
        ClientAction::StartComposition => seq![
            Step::UpdateContext,
            Step::Recheck,
            Step::StartTip,
            Step::Recheck,
            Step::UpdatePosition,
            Step::Recheck,
        ],
        ClientAction::EndComposition => seq![
            Step::MustEat,
            Step::EndTip,
            Step::AdoptGeneration,
            Step::Forget,
            Step::HideWindow,
            Step::ClearText,
        ],
        ClientAction::DiscardComposition => seq![
            Step::MustEat,
            Step::ShowNothing,
            Step::Recheck,
            Step::EndTip,
            Step::AdoptGeneration,
            Step::Forget,
            Step::HideWindow,
            Step::ClearText,
        ],
        ClientAction::AppendText(text) => seq![
            Step::Append(text),
            Step::ShowFirst,
            Step::Recheck,
            Step::TakeFirst,
            Step::Publish,
        ],
        ClientAction::RemoveText => seq![
            Step::Remove,
            Step::ShowFirstOrNothing,
            Step::Recheck,
            Step::TakeFirstOrNothing,
            Step::Publish,
        ],
        ClientAction::MoveCursor(_) => seq![],
        ClientAction::SetIMEMode(mode) => seq![
            Step::MustEat,
            Step::EndTipBeforeMode(mode),
            Step::SetMode(mode),
            Step::ShowMode,
            Step::ClearTextAfterMode,
        ],
        ClientAction::SetSelection(selection) => seq![
            Step::Select(selection),
            Step::SendSelection,
            Step::ShowSelected,
            Step::Recheck,
            Step::TakeSelected,
        ],
        ClientAction::CommitPrefixAndAppend(text) => seq![
            Step::UpdateContextBehindPreview,
            Step::Recheck,
            Step::CommitPreview(text),
            Step::ShiftStart,
            Step::Recheck,
            Step::TakeFirst,
            Step::Publish,
            Step::UpdatePosition,
            Step::Recheck,
            Step::BackToComposing,
        ],
        ClientAction::SetTextWithType(set_type) => seq![
            Step::ShowTyped(set_type),
            Step::Recheck,
            Step::TakeTyped(set_type),
        ],
    }
}

/// The steps of a list of actions, in order.
pub open spec fn scripts(actions: Seq<ClientAction<Seq<char>>>) -> Seq<Step<Seq<char>>>
    decreases actions.len(),
{
    if actions.len() == 0 {
        Seq::empty()
    } else {
        scripts(actions.drop_last()) + script(actions.last())
    }
}

/// What a run works on: a snapshot of the composition whose state is the one to
/// be stored, the mode, whether there is a connection, what has been done, and
/// whether the last mode command changed the mode.
#[derive(Debug)]
pub struct Locals {
    pub snapshot: Composition,
    pub mode: InputMode,
    pub ipc: bool,
    pub progress: ActionProgress,
    pub mode_changed: bool,
}

/// The contents of `Locals`.
#[verifier::ext_equal]
pub struct LocalsView {
    pub snapshot: CompositionView,
    pub mode: InputMode,
    pub ipc: bool,
    pub progress: ActionProgress,
    pub mode_changed: bool,
}

impl View for Locals {
    type V = LocalsView;

    open spec fn view(&self) -> LocalsView {
        LocalsView {
            snapshot: self.snapshot@,
            mode: self.mode,
            ipc: self.ipc,
            progress: self.progress,
            mode_changed: self.mode_changed,
        }
    }
}

/// What a step comes to before any reply.
#[verifier::ext_equal]
pub enum Performed {
    /// The step asks for outside work.
    Await(EffectView),
    /// The step is done.
    Pass(LocalsView),
    Fail(ActionError),
    /// The composition has changed underneath.
    Stale,
    /// The snapshot is to be stored.
    Store,
}

/// The text that is sent for typed characters: in kana mode full-width, with
/// Latin letters left as they are.
pub open spec fn sent_text(text: Seq<char>, mode: InputMode) -> Seq<char> {
    match mode {
        InputMode::Kana => full_width_text(text, false),
        InputMode::Latin => text,
    }
}

/// The last index into `len` candidates.
pub open spec fn last_index(len: nat) -> i32 {
    if len == 0 {
        0
    } else {
        ((len - 1) as usize) as i32
    }
}

/// The selected index after the selection has moved.
pub open spec fn moved_selection(index: i32, selection: SetSelectionType, len: nat) -> i32 {
    let last = last_index(len);
    match selection {
        SetSelectionType::Up => if index <= 0 {
            0
        } else {
            (index - 1) as i32
        },
        SetSelectionType::Down => if index >= last {
            last
        } else {
            (index + 1) as i32
        },
        SetSelectionType::Number(number) => if number < 0 {
            0
        } else if number > last {
            last
        } else {
            number
        },
    }
}

/// The place in the candidate lists that an index stands for.
pub open spec fn candidate_place(index: i32) -> int {
    if index < 0 {
        0
    } else {
        index as int
    }
}

/// The element at the front of a list, or `fallback` where it is empty.
pub open spec fn first_or<A>(list: Seq<A>, fallback: A) -> A {
    if list.len() > 0 {
        list[0]
    } else {
        fallback
    }
}

impl LocalsView {
    /// These locals with another snapshot.
    pub open spec fn with(self, snapshot: CompositionView) -> LocalsView {
        LocalsView { snapshot, ..self }
    }

    /// These locals after something became visible or was committed.
    pub open spec fn made_visible(self) -> LocalsView {
        LocalsView {
            progress: ActionProgress { visible_or_committed_effect: true, ..self.progress },
            ..self
        }
    }

    /// These locals with new candidates, of which the first is selected.
    pub open spec fn offering(self, candidates: CandidatesView) -> LocalsView {
        self.with(CompositionView { candidates, selection_index: 0, ..self.snapshot })
    }

    /// These locals with a candidate as their preview.
    pub open spec fn taking(self, text: Seq<char>, sub_text: Seq<char>, count: i32) -> LocalsView {
        let candidates = self.snapshot.candidates;
        self.with(
            CompositionView {
                preview: text,
                suffix: sub_text,
                corresponding_count: count,
                raw_input: candidates.raw_input,
                raw_hiragana: candidates.hiragana,
                ..self.snapshot
            },
        )
    }

    /// Asks for outside work of the server, which takes a connection.
    pub open spec fn with_server(self, effect: EffectView) -> Performed {
        if self.ipc {
            Performed::Await(effect)
        } else {
            Performed::Fail(ActionError::IpcMissing)
        }
    }

    /// Asks for outside work of the server, where there is a connection.
    pub open spec fn if_connected(self, effect: EffectView) -> Performed {
        if self.ipc {
            Performed::Await(effect)
        } else {
            Performed::Pass(self)
        }
    }

    /// Whether the snapshot describes `composition`.
    pub open spec fn is_current(self, composition: CompositionView) -> bool {
        self.snapshot.generation == composition.generation
    }

    /// What a step comes to before any reply.
    pub open spec fn perform(
        self,
        step: Step<Seq<char>>,
        composition: CompositionView,
    ) -> Performed {
        let snapshot = self.snapshot;
        let candidates = snapshot.candidates;
        let empty = Seq::<char>::empty();
        match step {
            Step::UpdateContext => Performed::Await(
                EffectView::UpdateContext { composition_utf16_count: 0, committed_text: empty },
            ),
            Step::UpdateContextBehindPreview => Performed::Await(
                EffectView::UpdateContext {
                    composition_utf16_count: displayed_units(snapshot.preview, snapshot.suffix),
                    committed_text: snapshot.preview,
                },
            ),
            Step::Recheck => if self.is_current(composition) {
                Performed::Pass(self)
            } else {
                Performed::Stale
            },
            Step::StartTip => Performed::Await(EffectView::StartComposition),
            Step::UpdatePosition => Performed::Await(EffectView::UpdatePosition),
            Step::MustEat => Performed::Pass(
                LocalsView {
                    progress: ActionProgress { must_eat_on_failure: true, ..self.progress },
                    ..self
                },
            ),
            Step::EndTip => Performed::Await(EffectView::EndComposition),
            Step::AdoptGeneration => Performed::Pass(
                self.with(CompositionView { generation: composition.generation, ..snapshot }),
            ),
            Step::Forget => Performed::Pass(self.with(snapshot.forgotten())),
            Step::HideWindow | Step::HideWindowQuietly => {
                self.if_connected(EffectView::HideWindow)
            },
            Step::ClearText | Step::ClearTextQuietly => self.if_connected(EffectView::ClearText),
            Step::ShowNothing => Performed::Await(
                EffectView::SetText { text: empty, subtext: empty },
            ),
            Step::Append(text) => self.with_server(
                EffectView::AppendText(sent_text(text, self.mode)),
            ),
            Step::Remove => self.with_server(EffectView::RemoveText),
            Step::ShowFirst => if candidates.texts.len() == 0 {
                Performed::Fail(ActionError::CandidateTextEmpty)
            } else if candidates.sub_texts.len() == 0 {
                Performed::Fail(ActionError::CandidateSubtextEmpty)
            } else if candidates.corresponding_count.len() == 0 {
                Performed::Fail(ActionError::CandidateCountEmpty)
            } else {
                Performed::Await(
                    EffectView::SetText {
                        text: candidates.texts[0],
                        subtext: candidates.sub_texts[0],
                    },
                )
            },
            Step::ShowFirstOrNothing => Performed::Await(
                EffectView::SetText {
                    text: first_or(candidates.texts, empty),
                    subtext: first_or(candidates.sub_texts, empty),
                },
            ),
            Step::TakeFirst => if candidates.corresponding_count.len() == 0 {
                Performed::Fail(ActionError::CandidateCountEmpty)
            } else {
                Performed::Pass(
                    self.taking(
                        first_or(candidates.texts, empty),
                        first_or(candidates.sub_texts, empty),
                        candidates.corresponding_count[0],
                    ),
                )
            },
            Step::TakeFirstOrNothing => Performed::Pass(
                self.taking(
                    first_or(candidates.texts, empty),
                    first_or(candidates.sub_texts, empty),
                    first_or(candidates.corresponding_count, 0),
                ),
            ),
            Step::Publish => self.with_server(
                EffectView::SetCandidateState { candidates, selection: snapshot.selection_index },
            ),
            Step::EndTipBeforeMode(mode) => if self.mode != mode
                && composition.tip_composition is Some {
                Performed::Await(EffectView::EndComposition)
            } else {
                Performed::Pass(self)
            },
            Step::SetMode(mode) => Performed::Await(EffectView::SetInputModeCompartments(mode)),
            Step::ShowMode => self.if_connected(EffectView::SetInputMode(self.mode)),
            Step::ClearTextAfterMode => if self.mode_changed {
                self.if_connected(EffectView::ClearText)
            } else {
                Performed::Pass(self)
            },
            Step::Select(selection) => {
                let index = moved_selection(
                    snapshot.selection_index,
                    selection,
                    candidates.texts.len(),
                );
                let place = candidate_place(index);
                if place >= candidates.texts.len() {
                    Performed::Fail(ActionError::SelectionOutOfRange)
                } else if place >= candidates.sub_texts.len() {
                    Performed::Fail(ActionError::SubtextSelectionOutOfRange)
                } else if place >= candidates.corresponding_count.len() {
                    Performed::Fail(ActionError::CountSelectionOutOfRange)
                } else {
                    Performed::Pass(
                        self.with(
                            CompositionView {
                                selection_index: index,
                                corresponding_count: candidates.corresponding_count[place],
                                ..snapshot
                            },
                        ),
                    )
                }
            },
            Step::SendSelection => self.with_server(
                EffectView::SetSelection(snapshot.selection_index),
            ),
            Step::ShowSelected => {
                let place = candidate_place(snapshot.selection_index);
                if place >= candidates.texts.len() {
                    Performed::Fail(ActionError::SelectionOutOfRange)
                } else if place >= candidates.sub_texts.len() {
                    Performed::Fail(ActionError::SubtextSelectionOutOfRange)
                } else {
                    Performed::Await(
                        EffectView::SetText {
                            text: candidates.texts[place],
                            subtext: candidates.sub_texts[place],
                        },
                    )
                }
            },
            Step::TakeSelected => {
                let place = candidate_place(snapshot.selection_index);
                if place >= candidates.texts.len() {
                    Performed::Fail(ActionError::SelectionOutOfRange)
                } else if place >= candidates.sub_texts.len() {
                    Performed::Fail(ActionError::SubtextSelectionOutOfRange)
                } else {
                    Performed::Pass(
                        self.with(
                            CompositionView {
                                preview: candidates.texts[place],
                                suffix: candidates.sub_texts[place],
                                raw_hiragana: candidates.hiragana,
                                ..snapshot
                            },
                        ),
                    )
                }
            },
            Step::CommitPreview(text) => self.with_server(
                EffectView::CommitPrefixAndAppend {
                    offset: snapshot.corresponding_count,
                    text: sent_text(text, self.mode),
                },
            ),
            Step::ShiftStart => if candidates.texts.len() == 0 {
                Performed::Fail(ActionError::CandidateTextEmpty)
            } else if candidates.sub_texts.len() == 0 {
                Performed::Fail(ActionError::CandidateSubtextEmpty)
            } else {
                Performed::Await(
                    EffectView::ShiftStart {
                        text: snapshot.preview,
                        subtext: candidates.texts[0] + candidates.sub_texts[0],
                    },
                )
            },
            Step::BackToComposing => Performed::Pass(
                self.with(CompositionView { state: CompositionState::Composing, ..snapshot }),
            ),
            Step::ShowTyped(set_type) => Performed::Await(
                EffectView::SetText {
                    text: typed_text(set_type, snapshot.raw_input, snapshot.raw_hiragana),
                    subtext: empty,
                },
            ),
            Step::TakeTyped(set_type) => Performed::Pass(
                self.with(
                    CompositionView {
                        preview: typed_text(set_type, snapshot.raw_input, snapshot.raw_hiragana),
                        suffix: empty,
                        corresponding_count: surface_count(snapshot.raw_hiragana),
                        ..snapshot
                    },
                ),
            ),
            Step::WriteBack => Performed::Store,
        }
    }

    /// The locals after the reply to a step, or why the run failed.
    pub open spec fn accept(
        self,
        step: Step<Seq<char>>,
        reply: ReplyView,
        composition: CompositionView,
    ) -> Result<LocalsView, ActionError> {
        match step {
            Step::HideWindowQuietly | Step::ClearTextQuietly | Step::ShowMode
            | Step::ClearTextAfterMode | Step::UpdateContext | Step::UpdateContextBehindPreview
            | Step::UpdatePosition => Ok(self),
            Step::Append(_) | Step::Remove | Step::CommitPreview(_) => match reply {
                ReplyView::Candidates(candidates) => Ok(self.offering(candidates)),
                _ => Err(ActionError::Outside),
            },
            Step::SetMode(requested) => match reply {
                ReplyView::Mode(actual) => {
                    let changed = self.mode != requested || self.mode != actual;
                    Ok(
                        LocalsView {
                            mode: actual,
                            mode_changed: changed,
                            snapshot: if changed {
                                self.snapshot.forgotten()
                            } else {
                                self.snapshot
                            },
                            ..self
                        },
                    )
                },
                _ => Err(ActionError::Outside),
            },
            _ => match reply {
                ReplyView::Done => match step {
                    Step::StartTip => Ok(
                        LocalsView {
                            progress: ActionProgress { started_composition: true, ..self.progress },
                            ..self
                        },
                    ),
                    Step::EndTip | Step::ShowNothing | Step::ShowFirst | Step::ShowFirstOrNothing
                    | Step::ShowSelected | Step::ShiftStart | Step::ShowTyped(_) => {
                        Ok(self.made_visible())
                    },
                    Step::EndTipBeforeMode(_) => Ok(
                        self.made_visible().with(
                            CompositionView {
                                generation: composition.generation,
                                ..self.snapshot
                            },
                        ),
                    ),
                    _ => Ok(self),
                },
                _ => Err(ActionError::Outside),
            },
        }
    }
}

/// What a run does next.
#[derive(Debug)]
pub enum RunNext {
    Perform(Effect),
    Finished(Result<(), ActionError>),
}

/// The contents of a `RunNext`.
#[verifier::ext_equal]
pub enum RunNextView {
    Perform(EffectView),
    Finished(Result<(), ActionError>),
}

impl View for RunNext {
    type V = RunNextView;

    open spec fn view(&self) -> RunNextView {
        match self {
            RunNext::Perform(effect) => RunNextView::Perform(effect@),
            RunNext::Finished(result) => RunNextView::Finished(*result),
        }
    }
}

/// Where a run stands: its locals and the steps that are left, the step whose
/// reply it waits for first.
#[verifier::ext_equal]
pub struct RunView {
    pub locals: LocalsView,
    pub steps: Seq<Step<Seq<char>>>,
}

/// Where a run has come to.
#[verifier::ext_equal]
pub struct Advanced {
    pub run: RunView,
    pub composition: CompositionView,
    pub next: RunNextView,
}

/// A run that gives up because the composition has changed underneath: what the
/// server and the window show of it is cleared, and nothing is stored.
pub open spec fn abandoned(locals: LocalsView, composition: CompositionView) -> Advanced {
    if locals.ipc {
        Advanced {
            run: RunView { locals, steps: seq![Step::HideWindowQuietly, Step::ClearTextQuietly] },
            composition,
            next: RunNextView::Perform(EffectView::HideWindow),
        }
    } else {
        Advanced {
            run: RunView { locals, steps: Seq::empty() },
            composition,
            next: RunNextView::Finished(Ok(())),
        }
    }
}

/// A run that has failed.
pub open spec fn failed(
    locals: LocalsView,
    composition: CompositionView,
    error: ActionError,
) -> Advanced {
    Advanced {
        run: RunView { locals, steps: Seq::empty() },
        composition,
        next: RunNextView::Finished(Err(error)),
    }
}

/// Takes the steps that need no reply, up to the next outside work or the end.
pub open spec fn advanced(
    locals: LocalsView,
    steps: Seq<Step<Seq<char>>>,
    composition: CompositionView,
) -> Advanced
    decreases steps.len(),
{
    if steps.len() == 0 {
        Advanced {
            run: RunView { locals, steps },
            composition,
            next: RunNextView::Finished(Ok(())),
        }
    } else {
        match locals.perform(steps[0], composition) {
            Performed::Await(effect) => Advanced {
                run: RunView { locals, steps },
                composition,
                next: RunNextView::Perform(effect),
            },
            Performed::Pass(next) => advanced(next, steps.drop_first(), composition),
            Performed::Fail(error) => failed(locals, composition, error),
            Performed::Stale => abandoned(locals, composition),
            Performed::Store => if locals.is_current(composition) {
                advanced(
                    locals,
                    steps.drop_first(),
                    composition.updated_from(locals.snapshot),
                )
            } else {
                abandoned(locals, composition)
            },
        }
    }
}

/// Takes a reply, and then the steps that need none.
pub open spec fn resumed(
    run: RunView,
    reply: ReplyView,
    composition: CompositionView,
) -> Advanced {
    if run.steps.len() == 0 {
        advanced(run.locals, run.steps, composition)
    } else {
        match run.locals.accept(run.steps[0], reply, composition) {
            Ok(locals) => advanced(locals, run.steps.drop_first(), composition),
            Err(error) => failed(run.locals, composition, error),
        }
    }
}

/// A run at its start.
pub open spec fn started_run(
    composition: CompositionView,
    mode: InputMode,
    ipc: bool,
    actions: Seq<ClientAction<Seq<char>>>,
    transition: CompositionState,
) -> RunView {
    RunView {
        locals: LocalsView {
            snapshot: CompositionView { state: transition, ..composition },
            mode,
            ipc,
            progress: ActionProgress {
                started_composition: false,
                visible_or_committed_effect: false,
                must_eat_on_failure: false,
            },
            mode_changed: false,
        },
        steps: scripts(actions).push(Step::WriteBack),
    }
}

/// What a step comes to, as `Performed` has it.
enum Outcome {
    Await(Effect),
    Pass,
    Fail(ActionError),
    Stale,
    Store,
}

impl Outcome {
    spec fn describes(self, performed: Performed, before: LocalsView, after: LocalsView) -> bool {
        match self {
            Outcome::Await(effect) => performed == Performed::Await(effect@) && after == before,
            Outcome::Pass => performed == Performed::Pass(after),
            Outcome::Fail(error) => performed == Performed::Fail(error) && after == before,
            Outcome::Stale => performed is Stale && after == before,
            Outcome::Store => performed is Store && after == before,
        }
    }
}

fn first_text(texts: &Vec<String>) -> (text: String)
    ensures
        text@ == first_or(texts@.map_values(|text: String| text@), Seq::empty()),
{
    if texts.len() > 0 {
        texts[0].clone()
    } else {
        let text = String::new();
        assert(text@ =~= Seq::empty());
        text
    }
}

fn last_candidate_index(len: usize) -> (index: i32)
    ensures
        index == last_index(len as nat),
{
    if len == 0 {
        0
    } else {
        (len - 1) as i32
    }
}

fn move_selection(index: i32, selection: SetSelectionType, len: usize) -> (moved: i32)
    ensures
        moved == moved_selection(index, selection, len as nat),
{
    let last: i32 = last_candidate_index(len);
    match selection {
        SetSelectionType::Up => if index <= 0 {
            0
        } else {
            index - 1
        },
        SetSelectionType::Down => if index >= last {
            last
        } else {
            index + 1
        },
        SetSelectionType::Number(number) => if number < 0 {
            0
        } else if number > last {
            last
        } else {
            number
        },
    }
}

fn place_of(index: i32) -> (place: usize)
    ensures
        place as int == candidate_place(index),
{
    if index < 0 {
        0
    } else {
        index as usize
    }
}

fn text_to_send(text: &String, mode: InputMode) -> (sent: String)
    ensures
        sent@ == sent_text(text@, mode),
{
    match mode {
        InputMode::Kana => to_fullwidth(text.as_str(), false),
        InputMode::Latin => text.clone(),
    }
}

impl Locals {
    fn with_server(&self, effect: Effect) -> (outcome: Outcome)
        ensures
            outcome.describes(self@.with_server(effect@), self@, self@),
    {
        if self.ipc {
            Outcome::Await(effect)
        } else {
            Outcome::Fail(ActionError::IpcMissing)
        }
    }

    fn if_connected(&self, effect: Effect) -> (outcome: Outcome)
        ensures
            outcome.describes(self@.if_connected(effect@), self@, self@),
    {
        if self.ipc {
            Outcome::Await(effect)
        } else {
            Outcome::Pass
        }
    }

    fn show_first(&self) -> (outcome: Outcome)
        ensures
            forall|composition: CompositionView| #[trigger]
                outcome.describes(self@.perform(Step::ShowFirst, composition), self@, self@),
    {
        let candidates = &self.snapshot.candidates;
        if candidates.texts.len() == 0 {
            Outcome::Fail(ActionError::CandidateTextEmpty)
        } else if candidates.sub_texts.len() == 0 {
            Outcome::Fail(ActionError::CandidateSubtextEmpty)
        } else if candidates.corresponding_count.len() == 0 {
            Outcome::Fail(ActionError::CandidateCountEmpty)
        } else {
            Outcome::Await(
                Effect::SetText {
                    text: candidates.texts[0].clone(),
                    subtext: candidates.sub_texts[0].clone(),
                },
            )
        }
    }

    fn take_first(&mut self, count: i32)
        ensures
            final(self)@ == old(self)@.taking(
                first_or(old(self)@.snapshot.candidates.texts, Seq::empty()),
                first_or(old(self)@.snapshot.candidates.sub_texts, Seq::empty()),
                count,
            ),
    {
        let candidates = share(&self.snapshot.candidates);
        self.snapshot.preview = Arc::new(first_text(&candidates.texts));
        self.snapshot.suffix = Arc::new(first_text(&candidates.sub_texts));
        self.snapshot.raw_input = share(&candidates.raw_input);
        self.snapshot.raw_hiragana = share(&candidates.hiragana);
        self.snapshot.corresponding_count = count;
    }

    fn select(&mut self, selection: SetSelectionType) -> (outcome: Outcome)
        ensures
            forall|composition: CompositionView| #[trigger]
                outcome.describes(
                    old(self)@.perform(Step::Select(selection), composition),
                    old(self)@,
                    final(self)@,
                ),
    {
        let candidates = share(&self.snapshot.candidates);
        let index: i32 = move_selection(
            self.snapshot.selection_index,
            selection,
            candidates.texts.len(),
        );
        let place: usize = place_of(index);
        if place >= candidates.texts.len() {
            Outcome::Fail(ActionError::SelectionOutOfRange)
        } else if place >= candidates.sub_texts.len() {
            Outcome::Fail(ActionError::SubtextSelectionOutOfRange)
        } else if place >= candidates.corresponding_count.len() {
            Outcome::Fail(ActionError::CountSelectionOutOfRange)
        } else {
            self.snapshot.selection_index = index;
            self.snapshot.corresponding_count = candidates.corresponding_count[place];
            Outcome::Pass
        }
    }

    fn show_selected(&self) -> (outcome: Outcome)
        ensures
            forall|composition: CompositionView| #[trigger]
                outcome.describes(self@.perform(Step::ShowSelected, composition), self@, self@),
    {
        let candidates = &self.snapshot.candidates;
        let place: usize = place_of(self.snapshot.selection_index);
        if place >= candidates.texts.len() {
            Outcome::Fail(ActionError::SelectionOutOfRange)
        } else if place >= candidates.sub_texts.len() {
            Outcome::Fail(ActionError::SubtextSelectionOutOfRange)
        } else {
            Outcome::Await(
                Effect::SetText {
                    text: candidates.texts[place].clone(),
                    subtext: candidates.sub_texts[place].clone(),
                },
            )
        }
    }

    fn take_selected(&mut self) -> (outcome: Outcome)
        ensures
            forall|composition: CompositionView| #[trigger]
                outcome.describes(
                    old(self)@.perform(Step::TakeSelected, composition),
                    old(self)@,
                    final(self)@,
                ),
    {
        let candidates = share(&self.snapshot.candidates);
        let place: usize = place_of(self.snapshot.selection_index);
        if place >= candidates.texts.len() {
            Outcome::Fail(ActionError::SelectionOutOfRange)
        } else if place >= candidates.sub_texts.len() {
            Outcome::Fail(ActionError::SubtextSelectionOutOfRange)
        } else {
            self.snapshot.preview = Arc::new(candidates.texts[place].clone());
            self.snapshot.suffix = Arc::new(candidates.sub_texts[place].clone());
            self.snapshot.raw_hiragana = share(&candidates.hiragana);
            Outcome::Pass
        }
    }

    fn shift_start(&self) -> (outcome: Outcome)
        ensures
            forall|composition: CompositionView| #[trigger]
                outcome.describes(self@.perform(Step::ShiftStart, composition), self@, self@),
    {
        let candidates = &self.snapshot.candidates;
        if candidates.texts.len() == 0 {
            Outcome::Fail(ActionError::CandidateTextEmpty)
        } else if candidates.sub_texts.len() == 0 {
            Outcome::Fail(ActionError::CandidateSubtextEmpty)
        } else {
            Outcome::Await(
                Effect::ShiftStart {
                    text: share(&self.snapshot.preview),
                    subtext: candidate_display_text(
                        candidates.texts[0].as_str(),
                        candidates.sub_texts[0].as_str(),
                    ),
                },
            )
        }
    }

    fn perform(&mut self, step: &Step, composition: &Composition) -> (outcome: Outcome)
        ensures
            outcome.describes(
                old(self)@.perform(step@, composition@),
                old(self)@,
                final(self)@,
            ),
    {
        match step {
            Step::UpdateContext => Outcome::Await(
                Effect::UpdateContext {
                    composition_utf16_count: 0,
                    committed_text: Arc::new(String::new()),
                },
            ),
            Step::UpdateContextBehindPreview => Outcome::Await(
                Effect::UpdateContext {
                    composition_utf16_count: displayed_utf16_count(
                        self.snapshot.preview.as_str(),
                        self.snapshot.suffix.as_str(),
                    ),
                    committed_text: share(&self.snapshot.preview),
                },
            ),
            Step::Recheck => {
                if snapshot_is_current(self.snapshot.generation, composition.generation) {
                    Outcome::Pass
                } else {
                    Outcome::Stale
                }
            },
            Step::StartTip => Outcome::Await(Effect::StartComposition),
            Step::UpdatePosition => Outcome::Await(Effect::UpdatePosition),
            Step::MustEat => {
                self.progress.must_eat_on_failure = true;
                Outcome::Pass
            },
            Step::EndTip => Outcome::Await(Effect::EndComposition),
            Step::AdoptGeneration => {
                self.snapshot.generation = composition.generation;
                Outcome::Pass
            },
            Step::Forget => {
                self.snapshot.forget();
                Outcome::Pass
            },
            Step::HideWindow | Step::HideWindowQuietly => self.if_connected(Effect::HideWindow),
            Step::ClearText | Step::ClearTextQuietly => self.if_connected(Effect::ClearText),
            Step::ShowNothing => Outcome::Await(
                Effect::SetText { text: String::new(), subtext: String::new() },
            ),
            Step::Append(text) => self.with_server(
                Effect::AppendText(text_to_send(text, self.mode)),
            ),
            Step::Remove => self.with_server(Effect::RemoveText),
            Step::ShowFirst => self.show_first(),
            Step::ShowFirstOrNothing => Outcome::Await(
                Effect::SetText {
                    text: first_text(&self.snapshot.candidates.texts),
                    subtext: first_text(&self.snapshot.candidates.sub_texts),
                },
            ),
            Step::TakeFirst => {
                if self.snapshot.candidates.corresponding_count.len() == 0 {
                    Outcome::Fail(ActionError::CandidateCountEmpty)
                } else {
                    let count: i32 = self.snapshot.candidates.corresponding_count[0];
                    self.take_first(count);
                    Outcome::Pass
                }
            },
            Step::TakeFirstOrNothing => {
                let count: i32 = if self.snapshot.candidates.corresponding_count.len() == 0 {
                    0
                } else {
                    self.snapshot.candidates.corresponding_count[0]
                };
                self.take_first(count);
                Outcome::Pass
            },
            Step::Publish => self.with_server(
                Effect::SetCandidateState {
                    candidates: share(&self.snapshot.candidates),
                    selection: self.snapshot.selection_index,
                },
            ),
            Step::EndTipBeforeMode(mode) => {
                if self.mode != *mode && composition.tip_composition.is_some() {
                    Outcome::Await(Effect::EndComposition)
                } else {
                    Outcome::Pass
                }
            },
            Step::SetMode(mode) => Outcome::Await(Effect::SetInputModeCompartments(*mode)),
            Step::ShowMode => self.if_connected(Effect::SetInputMode(self.mode)),
            Step::ClearTextAfterMode => if self.mode_changed {
                self.if_connected(Effect::ClearText)
            } else {
                Outcome::Pass
            },
            Step::Select(selection) => self.select(*selection),
            Step::SendSelection => self.with_server(
                Effect::SetSelection(self.snapshot.selection_index),
            ),
            Step::ShowSelected => self.show_selected(),
            Step::TakeSelected => self.take_selected(),
            Step::CommitPreview(text) => self.with_server(
                Effect::CommitPrefixAndAppend {
                    offset: self.snapshot.corresponding_count,
                    text: text_to_send(text, self.mode),
                },
            ),
            Step::ShiftStart => self.shift_start(),
            Step::BackToComposing => {
                self.snapshot.state = CompositionState::Composing;
                Outcome::Pass
            },
            Step::ShowTyped(set_type) => Outcome::Await(
                Effect::SetText {
                    text: text_with_type(
                        set_type,
                        self.snapshot.raw_input.as_str(),
                        self.snapshot.raw_hiragana.as_str(),
                    ),
                    subtext: String::new(),
                },
            ),
            Step::TakeTyped(set_type) => {
                let text = text_with_type(
                    set_type,
                    self.snapshot.raw_input.as_str(),
                    self.snapshot.raw_hiragana.as_str(),
                );
                self.snapshot.corresponding_count = count_surface(
                    self.snapshot.raw_hiragana.as_str(),
                );
                self.snapshot.preview = Arc::new(text);
                self.snapshot.suffix = Arc::new(String::new());
                Outcome::Pass
            },
            Step::WriteBack => Outcome::Store,
        }
    }

    fn accept(&mut self, step: &Step, reply: Reply, composition: &Composition) -> (accepted: Result<
        (),
        ActionError,
    >)
        ensures
            match accepted {
                Ok(_) => old(self)@.accept(step@, reply@, composition@) == Ok::<
                    LocalsView,
                    ActionError,
                >(final(self)@),
                Err(error) => old(self)@.accept(step@, reply@, composition@) == Err::<
                    LocalsView,
                    ActionError,
                >(error) && final(self)@ == old(self)@,
            },
    {
        match step {
            Step::HideWindowQuietly
            | Step::ClearTextQuietly
            | Step::ShowMode
            | Step::ClearTextAfterMode
            | Step::UpdateContext
            | Step::UpdateContextBehindPreview
            | Step::UpdatePosition => Ok(()),
            Step::Append(_) | Step::Remove | Step::CommitPreview(_) => match reply {
                Reply::Candidates(candidates) => {
                    self.snapshot.candidates = Arc::new(candidates);
                    self.snapshot.selection_index = 0;
                    Ok(())
                },
                _ => Err(ActionError::Outside),
            },
            Step::SetMode(requested) => match reply {
                Reply::Mode(actual) => {
                    let changed = self.mode != *requested || self.mode != actual;
                    self.mode = actual;
                    self.mode_changed = changed;
                    if changed {
                        self.snapshot.forget();
                    }
                    Ok(())
                },
                _ => Err(ActionError::Outside),
            },
            _ => match reply {
                Reply::Done => {
                    match step {
                        Step::StartTip => {
                            self.progress.started_composition = true;
                        },
                        Step::EndTip
                        | Step::ShowNothing
                        | Step::ShowFirst
                        | Step::ShowFirstOrNothing
                        | Step::ShowSelected
                        | Step::ShiftStart
                        | Step::ShowTyped(_) => {
                            self.progress.visible_or_committed_effect = true;
                        },
                        Step::EndTipBeforeMode(_) => {
                            self.progress.visible_or_committed_effect = true;
                            self.snapshot.generation = composition.generation;
                        },
                        _ => {},
                    }
                    Ok(())
                },
                _ => Err(ActionError::Outside),
            },
        }
    }
}

fn script_of(action: &ClientAction) -> (steps: Vec<Step>)
    ensures
        steps_view(steps@) == script(action@),
{
    let steps: Vec<Step> = match action {
        ClientAction::StartComposition => vec![
            Step::UpdateContext,
            Step::Recheck,
            Step::StartTip,
            Step::Recheck,
            Step::UpdatePosition,
            Step::Recheck,
        ],
        ClientAction::EndComposition => vec![
            Step::MustEat,
            Step::EndTip,
            Step::AdoptGeneration,
            Step::Forget,
            Step::HideWindow,
            Step::ClearText,
        ],
        ClientAction::DiscardComposition => vec![
            Step::MustEat,
            Step::ShowNothing,
            Step::Recheck,
            Step::EndTip,
            Step::AdoptGeneration,
            Step::Forget,
            Step::HideWindow,
            Step::ClearText,
        ],
        ClientAction::AppendText(text) => vec![
            Step::Append(text.clone()),
            Step::ShowFirst,
            Step::Recheck,
            Step::TakeFirst,
            Step::Publish,
        ],
        ClientAction::RemoveText => vec![
            Step::Remove,
            Step::ShowFirstOrNothing,
            Step::Recheck,
            Step::TakeFirstOrNothing,
            Step::Publish,
        ],
        ClientAction::MoveCursor(_) => Vec::new(),
        ClientAction::SetIMEMode(mode) => vec![
            Step::MustEat,
            Step::EndTipBeforeMode(*mode),
            Step::SetMode(*mode),
            Step::ShowMode,
            Step::ClearTextAfterMode,
        ],
        ClientAction::SetSelection(selection) => vec![
            Step::Select(*selection),
            Step::SendSelection,
            Step::ShowSelected,
            Step::Recheck,
            Step::TakeSelected,
        ],
        ClientAction::CommitPrefixAndAppend(text) => vec![
            Step::UpdateContextBehindPreview,
            Step::Recheck,
            Step::CommitPreview(text.clone()),
            Step::ShiftStart,
            Step::Recheck,
            Step::TakeFirst,
            Step::Publish,
            Step::UpdatePosition,
            Step::Recheck,
            Step::BackToComposing,
        ],
        ClientAction::SetTextWithType(set_type) => vec![
            Step::ShowTyped(*set_type),
            Step::Recheck,
            Step::TakeTyped(*set_type),
        ],
    };
    assert(steps_view(steps@) =~= script(action@));
    steps
}

fn scripts_of(actions: &[ClientAction]) -> (steps: Vec<Step>)
    ensures
        steps_view(steps@) == scripts(actions_view(actions@)),
{
    let mut steps: Vec<Step> = Vec::new();
    assert(actions_view(actions@.take(0)) =~= Seq::empty());
    assert(steps_view(steps@) =~= Seq::empty());
    for i in 0..actions.len()
        invariant
            steps_view(steps@) == scripts(actions_view(actions@.take(i as int))),
    {
        let mut script = script_of(&actions[i]);
        let ghost before = steps@;
        let ghost added = script@;
        steps.append(&mut script);
        proof {
            let taken = actions_view(actions@.take(i + 1));
            assert(taken.drop_last() =~= actions_view(actions@.take(i as int)));
            assert(steps_view(before + added) =~= steps_view(before) + steps_view(added));
        }
    }
    assert(actions@.take(actions@.len() as int) =~= actions@);
    steps
}

/// A run of actions.
#[derive(Debug)]
pub struct ActionRun {
    locals: Locals,
    steps: Vec<Step>,
    position: usize,
}

impl View for ActionRun {
    type V = RunView;

    closed spec fn view(&self) -> RunView {
        RunView {
            locals: self.locals@,
            steps: steps_view(self.steps@.skip(self.position as int)),
        }
    }
}

impl ActionRun {
    /// The steps already taken are among those of the run.
    pub closed spec fn is_valid(self) -> bool {
        self.position <= self.steps.len()
    }

    /// Prepares a run of `actions` on the composition. `ipc` tells whether there
    /// is a connection to the server, and `transition` is the state after the
    /// run.
    pub fn start(
        composition: &Composition,
        mode: InputMode,
        ipc: bool,
        actions: &[ClientAction],
        transition: CompositionState,
    ) -> (run: ActionRun)
        ensures
            run.is_valid(),
            run@ == started_run(composition@, mode, ipc, actions_view(actions@), transition),
    {
        let mut snapshot = composition.snapshot();
        snapshot.state = transition;
        let mut steps = scripts_of(actions);
        let ghost before = steps@;
        steps.push(Step::WriteBack);
        assert(steps_view(steps@.skip(0)) =~= steps_view(before).push(Step::WriteBack));
        ActionRun {
            locals: Locals {
                snapshot,
                mode,
                ipc,
                progress: ActionProgress::default(),
                mode_changed: false,
            },
            steps,
            position: 0,
        }
    }

    /// What the run has done so far.
    pub fn progress(&self) -> (progress: ActionProgress)
        ensures
            progress == self@.locals.progress,
    {
        self.locals.progress
    }

    fn stop(&mut self)
        requires
            old(self).is_valid(),
        ensures
            final(self).is_valid(),
            final(self)@ == (RunView { locals: old(self)@.locals, steps: Seq::empty() }),
    {
        self.position = self.steps.len();
        assert(steps_view(self.steps@.skip(self.position as int)) =~= Seq::empty());
    }

    fn abandon(&mut self) -> (next: RunNext)
        requires
            old(self).is_valid(),
        ensures
            final(self).is_valid(),
            forall|composition: CompositionView| #[trigger]
                abandoned(old(self)@.locals, composition) == (Advanced {
                    run: final(self)@,
                    composition,
                    next: next@,
                }),
    {
        if self.locals.ipc {
            self.steps = vec![Step::HideWindowQuietly, Step::ClearTextQuietly];
            self.position = 0;
            assert(steps_view(self.steps@.skip(0)) =~= seq![
                Step::HideWindowQuietly,
                Step::ClearTextQuietly,
            ]);
            RunNext::Perform(Effect::HideWindow)
        } else {
            self.stop();
            RunNext::Finished(Ok(()))
        }
    }

    fn take_step(&mut self)
        requires
            old(self).is_valid(),
            old(self)@.steps.len() > 0,
        ensures
            final(self).is_valid(),
            final(self)@ == (RunView {
                locals: old(self)@.locals,
                steps: old(self)@.steps.drop_first(),
            }),
    {
        self.position = self.position + 1;
        assert(self@.steps =~= old(self)@.steps.drop_first());
    }

    /// Takes the steps that need no reply, up to the next outside work or the
    /// end of the run.
    pub fn advance(&mut self, composition: &mut Composition) -> (next: RunNext)
        requires
            old(self).is_valid(),
        ensures
            final(self).is_valid(),
            advanced(old(self)@.locals, old(self)@.steps, old(composition)@) == (Advanced {
                run: final(self)@,
                composition: final(composition)@,
                next: next@,
            }),
    {
        let ghost goal = advanced(self@.locals, self@.steps, composition@);
        while self.position < self.steps.len()
            invariant
                self.is_valid(),
                goal == advanced(old(self)@.locals, old(self)@.steps, old(composition)@),
                goal == advanced(self@.locals, self@.steps, composition@),
            decreases self.steps.len() - self.position,
        {
            let ghost before = self@;
            proof {
                assert(before.steps[0] == self.steps@[self.position as int]@);
            }
            let outcome = self.locals.perform(&self.steps[self.position], composition);
            match outcome {
                Outcome::Await(effect) => {
                    return RunNext::Perform(effect);
                },
                Outcome::Pass => {
                    self.take_step();
                },
                Outcome::Fail(error) => {
                    self.stop();
                    return RunNext::Finished(Err(error));
                },
                Outcome::Stale => {
                    return self.abandon();
                },
                Outcome::Store => {
                    if !composition.write_back(&self.locals.snapshot) {
                        return self.abandon();
                    }
                    self.take_step();
                },
            }
        }
        assert(self@.steps =~= Seq::empty());
        RunNext::Finished(Ok(()))
    }

    /// Takes the reply to the outside work that was asked for last, and then the
    /// steps that need none.
    pub fn resume(&mut self, composition: &mut Composition, reply: Reply) -> (next: RunNext)
        requires
            old(self).is_valid(),
        ensures
            final(self).is_valid(),
            resumed(old(self)@, reply@, old(composition)@) == (Advanced {
                run: final(self)@,
                composition: final(composition)@,
                next: next@,
            }),
    {
        if self.position < self.steps.len() {
            proof {
                assert(self@.steps[0] == self.steps@[self.position as int]@);
            }
            match self.locals.accept(&self.steps[self.position], reply, composition) {
                Ok(_) => {
                    self.take_step();
                },
                Err(error) => {
                    self.stop();
                    return RunNext::Finished(Err(error));
                },
            }
        }
        self.advance(composition)
    }
}

} // verus!
