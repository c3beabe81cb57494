//! The composition being edited, and what a key does to it.

use vstd::prelude::*;
use std::sync::Arc;

use crate::actions::{
    actions_view, ClientAction, Function, Navigation, SetSelectionType, SetTextType, UserAction,
};
use crate::candidates::{Candidates, CandidatesView};
use crate::input_mode::InputMode;
use crate::text::{
    decimal_notation, decimal_signed, encode_utf16, encode_utf16_of_concat, share, utf16_units,
};

verus! {

broadcast use vstd::string::group_string_axioms;

/// How far a composition has come.
#[derive(Clone, Copy, Debug, PartialEq, Eq, Structural)]
pub enum CompositionState {
    Inactive,
    Composing,
    Previewing,
    Selecting,
}

impl Default for CompositionState {
    fn default() -> (state: CompositionState)
        ensures
            state == CompositionState::Inactive,
    {
        CompositionState::Inactive
    }
}

/// Tells whether deleting one character would leave `text` empty.
pub fn is_last_composing_character(text: &str) -> (last: bool)
    ensures
        last == (text@.len() <= 1),
{
    text.unicode_len() <= 1
}

/// Joins the converted text and the rest behind it.
pub fn candidate_display_text(text: &str, sub_text: &str) -> (display: String)
    ensures
        display@ == text@ + sub_text@,
{
    let mut display = text.to_owned();
    display.append(sub_text);
    display
}

/// The number of UTF-16 code units that a composition takes on screen.
pub open spec fn displayed_units(preview: Seq<char>, suffix: Seq<char>) -> usize {
    let units = encode_utf16(preview).len() + encode_utf16(suffix).len();
    if units <= usize::MAX {
        units as usize
    } else {
        usize::MAX
    }
}

/// Counts the UTF-16 code units that a composition takes on screen, up to the
/// largest count.
pub fn displayed_utf16_count(preview: &str, suffix: &str) -> (count: usize)
    ensures
        count == displayed_units(preview@, suffix@),
{
    let shown: usize = utf16_units(preview).len();
    let rest: usize = utf16_units(suffix).len();
    shown.saturating_add(rest)
}

/// Tells whether a snapshot taken at one generation still describes a
/// composition at another.
pub fn snapshot_is_current(snapshot_generation: u64, current_generation: u64) -> (current: bool)
    ensures
        current == (snapshot_generation == current_generation),
{
    snapshot_generation == current_generation
}

/// The state after an input-mode command: a change of mode ends the
/// composition, asking for the mode in effect leaves it alone.
pub open spec fn state_after_mode_command(
    state: CompositionState,
    current_mode: InputMode,
    requested_mode: InputMode,
) -> CompositionState {
    if current_mode == requested_mode {
        state
    } else {
        CompositionState::Inactive
    }
}

/// Answers an input-mode command.
pub fn input_mode_transition(
    state: CompositionState,
    current_mode: InputMode,
    requested_mode: InputMode,
) -> (transition: (CompositionState, Vec<ClientAction>))
    ensures
        transition.0 == state_after_mode_command(state, current_mode, requested_mode),
        actions_view(transition.1@) == seq![ClientAction::<Seq<char>>::SetIMEMode(requested_mode)],
{
    let next_state = if current_mode == requested_mode {
        state
    } else {
        CompositionState::Inactive
    };
    let actions: Vec<ClientAction> = vec![ClientAction::SetIMEMode(requested_mode)];
    assert(actions_view(actions@)
        =~= seq![ClientAction::<Seq<char>>::SetIMEMode(requested_mode)]);
    (next_state, actions)
}

/// What the actions of one key have done so far.
#[derive(Clone, Copy, Debug, PartialEq, Eq, Structural)]
pub struct ActionProgress {
    pub started_composition: bool,
    pub visible_or_committed_effect: bool,
    pub must_eat_on_failure: bool,
}

impl Default for ActionProgress {
    fn default() -> (progress: ActionProgress)
        ensures
            progress == (ActionProgress {
                started_composition: false,
                visible_or_committed_effect: false,
                must_eat_on_failure: false,
            }),
    {
        ActionProgress {
            started_composition: false,
            visible_or_committed_effect: false,
            must_eat_on_failure: false,
        }
    }
}

/// Whether the host sees a key whose actions failed.
#[derive(Clone, Copy, Debug, PartialEq, Eq, Structural)]
pub enum FailedKeyDisposition {
    PassThrough,
    Eat,
}

/// Decides whether the host sees a key whose actions failed: only where nothing
/// became visible, the actions did not insist, and the clean-up succeeded.
pub fn failed_key_disposition(
    progress: ActionProgress,
    cleanup_succeeded: bool,
) -> (disposition: FailedKeyDisposition)
    ensures
        disposition == FailedKeyDisposition::PassThrough <==> cleanup_succeeded
            && !progress.visible_or_committed_effect && !progress.must_eat_on_failure,
{
    if !cleanup_succeeded || progress.visible_or_committed_effect || progress.must_eat_on_failure {
        FailedKeyDisposition::Eat
    } else {
        FailedKeyDisposition::PassThrough
    }
}

/// A composition. `tip_composition` is the host's handle of the range that holds
/// it. The texts are shared, so that a snapshot of a long composition is cheap.
#[derive(Debug)]
pub struct Composition {
    /// The text being shown.
    pub preview: Arc<String>,
    /// The text behind the preview.
    pub suffix: Arc<String>,
    pub raw_input: Arc<String>,
    pub raw_hiragana: Arc<String>,
    /// How many composing characters the preview stands for.
    pub corresponding_count: i32,
    pub selection_index: i32,
    pub candidates: Arc<Candidates>,
    pub state: CompositionState,
    pub tip_composition: Option<u64>,
    /// Changes whenever the composition does.
    pub generation: u64,
}

/// The contents of a `Composition`.
#[verifier::ext_equal]
pub struct CompositionView {
    pub preview: Seq<char>,
    pub suffix: Seq<char>,
    pub raw_input: Seq<char>,
    pub raw_hiragana: Seq<char>,
    pub corresponding_count: i32,
    pub selection_index: i32,
    pub candidates: CandidatesView,
    pub state: CompositionState,
    pub tip_composition: Option<u64>,
    pub generation: u64,
}

impl View for Composition {
    type V = CompositionView;

    open spec fn view(&self) -> CompositionView {
        CompositionView {
            preview: self.preview@,
            suffix: self.suffix@,
            raw_input: self.raw_input@,
            raw_hiragana: self.raw_hiragana@,
            corresponding_count: self.corresponding_count,
            selection_index: self.selection_index,
            candidates: self.candidates@,
            state: self.state,
            tip_composition: self.tip_composition,
            generation: self.generation,
        }
    }
}

/// The generation after `generation`.
pub open spec fn next_generation(generation: u64) -> u64 {
    if generation == u64::MAX {
        0
    } else {
        (generation + 1) as u64
    }
}

impl CompositionView {
    /// No composition, of the first generation.
    pub open spec fn empty() -> CompositionView {
        CompositionView {
            preview: Seq::empty(),
            suffix: Seq::empty(),
            raw_input: Seq::empty(),
            raw_hiragana: Seq::empty(),
            corresponding_count: 0,
            selection_index: 0,
            candidates: CandidatesView::empty(),
            state: CompositionState::Inactive,
            tip_composition: None,
            generation: 0,
        }
    }

    /// The composition without its texts and candidates.
    pub open spec fn forgotten(self) -> CompositionView {
        CompositionView {
            preview: Seq::empty(),
            suffix: Seq::empty(),
            raw_input: Seq::empty(),
            raw_hiragana: Seq::empty(),
            corresponding_count: 0,
            selection_index: 0,
            candidates: CandidatesView::empty(),
            ..self
        }
    }

    /// The composition after it has ended: empty, and of the next generation.
    pub open spec fn reset(self) -> CompositionView {
        CompositionView {
            state: CompositionState::Inactive,
            tip_composition: None,
            generation: next_generation(self.generation),
            ..self.forgotten()
        }
    }

    /// Whether there is a composition: the host holds a range, or it has a state.
    pub open spec fn is_active(self) -> bool {
        self.tip_composition is Some || self.state != CompositionState::Inactive
    }

    /// The composition with what `snapshot` holds, in the host's range, of the
    /// next generation.
    pub open spec fn updated_from(self, snapshot: CompositionView) -> CompositionView {
        CompositionView {
            tip_composition: self.tip_composition,
            generation: next_generation(self.generation),
            ..snapshot
        }
    }
}

impl Default for Composition {
    fn default() -> (composition: Composition)
        ensures
            composition@ == CompositionView::empty(),
    {
        Composition {
            preview: Arc::new(String::new()),
            suffix: Arc::new(String::new()),
            raw_input: Arc::new(String::new()),
            raw_hiragana: Arc::new(String::new()),
            corresponding_count: 0,
            selection_index: 0,
            candidates: Arc::new(Candidates::default()),
            state: CompositionState::Inactive,
            tip_composition: None,
            generation: 0,
        }
    }
}

impl Composition {
    /// Drops the texts and candidates.
    pub fn forget(&mut self)
        ensures
            final(self)@ == old(self)@.forgotten(),
    {
        self.preview = Arc::new(String::new());
        self.suffix = Arc::new(String::new());
        self.raw_input = Arc::new(String::new());
        self.raw_hiragana = Arc::new(String::new());
        self.corresponding_count = 0;
        self.selection_index = 0;
        self.candidates = Arc::new(Candidates::default());
        assert(self@ =~= old(self)@.forgotten());
    }

    /// Ends the composition and starts the next generation, so that snapshots
    /// taken before are recognised as stale.
    pub fn reset(&mut self)
        ensures
            final(self)@ == old(self)@.reset(),
    {
        self.forget();
        self.state = CompositionState::Inactive;
        self.tip_composition = None;
        self.generation = self.generation.wrapping_add(1);
        assert(self@ =~= old(self)@.reset());
    }

    /// Tells whether there is a composition.
    pub fn is_active(&self) -> (active: bool)
        ensures
            active == self@.is_active(),
    {
        self.tip_composition.is_some() || self.state != CompositionState::Inactive
    }

    /// Takes a copy that shares the texts.
    pub fn snapshot(&self) -> (snapshot: Composition)
        ensures
            snapshot@ == self@,
    {
        Composition {
            preview: share(&self.preview),
            suffix: share(&self.suffix),
            raw_input: share(&self.raw_input),
            raw_hiragana: share(&self.raw_hiragana),
            corresponding_count: self.corresponding_count,
            selection_index: self.selection_index,
            candidates: share(&self.candidates),
            state: self.state,
            tip_composition: self.tip_composition,
            generation: self.generation,
        }
    }

    /// Stores what `snapshot` holds, unless the composition has changed since
    /// the snapshot was taken. Tells whether it was stored.
    pub fn write_back(&mut self, snapshot: &Composition) -> (stored: bool)
        ensures
            stored == (snapshot@.generation == old(self)@.generation),
            stored ==> final(self)@ == old(self)@.updated_from(snapshot@),
            !stored ==> final(self)@ == old(self)@,
    {
        if !snapshot_is_current(snapshot.generation, self.generation) {
            return false;
        }
        self.preview = share(&snapshot.preview);
        self.state = snapshot.state;
        self.selection_index = snapshot.selection_index;
        self.raw_input = share(&snapshot.raw_input);
        self.raw_hiragana = share(&snapshot.raw_hiragana);
        self.candidates = share(&snapshot.candidates);
        self.suffix = share(&snapshot.suffix);
        self.corresponding_count = snapshot.corresponding_count;
        self.generation = self.generation.wrapping_add(1);
        assert(self@ =~= old(self)@.updated_from(snapshot@));
        true
    }
}

/// What decides how a key is answered, besides the key itself.
#[derive(Clone, Copy, Debug, PartialEq, Eq, Structural)]
pub struct KeySituation {
    pub state: CompositionState,
    pub tip_exists: bool,
    pub is_last_input: bool,
    pub suffix_is_empty: bool,
    pub mode: InputMode,
    /// The conversion server can be reached.
    pub ipc_available: bool,
    /// Control or Alt is down.
    pub shortcut_pressed: bool,
}

/// The state after a key and the actions that answer it.
#[verifier::ext_equal]
pub struct KeyAnswer {
    pub actions: Seq<ClientAction<Seq<char>>>,
    pub state: CompositionState,
}

/// An answer of one action.
pub open spec fn answer(
    state: CompositionState,
    action: ClientAction<Seq<char>>,
) -> Option<KeyAnswer> {
    Some(KeyAnswer { actions: seq![action], state })
}

/// The mode that a key asks for.
pub open spec fn requested_mode(action: UserAction, mode: InputMode) -> Option<InputMode> {
    match action {
        UserAction::SetInputMode(requested) => Some(requested),
        UserAction::ToggleInputMode => Some(mode.other()),
        _ => None,
    }
}

/// The text that a key types.
pub open spec fn typed_by(action: UserAction) -> Option<Seq<char>> {
    match action {
        UserAction::Input(c) => Some(seq![c]),
        UserAction::Number(number) => Some(decimal_notation(number as int)),
        _ => None,
    }
}

/// The script that a function key converts to.
pub open spec fn script_of(key: Function) -> SetTextType {
    match key {
        Function::Six => SetTextType::Hiragana,
        Function::Seven => SetTextType::Katakana,
        Function::Eight => SetTextType::HalfKatakana,
        Function::Nine => SetTextType::FullLatin,
        Function::Ten => SetTextType::HalfLatin,
    }
}

/// The answer to a key that types text or edits a composition that has started.
pub open spec fn editing_answer(situation: KeySituation, action: UserAction) -> Option<KeyAnswer> {
    let composing = CompositionState::Composing;
    let previewing = CompositionState::Previewing;
    match typed_by(action) {
        Some(text) => if situation.state == previewing {
            answer(composing, ClientAction::CommitPrefixAndAppend(text))
        } else {
            answer(composing, ClientAction::AppendText(text))
        },
        None => match action {
            UserAction::Backspace => if situation.is_last_input {
                answer(CompositionState::Inactive, ClientAction::DiscardComposition)
            } else {
                answer(composing, ClientAction::RemoveText)
            },
            UserAction::Enter => if situation.suffix_is_empty {
                answer(CompositionState::Inactive, ClientAction::EndComposition)
            } else {
                answer(composing, ClientAction::CommitPrefixAndAppend(Seq::empty()))
            },
            UserAction::Escape => answer(CompositionState::Inactive, ClientAction::DiscardComposition),
            UserAction::Navigation(Navigation::Right) => {
                answer(composing, ClientAction::MoveCursor(1))
            },
            UserAction::Navigation(Navigation::Left) => {
                answer(composing, ClientAction::MoveCursor((-1) as i32))
            },
            UserAction::Navigation(Navigation::Up) => {
                answer(previewing, ClientAction::SetSelection(SetSelectionType::Up))
            },
            UserAction::Navigation(Navigation::Down) | UserAction::Space | UserAction::Tab => {
                answer(previewing, ClientAction::SetSelection(SetSelectionType::Down))
            },
            UserAction::Function(key) => {
                answer(previewing, ClientAction::SetTextWithType(script_of(key)))
            },
            _ => None,
        },
    }
}

/// The answer to a key, or `None` where the host gets it.
pub open spec fn key_answer(situation: KeySituation, action: UserAction) -> Option<KeyAnswer> {
    let requested = requested_mode(action, situation.mode);
    if !situation.ipc_available && requested is None {
        if situation.tip_exists || situation.state != CompositionState::Inactive {
            answer(CompositionState::Inactive, ClientAction::EndComposition)
        } else {
            None
        }
    } else if situation.shortcut_pressed {
        None
    } else if let Some(mode) = requested {
        answer(
            state_after_mode_command(situation.state, situation.mode, mode),
            ClientAction::SetIMEMode(mode),
        )
    } else {
        match situation.state {
            CompositionState::Inactive => match typed_by(action) {
                Some(text) if situation.mode == InputMode::Kana => Some(
                    KeyAnswer {
                        actions: seq![
                            ClientAction::StartComposition,
                            ClientAction::AppendText(text),
                        ],
                        state: CompositionState::Composing,
                    },
                ),
                _ => None,
            },
            CompositionState::Composing | CompositionState::Previewing => {
                editing_answer(situation, action)
            },
            CompositionState::Selecting => None,
        }
    }
}

/// How an executable answer is read in contracts.
pub open spec fn key_answer_view(
    answer: Option<(Vec<ClientAction>, CompositionState)>,
) -> Option<KeyAnswer> {
    match answer {
        Some((actions, state)) => Some(KeyAnswer { actions: actions_view(actions@), state }),
        None => None,
    }
}

fn single(action: ClientAction, state: CompositionState) -> (answered: Option<
    (Vec<ClientAction>, CompositionState),
>)
    ensures
        key_answer_view(answered) == answer(state, action@),
{
    let actions: Vec<ClientAction> = vec![action];
    assert(actions_view(actions@) =~= seq![action@]);
    Some((actions, state))
}

fn typed_text_of(action: UserAction) -> (text: Option<String>)
    ensures
        match text {
            Some(text) => typed_by(action) == Some(text@),
            None => typed_by(action) is None,
        },
{
    match action {
        UserAction::Input(c) => {
            let mut text = String::new();
            text.push(c);
            assert(text@ =~= seq![c]);
            Some(text)
        },
        UserAction::Number(number) => Some(decimal_signed(number as i64)),
        _ => None,
    }
}

fn requested_mode_of(action: UserAction, mode: InputMode) -> (requested: Option<InputMode>)
    ensures
        requested == requested_mode(action, mode),
{
    match action {
        UserAction::SetInputMode(requested) => Some(requested),
        UserAction::ToggleInputMode => Some(mode.toggled()),
        _ => None,
    }
}

fn edit(situation: KeySituation, action: UserAction) -> (answered: Option<
    (Vec<ClientAction>, CompositionState),
>)
    ensures
        key_answer_view(answered) == editing_answer(situation, action),
{
    let composing = CompositionState::Composing;
    let previewing = CompositionState::Previewing;
    if let Some(text) = typed_text_of(action) {
        return if situation.state == CompositionState::Previewing {
            single(ClientAction::CommitPrefixAndAppend(text), composing)
        } else {
            single(ClientAction::AppendText(text), composing)
        };
    }
    match action {
        UserAction::Backspace => if situation.is_last_input {
            single(ClientAction::DiscardComposition, CompositionState::Inactive)
        } else {
            single(ClientAction::RemoveText, composing)
        },
        UserAction::Enter => if situation.suffix_is_empty {
            single(ClientAction::EndComposition, CompositionState::Inactive)
        } else {
            single(ClientAction::CommitPrefixAndAppend(String::new()), composing)
        },
        UserAction::Escape => single(ClientAction::DiscardComposition, CompositionState::Inactive),
        UserAction::Navigation(direction) => match direction {
            Navigation::Right => single(ClientAction::MoveCursor(1), composing),
            Navigation::Left => single(ClientAction::MoveCursor(-1), composing),
            Navigation::Up => {
                single(ClientAction::SetSelection(SetSelectionType::Up), previewing)
            },
            Navigation::Down => {
                single(ClientAction::SetSelection(SetSelectionType::Down), previewing)
            },
        },
        UserAction::Space | UserAction::Tab => {
            single(ClientAction::SetSelection(SetSelectionType::Down), previewing)
        },
        UserAction::Function(key) => {
            let script = match key {
                Function::Six => SetTextType::Hiragana,
                Function::Seven => SetTextType::Katakana,
                Function::Eight => SetTextType::HalfKatakana,
                Function::Nine => SetTextType::FullLatin,
                Function::Ten => SetTextType::HalfLatin,
            };
            single(ClientAction::SetTextWithType(script), previewing)
        },
        _ => None,
    }
}

/// Answers a key. Where the server cannot be reached, a composition in progress
/// is ended with one claimed key, so that the host does not edit underneath it;
/// mode commands work in any state, and other keys follow the state's table.
pub fn answer_key(situation: KeySituation, action: UserAction) -> (answered: Option<
    (Vec<ClientAction>, CompositionState),
>)
    ensures
        key_answer_view(answered) == key_answer(situation, action),
{
    let requested = requested_mode_of(action, situation.mode);
    if !situation.ipc_available && requested.is_none() {
        return if situation.tip_exists || situation.state != CompositionState::Inactive {
            single(ClientAction::EndComposition, CompositionState::Inactive)
        } else {
            None
        };
    }
    if situation.shortcut_pressed {
        return None;
    }
    if let Some(mode) = requested {
        let (state, actions) = input_mode_transition(situation.state, situation.mode, mode);
        return Some((actions, state));
    }
    match situation.state {
        CompositionState::Inactive => {
            if situation.mode != InputMode::Kana {
                return None;
            }
            match typed_text_of(action) {
                Some(text) => {
                    let actions: Vec<ClientAction> = vec![
                        ClientAction::StartComposition,
                        ClientAction::AppendText(text),
                    ];
                    assert(actions_view(actions@) =~= seq![
                        ClientAction::<Seq<char>>::StartComposition,
                        ClientAction::AppendText(text@),
                    ]);
                    Some((actions, CompositionState::Composing))
                },
                None => None,
            }
        },
        CompositionState::Composing => edit(situation, action),
        CompositionState::Previewing => edit(situation, action),
        CompositionState::Selecting => None,
    }
}

/// With no composition, no server and no mode command, the host gets every key.
pub proof fn offline_typing_passes_through(situation: KeySituation, action: UserAction)
    requires
        !situation.ipc_available,
        !situation.tip_exists,
        situation.state == CompositionState::Inactive,
        requested_mode(action, situation.mode) is None,
    ensures
        key_answer(situation, action) is None,
{
}

/// Losing the server during a composition ends the composition on the next key,
/// even where that key is a shortcut.
pub proof fn an_offline_composition_is_ended(situation: KeySituation, action: UserAction)
    requires
        !situation.ipc_available,
        situation.tip_exists || situation.state != CompositionState::Inactive,
        requested_mode(action, situation.mode) is None,
    ensures
        key_answer(situation, action) == answer(
            CompositionState::Inactive,
            ClientAction::EndComposition,
        ),
{
}

/// An input-mode command is answered in the same way in every state, with or
/// without a server, unless a shortcut key is down.
pub proof fn mode_commands_work_in_every_state(
    situation: KeySituation,
    action: UserAction,
    mode: InputMode,
)
    requires
        requested_mode(action, situation.mode) == Some(mode),
        !situation.shortcut_pressed,
    ensures
        key_answer(situation, action) == answer(
            state_after_mode_command(situation.state, situation.mode, mode),
            ClientAction::SetIMEMode(mode),
        ),
{
}

/// In Latin mode with no composition only mode commands are claimed.
pub proof fn latin_mode_claims_only_mode_commands(situation: KeySituation, action: UserAction)
    requires
        situation.mode == InputMode::Latin,
        situation.state == CompositionState::Inactive,
        !situation.tip_exists,
        requested_mode(action, situation.mode) is None,
    ensures
        key_answer(situation, action) is None,
{
}

/// The state after a key is `Inactive` exactly where its last action ends the
/// composition or keeps it ended.
pub proof fn ending_a_composition_leaves_no_state(situation: KeySituation, action: UserAction)
    ensures
        key_answer(situation, action) matches Some(answered) ==> {
            let last = answered.actions.last();
            &&& (last is EndComposition || last is DiscardComposition)
                ==> answered.state == CompositionState::Inactive
            &&& answered.state == CompositionState::Inactive ==> (last is EndComposition
                || last is DiscardComposition || last is SetIMEMode)
        },
{
}

/// Ending a composition makes every snapshot taken before it stale, so that it
/// cannot be written back.
pub proof fn a_reset_makes_snapshots_stale(composition: CompositionView)
    ensures
        composition.reset().generation != composition.generation,
        !composition.reset().is_active(),
{
}

/// Storing a snapshot makes all others of the same generation stale.
pub proof fn a_write_back_makes_snapshots_stale(
    composition: CompositionView,
    snapshot: CompositionView,
)
    ensures
        composition.updated_from(snapshot).generation != composition.generation,
        composition.updated_from(snapshot).tip_composition == composition.tip_composition,
{
}

/// A composition that has ended has no text, no candidate, no state and no range; one
/// whose texts are dropped keeps its state and its range.
pub proof fn nothing_is_left_of_an_ended_composition(composition: CompositionView)
    ensures
        ({
            let ended = composition.reset();
            let dropped = composition.forgotten();
            &&& ended.preview.len() == 0 && ended.suffix.len() == 0
            &&& ended.raw_input.len() == 0 && ended.raw_hiragana.len() == 0
            &&& ended.corresponding_count == 0 && ended.selection_index == 0
            &&& ended.candidates.texts.len() == 0
            &&& ended.state is Inactive && ended.tip_composition is None
            &&& dropped.preview.len() == 0 && dropped.suffix.len() == 0
            &&& dropped.raw_input.len() == 0 && dropped.raw_hiragana.len() == 0
            &&& dropped.corresponding_count == 0 && dropped.selection_index == 0
            &&& dropped.candidates.texts.len() == 0
            &&& dropped.state == composition.state
            &&& dropped.tip_composition == composition.tip_composition
            &&& dropped.generation == composition.generation
        }),
{
}

/// Generations follow each other one by one, and begin anew behind the last one. Ending
/// a composition and storing a snapshot both lead to the next.
pub proof fn generations_follow_each_other(composition: CompositionView, snapshot: CompositionView)
    ensures
        composition.generation < u64::MAX ==> {
            &&& composition.reset().generation == composition.generation + 1
            &&& composition.updated_from(snapshot).generation == composition.generation + 1
        },
        composition.generation == u64::MAX ==> {
            &&& composition.reset().generation == 0
            &&& composition.updated_from(snapshot).generation == 0
        },
{
}

/// Storing a snapshot takes all of it but the range, which stays the host's own.
pub proof fn a_write_back_takes_all_but_the_range(
    composition: CompositionView,
    snapshot: CompositionView,
)
    ensures
        ({
            let stored = composition.updated_from(snapshot);
            &&& stored.preview == snapshot.preview && stored.suffix == snapshot.suffix
            &&& stored.raw_input == snapshot.raw_input
            &&& stored.raw_hiragana == snapshot.raw_hiragana
            &&& stored.corresponding_count == snapshot.corresponding_count
            &&& stored.selection_index == snapshot.selection_index
            &&& stored.candidates == snapshot.candidates
            &&& stored.state == snapshot.state
            &&& stored.tip_composition == composition.tip_composition
        }),
{
}

/// There is a composition where the host holds a range, and also where there is none
/// but the state is not idle; and nowhere else.
pub proof fn a_range_or_a_state_makes_a_composition(composition: CompositionView)
    ensures
        composition.tip_composition is Some ==> composition.is_active(),
        composition.tip_composition is None ==> (composition.is_active()
            <==> !(composition.state is Inactive)),
{
}

/// A composition takes as many units on screen as the text that it shows as a whole.
pub proof fn a_composition_takes_the_units_of_its_text(preview: Seq<char>, suffix: Seq<char>)
    requires
        encode_utf16(preview + suffix).len() <= usize::MAX,
    ensures
        displayed_units(preview, suffix) == encode_utf16(preview + suffix).len(),
{
    encode_utf16_of_concat(preview, suffix);
}

/// A new composition is what one that has ended is, and is the first of its line.
pub proof fn a_new_composition_is_empty(composition: CompositionView)
    ensures
        CompositionView::empty() == (CompositionView { generation: 0, ..composition.reset() }),
        !CompositionView::empty().is_active(),
{
}

} // verus!
