//! The state of one text service, and the small rules that guard it.
//!
//! Times are nanoseconds of a monotonic clock. Host objects are known by their
//! handles.

use vstd::prelude::*;

use crate::composition::{Composition, CompositionState, CompositionView};
use crate::input_mode::InputMode;

verus! {

/// Repeats of the backspace key within this time of a batch join the next one.
pub const BACKSPACE_REPEAT_COALESCE_WINDOW: u64 = 80_000_000;

/// How long layout changes are ignored after a position update has begun.
pub const LAYOUT_CHANGE_SUPPRESSION: u64 = 200_000_000;

/// The sum of two counts, at most the largest count.
pub open spec fn capped_sum(left: nat, right: nat) -> u32 {
    if left + right <= u32::MAX {
        (left + right) as u32
    } else {
        u32::MAX
    }
}

/// A count of deletions, at least one.
pub open spec fn at_least_one(count: u32) -> nat {
    if count == 0 {
        1
    } else {
        count as nat
    }
}

/// Deletions of a held backspace key that wait for the next batch.
#[derive(Clone, Copy, Debug, PartialEq, Eq, Structural)]
pub struct BackspaceRepeatState {
    pub last_batch_started_at: Option<u64>,
    pub pending_count: u32,
}

impl Default for BackspaceRepeatState {
    fn default() -> (state: BackspaceRepeatState)
        ensures
            state == (BackspaceRepeatState { last_batch_started_at: None, pending_count: 0 }),
    {
        BackspaceRepeatState { last_batch_started_at: None, pending_count: 0 }
    }
}

impl BackspaceRepeatState {
    /// Whether a key press joins the next batch: a repeat within the window of
    /// the last batch's start.
    pub open spec fn defers(self, is_repeat: bool, now: u64) -> bool {
        is_repeat && (self.last_batch_started_at matches Some(last) && now
            < last + BACKSPACE_REPEAT_COALESCE_WINDOW)
    }

    /// Tells whether this repeat should be kept for the next batch instead of
    /// running a conversion now. The window is measured from the start of the
    /// last batch, so that the time of a conversion adds no pause.
    pub fn should_defer(&self, is_repeat: bool, now: u64) -> (defer: bool)
        ensures
            defer == self.defers(is_repeat, now),
    {
        match self.last_batch_started_at {
            Some(last) => {
                is_repeat && now.saturating_sub(last) < BACKSPACE_REPEAT_COALESCE_WINDOW
            },
            None => false,
        }
    }

    /// Keeps `count` deletions, at least one, for the next batch.
    pub fn defer(&mut self, count: u32)
        ensures
            *final(self) == (BackspaceRepeatState {
                pending_count: capped_sum(old(self).pending_count as nat, at_least_one(count)),
                ..*old(self)
            }),
    {
        let count: u32 = if count == 0 {
            1
        } else {
            count
        };
        self.pending_count = self.pending_count.saturating_add(count);
    }

    /// Returns the size of the batch that `current_count` deletions, at least
    /// one, complete.
    pub fn batch_count(&self, current_count: u32) -> (count: u32)
        ensures
            count == capped_sum(self.pending_count as nat, at_least_one(current_count)),
    {
        let current: u32 = if current_count == 0 {
            1
        } else {
            current_count
        };
        self.pending_count.saturating_add(current)
    }

    /// Takes the deletions that wait.
    pub fn take_pending(&mut self) -> (count: u32)
        ensures
            count == old(self).pending_count,
            *final(self) == (BackspaceRepeatState { pending_count: 0, ..*old(self) }),
    {
        let count: u32 = self.pending_count;
        self.pending_count = 0;
        count
    }

    /// Drops the deletions that wait. The window of the last batch stays.
    pub fn clear_pending(&mut self)
        ensures
            *final(self) == (BackspaceRepeatState { pending_count: 0, ..*old(self) }),
    {
        self.pending_count = 0;
    }

    /// Forgets the deletions that wait and the last batch.
    pub fn reset(&mut self)
        ensures
            *final(self) == (BackspaceRepeatState {
                last_batch_started_at: None,
                pending_count: 0,
            }),
    {
        *self = BackspaceRepeatState::default();
    }

    /// Returns the number of deletions that wait.
    pub fn pending_count(&self) -> (count: u32)
        ensures
            count == self.pending_count,
    {
        self.pending_count
    }

    /// Notes that a batch starts now.
    pub fn mark_batch_started(&mut self, now: u64)
        ensures
            *final(self) == (BackspaceRepeatState {
                last_batch_started_at: Some(now),
                ..*old(self)
            }),
    {
        self.last_batch_started_at = Some(now);
    }
}

/// The state after one press of a held backspace key, and the deletions that it
/// runs: none where the press is deferred, the whole batch otherwise.
pub open spec fn after_backspace(
    state: BackspaceRepeatState,
    is_repeat: bool,
    now: u64,
) -> (BackspaceRepeatState, nat) {
    if state.defers(is_repeat, now) {
        (
            BackspaceRepeatState {
                pending_count: capped_sum(state.pending_count as nat, 1),
                ..state
            },
            0,
        )
    } else {
        (
            BackspaceRepeatState { last_batch_started_at: Some(now), pending_count: 0 },
            capped_sum(state.pending_count as nat, 1) as nat,
        )
    }
}

/// Every press of a held backspace key is accounted for once: it waits, or it is
/// in the batch that runs.
pub proof fn no_deletion_is_lost(state: BackspaceRepeatState, is_repeat: bool, now: u64)
    requires
        state.pending_count < u32::MAX,
    ensures
        ({
            let (next, processed) = after_backspace(state, is_repeat, now);
            processed + next.pending_count == state.pending_count + 1
        }),
{
}

/// The first press, and any press after the window, runs at once.
pub proof fn a_press_outside_the_window_is_not_deferred(
    state: BackspaceRepeatState,
    is_repeat: bool,
    now: u64,
)
    requires
        !is_repeat || state.last_batch_started_at is None || now
            >= state.last_batch_started_at->0 + BACKSPACE_REPEAT_COALESCE_WINDOW,
    ensures
        after_backspace(state, is_repeat, now).1 > 0,
        after_backspace(state, is_repeat, now).0.pending_count == 0,
{
}

/// Whether a position update runs, or has just run.
#[derive(Clone, Copy, Debug, PartialEq, Eq, Structural)]
pub enum UpdatePosState {
    Idle,
    Updating { suppress_layout_until: u64 },
    SuppressingLayoutChange { until: u64 },
}

impl Default for UpdatePosState {
    fn default() -> (state: UpdatePosState)
        ensures
            state == UpdatePosState::Idle,
    {
        UpdatePosState::Idle
    }
}

impl UpdatePosState {
    /// The state after an update has finished at `now`.
    pub open spec fn finished(self, now: u64) -> UpdatePosState {
        match self {
            UpdatePosState::Updating { suppress_layout_until } => if now <= suppress_layout_until {
                UpdatePosState::SuppressingLayoutChange { until: suppress_layout_until }
            } else {
                UpdatePosState::Idle
            },
            _ => self,
        }
    }

    /// Whether a layout change at `now` is ignored.
    pub open spec fn skips_layout_change(self, now: u64) -> bool {
        match self {
            UpdatePosState::Idle => false,
            UpdatePosState::Updating { .. } => true,
            UpdatePosState::SuppressingLayoutChange { until } => now <= until,
        }
    }

    /// Begins an update, unless one is running. Tells whether it has begun.
    pub fn try_begin_update(&mut self, now: u64) -> (begun: bool)
        requires
            now + LAYOUT_CHANGE_SUPPRESSION <= u64::MAX,
        ensures
            begun == !(*old(self) is Updating),
            !begun ==> *final(self) == *old(self),
            begun ==> *final(self) == (UpdatePosState::Updating {
                suppress_layout_until: (now + LAYOUT_CHANGE_SUPPRESSION) as u64,
            }),
    {
        if matches!(self, UpdatePosState::Updating { .. }) {
            return false;
        }
        *self = UpdatePosState::Updating {
            suppress_layout_until: now + LAYOUT_CHANGE_SUPPRESSION,
        };
        true
    }

    /// Finishes an update. Layout changes that it caused are still ignored for
    /// the rest of the time set when it began.
    pub fn finish_update(&mut self, now: u64)
        ensures
            *final(self) == old(self).finished(now),
    {
        *self = match *self {
            UpdatePosState::Updating { suppress_layout_until } => if now <= suppress_layout_until {
                UpdatePosState::SuppressingLayoutChange { until: suppress_layout_until }
            } else {
                UpdatePosState::Idle
            },
            state => state,
        };
    }

    /// Tells whether a layout change is ignored, and ends the suppression once
    /// its time is over.
    pub fn should_skip_layout_change(&mut self, now: u64) -> (skip: bool)
        ensures
            skip == old(self).skips_layout_change(now),
            *final(self) == after_layout_change(*old(self), now),
    {
        match *self {
            UpdatePosState::Idle => false,
            UpdatePosState::Updating { .. } => true,
            UpdatePosState::SuppressingLayoutChange { until } => {
                if now <= until {
                    true
                } else {
                    *self = UpdatePosState::Idle;
                    false
                }
            },
        }
    }
}

/// The state after a layout change at `now` was looked at.
pub open spec fn after_layout_change(state: UpdatePosState, now: u64) -> UpdatePosState {
    if state.skips_layout_change(now) {
        state
    } else {
        UpdatePosState::Idle
    }
}

/// An update does not feed itself, and does not keep others out for longer than
/// its time: from when it begins until it finishes every layout change is ignored,
/// and afterwards one is ignored exactly until the suppression time, counted from
/// the beginning, is over. What is ignored changes nothing; the first change that
/// is not ends the suppression.
pub proof fn suppression_counts_from_the_beginning(
    begun: u64,
    finished: u64,
    changed: u64,
    updating: UpdatePosState,
)
    requires
        begun <= finished <= changed,
        begun + LAYOUT_CHANGE_SUPPRESSION <= u64::MAX,
        updating == (UpdatePosState::Updating {
            suppress_layout_until: (begun + LAYOUT_CHANGE_SUPPRESSION) as u64,
        }),
    ensures
        updating.skips_layout_change(changed),
        after_layout_change(updating, changed) == updating,
        updating.finished(finished).skips_layout_change(changed) == (changed <= begun
            + LAYOUT_CHANGE_SUPPRESSION),
        after_layout_change(updating.finished(finished), changed) == if changed <= begun
            + LAYOUT_CHANGE_SUPPRESSION {
            updating.finished(finished)
        } else {
            UpdatePosState::Idle
        },
        !UpdatePosState::Idle.skips_layout_change(changed),
{
}

/// Finishing an update a second time changes nothing.
pub proof fn finishing_twice_is_harmless(state: UpdatePosState, first: u64, second: u64)
    ensures
        state.finished(first).finished(second) == state.finished(first),
{
}

/// A mode change from outside that waits for the composition to end.
#[derive(Clone, Copy, Debug, PartialEq, Eq, Structural)]
pub struct PendingInputModeTransition {
    pub from: InputMode,
    pub to: InputMode,
}

/// What waits after the mode has changed from `previous_mode` to `next_mode`.
pub open spec fn pending_after(
    pending: Option<PendingInputModeTransition>,
    previous_mode: InputMode,
    next_mode: InputMode,
    has_active_composition: bool,
) -> Option<PendingInputModeTransition> {
    if !has_active_composition {
        None
    } else if previous_mode == next_mode {
        pending
    } else {
        pending_between(
            match pending {
                Some(pending) => pending.from,
                None => previous_mode,
            },
            next_mode,
        )
    }
}

/// What waits where the composition began in mode `from` and the mode is now
/// `to`.
pub open spec fn pending_between(from: InputMode, to: InputMode) -> Option<
    PendingInputModeTransition,
> {
    if from == to {
        None
    } else {
        Some(PendingInputModeTransition { from, to })
    }
}

/// Merges a mode change from outside into the one that waits. Without a
/// composition nothing waits.
pub fn next_pending_input_mode_transition(
    pending: Option<PendingInputModeTransition>,
    previous_mode: InputMode,
    next_mode: InputMode,
    has_active_composition: bool,
) -> (next: Option<PendingInputModeTransition>)
    ensures
        next == pending_after(pending, previous_mode, next_mode, has_active_composition),
{
    if !has_active_composition {
        return None;
    }
    if previous_mode == next_mode {
        return pending;
    }
    let from = match pending {
        Some(pending) => pending.from,
        None => previous_mode,
    };
    if from == next_mode {
        None
    } else {
        Some(PendingInputModeTransition { from, to: next_mode })
    }
}

/// However often the mode changes during a composition, what waits is the change
/// from the mode that the composition began in to the latest one, and nothing
/// where they are the same.
pub proof fn pending_changes_coalesce(began_in: InputMode, current: InputMode, next: InputMode)
    ensures
        pending_after(pending_between(began_in, current), current, next, true)
            == pending_between(began_in, next),
{
}

/// The state of a text service.
#[derive(Debug)]
pub struct TextService {
    pub tid: u32,
    pub thread_mgr: Option<u64>,
    pub dll_ref_held: bool,
    pub key_event_sink_advised: bool,
    pub preserved_input_mode_keys: u8,
    pub thread_mgr_event_cookie: Option<u32>,
    pub text_layout_context: Option<u64>,
    pub text_layout_cookie: Option<u32>,
    pub lang_bar_added: bool,
    pub context: Option<u64>,
    pub composition: Composition,
    pub update_pos_state: UpdatePosState,
    pub backspace_repeat_state: BackspaceRepeatState,
    pub display_attribute_atom: Option<u32>,
    pub mode: InputMode,
    pub open_close_cookie: Option<u32>,
    pub conversion_mode_cookie: Option<u32>,
    pub compartment_write_in_progress: bool,
    pub pending_input_mode_transition: Option<PendingInputModeTransition>,
    pub pending_composition_cleanup: bool,
    pub this: Option<u64>,
}

/// The contents of a `TextService`.
#[verifier::ext_equal]
pub struct TextServiceView {
    pub tid: u32,
    pub thread_mgr: Option<u64>,
    pub dll_ref_held: bool,
    pub key_event_sink_advised: bool,
    pub preserved_input_mode_keys: u8,
    pub thread_mgr_event_cookie: Option<u32>,
    pub text_layout_context: Option<u64>,
    pub text_layout_cookie: Option<u32>,
    pub lang_bar_added: bool,
    pub context: Option<u64>,
    pub composition: CompositionView,
    pub update_pos_state: UpdatePosState,
    pub backspace_repeat_state: BackspaceRepeatState,
    pub display_attribute_atom: Option<u32>,
    pub mode: InputMode,
    pub open_close_cookie: Option<u32>,
    pub conversion_mode_cookie: Option<u32>,
    pub compartment_write_in_progress: bool,
    pub pending_input_mode_transition: Option<PendingInputModeTransition>,
    pub pending_composition_cleanup: bool,
    pub this: Option<u64>,
}

impl View for TextService {
    type V = TextServiceView;

    open spec fn view(&self) -> TextServiceView {
        TextServiceView {
            tid: self.tid,
            thread_mgr: self.thread_mgr,
            dll_ref_held: self.dll_ref_held,
            key_event_sink_advised: self.key_event_sink_advised,
            preserved_input_mode_keys: self.preserved_input_mode_keys,
            thread_mgr_event_cookie: self.thread_mgr_event_cookie,
            text_layout_context: self.text_layout_context,
            text_layout_cookie: self.text_layout_cookie,
            lang_bar_added: self.lang_bar_added,
            context: self.context,
            composition: self.composition@,
            update_pos_state: self.update_pos_state,
            backspace_repeat_state: self.backspace_repeat_state,
            display_attribute_atom: self.display_attribute_atom,
            mode: self.mode,
            open_close_cookie: self.open_close_cookie,
            conversion_mode_cookie: self.conversion_mode_cookie,
            compartment_write_in_progress: self.compartment_write_in_progress,
            pending_input_mode_transition: self.pending_input_mode_transition,
            pending_composition_cleanup: self.pending_composition_cleanup,
            this: self.this,
        }
    }
}

impl TextServiceView {
    /// The service after the host has ended the composition: no composition, and
    /// nothing that waits for one to end.
    pub open spec fn terminated(self) -> TextServiceView {
        TextServiceView {
            composition: self.composition.reset(),
            pending_input_mode_transition: None,
            pending_composition_cleanup: false,
            ..self
        }
    }

    /// A service that was never activated.
    pub open spec fn new() -> TextServiceView {
        TextServiceView {
            tid: 0,
            thread_mgr: None,
            dll_ref_held: false,
            key_event_sink_advised: false,
            preserved_input_mode_keys: 0,
            thread_mgr_event_cookie: None,
            text_layout_context: None,
            text_layout_cookie: None,
            lang_bar_added: false,
            context: None,
            composition: CompositionView::empty(),
            update_pos_state: UpdatePosState::Idle,
            backspace_repeat_state: BackspaceRepeatState {
                last_batch_started_at: None,
                pending_count: 0,
            },
            display_attribute_atom: None,
            mode: InputMode::Latin,
            open_close_cookie: None,
            conversion_mode_cookie: None,
            compartment_write_in_progress: false,
            pending_input_mode_transition: None,
            pending_composition_cleanup: false,
            this: None,
        }
    }
}

/// A handle that the service needs is not there.
#[derive(Clone, Copy, Debug, PartialEq, Eq, Structural)]
pub enum MissingHandle {
    This,
    ThreadMgr,
    Context,
}

impl MissingHandle {
    /// The text of this error.
    pub open spec fn text(self) -> Seq<char> {
        match self {
            MissingHandle::This => "this is null"@,
            MissingHandle::ThreadMgr => "Thread manager is null"@,
            MissingHandle::Context => "Context is null"@,
        }
    }

    /// The text of this error.
    pub fn message(self) -> (message: &'static str)
        ensures
            message@ == self.text(),
    {
        match self {
            MissingHandle::This => "this is null",
            MissingHandle::ThreadMgr => "Thread manager is null",
            MissingHandle::Context => "Context is null",
        }
    }
}

/// Why work with the host failed.
#[derive(Clone, Copy, Debug, PartialEq, Eq, Structural)]
pub enum HostError {
    /// The host refused, with this code.
    Refused(i32),
    /// The state of the service is in use elsewhere, and could not be read or
    /// changed.
    Unavailable,
    /// The service lacks a handle.
    Missing(MissingHandle),
    /// The host accepted an edit session without running it.
    NotRun,
    /// The service keeps a cookie of a text-layout sink, but not its context.
    CookieWithoutContext,
    /// The service is active already.
    AlreadyActive,
}

impl HostError {
    /// The text of this error, where it is not the host's own.
    pub open spec fn text(self) -> Option<Seq<char>> {
        match self {
            HostError::Refused(_) => None,
            HostError::Unavailable => Some("text service is in use"@),
            HostError::Missing(handle) => Some(handle.text()),
            HostError::NotRun => Some(
                "synchronous TSF edit session completed without running its callback"@,
            ),
            HostError::CookieWithoutContext => Some("Text-layout sink cookie has no context"@),
            HostError::AlreadyActive => Some(
                "TextService is already active or still has registered sinks"@,
            ),
        }
    }

    /// The text of this error, where it is not the host's own.
    pub fn message(self) -> (message: Option<&'static str>)
        ensures
            match message {
                Some(message) => self.text() == Some(message@),
                None => self.text() is None,
            },
    {
        match self {
            HostError::Refused(_) => None,
            HostError::Unavailable => Some("text service is in use"),
            HostError::Missing(handle) => Some(handle.message()),
            HostError::NotRun => Some(
                "synchronous TSF edit session completed without running its callback",
            ),
            HostError::CookieWithoutContext => Some("Text-layout sink cookie has no context"),
            HostError::AlreadyActive => Some(
                "TextService is already active or still has registered sinks",
            ),
        }
    }
}

impl Default for TextService {
    fn default() -> (service: TextService)
        ensures
            service@ == TextServiceView::new(),
    {
        TextService {
            tid: 0,
            thread_mgr: None,
            dll_ref_held: false,
            key_event_sink_advised: false,
            preserved_input_mode_keys: 0,
            thread_mgr_event_cookie: None,
            text_layout_context: None,
            text_layout_cookie: None,
            lang_bar_added: false,
            context: None,
            composition: Composition::default(),
            update_pos_state: UpdatePosState::default(),
            backspace_repeat_state: BackspaceRepeatState::default(),
            display_attribute_atom: None,
            mode: InputMode::default(),
            open_close_cookie: None,
            conversion_mode_cookie: None,
            compartment_write_in_progress: false,
            pending_input_mode_transition: None,
            pending_composition_cleanup: false,
            this: None,
        }
    }
}

impl TextService {
    /// Returns the handle of the service itself.
    pub fn this(&self) -> (this: Result<u64, MissingHandle>)
        ensures
            this == match self.this {
                Some(handle) => Ok::<u64, MissingHandle>(handle),
                None => Err(MissingHandle::This),
            },
    {
        match self.this {
            Some(handle) => Ok(handle),
            None => Err(MissingHandle::This),
        }
    }

    /// Returns the handle of the thread manager.
    pub fn thread_mgr(&self) -> (thread_mgr: Result<u64, MissingHandle>)
        ensures
            thread_mgr == match self.thread_mgr {
                Some(handle) => Ok::<u64, MissingHandle>(handle),
                None => Err(MissingHandle::ThreadMgr),
            },
    {
        match self.thread_mgr {
            Some(handle) => Ok(handle),
            None => Err(MissingHandle::ThreadMgr),
        }
    }

    /// Returns the handle of the context that gets the text.
    pub fn context(&self) -> (context: Result<u64, MissingHandle>)
        ensures
            context == match self.context {
                Some(handle) => Ok::<u64, MissingHandle>(handle),
                None => Err(MissingHandle::Context),
            },
    {
        match self.context {
            Some(handle) => Ok(handle),
            None => Err(MissingHandle::Context),
        }
    }

    /// Drops the composition after the host has ended it, with everything that
    /// waited for its end.
    pub fn terminate_composition(&mut self)
        ensures
            final(self)@ == old(self)@.terminated(),
    {
        self.composition.reset();
        self.pending_input_mode_transition = None;
        self.pending_composition_cleanup = false;
    }
}

/// Counts of deletions add up exactly while they fit, and stay at the largest count
/// otherwise; no deletions at all count as one.
pub proof fn deletions_add_up(left: nat, right: nat, count: u32)
    ensures
        left + right <= u32::MAX ==> capped_sum(left, right) == left + right,
        left + right > u32::MAX ==> capped_sum(left, right) == u32::MAX,
        count > 0 ==> at_least_one(count) == count,
        at_least_one(0) == 1,
{
}

/// A repeat waits exactly where less than 80 milliseconds have passed since the
/// last batch began; a press that is no repeat never waits.
pub proof fn repeats_wait_for_the_window(state: BackspaceRepeatState, last: u64, now: u64)
    requires
        state.last_batch_started_at == Some(last),
        last <= now,
    ensures
        state.defers(true, now) <==> now - last < 80_000_000,
        !state.defers(false, now),
{
}

/// A position update keeps layout changes out for 200 milliseconds from its
/// beginning, however long it takes.
pub proof fn layout_changes_wait_for_the_update(begun: u64, finished: u64, changed: u64)
    requires
        begun <= finished <= changed,
        begun + 200_000_000 <= u64::MAX,
    ensures
        ({
            let until = (begun + 200_000_000) as u64;
            let after = UpdatePosState::Updating { suppress_layout_until: until }.finished(finished);
            &&& until == begun + LAYOUT_CHANGE_SUPPRESSION
            &&& after.skips_layout_change(changed) <==> changed - begun <= 200_000_000
            &&& !(after is Updating)
        }),
{
}

/// A change of mode during a composition waits with both modes, a change back
/// takes it away, and without a composition nothing waits.
pub proof fn a_change_back_leaves_nothing_waiting(
    pending: Option<PendingInputModeTransition>,
    from: InputMode,
    to: InputMode,
    between: InputMode,
)
    requires
        from != to,
    ensures
        pending_after(None, from, to, true) == Some(PendingInputModeTransition { from, to }),
        pending_after(Some(PendingInputModeTransition { from, to: between }), to, from, true)
            is None,
        pending_after(Some(PendingInputModeTransition { from, to: between }), from, to, true)
            == Some(PendingInputModeTransition { from, to }),
        pending_after(pending, to, to, true) == pending,
        pending_after(pending, from, to, false) is None,
{
}

/// Once the host has ended the composition nothing of it is left and nothing waits
/// for its end, snapshots of it are stale, and the rest of the service stays.
pub proof fn nothing_is_left_of_a_terminated_composition(service: TextServiceView)
    ensures
        ({
            let after = service.terminated();
            let composition = after.composition;
            &&& composition.preview.len() == 0
            &&& composition.suffix.len() == 0
            &&& composition.raw_input.len() == 0
            &&& composition.raw_hiragana.len() == 0
            &&& composition.corresponding_count == 0
            &&& composition.selection_index == 0
            &&& composition.candidates.texts.len() == 0
            &&& composition.state == CompositionState::Inactive
            &&& composition.tip_composition is None
            &&& composition.generation != service.composition.generation
            &&& after.pending_input_mode_transition is None
            &&& !after.pending_composition_cleanup
            &&& after.mode == service.mode
            &&& after.context == service.context
            &&& after.thread_mgr == service.thread_mgr
            &&& after.update_pos_state == service.update_pos_state
            &&& after.backspace_repeat_state == service.backspace_repeat_state
        }),
{
}

/// A service that was never activated holds nothing of the host, has no composition,
/// owes nothing, and reads keys as they are.
pub proof fn a_new_service_holds_and_owes_nothing()
    ensures
        ({
            let service = TextServiceView::new();
            &&& service.thread_mgr is None && service.this is None && service.context is None
            &&& !service.dll_ref_held && !service.key_event_sink_advised
            &&& !service.lang_bar_added && service.preserved_input_mode_keys == 0
            &&& service.thread_mgr_event_cookie is None && service.text_layout_cookie is None
            &&& service.text_layout_context is None && service.display_attribute_atom is None
            &&& service.open_close_cookie is None && service.conversion_mode_cookie is None
            &&& !service.composition.is_active() && service.composition.preview.len() == 0
            &&& service.update_pos_state is Idle
            &&& service.backspace_repeat_state.pending_count == 0
            &&& service.backspace_repeat_state.last_batch_started_at is None
            &&& service.mode is Latin && !service.compartment_write_in_progress
            &&& service.pending_input_mode_transition is None
            &&& !service.pending_composition_cleanup
        }),
{
}

/// What is missing is told by its name.
pub proof fn what_is_missing_is_named(handle: MissingHandle)
    ensures
        handle is This ==> handle.text() == "this is null"@,
        handle is ThreadMgr ==> handle.text() == "Thread manager is null"@,
        handle is Context ==> handle.text() == "Context is null"@,
{
}

} // verus!
