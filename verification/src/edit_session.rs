//! What is done to the host's text, as scripts of range operations.
//!
//! An edit session hands the service a range of the host's text. The scripts
//! here say what is done to it; the host's objects carry them out one by one.

use vstd::prelude::*;

use crate::key_handling::TextServiceFactory;
use crate::text::{encode_utf16, joined, utf16_units};
use crate::text_service::{HostError, MissingHandle, TextServiceView, UpdatePosState,
    LAYOUT_CHANGE_SUPPRESSION};

verus! {

/// The flag of a synchronous session.
pub const TF_ES_SYNC: u32 = 0x1;

/// The flag of a session that reads.
pub const TF_ES_READ: u32 = 0x2;

/// The flag of a session that reads and writes.
pub const TF_ES_READWRITE: u32 = 0x6;

/// The flag of a session that may run later.
pub const TF_ES_ASYNC: u32 = 0x8;

/// The active end of a selection is its start.
pub const TF_AE_START: i32 = 1;

/// What kind of session is asked for.
#[derive(Clone, Copy, Debug, PartialEq, Eq, Structural)]
pub enum SessionKind {
    /// Reads now.
    Read,
    /// Reads and writes now.
    ReadWrite,
    /// Reads, perhaps later: the only kind that may be asked for while the host
    /// reports a layout change.
    Detached,
}

/// Returns the flags of a session.
pub fn session_flags(kind: SessionKind) -> (flags: u32)
    ensures
        flags == match kind {
            SessionKind::Read => 3u32,
            SessionKind::ReadWrite => 7u32,
            SessionKind::Detached => 10u32,
        },
{
    assert(0x2u32 | 0x1u32 == 3) by (bit_vector);
    assert(0x6u32 | 0x1u32 == 7) by (bit_vector);
    assert(0x2u32 | 0x8u32 == 10) by (bit_vector);
    match kind {
        SessionKind::Read => TF_ES_READ | TF_ES_SYNC,
        SessionKind::ReadWrite => TF_ES_READWRITE | TF_ES_SYNC,
        SessionKind::Detached => TF_ES_READ | TF_ES_ASYNC,
    }
}

/// Takes the result of a synchronous session. A negative code is a failure, and
/// so is a session that was accepted but did not run.
pub fn take_sync_result<T>(session_result: i32, callback_result: Option<T>) -> (result: Result<
    T,
    HostError,
>)
    ensures
        result == if session_result < 0 {
            Err::<T, HostError>(HostError::Refused(session_result))
        } else {
            match callback_result {
                Some(value) => Ok(value),
                None => Err(HostError::NotRun),
            }
        },
{
    if session_result < 0 {
        return Err(HostError::Refused(session_result));
    }
    match callback_result {
        Some(value) => Ok(value),
        None => Err(HostError::NotRun),
    }
}

/// Takes the result of a detached session: a negative code is a failure.
pub fn take_detached_result(session_result: i32) -> (result: Result<(), HostError>)
    ensures
        result == if session_result < 0 {
            Err::<(), HostError>(HostError::Refused(session_result))
        } else {
            Ok(())
        },
{
    if session_result < 0 {
        Err(HostError::Refused(session_result))
    } else {
        Ok(())
    }
}

/// One operation of a script. There are two ranges: the whole one, and a part of
/// it.
#[derive(Debug, PartialEq, Eq)]
pub enum RangeOp<T = Vec<u16>> {
    /// Take the range of the composition.
    TakeRange,
    /// Remove the display attribute from the range.
    ClearAttribute,
    /// Replace the text of the range.
    SetText(T),
    /// Take a copy of the range as the part.
    TakePart,
    /// Collapse the part to its start.
    CollapsePartToStart,
    /// Move the end of the part by so many code units.
    ExtendPart(i32),
    /// Give the part the display attribute.
    MarkPart(i32),
    /// Give the range the display attribute.
    MarkRange(i32),
    /// Collapse the range to its start.
    CollapseToStart,
    /// Collapse the range to its end.
    CollapseToEnd,
    /// Move the start of the range by so many code units.
    MoveStart(i32),
    /// Move the end of the range by so many code units.
    MoveEnd(i32),
    /// Let the composition start where the range does.
    MoveCompositionStart,
    /// Put the caret at the range.
    Select,
    /// End the composition.
    EndComposition,
}

impl View for RangeOp<Vec<u16>> {
    type V = RangeOp<Seq<u16>>;

    open spec fn view(&self) -> RangeOp<Seq<u16>> {
        match self {
            RangeOp::TakeRange => RangeOp::TakeRange,
            RangeOp::ClearAttribute => RangeOp::ClearAttribute,
            RangeOp::SetText(units) => RangeOp::SetText(units@),
            RangeOp::TakePart => RangeOp::TakePart,
            RangeOp::CollapsePartToStart => RangeOp::CollapsePartToStart,
            RangeOp::ExtendPart(count) => RangeOp::ExtendPart(*count),
            RangeOp::MarkPart(attribute) => RangeOp::MarkPart(*attribute),
            RangeOp::MarkRange(attribute) => RangeOp::MarkRange(*attribute),
            RangeOp::CollapseToStart => RangeOp::CollapseToStart,
            RangeOp::CollapseToEnd => RangeOp::CollapseToEnd,
            RangeOp::MoveStart(count) => RangeOp::MoveStart(*count),
            RangeOp::MoveEnd(count) => RangeOp::MoveEnd(*count),
            RangeOp::MoveCompositionStart => RangeOp::MoveCompositionStart,
            RangeOp::Select => RangeOp::Select,
            RangeOp::EndComposition => RangeOp::EndComposition,
        }
    }
}

/// A script, with its texts as sequences of code units.
pub open spec fn ops_view(ops: Seq<RangeOp>) -> Seq<RangeOp<Seq<u16>>> {
    ops.map_values(|op: RangeOp| op@)
}

/// A count of code units, at most the largest `i32`.
pub open spec fn capped(count: nat) -> i32 {
    if count <= i32::MAX {
        count as i32
    } else {
        i32::MAX
    }
}

/// Caps a count of code units.
pub fn cap(count: usize) -> (capped_count: i32)
    ensures
        capped_count == capped(count as nat),
{
    if count <= i32::MAX as usize {
        count as i32
    } else {
        i32::MAX
    }
}

/// The operation that gives text the display attribute, where there is one.
pub open spec fn marking(
    attribute: Option<u32>,
    mark: spec_fn(i32) -> RangeOp<Seq<u16>>,
) -> Seq<RangeOp<Seq<u16>>> {
    match attribute {
        Some(atom) => seq![mark(atom as i32)],
        None => Seq::empty(),
    }
}

/// The script that shows `text`, marked, with `subtext` behind it, and leaves
/// the caret at the end.
pub open spec fn set_text_script(
    text: Seq<char>,
    subtext: Seq<char>,
    attribute: Option<u32>,
) -> Seq<RangeOp<Seq<u16>>> {
    seq![
        RangeOp::TakeRange,
        RangeOp::SetText(encode_utf16(text + subtext)),
        RangeOp::TakePart,
        RangeOp::CollapsePartToStart,
        RangeOp::ExtendPart(capped(encode_utf16(text).len())),
    ] + marking(attribute, |atom: i32| RangeOp::MarkPart(atom)) + seq![
        RangeOp::CollapseToEnd,
        RangeOp::Select,
    ]
}

/// The script that leaves `text` behind as committed and shows `subtext`,
/// marked.
pub open spec fn shift_start_script(
    text: Seq<char>,
    subtext: Seq<char>,
    attribute: Option<u32>,
) -> Seq<RangeOp<Seq<u16>>> {
    seq![
        RangeOp::TakeRange,
        RangeOp::ClearAttribute,
        RangeOp::CollapseToStart,
        RangeOp::MoveStart(capped(encode_utf16(text).len())),
        RangeOp::MoveCompositionStart,
        RangeOp::TakeRange,
        RangeOp::SetText(encode_utf16(subtext)),
    ] + marking(attribute, |atom: i32| RangeOp::MarkRange(atom)) + seq![
        RangeOp::CollapseToEnd,
        RangeOp::Select,
    ]
}

/// The script that ends a composition: its text stays, without the display
/// attribute, and the caret is behind it.
pub open spec fn end_script() -> Seq<RangeOp<Seq<u16>>> {
    seq![
        RangeOp::TakeRange,
        RangeOp::ClearAttribute,
        RangeOp::CollapseToEnd,
        RangeOp::Select,
        RangeOp::EndComposition,
    ]
}

/// A script for the composition of a context.
#[derive(Debug)]
pub struct EditPlan {
    pub tid: u32,
    pub context: u64,
    pub composition: u64,
    pub ops: Vec<RangeOp>,
}

/// The contents of an `EditPlan`.
#[verifier::ext_equal]
pub struct EditPlanView {
    pub tid: u32,
    pub context: u64,
    pub composition: u64,
    pub ops: Seq<RangeOp<Seq<u16>>>,
}

impl View for EditPlan {
    type V = EditPlanView;

    open spec fn view(&self) -> EditPlanView {
        EditPlanView {
            tid: self.tid,
            context: self.context,
            composition: self.composition,
            ops: ops_view(self.ops@),
        }
    }
}

/// How an executable plan is read in contracts.
pub open spec fn plan_view(plan: Result<Option<EditPlan>, HostError>) -> Result<
    Option<EditPlanView>,
    HostError,
> {
    match plan {
        Ok(Some(plan)) => Ok(Some(plan@)),
        Ok(None) => Ok(None),
        Err(error) => Err(error),
    }
}

impl TextServiceView {
    /// A plan for the composition in progress. Without one there is nothing to
    /// do; without a context nothing can be done.
    pub open spec fn plan(self, ops: Seq<RangeOp<Seq<u16>>>) -> Result<
        Option<EditPlanView>,
        HostError,
    > {
        match self.context {
            None => Err(HostError::Missing(MissingHandle::Context)),
            Some(context) => match self.composition.tip_composition {
                None => Ok(None),
                Some(composition) => Ok(
                    Some(EditPlanView { tid: self.tid, context, composition, ops }),
                ),
            },
        }
    }
}

/// How a composition is started.
#[derive(Clone, Copy, Debug, PartialEq, Eq)]
pub enum StartPlan {
    /// There is one already: it is ended instead.
    EndInstead,
    /// Open a range at the caret.
    Open { tid: u32, context: u64 },
    Failed(HostError),
}

fn push_mark_part(ops: &mut Vec<RangeOp>, attribute: Option<u32>)
    ensures
        ops_view(final(ops)@) == ops_view(old(ops)@) + marking(
            attribute,
            |atom: i32| RangeOp::MarkPart(atom),
        ),
{
    if let Some(atom) = attribute {
        ops.push(RangeOp::MarkPart(atom as i32));
    }
    assert(ops_view(ops@) =~= ops_view(old(ops)@) + marking(
        attribute,
        |atom: i32| RangeOp::MarkPart(atom),
    ));
}

fn push_mark_range(ops: &mut Vec<RangeOp>, attribute: Option<u32>)
    ensures
        ops_view(final(ops)@) == ops_view(old(ops)@) + marking(
            attribute,
            |atom: i32| RangeOp::MarkRange(atom),
        ),
{
    if let Some(atom) = attribute {
        ops.push(RangeOp::MarkRange(atom as i32));
    }
    assert(ops_view(ops@) =~= ops_view(old(ops)@) + marking(
        attribute,
        |atom: i32| RangeOp::MarkRange(atom),
    ));
}

impl TextServiceFactory {
    fn plan_of(&self, ops: Vec<RangeOp>) -> (plan: Result<Option<EditPlan>, HostError>)
        ensures
            plan_view(plan) == self@.plan(ops_view(ops@)),
    {
        let context: u64 = match self.text_service.context() {
            Ok(context) => context,
            Err(missing) => return Err(HostError::Missing(missing)),
        };
        match self.text_service.composition.tip_composition {
            None => Ok(None),
            Some(composition) => Ok(
                Some(EditPlan { tid: self.text_service.tid, context, composition, ops }),
            ),
        }
    }

    /// Plans to show `text`, with `subtext` behind it.
    pub fn set_text(&self, text: &str, subtext: &str) -> (plan: Result<
        Option<EditPlan>,
        HostError,
    >)
        ensures
            plan_view(plan) == self@.plan(
                set_text_script(text@, subtext@, self@.display_attribute_atom),
            ),
    {
        let text_len: i32 = cap(utf16_units(text).len());
        let units = utf16_units(joined(text, subtext).as_str());
        let mut ops: Vec<RangeOp> = vec![
            RangeOp::TakeRange,
            RangeOp::SetText(units),
            RangeOp::TakePart,
            RangeOp::CollapsePartToStart,
            RangeOp::ExtendPart(text_len),
        ];
        assert(ops_view(ops@) =~= seq![
            RangeOp::TakeRange,
            RangeOp::SetText(encode_utf16(text@ + subtext@)),
            RangeOp::TakePart,
            RangeOp::CollapsePartToStart,
            RangeOp::ExtendPart(capped(encode_utf16(text@).len())),
        ]);
        push_mark_part(&mut ops, self.text_service.display_attribute_atom);
        ops.push(RangeOp::CollapseToEnd);
        ops.push(RangeOp::Select);
        assert(ops_view(ops@) =~= set_text_script(text@, subtext@, self@.display_attribute_atom));
        self.plan_of(ops)
    }

    /// Plans to leave `text` behind as committed and show `subtext`.
    pub fn shift_start(&self, text: &str, subtext: &str) -> (plan: Result<
        Option<EditPlan>,
        HostError,
    >)
        ensures
            plan_view(plan) == self@.plan(
                shift_start_script(text@, subtext@, self@.display_attribute_atom),
            ),
    {
        let mut ops: Vec<RangeOp> = vec![
            RangeOp::TakeRange,
            RangeOp::ClearAttribute,
            RangeOp::CollapseToStart,
            RangeOp::MoveStart(cap(utf16_units(text).len())),
            RangeOp::MoveCompositionStart,
            RangeOp::TakeRange,
            RangeOp::SetText(utf16_units(subtext)),
        ];
        assert(ops_view(ops@) =~= seq![
            RangeOp::TakeRange,
            RangeOp::ClearAttribute,
            RangeOp::CollapseToStart,
            RangeOp::MoveStart(capped(encode_utf16(text@).len())),
            RangeOp::MoveCompositionStart,
            RangeOp::TakeRange,
            RangeOp::SetText(encode_utf16(subtext@)),
        ]);
        push_mark_range(&mut ops, self.text_service.display_attribute_atom);
        ops.push(RangeOp::CollapseToEnd);
        ops.push(RangeOp::Select);
        assert(ops_view(ops@) =~= shift_start_script(
            text@,
            subtext@,
            self@.display_attribute_atom,
        ));
        self.plan_of(ops)
    }

    /// Plans to end the composition.
    pub fn end_composition(&self) -> (plan: Result<Option<EditPlan>, HostError>)
        ensures
            plan_view(plan) == self@.plan(end_script()),
    {
        let ops: Vec<RangeOp> = vec![
            RangeOp::TakeRange,
            RangeOp::ClearAttribute,
            RangeOp::CollapseToEnd,
            RangeOp::Select,
            RangeOp::EndComposition,
        ];
        assert(ops_view(ops@) =~= end_script());
        self.plan_of(ops)
    }

    /// Forgets the host's range, once it has been ended.
    pub fn composition_ended(&mut self)
        ensures
            final(self)@.composition == (crate::composition::CompositionView {
                tip_composition: None,
                ..old(self)@.composition
            }),
            final(self)@ == (TextServiceView {
                composition: final(self)@.composition,
                ..old(self)@
            }),
    {
        self.text_service.composition.tip_composition = None;
    }

    /// Plans to start a composition.
    pub fn start_composition(&self) -> (plan: StartPlan)
        ensures
            plan == if self@.context is None {
                StartPlan::Failed(HostError::Missing(MissingHandle::Context))
            } else if self@.this is None {
                StartPlan::Failed(HostError::Missing(MissingHandle::This))
            } else if self@.composition.tip_composition is Some {
                StartPlan::EndInstead
            } else {
                StartPlan::Open { tid: self@.tid, context: self@.context->0 }
            },
    {
        let context: u64 = match self.text_service.context() {
            Ok(context) => context,
            Err(missing) => return StartPlan::Failed(HostError::Missing(missing)),
        };
        match self.text_service.this() {
            Ok(_) => {},
            Err(missing) => return StartPlan::Failed(HostError::Missing(missing)),
        }
        if self.text_service.composition.tip_composition.is_some() {
            return StartPlan::EndInstead;
        }
        StartPlan::Open { tid: self.text_service.tid, context }
    }

    /// Keeps the range that the host has opened.
    pub fn composition_started(&mut self, composition: u64)
        ensures
            final(self)@.composition == (crate::composition::CompositionView {
                tip_composition: Some(composition),
                ..old(self)@.composition
            }),
            final(self)@ == (TextServiceView {
                composition: final(self)@.composition,
                ..old(self)@
            }),
    {
        self.text_service.composition.tip_composition = Some(composition);
    }
}

/// The whole composition is shown as one text: the marked part and the rest
/// behind it are its code units in a row.
pub proof fn the_marked_part_is_a_prefix(text: Seq<char>, subtext: Seq<char>)
    ensures
        encode_utf16(text).is_prefix_of(encode_utf16(text + subtext)),
        encode_utf16(text + subtext).len() == encode_utf16(text).len() + encode_utf16(
            subtext,
        ).len(),
{
    crate::text::encode_utf16_of_concat(text, subtext);
}

/// Where the position of the candidate window comes from.
#[derive(Clone, Copy, Debug, PartialEq, Eq, Structural)]
pub enum PositionSource {
    /// The range of the composition.
    Composition(u64),
    /// The caret.
    Selection,
}

/// The end that a selection is collapsed to.
#[derive(Clone, Copy, Debug, PartialEq, Eq, Structural)]
pub enum Anchor {
    Start,
    End,
}

/// Finds out where the position comes from.
pub fn position_source(tip_composition: Option<u64>) -> (source: PositionSource)
    ensures
        source == match tip_composition {
            Some(composition) => PositionSource::Composition(composition),
            None => PositionSource::Selection,
        },
{
    match tip_composition {
        Some(composition) => PositionSource::Composition(composition),
        None => PositionSource::Selection,
    }
}

/// Finds the end of a selection where the caret is. There is no position without
/// a selection.
pub fn caret_anchor(fetched: u32, has_range: bool, active_end: i32) -> (anchor: Option<Anchor>)
    ensures
        anchor == if fetched == 0 || !has_range {
            None::<Anchor>
        } else if active_end == TF_AE_START {
            Some(Anchor::Start)
        } else {
            Some(Anchor::End)
        },
{
    if fetched == 0 || !has_range {
        return None;
    }
    if active_end == TF_AE_START {
        Some(Anchor::Start)
    } else {
        Some(Anchor::End)
    }
}

/// A position update: nothing to do, or a detached session to be asked for.
#[derive(Clone, Copy, Debug, PartialEq, Eq)]
pub enum PositionUpdate {
    /// Another update is running.
    Skipped,
    /// There is no composition to be followed.
    Nothing,
    Request { tid: u32, context: u64, composition: u64 },
    Failed(HostError),
}

impl TextServiceView {
    /// What a position update asks for, once it has begun.
    pub open spec fn position_request(self) -> PositionUpdate {
        if self.context is None {
            PositionUpdate::Failed(HostError::Missing(MissingHandle::Context))
        } else if self.this is None {
            PositionUpdate::Failed(HostError::Missing(MissingHandle::This))
        } else {
            match self.composition.tip_composition {
                None => PositionUpdate::Nothing,
                Some(composition) => PositionUpdate::Request {
                    tid: self.tid,
                    context: self.context->0,
                    composition,
                },
            }
        }
    }

    /// The service after a position update has begun.
    pub open spec fn position_begun(self, now: u64) -> TextServiceView {
        TextServiceView {
            update_pos_state: UpdatePosState::Updating {
                suppress_layout_until: (now + LAYOUT_CHANGE_SUPPRESSION) as u64,
            },
            ..self
        }
    }

    /// The service after a position update has ended.
    pub open spec fn position_ended(self, now: u64) -> TextServiceView {
        TextServiceView { update_pos_state: self.update_pos_state.finished(now), ..self }
    }

    /// A position update at `now`. One that asks the host for nothing has ended by
    /// then; any other one runs until its session does.
    pub open spec fn position_updated(self, now: u64) -> (TextServiceView, PositionUpdate) {
        let request = self.position_request();
        if self.update_pos_state is Updating {
            (self, PositionUpdate::Skipped)
        } else if request is Request {
            (self.position_begun(now), request)
        } else {
            (self.position_begun(now).position_ended(now), request)
        }
    }
}

impl TextServiceFactory {
    /// Begins a position update, unless one is running. Without a composition, or
    /// where something is missing for the request, it ends at once.
    pub fn update_pos(&mut self, now: u64) -> (update: PositionUpdate)
        requires
            now + LAYOUT_CHANGE_SUPPRESSION <= u64::MAX,
        ensures
            (final(self)@, update) == old(self)@.position_updated(now),
    {
        if !self.text_service.update_pos_state.try_begin_update(now) {
            return PositionUpdate::Skipped;
        }
        let update = self.request_position();
        if !matches!(update, PositionUpdate::Request { .. }) {
            self.finish_position_update(now);
        }
        update
    }

    fn request_position(&self) -> (update: PositionUpdate)
        ensures
            update == self@.position_request(),
    {
        let context: u64 = match self.text_service.context() {
            Ok(context) => context,
            Err(missing) => return PositionUpdate::Failed(HostError::Missing(missing)),
        };
        match self.text_service.this() {
            Ok(_) => {},
            Err(missing) => return PositionUpdate::Failed(HostError::Missing(missing)),
        }
        match self.text_service.composition.tip_composition {
            None => PositionUpdate::Nothing,
            Some(composition) => PositionUpdate::Request {
                tid: self.text_service.tid,
                context,
                composition,
            },
        }
    }

    /// Ends a position update, whether the session has run, was refused or was
    /// dropped.
    pub fn finish_position_update(&mut self, now: u64)
        ensures
            final(self)@ == old(self)@.position_ended(now),
    {
        self.text_service.update_pos_state.finish_update(now);
    }

    /// Decides whether a layout change starts a position update.
    pub fn layout_changed(&mut self, now: u64) -> (update: bool)
        ensures
            update == !old(self)@.update_pos_state.skips_layout_change(now),
            final(self)@ == if update {
                TextServiceView { update_pos_state: UpdatePosState::Idle, ..old(self)@ }
            } else {
                old(self)@
            },
    {
        !self.text_service.update_pos_state.should_skip_layout_change(now)
    }

    /// Plans to move the mode indicator: the context, and where the position
    /// comes from.
    pub fn update_indicator_pos(&self) -> (plan: Result<(u32, u64, PositionSource), HostError>)
        ensures
            plan == match self@.context {
                None => Err::<(u32, u64, PositionSource), HostError>(
                    HostError::Missing(MissingHandle::Context),
                ),
                Some(context) => Ok(
                    (
                        self@.tid,
                        context,
                        match self@.composition.tip_composition {
                            Some(composition) => PositionSource::Composition(composition),
                            None => PositionSource::Selection,
                        },
                    ),
                ),
            },
    {
        match self.text_service.context() {
            Err(missing) => Err(HostError::Missing(missing)),
            Ok(context) => Ok(
                (
                    self.text_service.tid,
                    context,
                    position_source(self.text_service.composition.tip_composition),
                ),
            ),
        }
    }
}

/// Every position update that begins is released: one that asks the host for
/// nothing at once, and one that asks for a session when that has run, was refused
/// or was dropped, whenever that is.
pub proof fn every_position_update_is_released(service: TextServiceView, now: u64, later: u64)
    ensures
        ({
            let (after, update) = service.position_updated(now);
            match update {
                PositionUpdate::Skipped => after == service,
                PositionUpdate::Request { .. } => {
                    &&& after.update_pos_state is Updating
                    &&& !(after.position_ended(later).update_pos_state is Updating)
                },
                _ => !(after.update_pos_state is Updating),
            }
        }),
{
}

/// The end of a position update, which may be reported more than once: when the
/// session has run and when the host drops it.
#[derive(Debug)]
pub struct UpdatePosCompletion {
    pub pending: bool,
}

impl UpdatePosCompletion {
    /// An update that has not ended.
    pub fn new() -> (completion: UpdatePosCompletion)
        ensures
            completion.pending,
    {
        UpdatePosCompletion { pending: true }
    }

    /// Ends the update, the first time that the service can be reached.
    pub fn finish(&mut self, service: Option<&mut TextServiceFactory>, now: u64)
        ensures
            match service {
                Some(service) => {
                    &&& !final(self).pending
                    &&& final(service)@ == if old(self).pending {
                        service@.position_ended(now)
                    } else {
                        service@
                    }
                },
                None => final(self).pending == old(self).pending,
            },
    {
        if let Some(service) = service {
            if self.pending {
                service.finish_position_update(now);
                self.pending = false;
            }
        }
    }
}

/// A script goes to the range of the composition in progress, in the context of the
/// service and under its id, as it is. Without a composition nothing is done, and
/// without a context that is an error.
pub proof fn an_edit_goes_to_the_composition(
    service: TextServiceView,
    ops: Seq<RangeOp<Seq<u16>>>,
)
    ensures
        service.context is None ==> service.plan(ops) == Err::<Option<EditPlanView>, HostError>(
            HostError::Missing(MissingHandle::Context),
        ),
        service.context is Some && service.composition.tip_composition is None ==> service.plan(ops)
            == Ok::<Option<EditPlanView>, HostError>(None),
        service.context is Some && service.composition.tip_composition is Some ==> ({
            let plan = service.plan(ops);
            &&& plan is Ok && plan->Ok_0 is Some
            &&& plan->Ok_0->0.tid == service.tid
            &&& plan->Ok_0->0.context == service.context->0
            &&& plan->Ok_0->0.composition == service.composition.tip_composition->0
            &&& plan->Ok_0->0.ops == ops
        }),
{
}

/// A position update that begins asks for the range of the composition, and keeps
/// layout changes out for 200 milliseconds; while one is running, another one does
/// nothing. Nothing of the service changes but the state of the update.
pub proof fn a_position_update_follows_the_composition(service: TextServiceView, now: u64)
    requires
        now + 200_000_000 <= u64::MAX,
    ensures
        ({
            let (after, update) = service.position_updated(now);
            let is_running = service.update_pos_state is Updating;
            let can_ask = service.context is Some && service.this is Some;
            &&& is_running ==> after == service && update is Skipped
            &&& !is_running && can_ask && service.composition.tip_composition is Some ==> {
                &&& update == (PositionUpdate::Request {
                    tid: service.tid,
                    context: service.context->0,
                    composition: service.composition.tip_composition->0,
                })
                &&& after.update_pos_state == (UpdatePosState::Updating {
                    suppress_layout_until: (now + 200_000_000) as u64,
                })
            }
            &&& !is_running && can_ask && service.composition.tip_composition is None ==> update
                is Nothing
            &&& !is_running && service.context is None ==> update == PositionUpdate::Failed(
                HostError::Missing(MissingHandle::Context),
            )
            &&& !is_running && service.context is Some && service.this is None ==> update
                == PositionUpdate::Failed(HostError::Missing(MissingHandle::This))
            &&& after == (TextServiceView { update_pos_state: after.update_pos_state, ..service })
        }),
{
}

} // verus!
