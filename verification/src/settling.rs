//! Bringing the service back to a state without a composition.
//!
//! A composition can be left over after a failure or after the mode was changed
//! from outside. Settling it ends the host's range, drops what the service keeps
//! of it, and clears what the server and the window show of it.

use vstd::prelude::*;

use crate::composition::CompositionState;
use crate::effects::{Effect, EffectView, Reply, ReplyView};
use crate::text_service::{TextService, TextServiceView};

verus! {

/// Why a composition is settled.
#[derive(Clone, Copy, Debug, PartialEq, Eq, Structural)]
pub enum SettlePurpose {
    /// The host has ended the composition.
    HostEnded,
    /// The actions of a key have failed.
    FailedAction { started_composition: bool },
    /// An earlier attempt after a failure did not succeed.
    PendingCleanup,
    /// The mode was changed from outside.
    PendingMode,
}

/// The outside work that settling waits for.
#[derive(Clone, Copy, Debug, PartialEq, Eq, Structural)]
pub enum SettleStage {
    EndingComposition,
    FindingServer,
    HidingWindow,
    ClearingText,
}

/// A composition being settled.
#[derive(Clone, Copy, Debug, PartialEq, Eq, Structural)]
pub struct Settling {
    pub purpose: SettlePurpose,
    pub stage: SettleStage,
}

/// What came of settling.
#[derive(Clone, Copy, Debug, PartialEq, Eq, Structural)]
pub enum Settled {
    /// Nothing was left to settle.
    Nothing,
    Done,
    /// The host's range could not be ended.
    Failed,
}

/// What settling does next.
#[derive(Clone, Copy, Debug, PartialEq, Eq, Structural)]
pub enum SettleNext {
    Waiting(Settling),
    Finished(Settled),
}

impl Settling {
    /// The outside work that is waited for.
    pub open spec fn awaited(self) -> EffectView {
        match self.stage {
            SettleStage::EndingComposition => EffectView::EndComposition,
            SettleStage::FindingServer => EffectView::SnapshotIpc,
            SettleStage::HidingWindow => EffectView::HideWindow,
            SettleStage::ClearingText => EffectView::ClearText,
        }
    }

    /// Returns the outside work that is waited for.
    pub fn effect(&self) -> (effect: Effect)
        ensures
            effect@ == self.awaited(),
    {
        match self.stage {
            SettleStage::EndingComposition => Effect::EndComposition,
            SettleStage::FindingServer => Effect::SnapshotIpc,
            SettleStage::HidingWindow => Effect::HideWindow,
            SettleStage::ClearingText => Effect::ClearText,
        }
    }
}

/// Waits for the outside work of a stage.
pub open spec fn waiting(purpose: SettlePurpose, stage: SettleStage) -> SettleNext {
    SettleNext::Waiting(Settling { purpose, stage })
}

impl TextServiceView {
    /// The service with its mark that a clean-up is still owed set or not.
    pub open spec fn with_cleanup(self, pending: bool) -> TextServiceView {
        TextServiceView { pending_composition_cleanup: pending, ..self }
    }

    /// Drops the composition, and goes on to clear the server and the window.
    pub open spec fn terminating(self, purpose: SettlePurpose) -> (TextServiceView, SettleNext) {
        (self.terminated(), waiting(purpose, SettleStage::FindingServer))
    }

    /// Begins to settle. The mark that a clean-up is owed is set before anything
    /// can fail.
    pub open spec fn settle_begun(self, purpose: SettlePurpose) -> (TextServiceView, SettleNext) {
        match purpose {
            SettlePurpose::HostEnded => self.terminating(purpose),
            SettlePurpose::FailedAction { started_composition } => {
                if self.composition.is_active() || started_composition {
                    (
                        self.with_cleanup(true),
                        waiting(purpose, SettleStage::EndingComposition),
                    )
                } else {
                    (self.with_cleanup(false), SettleNext::Finished(Settled::Done))
                }
            },
            SettlePurpose::PendingCleanup => if self.pending_composition_cleanup {
                (self, waiting(purpose, SettleStage::EndingComposition))
            } else {
                (self, SettleNext::Finished(Settled::Nothing))
            },
            SettlePurpose::PendingMode => if self.pending_input_mode_transition is None {
                (self, SettleNext::Finished(Settled::Nothing))
            } else if self.composition.tip_composition is Some {
                (self, waiting(purpose, SettleStage::EndingComposition))
            } else {
                self.settle_ended(purpose)
            },
        }
    }

    /// Goes on after the host's range has been ended. Where the host has not
    /// reported the end, the composition is dropped here.
    pub open spec fn settle_ended(self, purpose: SettlePurpose) -> (TextServiceView, SettleNext) {
        if purpose is PendingMode || purpose is HostEnded {
            if self.pending_input_mode_transition is Some {
                self.terminating(purpose)
            } else {
                (self, SettleNext::Finished(Settled::Done))
            }
        } else if self.composition.is_active() {
            self.terminating(purpose)
        } else {
            (self.with_cleanup(false), SettleNext::Finished(Settled::Done))
        }
    }

    /// Goes on after the server and the window have been cleared.
    pub open spec fn settle_cleared(self, purpose: SettlePurpose) -> (TextServiceView, SettleNext) {
        if purpose is FailedAction {
            (self.with_cleanup(false), SettleNext::Finished(Settled::Done))
        } else {
            (self, SettleNext::Finished(Settled::Done))
        }
    }

    /// Goes on after a reply. Failures of the server and the window do not
    /// matter.
    pub open spec fn settle_resumed(
        self,
        settling: Settling,
        reply: ReplyView,
    ) -> (TextServiceView, SettleNext) {
        let purpose = settling.purpose;
        match settling.stage {
            SettleStage::EndingComposition => if reply is Done {
                self.settle_ended(purpose)
            } else {
                (self, SettleNext::Finished(Settled::Failed))
            },
            SettleStage::FindingServer => if reply == ReplyView::Ipc(true) {
                (self, waiting(purpose, SettleStage::HidingWindow))
            } else {
                self.settle_cleared(purpose)
            },
            SettleStage::HidingWindow => (self, waiting(purpose, SettleStage::ClearingText)),
            SettleStage::ClearingText => self.settle_cleared(purpose),
        }
    }
}

impl TextService {
    fn settle_terminate(&mut self, purpose: SettlePurpose) -> (next: SettleNext)
        ensures
            (final(self)@, next) == old(self)@.terminating(purpose),
    {
        self.terminate_composition();
        SettleNext::Waiting(Settling { purpose, stage: SettleStage::FindingServer })
    }

    fn settle_after_end(&mut self, purpose: SettlePurpose) -> (next: SettleNext)
        ensures
            (final(self)@, next) == old(self)@.settle_ended(purpose),
    {
        match purpose {
            SettlePurpose::PendingMode | SettlePurpose::HostEnded => {
                if self.pending_input_mode_transition.is_some() {
                    self.settle_terminate(purpose)
                } else {
                    SettleNext::Finished(Settled::Done)
                }
            },
            _ => {
                if self.composition.is_active() {
                    self.settle_terminate(purpose)
                } else {
                    self.pending_composition_cleanup = false;
                    SettleNext::Finished(Settled::Done)
                }
            },
        }
    }

    fn settle_after_clear(&mut self, purpose: SettlePurpose) -> (next: SettleNext)
        ensures
            (final(self)@, next) == old(self)@.settle_cleared(purpose),
    {
        if matches!(purpose, SettlePurpose::FailedAction { .. }) {
            self.pending_composition_cleanup = false;
        }
        SettleNext::Finished(Settled::Done)
    }

    /// Begins to settle the composition.
    pub fn settle(&mut self, purpose: SettlePurpose) -> (next: SettleNext)
        ensures
            (final(self)@, next) == old(self)@.settle_begun(purpose),
    {
        match purpose {
            SettlePurpose::HostEnded => self.settle_terminate(purpose),
            SettlePurpose::FailedAction { started_composition } => {
                self.pending_composition_cleanup = true;
                if self.composition.is_active() || started_composition {
                    SettleNext::Waiting(
                        Settling { purpose, stage: SettleStage::EndingComposition },
                    )
                } else {
                    self.pending_composition_cleanup = false;
                    SettleNext::Finished(Settled::Done)
                }
            },
            SettlePurpose::PendingCleanup => {
                if self.pending_composition_cleanup {
                    SettleNext::Waiting(
                        Settling { purpose, stage: SettleStage::EndingComposition },
                    )
                } else {
                    SettleNext::Finished(Settled::Nothing)
                }
            },
            SettlePurpose::PendingMode => {
                if self.pending_input_mode_transition.is_none() {
                    SettleNext::Finished(Settled::Nothing)
                } else if self.composition.tip_composition.is_some() {
                    SettleNext::Waiting(
                        Settling { purpose, stage: SettleStage::EndingComposition },
                    )
                } else {
                    self.settle_after_end(purpose)
                }
            },
        }
    }

    /// Goes on settling after a reply.
    pub fn resume_settling(&mut self, settling: Settling, reply: &Reply) -> (next: SettleNext)
        ensures
            (final(self)@, next) == old(self)@.settle_resumed(settling, reply@),
    {
        match settling.stage {
            SettleStage::EndingComposition => match reply {
                Reply::Done => self.settle_after_end(settling.purpose),
                _ => SettleNext::Finished(Settled::Failed),
            },
            SettleStage::FindingServer => match reply {
                Reply::Ipc(true) => SettleNext::Waiting(
                    Settling { purpose: settling.purpose, stage: SettleStage::HidingWindow },
                ),
                _ => self.settle_after_clear(settling.purpose),
            },
            SettleStage::HidingWindow => SettleNext::Waiting(
                Settling { purpose: settling.purpose, stage: SettleStage::ClearingText },
            ),
            SettleStage::ClearingText => self.settle_after_clear(settling.purpose),
        }
    }
}

/// A failed attempt to settle leaves the service as it was, so that the next key
/// tries again.
pub proof fn a_failed_attempt_is_retried(
    service: TextServiceView,
    settling: Settling,
    reply: ReplyView,
)
    requires
        service.settle_resumed(settling, reply).1 == SettleNext::Finished(Settled::Failed),
    ensures
        service.settle_resumed(settling, reply).0 == service,
{
}

/// After a failed action the clean-up is owed from the first step on: it stays
/// marked as owed where the host's range cannot be ended.
pub proof fn cleanup_is_owed_until_it_succeeds(service: TextServiceView, started: bool)
    requires
        service.composition.is_active() || started,
    ensures
        ({
            let purpose = SettlePurpose::FailedAction { started_composition: started };
            let (begun, next) = service.settle_begun(purpose);
            let (after, result) = begun.settle_resumed(
                Settling { purpose, stage: SettleStage::EndingComposition },
                ReplyView::Failed,
            );
            &&& next == waiting(purpose, SettleStage::EndingComposition)
            &&& result == SettleNext::Finished(Settled::Failed)
            &&& after.pending_composition_cleanup
        }),
{
}

/// Once a clean-up has gone on past the host's range, no composition is left and
/// none is owed a clean-up.
pub proof fn a_settled_service_has_no_composition(
    service: TextServiceView,
    purpose: SettlePurpose,
)
    requires
        purpose is FailedAction || purpose is PendingCleanup,
    ensures
        !service.settle_ended(purpose).0.composition.is_active(),
        !service.settle_ended(purpose).0.pending_composition_cleanup,
{
}

/// Once a pending mode change has gone on past the host's range, none is pending.
pub proof fn a_settled_mode_change_is_no_longer_pending(service: TextServiceView)
    ensures
        service.settle_ended(SettlePurpose::PendingMode).0.pending_input_mode_transition is None,
{
}

/// A composition that is left over after a failure is dropped once the host's range
/// is closed, whether or not the host reports it; then, with a server, the window
/// is hidden and the server is cleared, whatever comes of that. The mode and the
/// context stay.
pub proof fn a_leftover_composition_is_cleared(
    service: TextServiceView,
    purpose: SettlePurpose,
    hide_reply: ReplyView,
    clear_reply: ReplyView,
)
    requires
        purpose is FailedAction || purpose is PendingCleanup,
        service.composition.tip_composition is Some || service.composition.state
            != CompositionState::Inactive,
    ensures
        ({
            let ending = Settling { purpose, stage: SettleStage::EndingComposition };
            let (ended, finding) = service.settle_resumed(ending, ReplyView::Done);
            let (found, hiding) = ended.settle_resumed(finding->Waiting_0, ReplyView::Ipc(true));
            let (hidden, clearing) = found.settle_resumed(hiding->Waiting_0, hide_reply);
            let (cleared, last) = hidden.settle_resumed(clearing->Waiting_0, clear_reply);
            let (offline, unreachable) = ended.settle_resumed(
                finding->Waiting_0,
                ReplyView::Ipc(false),
            );
            &&& ending.awaited() is EndComposition
            &&& finding is Waiting && finding->Waiting_0.awaited() is SnapshotIpc
            &&& hiding is Waiting && hiding->Waiting_0.awaited() is HideWindow
            &&& clearing is Waiting && clearing->Waiting_0.awaited() is ClearText
            &&& last == SettleNext::Finished(Settled::Done)
            &&& unreachable == SettleNext::Finished(Settled::Done)
            &&& offline == cleared
            &&& cleared.composition.tip_composition is None
            &&& cleared.composition.state == CompositionState::Inactive
            &&& cleared.composition.preview.len() == 0
            &&& cleared.composition.generation != service.composition.generation
            &&& !cleared.pending_composition_cleanup
            &&& cleared.pending_input_mode_transition is None
            &&& cleared.mode == service.mode
            &&& cleared.context == service.context
        }),
{
}

/// Settling begins with the host's range where one may be left: after actions that
/// failed with a composition, before a key while a clean-up is owed, and before a
/// key while a mode change waits and the host holds a range. Where none of that is
/// so, nothing is asked for and the service stays.
pub proof fn settling_begins_with_the_range(service: TextServiceView, started: bool)
    ensures
        ({
            let purpose = SettlePurpose::FailedAction { started_composition: started };
            let (begun, next) = service.settle_begun(purpose);
            let is_active = service.composition.tip_composition is Some
                || service.composition.state != CompositionState::Inactive;
            &&& is_active || started ==> next is Waiting && next->Waiting_0.awaited()
                is EndComposition && next->Waiting_0.purpose == purpose
                && begun.pending_composition_cleanup
            &&& !is_active && !started ==> next == SettleNext::Finished(Settled::Done)
                && !begun.pending_composition_cleanup
            &&& begun.composition == service.composition
        }),
        ({
            let (begun, next) = service.settle_begun(SettlePurpose::PendingCleanup);
            &&& begun == service
            &&& service.pending_composition_cleanup ==> next is Waiting
                && next->Waiting_0.awaited() is EndComposition
                && next->Waiting_0.purpose is PendingCleanup
            &&& !service.pending_composition_cleanup ==> next == SettleNext::Finished(
                Settled::Nothing,
            )
        }),
        ({
            let (begun, next) = service.settle_begun(SettlePurpose::PendingMode);
            let is_pending = service.pending_input_mode_transition is Some;
            &&& is_pending && service.composition.tip_composition is Some ==> begun == service
                && next is Waiting && next->Waiting_0.awaited() is EndComposition
                && next->Waiting_0.purpose is PendingMode
            &&& is_pending && service.composition.tip_composition is None ==> next is Waiting
                && next->Waiting_0.awaited() is SnapshotIpc
                && begun.pending_input_mode_transition is None && begun.composition.state
                == CompositionState::Inactive
            &&& !is_pending ==> begun == service && next == SettleNext::Finished(Settled::Nothing)
        }),
        ({
            let (begun, next) = service.settle_begun(SettlePurpose::HostEnded);
            &&& next is Waiting && next->Waiting_0.awaited() is SnapshotIpc
            &&& begun.composition.tip_composition is None
            &&& begun.composition.state == CompositionState::Inactive
            &&& begun.composition.preview.len() == 0
        }),
{
}

/// A range that the host does not close leaves everything as it is, whatever it was
/// closed for.
pub proof fn an_open_range_leaves_everything(
    service: TextServiceView,
    purpose: SettlePurpose,
    reply: ReplyView,
)
    requires
        !(reply is Done),
    ensures
        service.settle_resumed(
            Settling { purpose, stage: SettleStage::EndingComposition },
            reply,
        ) == (service, SettleNext::Finished(Settled::Failed)),
{
}

} // verus!
