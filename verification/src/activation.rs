//! Starting and stopping a text service.

use vstd::prelude::*;

use crate::key_handling::TextServiceFactory;
use crate::text_service::{HostError, MissingHandle, TextServiceView};

verus! {

/// Outside work on the way to an active service.
#[derive(Clone, Copy, Debug, PartialEq, Eq, Structural)]
pub enum ActivationEffect {
    /// Find out whether there is a connection to the server.
    SnapshotIpc,
    ConnectIpc,
    /// Publish the new connection, unless there is one.
    InstallIpc,
    /// Try to connect later, in the background.
    StartReconnect,
    FindKeystrokeManager,
    AddDllRef,
    AdviseKeyEvents,
    /// Reach the library's state, to take the reference on it back.
    ReachLibrary,
    ReleaseDllRef,
    AdviseThreadMgr,
    FindFocus,
    AdviseTextLayout,
    RegisterDisplayAttribute,
    AddLanguageBarItem,
    ActivateCompartments,
}

/// What came of it.
#[derive(Clone, Copy, Debug, PartialEq, Eq, Structural)]
pub enum ActivationReply {
    Done,
    Failed(HostError),
    Ipc(bool),
    Atom(u32),
}

impl ActivationReply {
    /// Why the work failed. A reply of the wrong kind counts as a failure.
    pub open spec fn failure(self) -> HostError {
        match self {
            ActivationReply::Failed(error) => error,
            _ => HostError::Unavailable,
        }
    }

    fn error(self) -> (error: HostError)
        ensures
            error == self.failure(),
    {
        match self {
            ActivationReply::Failed(error) => error,
            _ => HostError::Unavailable,
        }
    }
}

/// A service being activated for a thread manager, under a client id: the work
/// that is waited for. `error` is why an activation is being taken back.
#[derive(Clone, Copy, Debug, PartialEq, Eq, Structural)]
pub struct Activation {
    pub thread_mgr: Option<u64>,
    pub tid: u32,
    pub effect: ActivationEffect,
    pub error: Option<HostError>,
}

/// What activating comes to.
#[derive(Clone, Copy, Debug, PartialEq, Eq)]
pub enum ActivationNext {
    Waiting(Activation),
    Finished(Result<(), HostError>),
}

impl Activation {
    /// The same activation, waiting for something else.
    pub open spec fn at(self, effect: ActivationEffect) -> ActivationNext {
        ActivationNext::Waiting(Activation { effect, ..self })
    }

    fn go_to(self, effect: ActivationEffect) -> (next: ActivationNext)
        ensures
            next == self.at(effect),
    {
        ActivationNext::Waiting(Activation { effect, ..self })
    }

    /// The end of an activation that was taken back.
    pub open spec fn taken_back(self) -> ActivationNext {
        ActivationNext::Finished(
            Err(
                match self.error {
                    Some(error) => error,
                    None => HostError::Unavailable,
                },
            ),
        )
    }

    fn give_up(self) -> (next: ActivationNext)
        ensures
            next == self.taken_back(),
    {
        ActivationNext::Finished(
            Err(
                match self.error {
                    Some(error) => error,
                    None => HostError::Unavailable,
                },
            ),
        )
    }
}

impl TextServiceView {
    /// Whether the service holds anything that an activation registers.
    pub open spec fn is_registered(self) -> bool {
        self.dll_ref_held || self.key_event_sink_advised || self.thread_mgr_event_cookie is Some
            || self.text_layout_cookie is Some || self.lang_bar_added || self.open_close_cookie
            is Some || self.conversion_mode_cookie is Some
    }

    /// The service with the marks of an activation, which are set before the
    /// host is asked.
    pub open spec fn claimed(self, thread_mgr: u64, tid: u32) -> TextServiceView {
        TextServiceView {
            tid,
            thread_mgr: Some(thread_mgr),
            dll_ref_held: true,
            key_event_sink_advised: true,
            ..self
        }
    }

    /// The service without the marks of an activation.
    pub open spec fn unclaimed(self) -> TextServiceView {
        TextServiceView {
            tid: 0,
            thread_mgr: None,
            dll_ref_held: false,
            key_event_sink_advised: false,
            ..self
        }
    }

    /// Goes on once the connection to the server has been seen to.
    pub open spec fn connection_settled(self, activation: Activation) -> ActivationNext {
        if activation.thread_mgr is None {
            ActivationNext::Finished(Err(HostError::Missing(MissingHandle::ThreadMgr)))
        } else {
            activation.at(ActivationEffect::FindKeystrokeManager)
        }
    }

    /// Goes on after a reply. The connection and everything after the keys are
    /// best effort; a failure up to the keys takes the activation back.
    pub open spec fn activation_resumed(
        self,
        activation: Activation,
        reply: ActivationReply,
    ) -> (TextServiceView, ActivationNext) {
        match activation.effect {
            ActivationEffect::SnapshotIpc => if reply == ActivationReply::Ipc(true) {
                (self, self.connection_settled(activation))
            } else {
                (self, activation.at(ActivationEffect::ConnectIpc))
            },
            ActivationEffect::ConnectIpc => if reply is Done {
                (self, activation.at(ActivationEffect::InstallIpc))
            } else {
                (self, activation.at(ActivationEffect::StartReconnect))
            },
            ActivationEffect::InstallIpc => if reply is Failed {
                (self, activation.at(ActivationEffect::StartReconnect))
            } else {
                (self, self.connection_settled(activation))
            },
            ActivationEffect::StartReconnect => (self, self.connection_settled(activation)),
            ActivationEffect::FindKeystrokeManager => match (activation.thread_mgr, reply) {
                (Some(thread_mgr), ActivationReply::Done) => if self.this is None {
                    (self, ActivationNext::Finished(Err(HostError::Missing(MissingHandle::This))))
                } else if self.is_registered() {
                    (self, ActivationNext::Finished(Err(HostError::AlreadyActive)))
                } else {
                    (
                        self.claimed(thread_mgr, activation.tid),
                        activation.at(ActivationEffect::AddDllRef),
                    )
                },
                _ => (self, ActivationNext::Finished(Err(reply.failure()))),
            },
            ActivationEffect::AddDllRef => if reply is Done {
                (self, activation.at(ActivationEffect::AdviseKeyEvents))
            } else {
                (self.unclaimed(), ActivationNext::Finished(Err(reply.failure())))
            },
            ActivationEffect::AdviseKeyEvents => if reply is Done {
                (self, activation.at(ActivationEffect::AdviseThreadMgr))
            } else {
                (
                    self,
                    ActivationNext::Waiting(
                        Activation {
                            effect: ActivationEffect::ReachLibrary,
                            error: Some(reply.failure()),
                            ..activation
                        },
                    ),
                )
            },
            ActivationEffect::ReachLibrary => if reply is Done {
                (self.unclaimed(), activation.at(ActivationEffect::ReleaseDllRef))
            } else {
                (self, activation.taken_back())
            },
            ActivationEffect::ReleaseDllRef => (self, activation.taken_back()),
            ActivationEffect::AdviseThreadMgr => {
                (self, activation.at(ActivationEffect::FindFocus))
            },
            ActivationEffect::FindFocus => if reply is Done {
                (self, activation.at(ActivationEffect::AdviseTextLayout))
            } else {
                (self, activation.at(ActivationEffect::RegisterDisplayAttribute))
            },
            ActivationEffect::AdviseTextLayout => {
                (self, activation.at(ActivationEffect::RegisterDisplayAttribute))
            },
            ActivationEffect::RegisterDisplayAttribute => (
                match reply {
                    ActivationReply::Atom(atom) => TextServiceView {
                        display_attribute_atom: Some(atom),
                        ..self
                    },
                    _ => self,
                },
                activation.at(ActivationEffect::AddLanguageBarItem),
            ),
            ActivationEffect::AddLanguageBarItem => {
                (self, activation.at(ActivationEffect::ActivateCompartments))
            },
            ActivationEffect::ActivateCompartments => (self, ActivationNext::Finished(Ok(()))),
        }
    }

    /// Whether the host still holds anything of the service.
    pub open spec fn has_live_resources(self) -> bool {
        self.composition.tip_composition is Some || self.key_event_sink_advised
            || self.thread_mgr_event_cookie is Some || self.text_layout_cookie is Some
            || self.lang_bar_added || self.open_close_cookie is Some
            || self.conversion_mode_cookie is Some
    }

    /// The service after everything was taken back: nothing of a composition, of
    /// a context or of a registration is left for a later activation to inherit.
    pub open spec fn deactivated(self) -> TextServiceView {
        TextServiceView {
            composition: self.composition.reset(),
            display_attribute_atom: None,
            context: None,
            thread_mgr_event_cookie: None,
            text_layout_context: None,
            text_layout_cookie: None,
            key_event_sink_advised: false,
            lang_bar_added: false,
            open_close_cookie: None,
            conversion_mode_cookie: None,
            pending_input_mode_transition: None,
            pending_composition_cleanup: false,
            compartment_write_in_progress: false,
            tid: 0,
            thread_mgr: None,
            ..self
        }
    }

    /// Goes on clearing the service after a reply. Where there is a connection, the
    /// server's session and the window are seen to first; what comes of that stops
    /// nothing.
    pub open spec fn clearing_resumed(self, clearing: Clearing, reply: ClearingReply) -> (
        TextServiceView,
        ClearingNext,
    ) {
        match (clearing, reply) {
            (Clearing::FindingServer, ClearingReply::Ipc(true)) => {
                (self, ClearingNext::Waiting(Clearing::MarkingSession))
            },
            (Clearing::MarkingSession, _) => {
                (self, ClearingNext::Waiting(Clearing::HidingWindow))
            },
            _ => (self.deactivated(), ClearingNext::Finished { cleared: true }),
        }
    }
}

/// Outside work before an unused service is cleared.
#[derive(Clone, Copy, Debug, PartialEq, Eq, Structural)]
pub enum Clearing {
    /// Find out whether there is a connection to the server.
    FindingServer,
    /// Have the next request that depends on the server's session start it anew.
    MarkingSession,
    /// Hide the candidate window.
    HidingWindow,
}

/// What came of it.
#[derive(Clone, Copy, Debug, PartialEq, Eq, Structural)]
pub enum ClearingReply {
    Ipc(bool),
    Done,
    Failed,
}

/// What clearing comes to.
#[derive(Clone, Copy, Debug, PartialEq, Eq, Structural)]
pub enum ClearingNext {
    Waiting(Clearing),
    Finished { cleared: bool },
}

impl TextServiceFactory {
    /// Begins to activate the service.
    pub fn activate(&self, thread_mgr: Option<u64>, tid: u32) -> (next: ActivationNext)
        ensures
            next == ActivationNext::Waiting(
                Activation {
                    thread_mgr,
                    tid,
                    effect: ActivationEffect::SnapshotIpc,
                    error: None,
                },
            ),
    {
        ActivationNext::Waiting(
            Activation { thread_mgr, tid, effect: ActivationEffect::SnapshotIpc, error: None },
        )
    }

    fn settle_connection(&self, activation: Activation) -> (next: ActivationNext)
        ensures
            next == self@.connection_settled(activation),
    {
        if activation.thread_mgr.is_none() {
            ActivationNext::Finished(Err(HostError::Missing(MissingHandle::ThreadMgr)))
        } else {
            activation.go_to(ActivationEffect::FindKeystrokeManager)
        }
    }

    fn holds_registrations(&self) -> (holds: bool)
        ensures
            holds == self@.is_registered(),
    {
        let service = &self.text_service;
        service.dll_ref_held || service.key_event_sink_advised
            || service.thread_mgr_event_cookie.is_some() || service.text_layout_cookie.is_some()
            || service.lang_bar_added || service.open_close_cookie.is_some()
            || service.conversion_mode_cookie.is_some()
    }

    fn claim(&mut self, activation: Activation, thread_mgr: u64) -> (next: ActivationNext)
        requires
            activation.effect == ActivationEffect::FindKeystrokeManager,
            activation.thread_mgr == Some(thread_mgr),
        ensures
            (final(self)@, next) == old(self)@.activation_resumed(
                activation,
                ActivationReply::Done,
            ),
    {
        match self.text_service.this() {
            Ok(_) => {},
            Err(missing) => return ActivationNext::Finished(Err(HostError::Missing(missing))),
        }
        if self.holds_registrations() {
            return ActivationNext::Finished(Err(HostError::AlreadyActive));
        }
        self.text_service.tid = activation.tid;
        self.text_service.thread_mgr = Some(thread_mgr);
        self.text_service.dll_ref_held = true;
        self.text_service.key_event_sink_advised = true;
        activation.go_to(ActivationEffect::AddDllRef)
    }

    /// Drops the marks of an activation that has failed before the keys were
    /// registered, and tells whether the reference on the library is to be released
    /// now. `release_dll_ref` tells whether there is such a reference, and `library`
    /// whether the library's state can be reached. Where it cannot, the marks stay,
    /// so that the reference can be released later. The marks are gone before the
    /// reference is, so that it is not released twice.
    pub fn rollback_pre_key_activation(
        &mut self,
        release_dll_ref: bool,
        library: Result<(), HostError>,
    ) -> (release: bool)
        ensures
            (final(self)@, release) == if release_dll_ref && library is Err {
                (old(self)@, false)
            } else {
                (old(self)@.unclaimed(), release_dll_ref)
            },
    {
        if release_dll_ref && library.is_err() {
            return false;
        }
        self.text_service.tid = 0;
        self.text_service.thread_mgr = None;
        self.text_service.dll_ref_held = false;
        self.text_service.key_event_sink_advised = false;
        release_dll_ref
    }

    /// Goes on activating after a reply.
    pub fn resume_activation(&mut self, activation: Activation, reply: ActivationReply) -> (next:
        ActivationNext)
        ensures
            (final(self)@, next) == old(self)@.activation_resumed(activation, reply),
    {
        let done = matches!(reply, ActivationReply::Done);
        match activation.effect {
            ActivationEffect::SnapshotIpc => match reply {
                ActivationReply::Ipc(true) => self.settle_connection(activation),
                _ => activation.go_to(ActivationEffect::ConnectIpc),
            },
            ActivationEffect::ConnectIpc => if done {
                activation.go_to(ActivationEffect::InstallIpc)
            } else {
                activation.go_to(ActivationEffect::StartReconnect)
            },
            ActivationEffect::InstallIpc => match reply {
                ActivationReply::Failed(_) => activation.go_to(ActivationEffect::StartReconnect),
                _ => self.settle_connection(activation),
            },
            ActivationEffect::StartReconnect => self.settle_connection(activation),
            ActivationEffect::FindKeystrokeManager => match (activation.thread_mgr, reply) {
                (Some(thread_mgr), ActivationReply::Done) => self.claim(activation, thread_mgr),
                _ => ActivationNext::Finished(Err(reply.error())),
            },
            ActivationEffect::AddDllRef => if done {
                activation.go_to(ActivationEffect::AdviseKeyEvents)
            } else {
                let _ = self.rollback_pre_key_activation(false, Ok(()));
                ActivationNext::Finished(Err(reply.error()))
            },
            ActivationEffect::AdviseKeyEvents => if done {
                activation.go_to(ActivationEffect::AdviseThreadMgr)
            } else {
                ActivationNext::Waiting(
                    Activation {
                        effect: ActivationEffect::ReachLibrary,
                        error: Some(reply.error()),
                        ..activation
                    },
                )
            },
            ActivationEffect::ReachLibrary => {
                let library = if done {
                    Ok(())
                } else {
                    Err(reply.error())
                };
                if self.rollback_pre_key_activation(true, library) {
                    activation.go_to(ActivationEffect::ReleaseDllRef)
                } else {
                    activation.give_up()
                }
            },
            ActivationEffect::ReleaseDllRef => activation.give_up(),
            ActivationEffect::AdviseThreadMgr => activation.go_to(ActivationEffect::FindFocus),
            ActivationEffect::FindFocus => if done {
                activation.go_to(ActivationEffect::AdviseTextLayout)
            } else {
                activation.go_to(ActivationEffect::RegisterDisplayAttribute)
            },
            ActivationEffect::AdviseTextLayout => {
                activation.go_to(ActivationEffect::RegisterDisplayAttribute)
            },
            ActivationEffect::RegisterDisplayAttribute => {
                if let ActivationReply::Atom(atom) = reply {
                    self.text_service.display_attribute_atom = Some(atom);
                }
                activation.go_to(ActivationEffect::AddLanguageBarItem)
            },
            ActivationEffect::AddLanguageBarItem => {
                activation.go_to(ActivationEffect::ActivateCompartments)
            },
            ActivationEffect::ActivateCompartments => ActivationNext::Finished(Ok(())),
        }
    }

    /// Tells whether the host still holds anything of the service.
    pub fn has_live_tsf_resources(&self) -> (live: bool)
        ensures
            live == self@.has_live_resources(),
    {
        let service = &self.text_service;
        service.composition.tip_composition.is_some() || service.key_event_sink_advised
            || service.thread_mgr_event_cookie.is_some() || service.text_layout_cookie.is_some()
            || service.lang_bar_added || service.open_close_cookie.is_some()
            || service.conversion_mode_cookie.is_some()
    }

    /// Gives up the reference on the library, once the host holds nothing of the
    /// service any more. Tells whether the reference is to be released. `library`
    /// tells whether the library's state can be reached.
    pub fn release_dll_ref_if_unused(&mut self, library: Result<(), HostError>) -> (release: Result<
        bool,
        HostError,
    >)
        ensures
            (final(self)@, release) == if old(self)@.has_live_resources()
                || !old(self)@.dll_ref_held {
                (old(self)@, Ok::<bool, HostError>(false))
            } else {
                match library {
                    Err(error) => (old(self)@, Err(error)),
                    Ok(_) => (
                        TextServiceView { dll_ref_held: false, ..old(self)@ },
                        Ok(true),
                    ),
                }
            },
    {
        if self.has_live_tsf_resources() || !self.text_service.dll_ref_held {
            return Ok(false);
        }
        match library {
            Err(error) => Err(error),
            Ok(_) => {
                self.text_service.dll_ref_held = false;
                Ok(true)
            },
        }
    }

    /// Begins to clear the service, where nothing of it is in use any more.
    pub fn clear_deactivated_state_if_unused(&self) -> (next: ClearingNext)
        ensures
            next == if self@.has_live_resources() || self@.dll_ref_held {
                ClearingNext::Finished { cleared: false }
            } else {
                ClearingNext::Waiting(Clearing::FindingServer)
            },
    {
        if self.has_live_tsf_resources() || self.text_service.dll_ref_held {
            ClearingNext::Finished { cleared: false }
        } else {
            ClearingNext::Waiting(Clearing::FindingServer)
        }
    }

    fn clear_deactivated_state(&mut self)
        ensures
            final(self)@ == old(self)@.deactivated(),
    {
        self.text_service.composition.reset();
        self.text_service.display_attribute_atom = None;
        self.text_service.context = None;
        self.text_service.thread_mgr_event_cookie = None;
        self.text_service.text_layout_context = None;
        self.text_service.text_layout_cookie = None;
        self.text_service.key_event_sink_advised = false;
        self.text_service.lang_bar_added = false;
        self.text_service.open_close_cookie = None;
        self.text_service.conversion_mode_cookie = None;
        self.text_service.pending_input_mode_transition = None;
        self.text_service.pending_composition_cleanup = false;
        self.text_service.compartment_write_in_progress = false;
        self.text_service.tid = 0;
        self.text_service.thread_mgr = None;
    }

    /// Goes on clearing the service after a reply.
    pub fn resume_clearing(&mut self, clearing: Clearing, reply: ClearingReply) -> (next:
        ClearingNext)
        ensures
            (final(self)@, next) == old(self)@.clearing_resumed(clearing, reply),
    {
        match (clearing, reply) {
            (Clearing::FindingServer, ClearingReply::Ipc(true)) => {
                ClearingNext::Waiting(Clearing::MarkingSession)
            },
            (Clearing::MarkingSession, _) => ClearingNext::Waiting(Clearing::HidingWindow),
            _ => {
                self.clear_deactivated_state();
                ClearingNext::Finished { cleared: true }
            },
        }
    }

    /// Forgets the display attribute.
    pub fn clear_display_attributes(&mut self)
        ensures
            final(self)@ == (TextServiceView { display_attribute_atom: None, ..old(self)@ }),
    {
        self.text_service.display_attribute_atom = None;
    }
}

/// A failed activation leaves no mark behind: the service is as it was, or has
/// lost the marks again. Only where the library's state cannot be reached do the
/// marks stay, because its reference is still to be released.
pub proof fn a_failed_activation_leaves_no_mark(
    service: TextServiceView,
    activation: Activation,
    reply: ActivationReply,
    error: HostError,
)
    requires
        service.activation_resumed(activation, reply).1 == ActivationNext::Finished(Err(error)),
    ensures
        ({
            let after = service.activation_resumed(activation, reply).0;
            match activation.effect {
                ActivationEffect::AddDllRef => after == service.unclaimed(),
                ActivationEffect::ReachLibrary => after == service && !(reply is Done),
                _ => after == service,
            }
        }),
{
}

/// The reference on the library is released only once the service has lost its
/// marks, and whatever comes of the release the marks do not come back: no later
/// clean-up releases it a second time.
pub proof fn a_rollback_releases_once(
    service: TextServiceView,
    activation: Activation,
    reply: ActivationReply,
    released: ActivationReply,
)
    requires
        activation.effect == ActivationEffect::ReachLibrary,
    ensures
        ({
            let (after, next) = service.activation_resumed(activation, reply);
            match next {
                ActivationNext::Waiting(next) => {
                    &&& next.effect == ActivationEffect::ReleaseDllRef
                    &&& after == service.unclaimed()
                    &&& !after.dll_ref_held
                    &&& after.activation_resumed(next, released) == (after, activation.taken_back())
                },
                ActivationNext::Finished(_) => after == service,
            }
        }),
{
}

/// Once the keys are registered an activation cannot fail: every later
/// subsystem is optional.
pub proof fn optional_subsystems_do_not_fail_an_activation(
    service: TextServiceView,
    activation: Activation,
    reply: ActivationReply,
    error: HostError,
)
    requires
        ({
            let effect = activation.effect;
            ||| effect == ActivationEffect::AdviseThreadMgr
            ||| effect == ActivationEffect::FindFocus
            ||| effect == ActivationEffect::AdviseTextLayout
            ||| effect == ActivationEffect::RegisterDisplayAttribute
            ||| effect == ActivationEffect::AddLanguageBarItem
            ||| effect == ActivationEffect::ActivateCompartments
        }),
    ensures
        service.activation_resumed(activation, reply).1 != ActivationNext::Finished(Err(error)),
{
}

/// A service without a connection can be activated: the connection decides
/// nothing but whether another attempt is made in the background.
pub proof fn the_server_is_not_needed_to_activate(
    service: TextServiceView,
    activation: Activation,
    reply: ActivationReply,
)
    requires
        activation.thread_mgr is Some,
        ({
            let effect = activation.effect;
            ||| effect == ActivationEffect::SnapshotIpc
            ||| effect == ActivationEffect::ConnectIpc
            ||| effect == ActivationEffect::InstallIpc
            ||| effect == ActivationEffect::StartReconnect
        }),
    ensures
        service.activation_resumed(activation, reply).1 is Waiting,
        service.activation_resumed(activation, reply).0 == service,
{
}

/// A service can be activated again once it was deactivated: nothing registered
/// is left, and the composition is gone.
pub proof fn a_deactivated_service_can_be_activated(service: TextServiceView)
    requires
        !service.has_live_resources(),
        !service.dll_ref_held,
    ensures
        !service.deactivated().is_registered(),
        !service.deactivated().composition.is_active(),
{
}

/// A service with a connection is cleared only after the server's session was
/// marked and the window was to be hidden, whatever came of hiding it; without a
/// connection it is cleared at once.
pub proof fn the_window_is_hidden_before_clearing(
    service: TextServiceView,
    connected: bool,
    marked: ClearingReply,
    hidden: ClearingReply,
)
    ensures
        ({
            let found = ClearingReply::Ipc(connected);
            let (after, next) = service.clearing_resumed(Clearing::FindingServer, found);
            if connected {
                &&& (after, next) == (service, ClearingNext::Waiting(Clearing::MarkingSession))
                &&& service.clearing_resumed(Clearing::MarkingSession, marked) == (
                    service,
                    ClearingNext::Waiting(Clearing::HidingWindow),
                )
                &&& service.clearing_resumed(Clearing::HidingWindow, hidden) == (
                    service.deactivated(),
                    ClearingNext::Finished { cleared: true },
                )
            } else {
                (after, next) == (service.deactivated(), ClearingNext::Finished { cleared: true })
            }
        }),
{
}

/// The steps that stop a service, in their order.
#[derive(Clone, Copy, Debug, PartialEq, Eq, Structural)]
pub enum Teardown {
    EndComposition,
    UnadviseCompartments,
    UnadviseTextLayout,
    UnadviseThreadMgr,
    UnadviseKeyEvents,
    RemoveLanguageBarItem,
    ClearDisplayAttributes,
    ReleaseDllRef,
    ClearState,
}

impl Teardown {
    /// The step after this one.
    pub open spec fn following(self) -> Option<Teardown> {
        match self {
            Teardown::EndComposition => Some(Teardown::UnadviseCompartments),
            Teardown::UnadviseCompartments => Some(Teardown::UnadviseTextLayout),
            Teardown::UnadviseTextLayout => Some(Teardown::UnadviseThreadMgr),
            Teardown::UnadviseThreadMgr => Some(Teardown::UnadviseKeyEvents),
            Teardown::UnadviseKeyEvents => Some(Teardown::RemoveLanguageBarItem),
            Teardown::RemoveLanguageBarItem => Some(Teardown::ClearDisplayAttributes),
            Teardown::ClearDisplayAttributes => Some(Teardown::ReleaseDllRef),
            Teardown::ReleaseDllRef => Some(Teardown::ClearState),
            Teardown::ClearState => None,
        }
    }

    fn next(self) -> (next: Option<Teardown>)
        ensures
            next == self.following(),
    {
        match self {
            Teardown::EndComposition => Some(Teardown::UnadviseCompartments),
            Teardown::UnadviseCompartments => Some(Teardown::UnadviseTextLayout),
            Teardown::UnadviseTextLayout => Some(Teardown::UnadviseThreadMgr),
            Teardown::UnadviseThreadMgr => Some(Teardown::UnadviseKeyEvents),
            Teardown::UnadviseKeyEvents => Some(Teardown::RemoveLanguageBarItem),
            Teardown::RemoveLanguageBarItem => Some(Teardown::ClearDisplayAttributes),
            Teardown::ClearDisplayAttributes => Some(Teardown::ReleaseDllRef),
            Teardown::ReleaseDllRef => Some(Teardown::ClearState),
            Teardown::ClearState => None,
        }
    }

    /// What the step is called.
    pub open spec fn text(self) -> Seq<char> {
        match self {
            Teardown::EndComposition => "EndComposition"@,
            Teardown::UnadviseCompartments => "Unadvise input-mode compartments"@,
            Teardown::UnadviseTextLayout => "Unadvise text-layout sink"@,
            Teardown::UnadviseThreadMgr => "Unadvise thread-manager event sink"@,
            Teardown::UnadviseKeyEvents => "Unadvise key-event sink"@,
            Teardown::RemoveLanguageBarItem => "Remove language-bar item"@,
            Teardown::ClearDisplayAttributes => "Clear display attributes"@,
            Teardown::ReleaseDllRef => "Release DLL reference"@,
            Teardown::ClearState => "Clear deactivated TextService state"@,
        }
    }

    /// Returns what the step is called.
    pub fn name(self) -> (name: &'static str)
        ensures
            name@ == self.text(),
    {
        match self {
            Teardown::EndComposition => "EndComposition",
            Teardown::UnadviseCompartments => "Unadvise input-mode compartments",
            Teardown::UnadviseTextLayout => "Unadvise text-layout sink",
            Teardown::UnadviseThreadMgr => "Unadvise thread-manager event sink",
            Teardown::UnadviseKeyEvents => "Unadvise key-event sink",
            Teardown::RemoveLanguageBarItem => "Remove language-bar item",
            Teardown::ClearDisplayAttributes => "Clear display attributes",
            Teardown::ReleaseDllRef => "Release DLL reference",
            Teardown::ClearState => "Clear deactivated TextService state",
        }
    }
}

/// The first failure, after a step has ended with `result`.
pub open spec fn first_failure(
    first_error: Option<(Teardown, HostError)>,
    operation: Teardown,
    result: Result<(), HostError>,
) -> Option<(Teardown, HostError)> {
    match (first_error, result) {
        (None, Err(error)) => Some((operation, error)),
        _ => first_error,
    }
}

/// Notes the failure of a step, unless one was noted before.
pub fn keep_first_error(
    first_error: &mut Option<(Teardown, HostError)>,
    operation: Teardown,
    result: Result<(), HostError>,
)
    ensures
        *final(first_error) == first_failure(*old(first_error), operation, result),
{
    if let Err(error) = result {
        if first_error.is_none() {
            *first_error = Some((operation, error));
        }
    }
}

/// A service being stopped: the step that runs, and the first failure.
#[derive(Clone, Copy, Debug, PartialEq, Eq)]
pub struct Deactivation {
    pub step: Teardown,
    pub first_error: Option<(Teardown, HostError)>,
}

/// What stopping comes to.
#[derive(Clone, Copy, Debug, PartialEq, Eq)]
pub enum DeactivationNext {
    Waiting(Deactivation),
    Finished(Result<(), (Teardown, HostError)>),
}

/// The result of stopping, where `first_error` is the first failure.
pub open spec fn teardown_result(first_error: Option<(Teardown, HostError)>) -> DeactivationNext {
    DeactivationNext::Finished(
        match first_error {
            Some(error) => Err(error),
            None => Ok(()),
        },
    )
}

impl Deactivation {
    /// Begins to stop a service.
    pub fn begin() -> (deactivation: Deactivation)
        ensures
            deactivation == (Deactivation { step: Teardown::EndComposition, first_error: None }),
    {
        Deactivation { step: Teardown::EndComposition, first_error: None }
    }

    /// Goes on after a step.
    pub open spec fn resumed(self, result: Result<(), HostError>) -> DeactivationNext {
        let first_error = first_failure(self.first_error, self.step, result);
        match self.step.following() {
            Some(step) => DeactivationNext::Waiting(Deactivation { step, first_error }),
            None => teardown_result(first_error),
        }
    }

    /// Goes on after a step. Every step is taken, even after a failure; the first
    /// failure is the result.
    pub fn resume(self, result: Result<(), HostError>) -> (next: DeactivationNext)
        ensures
            next == self.resumed(result),
    {
        let mut first_error = self.first_error;
        keep_first_error(&mut first_error, self.step, result);
        match self.step.next() {
            Some(step) => DeactivationNext::Waiting(Deactivation { step, first_error }),
            None => DeactivationNext::Finished(
                match first_error {
                    Some(error) => Err(error),
                    None => Ok(()),
                },
            ),
        }
    }
}

/// Stopping, from a step on, with the results of the steps from there.
pub open spec fn teardown_run(
    deactivation: Deactivation,
    results: Seq<Result<(), HostError>>,
) -> DeactivationNext
    decreases results.len(),
{
    if results.len() == 0 {
        DeactivationNext::Waiting(deactivation)
    } else {
        match deactivation.resumed(results[0]) {
            DeactivationNext::Waiting(next) => teardown_run(next, results.drop_first()),
            finished => finished,
        }
    }
}

/// Stopping takes all nine steps, whatever fails, and succeeds exactly where
/// every step does.
pub proof fn every_teardown_step_is_attempted(results: Seq<Result<(), HostError>>)
    requires
        results.len() == 9,
    ensures
        ({
            let run = teardown_run(
                Deactivation { step: Teardown::EndComposition, first_error: None },
                results,
            );
            &&& run is Finished
            &&& run == DeactivationNext::Finished(Ok(())) <==> forall|i: int|
                0 <= i < 9 ==> #[trigger] results[i] is Ok
        }),
{
    reveal_with_fuel(teardown_run, 10);
    assert(results[0] is Ok || results[0] is Err);
    assert(results[1] is Ok || results[1] is Err);
    assert(results[2] is Ok || results[2] is Err);
    assert(results[3] is Ok || results[3] is Err);
    assert(results[4] is Ok || results[4] is Err);
    assert(results[5] is Ok || results[5] is Err);
    assert(results[6] is Ok || results[6] is Err);
    assert(results[7] is Ok || results[7] is Err);
    assert(results[8] is Ok || results[8] is Err);
}

/// The service has an activation's marks from before the host is asked for the
/// first registration, with the thread manager and the id that it is activated for;
/// one that still holds a registration of any kind is not activated again, and
/// nothing of it changes.
pub proof fn an_active_service_is_not_activated_again(
    service: TextServiceView,
    activation: Activation,
)
    requires
        activation.effect == ActivationEffect::FindKeystrokeManager,
        activation.thread_mgr is Some,
        service.this is Some,
    ensures
        ({
            let (after, next) = service.activation_resumed(activation, ActivationReply::Done);
            let is_free = !service.dll_ref_held && !service.key_event_sink_advised
                && service.thread_mgr_event_cookie is None && service.text_layout_cookie is None
                && !service.lang_bar_added && service.open_close_cookie is None
                && service.conversion_mode_cookie is None;
            &&& is_free ==> {
                &&& next is Waiting && next->Waiting_0.effect == ActivationEffect::AddDllRef
                &&& after.tid == activation.tid
                &&& after.thread_mgr == activation.thread_mgr
                &&& after.dll_ref_held
                &&& after.key_event_sink_advised
                &&& after.composition == service.composition
                &&& after.mode == service.mode
            }
            &&& !is_free ==> after == service && next == ActivationNext::Finished(
                Err(HostError::AlreadyActive),
            )
        }),
{
}

/// An activation takes its steps in order: the reference on the library, the keys,
/// the thread manager, the focused document, the display attribute, the language
/// bar, and the input mode last.
pub proof fn an_activation_takes_its_steps_in_order(
    service: TextServiceView,
    activation: Activation,
    atom: u32,
    reply: ActivationReply,
)
    requires
        activation.effect == ActivationEffect::AddDllRef,
    ensures
        ({
            let done = ActivationReply::Done;
            let keys = service.activation_resumed(activation, done).1->Waiting_0;
            let thread = service.activation_resumed(keys, done).1->Waiting_0;
            let focus = service.activation_resumed(thread, reply).1->Waiting_0;
            let layout = service.activation_resumed(focus, done).1->Waiting_0;
            let attribute = service.activation_resumed(layout, reply).1->Waiting_0;
            let (marked, next) = service.activation_resumed(
                attribute,
                ActivationReply::Atom(atom),
            );
            let bar = next->Waiting_0;
            let mode = service.activation_resumed(bar, reply).1->Waiting_0;
            &&& keys.effect == ActivationEffect::AdviseKeyEvents
            &&& thread.effect == ActivationEffect::AdviseThreadMgr
            &&& focus.effect == ActivationEffect::FindFocus
            &&& layout.effect == ActivationEffect::AdviseTextLayout
            &&& attribute.effect == ActivationEffect::RegisterDisplayAttribute
            &&& marked == (TextServiceView { display_attribute_atom: Some(atom), ..service })
            &&& bar.effect == ActivationEffect::AddLanguageBarItem
            &&& mode.effect == ActivationEffect::ActivateCompartments
            &&& service.activation_resumed(mode, reply) == (
                service,
                ActivationNext::Finished(Ok::<(), HostError>(())),
            )
            &&& service.activation_resumed(focus, ActivationReply::Failed(HostError::NotRun)).1
                == ActivationNext::Waiting(attribute)
        }),
{
}

/// A connection that is there is left alone; otherwise one is made and published,
/// and where that fails another attempt is made in the background. A thread manager
/// is needed in the end.
pub proof fn a_connection_is_tried_once(
    service: TextServiceView,
    activation: Activation,
    error: HostError,
)
    requires
        activation.effect == ActivationEffect::SnapshotIpc,
    ensures
        ({
            let failed = ActivationReply::Failed(error);
            let done = ActivationReply::Done;
            let found = service.activation_resumed(activation, ActivationReply::Ipc(true)).1;
            let connecting = service.activation_resumed(
                activation,
                ActivationReply::Ipc(false),
            ).1->Waiting_0;
            let installing = service.activation_resumed(connecting, done).1->Waiting_0;
            let waiting = service.activation_resumed(connecting, failed).1->Waiting_0;
            &&& connecting.effect == ActivationEffect::ConnectIpc
            &&& installing.effect == ActivationEffect::InstallIpc
            &&& waiting.effect == ActivationEffect::StartReconnect
            &&& service.activation_resumed(installing, failed).1 == ActivationNext::Waiting(waiting)
            &&& service.activation_resumed(installing, done).1 == found
            &&& service.activation_resumed(waiting, failed).1 == found
            &&& activation.thread_mgr is Some ==> found is Waiting && found->Waiting_0.effect
                == ActivationEffect::FindKeystrokeManager
            &&& activation.thread_mgr is None ==> found == ActivationNext::Finished(
                Err(HostError::Missing(MissingHandle::ThreadMgr)),
            )
        }),
{
}

/// An activation whose keys are refused is taken back: the marks go, the reference
/// on the library is released, and the refusal is the result.
pub proof fn refused_keys_take_the_activation_back(
    service: TextServiceView,
    activation: Activation,
    error: HostError,
    released: ActivationReply,
)
    requires
        activation.effect == ActivationEffect::AdviseKeyEvents,
    ensures
        ({
            let (kept, next) = service.activation_resumed(
                activation,
                ActivationReply::Failed(error),
            );
            let reaching = next->Waiting_0;
            let (after, releasing) = kept.activation_resumed(reaching, ActivationReply::Done);
            &&& kept == service
            &&& reaching.effect == ActivationEffect::ReachLibrary
            &&& releasing is Waiting && releasing->Waiting_0.effect
                == ActivationEffect::ReleaseDllRef
            &&& after.tid == 0
            &&& after.thread_mgr is None
            &&& !after.dll_ref_held
            &&& !after.key_event_sink_advised
            &&& after.activation_resumed(releasing->Waiting_0, released).1
                == ActivationNext::Finished(Err(error))
            &&& kept.activation_resumed(reaching, ActivationReply::Failed(HostError::NotRun)) == (
                service,
                ActivationNext::Finished(Err::<(), HostError>(error)),
            )
        }),
{
}

/// A deactivated service keeps nothing of a composition, of a context or of a
/// registration. Its mode stays.
pub proof fn a_deactivated_service_keeps_nothing(service: TextServiceView)
    ensures
        ({
            let after = service.deactivated();
            &&& after.composition.preview.len() == 0
            &&& after.composition.candidates.texts.len() == 0
            &&& after.composition.tip_composition is None
            &&& after.composition.generation != service.composition.generation
            &&& after.display_attribute_atom is None
            &&& after.context is None
            &&& after.thread_mgr_event_cookie is None
            &&& after.text_layout_context is None
            &&& after.text_layout_cookie is None
            &&& !after.key_event_sink_advised
            &&& !after.lang_bar_added
            &&& after.open_close_cookie is None
            &&& after.conversion_mode_cookie is None
            &&& after.pending_input_mode_transition is None
            &&& !after.pending_composition_cleanup
            &&& !after.compartment_write_in_progress
            &&& after.tid == 0
            &&& after.thread_mgr is None
            &&& after.mode == service.mode
            &&& after.this == service.this
        }),
{
}

/// The host holds something of a service as long as any one registration, or the
/// range of a composition, is left.
pub proof fn any_registration_is_live(service: TextServiceView)
    ensures
        !service.has_live_resources() <==> {
            &&& service.composition.tip_composition is None
            &&& !service.key_event_sink_advised
            &&& service.thread_mgr_event_cookie is None
            &&& service.text_layout_cookie is None
            &&& !service.lang_bar_added
            &&& service.open_close_cookie is None
            &&& service.conversion_mode_cookie is None
        },
{
}

/// Stopping begins with the composition and ends with the state: registrations are
/// taken back in between, and the reference on the library is released behind them.
pub proof fn a_teardown_keeps_its_order(
    deactivation: Deactivation,
    result: Result<(), HostError>,
)
    ensures
        ({
            let next = deactivation.resumed(result);
            match deactivation.step {
                Teardown::EndComposition => next is Waiting && next->Waiting_0.step
                    == Teardown::UnadviseCompartments,
                Teardown::UnadviseCompartments => next is Waiting && next->Waiting_0.step
                    == Teardown::UnadviseTextLayout,
                Teardown::UnadviseTextLayout => next is Waiting && next->Waiting_0.step
                    == Teardown::UnadviseThreadMgr,
                Teardown::UnadviseThreadMgr => next is Waiting && next->Waiting_0.step
                    == Teardown::UnadviseKeyEvents,
                Teardown::UnadviseKeyEvents => next is Waiting && next->Waiting_0.step
                    == Teardown::RemoveLanguageBarItem,
                Teardown::RemoveLanguageBarItem => next is Waiting && next->Waiting_0.step
                    == Teardown::ClearDisplayAttributes,
                Teardown::ClearDisplayAttributes => next is Waiting && next->Waiting_0.step
                    == Teardown::ReleaseDllRef,
                Teardown::ReleaseDllRef => next is Waiting && next->Waiting_0.step
                    == Teardown::ClearState,
                Teardown::ClearState => next is Finished,
            }
        }),
{
}

/// The first failure of a teardown is its result, with the step that failed; later
/// failures do not replace it.
pub proof fn the_first_failure_is_reported(
    step: Teardown,
    earlier: Teardown,
    error: HostError,
    later: HostError,
)
    ensures
        first_failure(None, step, Err(error)) == Some((step, error)),
        first_failure(Some((earlier, error)), step, Err(later)) == Some((earlier, error)),
        first_failure(Some((earlier, error)), step, Ok(())) == Some((earlier, error)),
        first_failure(None, step, Ok(())) is None,
        (Deactivation { step: Teardown::ClearState, first_error: Some((earlier, error)) }).resumed(
            Err(later),
        ) == DeactivationNext::Finished(Err((earlier, error))),
        (Deactivation { step: Teardown::ClearState, first_error: None }).resumed(Err(later))
            == DeactivationNext::Finished(Err((Teardown::ClearState, later))),
        (Deactivation { step: Teardown::ClearState, first_error: None }).resumed(Ok(()))
            == DeactivationNext::Finished(Ok(())),
{
}

} // verus!
