//! What the service registers with the host, and takes back.
//!
//! Each registration follows one pattern. What was registered is kept in the
//! service afterwards; where it cannot be kept the registration is undone, and
//! where that fails too another attempt is made to keep it. To take a
//! registration back, the host comes first, so that a failure can be repeated.

use vstd::prelude::*;

use crate::key_handling::TextServiceFactory;
use crate::text_service::{HostError, MissingHandle, TextServiceView};

verus! {

/// Outside work on a registration. `K` is what identifies it.
#[derive(Debug, PartialEq, Eq)]
pub enum RegisterEffect<K> {
    /// Register with the host.
    Register,
    /// Keep the registration in the service.
    Keep(K),
    /// Take the registration back from the host.
    Unregister(K),
    /// Drop the registration from the service, where it keeps this one.
    Drop(K),
}

/// What came of work on a registration.
#[derive(Debug, PartialEq, Eq)]
pub enum RegisterReply<K> {
    Done,
    Registered(K),
    Failed(HostError),
}

impl<K> RegisterReply<K> {
    /// Why the work failed. A reply of the wrong kind counts as a failure.
    pub open spec fn failure(self) -> HostError {
        match self {
            RegisterReply::Failed(error) => error,
            _ => HostError::Unavailable,
        }
    }

    /// Whether the work was done.
    pub open spec fn is_done(self) -> bool {
        self is Done
    }
}

/// A registration being made: what is waited for.
#[derive(Debug, PartialEq, Eq)]
pub enum Registering<K> {
    Asking,
    Keeping(K),
    Undoing { registration: K, error: HostError },
    KeepingAnyway { registration: K, error: HostError },
}

/// What making a registration comes to.
#[derive(Debug, PartialEq, Eq)]
pub enum RegisteringNext<K> {
    Waiting(Registering<K>),
    Finished(Result<(), HostError>),
}

impl<K: Copy> Registering<K> {
    /// The outside work that is waited for.
    pub open spec fn awaited(self) -> RegisterEffect<K> {
        match self {
            Registering::Asking => RegisterEffect::Register,
            Registering::Keeping(registration) => RegisterEffect::Keep(registration),
            Registering::Undoing { registration, .. } => RegisterEffect::Unregister(registration),
            Registering::KeepingAnyway { registration, .. } => RegisterEffect::Keep(registration),
        }
    }

    /// Goes on after a reply.
    pub open spec fn resumed(self, reply: RegisterReply<K>) -> RegisteringNext<K> {
        match self {
            Registering::Asking => match reply {
                RegisterReply::Registered(registration) => RegisteringNext::Waiting(
                    Registering::Keeping(registration),
                ),
                _ => RegisteringNext::Finished(Err(reply.failure())),
            },
            Registering::Keeping(registration) => if reply.is_done() {
                RegisteringNext::Finished(Ok(()))
            } else {
                RegisteringNext::Waiting(
                    Registering::Undoing { registration, error: reply.failure() },
                )
            },
            Registering::Undoing { registration, error } => if reply.is_done() {
                RegisteringNext::Finished(Err(error))
            } else {
                RegisteringNext::Waiting(Registering::KeepingAnyway { registration, error })
            },
            Registering::KeepingAnyway { error, .. } => RegisteringNext::Finished(Err(error)),
        }
    }

    /// Returns the outside work that is waited for.
    pub fn effect(&self) -> (effect: RegisterEffect<K>)
        ensures
            effect == self.awaited(),
    {
        match *self {
            Registering::Asking => RegisterEffect::Register,
            Registering::Keeping(registration) => RegisterEffect::Keep(registration),
            Registering::Undoing { registration, .. } => RegisterEffect::Unregister(registration),
            Registering::KeepingAnyway { registration, .. } => RegisterEffect::Keep(registration),
        }
    }

    /// Goes on after a reply.
    pub fn resume(self, reply: RegisterReply<K>) -> (next: RegisteringNext<K>)
        ensures
            next == self.resumed(reply),
    {
        match self {
            Registering::Asking => match reply {
                RegisterReply::Registered(registration) => RegisteringNext::Waiting(
                    Registering::Keeping(registration),
                ),
                RegisterReply::Failed(error) => RegisteringNext::Finished(Err(error)),
                RegisterReply::Done => RegisteringNext::Finished(Err(HostError::Unavailable)),
            },
            Registering::Keeping(registration) => match reply {
                RegisterReply::Done => RegisteringNext::Finished(Ok(())),
                RegisterReply::Failed(error) => RegisteringNext::Waiting(
                    Registering::Undoing { registration, error },
                ),
                RegisterReply::Registered(_) => RegisteringNext::Waiting(
                    Registering::Undoing { registration, error: HostError::Unavailable },
                ),
            },
            Registering::Undoing { registration, error } => match reply {
                RegisterReply::Done => RegisteringNext::Finished(Err(error)),
                _ => RegisteringNext::Waiting(Registering::KeepingAnyway { registration, error }),
            },
            Registering::KeepingAnyway { error, .. } => RegisteringNext::Finished(Err(error)),
        }
    }
}

/// A registration being taken back: what is waited for.
#[derive(Debug, PartialEq, Eq)]
pub enum Unregistering<K> {
    Stopping(K),
    Dropping(K),
}

/// What taking a registration back comes to.
#[derive(Debug, PartialEq, Eq)]
pub enum UnregisteringNext<K> {
    Waiting(Unregistering<K>),
    Finished(Result<(), HostError>),
}

impl<K: Copy> Unregistering<K> {
    /// The outside work that is waited for.
    pub open spec fn awaited(self) -> RegisterEffect<K> {
        match self {
            Unregistering::Stopping(registration) => RegisterEffect::Unregister(registration),
            Unregistering::Dropping(registration) => RegisterEffect::Drop(registration),
        }
    }

    /// Goes on after a reply.
    pub open spec fn resumed(self, reply: RegisterReply<K>) -> UnregisteringNext<K> {
        if !reply.is_done() {
            UnregisteringNext::Finished(Err(reply.failure()))
        } else {
            match self {
                Unregistering::Stopping(registration) => UnregisteringNext::Waiting(
                    Unregistering::Dropping(registration),
                ),
                Unregistering::Dropping(_) => UnregisteringNext::Finished(Ok(())),
            }
        }
    }

    /// Returns the outside work that is waited for.
    pub fn effect(&self) -> (effect: RegisterEffect<K>)
        ensures
            effect == self.awaited(),
    {
        match *self {
            Unregistering::Stopping(registration) => RegisterEffect::Unregister(registration),
            Unregistering::Dropping(registration) => RegisterEffect::Drop(registration),
        }
    }

    /// Goes on after a reply.
    pub fn resume(self, reply: RegisterReply<K>) -> (next: UnregisteringNext<K>)
        ensures
            next == self.resumed(reply),
    {
        match reply {
            RegisterReply::Failed(error) => UnregisteringNext::Finished(Err(error)),
            RegisterReply::Registered(_) => UnregisteringNext::Finished(
                Err(HostError::Unavailable),
            ),
            RegisterReply::Done => match self {
                Unregistering::Stopping(registration) => UnregisteringNext::Waiting(
                    Unregistering::Dropping(registration),
                ),
                Unregistering::Dropping(_) => UnregisteringNext::Finished(Ok(())),
            },
        }
    }
}

/// A registration in the host, and the one that the service keeps.
pub struct Held<K> {
    pub live: Option<K>,
    pub kept: Option<K>,
}

impl<K> Held<K> {
    /// The registrations after outside work has been answered.
    pub open spec fn after(self, effect: RegisterEffect<K>, reply: RegisterReply<K>) -> Held<K> {
        match effect {
            RegisterEffect::Register => match reply {
                RegisterReply::Registered(registration) => Held {
                    live: Some(registration),
                    ..self
                },
                _ => self,
            },
            RegisterEffect::Keep(registration) => if reply.is_done() {
                Held { kept: Some(registration), ..self }
            } else {
                self
            },
            RegisterEffect::Unregister(_) => if reply.is_done() {
                Held { live: None, ..self }
            } else {
                self
            },
            RegisterEffect::Drop(registration) => if reply.is_done() && self.kept == Some(
                registration,
            ) {
                Held { kept: None, ..self }
            } else {
                self
            },
        }
    }

    /// A registration in the host is kept in the service.
    pub open spec fn is_tracked(self) -> bool {
        self.live is Some ==> self.kept == self.live
    }
}

/// What making a registration knows of it.
pub open spec fn registering_knows<K>(registering: Registering<K>, held: Held<K>) -> bool {
    match registering {
        Registering::Asking => held.live is None,
        Registering::Keeping(registration) => held.live == Some(registration),
        Registering::Undoing { registration, .. } => held.live == Some(registration),
        Registering::KeepingAnyway { registration, .. } => held.live == Some(registration),
    }
}

/// No registration is lost while it is made: in the end the service keeps what
/// the host holds, unless the service's state was unavailable to both attempts
/// to keep it and the host did not take it back either.
pub proof fn making_a_registration_loses_nothing<K: Copy>(
    registering: Registering<K>,
    held: Held<K>,
    reply: RegisterReply<K>,
)
    requires
        registering_knows(registering, held),
    ensures
        match registering.resumed(reply) {
            RegisteringNext::Waiting(next) => registering_knows(
                next,
                held.after(registering.awaited(), reply),
            ),
            RegisteringNext::Finished(result) => {
                let after = held.after(registering.awaited(), reply);
                &&& result is Ok ==> after.live is Some && after.is_tracked()
                &&& after.is_tracked() || (registering is KeepingAnyway && !reply.is_done())
            },
        },
{
}

/// What taking a registration back knows of it.
pub open spec fn unregistering_knows<K>(unregistering: Unregistering<K>, held: Held<K>) -> bool {
    &&& held.is_tracked()
    &&& unregistering is Dropping ==> held.live is None
}

/// A registration that the host still holds stays kept, so that taking it back
/// can be tried again.
pub proof fn taking_back_can_be_repeated<K: Copy>(
    unregistering: Unregistering<K>,
    held: Held<K>,
    reply: RegisterReply<K>,
)
    requires
        unregistering_knows(unregistering, held),
    ensures
        held.after(unregistering.awaited(), reply).is_tracked(),
        unregistering.resumed(reply) matches UnregisteringNext::Waiting(next)
            ==> unregistering_knows(next, held.after(unregistering.awaited(), reply)),
{
}

/// A text-layout sink: its context and its cookie.
#[derive(Clone, Copy, Debug, PartialEq, Eq, Structural)]
pub struct LayoutSink {
    pub context: u64,
    pub cookie: u32,
}

/// How taking back the text-layout sink begins.
#[derive(Debug, PartialEq, Eq)]
pub enum LayoutRemoval {
    /// Nothing is registered.
    Nothing,
    /// Only a context is kept; it is dropped.
    DropContext,
    Remove(Unregistering<LayoutSink>),
    Failed(HostError),
}

impl TextServiceView {
    /// How taking back the text-layout sink begins.
    pub open spec fn layout_removal(self) -> LayoutRemoval {
        match (self.text_layout_context, self.text_layout_cookie) {
            (None, None) => LayoutRemoval::Nothing,
            (Some(_), None) => LayoutRemoval::DropContext,
            (None, Some(_)) => LayoutRemoval::Failed(HostError::CookieWithoutContext),
            (Some(context), Some(cookie)) => LayoutRemoval::Remove(
                Unregistering::Stopping(LayoutSink { context, cookie }),
            ),
        }
    }

    /// Whether the service has both its thread manager and itself, or what it
    /// lacks.
    pub open spec fn missing_for_registration(self) -> Option<HostError> {
        if self.thread_mgr is None {
            Some(HostError::Missing(MissingHandle::ThreadMgr))
        } else if self.this is None {
            Some(HostError::Missing(MissingHandle::This))
        } else {
            None
        }
    }

    /// How a registration begins that is made once.
    pub open spec fn registration_begun<K>(self, already: bool) -> RegisteringNext<K> {
        match self.missing_for_registration() {
            Some(error) => RegisteringNext::Finished(Err(error)),
            None => if already {
                RegisteringNext::Finished(Ok(()))
            } else {
                RegisteringNext::Waiting(Registering::Asking)
            },
        }
    }
}

impl TextServiceFactory {
    fn registration_handles(&self) -> (handles: Result<(), HostError>)
        ensures
            match handles {
                Ok(_) => self@.missing_for_registration() is None,
                Err(error) => self@.missing_for_registration() == Some(error),
            },
    {
        match self.text_service.thread_mgr() {
            Ok(_) => {},
            Err(missing) => return Err(HostError::Missing(missing)),
        }
        match self.text_service.this() {
            Ok(_) => Ok(()),
            Err(missing) => Err(HostError::Missing(missing)),
        }
    }

    fn begin_registration<K: Copy>(&self, already: bool) -> (next: RegisteringNext<K>)
        ensures
            next == self@.registration_begun::<K>(already),
    {
        match self.registration_handles() {
            Ok(_) => if already {
                RegisteringNext::Finished(Ok(()))
            } else {
                RegisteringNext::Waiting(Registering::Asking)
            },
            Err(error) => RegisteringNext::Finished(Err(error)),
        }
    }

    /// Begins to listen to the thread manager.
    pub fn advise_thread_mgr_event_sink(&self) -> (next: RegisteringNext<u32>)
        ensures
            next == self@.registration_begun::<u32>(self@.thread_mgr_event_cookie is Some),
    {
        self.begin_registration(self.text_service.thread_mgr_event_cookie.is_some())
    }

    /// Begins to show the item in the language bar.
    pub fn add_lang_bar_item(&self) -> (next: RegisteringNext<()>)
        ensures
            next == self@.registration_begun::<()>(self@.lang_bar_added),
    {
        self.begin_registration(self.text_service.lang_bar_added)
    }

    /// Begins to stop listening to the thread manager.
    pub fn unadvise_thread_mgr_event_sink(&self) -> (next: UnregisteringNext<u32>)
        ensures
            next == match self@.thread_mgr_event_cookie {
                None => UnregisteringNext::<u32>::Finished(Ok(())),
                Some(cookie) => if self@.thread_mgr is None {
                    UnregisteringNext::Finished(Err(HostError::Missing(MissingHandle::ThreadMgr)))
                } else {
                    UnregisteringNext::Waiting(Unregistering::Stopping(cookie))
                },
            },
    {
        match self.text_service.thread_mgr_event_cookie {
            None => UnregisteringNext::Finished(Ok(())),
            Some(cookie) => match self.text_service.thread_mgr() {
                Ok(_) => UnregisteringNext::Waiting(Unregistering::Stopping(cookie)),
                Err(missing) => UnregisteringNext::Finished(Err(HostError::Missing(missing))),
            },
        }
    }

    /// Begins to stop listening to keys.
    pub fn unadvise_key_event_sink(&self) -> (next: UnregisteringNext<u32>)
        ensures
            next == if !self@.key_event_sink_advised {
                UnregisteringNext::<u32>::Finished(Ok(()))
            } else if self@.thread_mgr is None {
                UnregisteringNext::Finished(Err(HostError::Missing(MissingHandle::ThreadMgr)))
            } else {
                UnregisteringNext::Waiting(Unregistering::Stopping(self@.tid))
            },
    {
        if !self.text_service.key_event_sink_advised {
            return UnregisteringNext::Finished(Ok(()));
        }
        match self.text_service.thread_mgr() {
            Ok(_) => UnregisteringNext::Waiting(Unregistering::Stopping(self.text_service.tid)),
            Err(missing) => UnregisteringNext::Finished(Err(HostError::Missing(missing))),
        }
    }

    /// Begins to remove the item from the language bar.
    pub fn remove_lang_bar_item(&self) -> (next: UnregisteringNext<()>)
        ensures
            next == if !self@.lang_bar_added {
                UnregisteringNext::<()>::Finished(Ok(()))
            } else {
                match self@.missing_for_registration() {
                    Some(error) => UnregisteringNext::Finished(Err(error)),
                    None => UnregisteringNext::Waiting(Unregistering::Stopping(())),
                }
            },
    {
        if !self.text_service.lang_bar_added {
            return UnregisteringNext::Finished(Ok(()));
        }
        match self.registration_handles() {
            Ok(_) => UnregisteringNext::Waiting(Unregistering::Stopping(())),
            Err(error) => UnregisteringNext::Finished(Err(error)),
        }
    }

    /// Begins to take back the text-layout sink.
    pub fn unadvise_text_layout_sink(&self) -> (removal: LayoutRemoval)
        ensures
            removal == self@.layout_removal(),
    {
        match (self.text_service.text_layout_context, self.text_service.text_layout_cookie) {
            (None, None) => LayoutRemoval::Nothing,
            (Some(_), None) => LayoutRemoval::DropContext,
            (None, Some(_)) => LayoutRemoval::Failed(HostError::CookieWithoutContext),
            (Some(context), Some(cookie)) => LayoutRemoval::Remove(
                Unregistering::Stopping(LayoutSink { context, cookie }),
            ),
        }
    }

    /// Keeps a text-layout sink.
    pub fn store_text_layout_sink(&mut self, sink: LayoutSink)
        ensures
            final(self)@ == (TextServiceView {
                text_layout_context: Some(sink.context),
                text_layout_cookie: Some(sink.cookie),
                ..old(self)@
            }),
    {
        self.text_service.text_layout_context = Some(sink.context);
        self.text_service.text_layout_cookie = Some(sink.cookie);
    }

    /// Drops a context that is kept without a cookie.
    pub fn drop_text_layout_context(&mut self)
        ensures
            final(self)@ == (TextServiceView { text_layout_context: None, ..old(self)@ }),
    {
        self.text_service.text_layout_context = None;
    }

    /// Drops a text-layout sink, where its cookie is the one kept.
    pub fn clear_text_layout_sink(&mut self, sink: LayoutSink)
        ensures
            final(self)@ == if old(self)@.text_layout_cookie == Some(sink.cookie) {
                TextServiceView {
                    text_layout_context: None,
                    text_layout_cookie: None,
                    ..old(self)@
                }
            } else {
                old(self)@
            },
    {
        if self.text_service.text_layout_cookie == Some(sink.cookie) {
            self.text_service.text_layout_cookie = None;
            self.text_service.text_layout_context = None;
        }
    }

    /// Keeps the cookie of the thread manager's sink.
    pub fn store_thread_mgr_cookie(&mut self, cookie: u32)
        ensures
            final(self)@ == (TextServiceView {
                thread_mgr_event_cookie: Some(cookie),
                ..old(self)@
            }),
    {
        self.text_service.thread_mgr_event_cookie = Some(cookie);
    }

    /// Drops the cookie of the thread manager's sink, where it is the one kept.
    pub fn clear_thread_mgr_cookie(&mut self, cookie: u32)
        ensures
            final(self)@ == if old(self)@.thread_mgr_event_cookie == Some(cookie) {
                TextServiceView { thread_mgr_event_cookie: None, ..old(self)@ }
            } else {
                old(self)@
            },
    {
        if self.text_service.thread_mgr_event_cookie == Some(cookie) {
            self.text_service.thread_mgr_event_cookie = None;
        }
    }

    /// Notes that keys are no longer listened to.
    pub fn clear_key_event_sink(&mut self)
        ensures
            final(self)@ == (TextServiceView { key_event_sink_advised: false, ..old(self)@ }),
    {
        self.text_service.key_event_sink_advised = false;
    }

    /// Notes whether the item is in the language bar.
    pub fn mark_lang_bar(&mut self, added: bool)
        ensures
            final(self)@ == (TextServiceView { lang_bar_added: added, ..old(self)@ }),
    {
        self.text_service.lang_bar_added = added;
    }
}

/// Showing the item in the language bar anew: what is waited for.
#[derive(Debug, PartialEq, Eq)]
pub enum LangBarRefresh {
    Removing(Unregistering<()>),
    Asking,
    Keeping,
}

/// What showing the item anew comes to.
#[derive(Debug, PartialEq, Eq)]
pub enum LangBarNext {
    Waiting(LangBarRefresh),
    Finished(Result<(), HostError>),
}

impl LangBarRefresh {
    /// The outside work that is waited for.
    pub open spec fn awaited(self) -> RegisterEffect<()> {
        match self {
            LangBarRefresh::Removing(removing) => removing.awaited(),
            LangBarRefresh::Asking => RegisterEffect::Register,
            LangBarRefresh::Keeping => RegisterEffect::Keep(()),
        }
    }

    /// Goes on after a reply: the item is removed, and then added again.
    pub open spec fn resumed(self, reply: RegisterReply<()>) -> LangBarNext {
        match self {
            LangBarRefresh::Removing(removing) => match removing.resumed(reply) {
                UnregisteringNext::Waiting(removing) => LangBarNext::Waiting(
                    LangBarRefresh::Removing(removing),
                ),
                UnregisteringNext::Finished(Ok(_)) => LangBarNext::Waiting(LangBarRefresh::Asking),
                UnregisteringNext::Finished(Err(error)) => LangBarNext::Finished(Err(error)),
            },
            LangBarRefresh::Asking => match reply {
                RegisterReply::Registered(_) => LangBarNext::Waiting(LangBarRefresh::Keeping),
                _ => LangBarNext::Finished(Err(reply.failure())),
            },
            LangBarRefresh::Keeping => LangBarNext::Finished(
                if reply.is_done() {
                    Ok(())
                } else {
                    Err(reply.failure())
                },
            ),
        }
    }

    /// Returns the outside work that is waited for.
    pub fn effect(&self) -> (effect: RegisterEffect<()>)
        ensures
            effect == self.awaited(),
    {
        match self {
            LangBarRefresh::Removing(removing) => removing.effect(),
            LangBarRefresh::Asking => RegisterEffect::Register,
            LangBarRefresh::Keeping => RegisterEffect::Keep(()),
        }
    }

    /// Goes on after a reply.
    pub fn resume(self, reply: RegisterReply<()>) -> (next: LangBarNext)
        ensures
            next == self.resumed(reply),
    {
        match self {
            LangBarRefresh::Removing(removing) => match removing.resume(reply) {
                UnregisteringNext::Waiting(removing) => LangBarNext::Waiting(
                    LangBarRefresh::Removing(removing),
                ),
                UnregisteringNext::Finished(Ok(_)) => LangBarNext::Waiting(LangBarRefresh::Asking),
                UnregisteringNext::Finished(Err(error)) => LangBarNext::Finished(Err(error)),
            },
            LangBarRefresh::Asking => match reply {
                RegisterReply::Registered(_) => LangBarNext::Waiting(LangBarRefresh::Keeping),
                RegisterReply::Failed(error) => LangBarNext::Finished(Err(error)),
                RegisterReply::Done => LangBarNext::Finished(Err(HostError::Unavailable)),
            },
            LangBarRefresh::Keeping => match reply {
                RegisterReply::Done => LangBarNext::Finished(Ok(())),
                RegisterReply::Failed(error) => LangBarNext::Finished(Err(error)),
                RegisterReply::Registered(_) => LangBarNext::Finished(Err(HostError::Unavailable)),
            },
        }
    }
}

impl TextServiceFactory {
    /// Begins to show the item in the language bar anew, where it is there.
    pub fn update_lang_bar(&self) -> (next: LangBarNext)
        ensures
            next == match self@.missing_for_registration() {
                Some(error) => LangBarNext::Finished(Err(error)),
                None => if self@.lang_bar_added {
                    LangBarNext::Waiting(LangBarRefresh::Removing(Unregistering::Stopping(())))
                } else {
                    LangBarNext::Finished(Ok(()))
                },
            },
    {
        match self.registration_handles() {
            Err(error) => LangBarNext::Finished(Err(error)),
            Ok(_) => if self.text_service.lang_bar_added {
                LangBarNext::Waiting(LangBarRefresh::Removing(Unregistering::Stopping(())))
            } else {
                LangBarNext::Finished(Ok(()))
            },
        }
    }
}

/// Registering the text-layout sink of the focused document: what is waited for.
#[derive(Debug, PartialEq, Eq)]
pub enum LayoutAdvising {
    /// Dropping a context that is kept without a cookie.
    DroppingContext,
    /// Taking back the sink of the document before.
    Removing(Unregistering<LayoutSink>),
    Adding(Registering<LayoutSink>),
}

/// Outside work on the text-layout sink.
#[derive(Debug, PartialEq, Eq)]
pub enum LayoutEffect {
    DropContext,
    Sink(RegisterEffect<LayoutSink>),
}

/// What registering the text-layout sink comes to.
#[derive(Debug, PartialEq, Eq)]
pub enum LayoutAdvisingNext {
    Waiting(LayoutAdvising),
    Finished(Result<(), HostError>),
}

impl LayoutAdvising {
    /// The outside work that is waited for.
    pub open spec fn awaited(self) -> LayoutEffect {
        match self {
            LayoutAdvising::DroppingContext => LayoutEffect::DropContext,
            LayoutAdvising::Removing(removing) => LayoutEffect::Sink(removing.awaited()),
            LayoutAdvising::Adding(adding) => LayoutEffect::Sink(adding.awaited()),
        }
    }

    /// Goes on after a reply: a sink is registered only once the one before is
    /// gone.
    pub open spec fn resumed(self, reply: RegisterReply<LayoutSink>) -> LayoutAdvisingNext {
        let add = LayoutAdvisingNext::Waiting(LayoutAdvising::Adding(Registering::Asking));
        match self {
            LayoutAdvising::DroppingContext => if reply.is_done() {
                add
            } else {
                LayoutAdvisingNext::Finished(Err(reply.failure()))
            },
            LayoutAdvising::Removing(removing) => match removing.resumed(reply) {
                UnregisteringNext::Waiting(removing) => LayoutAdvisingNext::Waiting(
                    LayoutAdvising::Removing(removing),
                ),
                UnregisteringNext::Finished(Ok(_)) => add,
                UnregisteringNext::Finished(Err(error)) => LayoutAdvisingNext::Finished(Err(error)),
            },
            LayoutAdvising::Adding(adding) => match adding.resumed(reply) {
                RegisteringNext::Waiting(adding) => LayoutAdvisingNext::Waiting(
                    LayoutAdvising::Adding(adding),
                ),
                RegisteringNext::Finished(result) => LayoutAdvisingNext::Finished(result),
            },
        }
    }

    /// Returns the outside work that is waited for.
    pub fn effect(&self) -> (effect: LayoutEffect)
        ensures
            effect == self.awaited(),
    {
        match self {
            LayoutAdvising::DroppingContext => LayoutEffect::DropContext,
            LayoutAdvising::Removing(removing) => LayoutEffect::Sink(removing.effect()),
            LayoutAdvising::Adding(adding) => LayoutEffect::Sink(adding.effect()),
        }
    }

    /// Goes on after a reply.
    pub fn resume(self, reply: RegisterReply<LayoutSink>) -> (next: LayoutAdvisingNext)
        ensures
            next == self.resumed(reply),
    {
        match self {
            LayoutAdvising::DroppingContext => match reply {
                RegisterReply::Done => LayoutAdvisingNext::Waiting(
                    LayoutAdvising::Adding(Registering::Asking),
                ),
                RegisterReply::Failed(error) => LayoutAdvisingNext::Finished(Err(error)),
                RegisterReply::Registered(_) => LayoutAdvisingNext::Finished(
                    Err(HostError::Unavailable),
                ),
            },
            LayoutAdvising::Removing(removing) => match removing.resume(reply) {
                UnregisteringNext::Waiting(removing) => LayoutAdvisingNext::Waiting(
                    LayoutAdvising::Removing(removing),
                ),
                UnregisteringNext::Finished(Ok(_)) => LayoutAdvisingNext::Waiting(
                    LayoutAdvising::Adding(Registering::Asking),
                ),
                UnregisteringNext::Finished(Err(error)) => LayoutAdvisingNext::Finished(Err(error)),
            },
            LayoutAdvising::Adding(adding) => match adding.resume(reply) {
                RegisteringNext::Waiting(adding) => LayoutAdvisingNext::Waiting(
                    LayoutAdvising::Adding(adding),
                ),
                RegisteringNext::Finished(result) => LayoutAdvisingNext::Finished(result),
            },
        }
    }
}

impl TextServiceFactory {
    /// Begins to register the text-layout sink of the focused document.
    pub fn advise_text_layout_sink(&self) -> (next: LayoutAdvisingNext)
        ensures
            next == match self@.layout_removal() {
                LayoutRemoval::Nothing => LayoutAdvisingNext::Waiting(
                    LayoutAdvising::Adding(Registering::Asking),
                ),
                LayoutRemoval::DropContext => LayoutAdvisingNext::Waiting(
                    LayoutAdvising::DroppingContext,
                ),
                LayoutRemoval::Remove(removing) => LayoutAdvisingNext::Waiting(
                    LayoutAdvising::Removing(removing),
                ),
                LayoutRemoval::Failed(error) => LayoutAdvisingNext::Finished(Err(error)),
            },
    {
        match self.unadvise_text_layout_sink() {
            LayoutRemoval::Nothing => LayoutAdvisingNext::Waiting(
                LayoutAdvising::Adding(Registering::Asking),
            ),
            LayoutRemoval::DropContext => LayoutAdvisingNext::Waiting(
                LayoutAdvising::DroppingContext,
            ),
            LayoutRemoval::Remove(removing) => LayoutAdvisingNext::Waiting(
                LayoutAdvising::Removing(removing),
            ),
            LayoutRemoval::Failed(error) => LayoutAdvisingNext::Finished(Err(error)),
        }
    }
}

/// A registration is asked for, and what the host gives is kept; where it cannot be
/// kept it is given back, and where that fails too it is kept after all. Whatever
/// becomes of that, the first failure is the result.
pub proof fn a_registration_is_kept_or_given_back<K: Copy>(
    registration: K,
    error: HostError,
    later: HostError,
    reply: RegisterReply<K>,
)
    ensures
        ({
            let done = RegisterReply::<K>::Done;
            let asking = Registering::<K>::Asking;
            let keeping = asking.resumed(RegisterReply::Registered(registration))->Waiting_0;
            let undoing = keeping.resumed(RegisterReply::Failed(error))->Waiting_0;
            let anyway = undoing.resumed(RegisterReply::Failed(later))->Waiting_0;
            &&& asking.awaited() == RegisterEffect::<K>::Register
            &&& asking.resumed(RegisterReply::Failed(error)) == RegisteringNext::<K>::Finished(
                Err(error),
            )
            &&& keeping.awaited() == RegisterEffect::Keep(registration)
            &&& keeping.resumed(done) == RegisteringNext::<K>::Finished(Ok(()))
            &&& undoing.awaited() == RegisterEffect::Unregister(registration)
            &&& undoing.resumed(done) == RegisteringNext::<K>::Finished(Err(error))
            &&& anyway.awaited() == RegisterEffect::Keep(registration)
            &&& anyway.resumed(reply) == RegisteringNext::<K>::Finished(Err(error))
        }),
{
}

/// A registration is taken back from the host first, and dropped from the service
/// only then; a failure ends the work with that failure.
pub proof fn a_registration_is_dropped_last<K: Copy>(registration: K, error: HostError)
    ensures
        ({
            let done = RegisterReply::<K>::Done;
            let stopping = Unregistering::Stopping(registration);
            let dropping = stopping.resumed(done)->Waiting_0;
            &&& stopping.awaited() == RegisterEffect::Unregister(registration)
            &&& stopping.resumed(RegisterReply::Failed(error)) == UnregisteringNext::<K>::Finished(
                Err(error),
            )
            &&& dropping.awaited() == RegisterEffect::Drop(registration)
            &&& dropping.resumed(done) == UnregisteringNext::<K>::Finished(Ok(()))
            &&& dropping.resumed(RegisterReply::Failed(error)) == UnregisteringNext::<K>::Finished(
                Err(error),
            )
        }),
{
}

/// A registration that the service has is not made twice, and none is made without
/// a thread manager or without the service itself.
pub proof fn a_registration_is_made_once<K>(service: TextServiceView)
    ensures
        service.thread_mgr is None ==> service.registration_begun::<K>(false)
            == RegisteringNext::<K>::Finished(Err(HostError::Missing(MissingHandle::ThreadMgr))),
        service.thread_mgr is Some && service.this is None ==> service.registration_begun::<K>(
            false,
        ) == RegisteringNext::<K>::Finished(Err(HostError::Missing(MissingHandle::This))),
        service.thread_mgr is Some && service.this is Some ==> service.registration_begun::<K>(true)
            == RegisteringNext::<K>::Finished(Ok(())),
        service.thread_mgr is Some && service.this is Some ==> service.registration_begun::<K>(
            false,
        ) == RegisteringNext::<K>::Waiting(Registering::Asking),
{
}

/// The text-layout sink is taken back with the context and the cookie that the
/// service keeps; a context alone is dropped, and a cookie alone is an error.
pub proof fn a_layout_sink_is_its_context_and_cookie(
    service: TextServiceView,
    context: u64,
    cookie: u32,
)
    ensures
        ({
            let both = TextServiceView {
                text_layout_context: Some(context),
                text_layout_cookie: Some(cookie),
                ..service
            };
            let only_context = TextServiceView { text_layout_cookie: None, ..both };
            let only_cookie = TextServiceView { text_layout_context: None, ..both };
            let neither = TextServiceView { text_layout_context: None, ..only_context };
            &&& both.layout_removal() == LayoutRemoval::Remove(
                Unregistering::Stopping(LayoutSink { context, cookie }),
            )
            &&& only_context.layout_removal() == LayoutRemoval::DropContext
            &&& only_cookie.layout_removal() == LayoutRemoval::Failed(
                HostError::CookieWithoutContext,
            )
            &&& neither.layout_removal() == LayoutRemoval::Nothing
        }),
{
}

/// The sink of another document is registered only once the one before is gone, and
/// the language bar item is added again only once it was removed.
pub proof fn the_old_goes_before_the_new(
    before: LayoutSink,
    after: LayoutSink,
    error: HostError,
)
    ensures
        ({
            let done = RegisterReply::<LayoutSink>::Done;
            let removing = LayoutAdvising::Removing(Unregistering::Stopping(before));
            let dropping = removing.resumed(done)->Waiting_0;
            let adding = dropping.resumed(done)->Waiting_0;
            let keeping = adding.resumed(RegisterReply::Registered(after))->Waiting_0;
            &&& removing.awaited() == LayoutEffect::Sink(RegisterEffect::Unregister(before))
            &&& dropping.awaited() == LayoutEffect::Sink(RegisterEffect::Drop(before))
            &&& adding.awaited() == LayoutEffect::Sink(RegisterEffect::Register)
            &&& keeping.awaited() == LayoutEffect::Sink(RegisterEffect::Keep(after))
            &&& keeping.resumed(done) == LayoutAdvisingNext::Finished(Ok(()))
            &&& removing.resumed(RegisterReply::Failed(error)) == LayoutAdvisingNext::Finished(
                Err(error),
            )
            &&& LayoutAdvising::DroppingContext.awaited() == LayoutEffect::DropContext
            &&& LayoutAdvising::DroppingContext.resumed(done) == LayoutAdvisingNext::Waiting(adding)
        }),
        ({
            let done = RegisterReply::<()>::Done;
            let removing = LangBarRefresh::Removing(Unregistering::Stopping(()));
            let dropping = removing.resumed(done)->Waiting_0;
            let asking = dropping.resumed(done)->Waiting_0;
            let keeping = asking.resumed(RegisterReply::Registered(()))->Waiting_0;
            &&& removing.awaited() == RegisterEffect::Unregister(())
            &&& dropping.awaited() == RegisterEffect::Drop(())
            &&& asking.awaited() == RegisterEffect::<()>::Register
            &&& keeping.awaited() == RegisterEffect::Keep(())
            &&& keeping.resumed(done) == LangBarNext::Finished(Ok(()))
            &&& asking.resumed(RegisterReply::Failed(error)) == LangBarNext::Finished(Err(error))
        }),
{
}

} // verus!
