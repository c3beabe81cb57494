//! Which client the converter belongs to.
//!
//! There is one converter, and many clients. A client owns it from the moment
//! that it begins a composition. Beginning takes two requests: the context, which
//! is put aside without disturbing the owner, and the first text, which claims
//! the converter, but only if nobody else has claimed it in between.

use vstd::prelude::*;

use crate::text::same_text;

verus! {

broadcast use vstd::string::group_string_axioms;

/// A client. Clients that do not name their session count as one.
#[derive(Debug, PartialEq, Eq)]
pub enum IpcSessionToken<T = String> {
    Legacy,
    Explicit(T),
}

impl View for IpcSessionToken<String> {
    type V = IpcSessionToken<Seq<char>>;

    open spec fn view(&self) -> IpcSessionToken<Seq<char>> {
        match self {
            IpcSessionToken::Legacy => IpcSessionToken::Legacy,
            IpcSessionToken::Explicit(name) => IpcSessionToken::Explicit(name@),
        }
    }
}

impl IpcSessionToken<String> {
    /// Makes a copy.
    pub fn copy(&self) -> (copy: IpcSessionToken)
        ensures
            copy == *self,
    {
        match self {
            IpcSessionToken::Legacy => IpcSessionToken::Legacy,
            IpcSessionToken::Explicit(name) => IpcSessionToken::Explicit(name.clone()),
        }
    }

    /// Tells whether two tokens stand for one client.
    pub fn is_same(&self, other: &IpcSessionToken) -> (same: bool)
        ensures
            same == (self@ == other@),
    {
        match (self, other) {
            (IpcSessionToken::Legacy, IpcSessionToken::Legacy) => true,
            (IpcSessionToken::Explicit(left), IpcSessionToken::Explicit(right)) => same_text(
                left.as_str(),
                right.as_str(),
            ),
            _ => false,
        }
    }
}

/// A context that was put aside, and the generation of ownership at that time.
#[derive(Debug, PartialEq, Eq)]
pub struct PendingContext<T = String> {
    pub observed_owner_generation: u64,
    pub context: T,
}

impl View for PendingContext<String> {
    type V = PendingContext<Seq<char>>;

    open spec fn view(&self) -> PendingContext<Seq<char>> {
        PendingContext {
            observed_owner_generation: self.observed_owner_generation,
            context: self.context@,
        }
    }
}

/// The contexts that were put aside, at most one for each client.
#[derive(Debug)]
pub struct PendingContexts {
    entries: Vec<(IpcSessionToken, PendingContext)>,
}

impl PendingContexts {
    spec fn holds(self, token: IpcSessionToken<Seq<char>>) -> bool {
        exists|i: int| 0 <= i < self.entries.len() && #[trigger] self.entries[i].0@ == token
    }

    spec fn place(self, token: IpcSessionToken<Seq<char>>) -> int {
        choose|i: int| 0 <= i < self.entries.len() && #[trigger] self.entries[i].0@ == token
    }

    /// No client has two contexts.
    pub closed spec fn is_valid(self) -> bool {
        forall|i: int, j: int|
            0 <= i < j < self.entries.len() ==> #[trigger] self.entries[i].0@
                != #[trigger] self.entries[j].0@
    }
}

impl View for PendingContexts {
    type V = Map<IpcSessionToken<Seq<char>>, PendingContext<Seq<char>>>;

    closed spec fn view(&self) -> Map<IpcSessionToken<Seq<char>>, PendingContext<Seq<char>>> {
        Map::new(
            |token: IpcSessionToken<Seq<char>>| self.holds(token),
            |token: IpcSessionToken<Seq<char>>| self.entries[self.place(token)].1@,
        )
    }
}

impl PendingContexts {
    /// No contexts.
    pub fn new() -> (contexts: PendingContexts)
        ensures
            contexts.is_valid(),
            contexts@ == Map::<IpcSessionToken<Seq<char>>, PendingContext<Seq<char>>>::empty(),
    {
        let contexts = PendingContexts { entries: Vec::new() };
        assert(contexts@ =~= Map::empty());
        contexts
    }

    fn find(&self, token: &IpcSessionToken) -> (found: Option<usize>)
        requires
            self.is_valid(),
        ensures
            match found {
                Some(i) => {
                    &&& i < self.entries.len()
                    &&& self.entries[i as int].0@ == token@
                    &&& self@.contains_key(token@)
                    &&& self@[token@] == self.entries[i as int].1@
                },
                None => !self@.contains_key(token@),
            },
    {
        for i in 0..self.entries.len()
            invariant
                self.is_valid(),
                forall|j: int| 0 <= j < i ==> #[trigger] self.entries[j].0@ != token@,
        {
            if self.entries[i].0.is_same(token) {
                assert(self.entries[i as int].0@ == token@);
                return Some(i);
            }
        }
        None
    }

    /// Tells whether there are no contexts.
    pub fn is_empty(&self) -> (empty: bool)
        requires
            self.is_valid(),
        ensures
            empty == (self@ =~= Map::<
                IpcSessionToken<Seq<char>>,
                PendingContext<Seq<char>>,
            >::empty()),
    {
        let empty = self.entries.len() == 0;
        proof {
            if empty {
                assert(self@ =~= Map::empty());
            } else {
                assert(self.entries[0].0@ == self.entries[0].0@);
                assert(self@.contains_key(self.entries[0].0@));
            }
        }
        empty
    }

    /// Returns the context of a client.
    pub fn get(&self, token: &IpcSessionToken) -> (pending: Option<&PendingContext>)
        requires
            self.is_valid(),
        ensures
            match pending {
                Some(pending) => self@.contains_key(token@) && self@[token@] == pending@,
                None => !self@.contains_key(token@),
            },
    {
        match self.find(token) {
            Some(i) => Some(&self.entries[i].1),
            None => None,
        }
    }

    /// Puts the context of a client aside, in place of an earlier one.
    pub fn insert(&mut self, token: IpcSessionToken, pending: PendingContext)
        requires
            old(self).is_valid(),
        ensures
            final(self).is_valid(),
            final(self)@ == old(self)@.insert(token@, pending@),
    {
        let found = self.find(&token);
        let ghost before = *self;
        match found {
            Some(i) => {
                self.entries.set(i, (token, pending));
                proof {
                    assert forall|j: int| 0 <= j < self.entries.len() implies
                        #[trigger] self.entries[j].0@ == before.entries[j].0@ by {}
                    assert forall|t: IpcSessionToken<Seq<char>>| #[trigger]
                        self@.contains_key(t) <==> before@.insert(token@, pending@).contains_key(t)
                        by {
                        if before.holds(t) {
                            assert(self.entries[before.place(t)].0@ == t);
                        }
                        if self.holds(t) {
                            assert(before.entries[self.place(t)].0@ == t);
                        }
                        assert(self.entries[i as int].0@ == token@);
                    }
                    assert forall|t: IpcSessionToken<Seq<char>>| #[trigger]
                        self@.contains_key(t) implies self@[t] == before@.insert(
                        token@,
                        pending@,
                    )[t] by {
                        let k = self.place(t);
                        assert(self.entries[k].0@ == t);
                        assert(before.entries[k].0@ == t);
                        if t == token@ {
                            assert(self.entries[i as int].0@ == t);
                        } else {
                            assert(before.holds(t));
                            assert(before.place(t) == k);
                        }
                    }
                    assert(self@ =~= before@.insert(token@, pending@));
                }
            },
            None => {
                self.entries.push((token, pending));
                proof {
                    let last = before.entries.len() as int;
                    assert forall|j: int| 0 <= j < last implies #[trigger] self.entries[j]
                        == before.entries[j] by {}
                    assert(self.entries[last].0@ == token@);
                    assert forall|j: int| 0 <= j < last implies #[trigger] before.entries[j].0@
                        != token@ by {
                        if before.entries[j].0@ == token@ {
                            assert(before.holds(token@));
                        }
                    }
                    assert(self.is_valid());
                    assert forall|t: IpcSessionToken<Seq<char>>| #[trigger]
                        self@.contains_key(t) <==> before@.insert(token@, pending@).contains_key(t)
                        by {
                        if before.holds(t) {
                            assert(self.entries[before.place(t)].0@ == t);
                        }
                        if self.holds(t) && t != token@ {
                            assert(before.entries[self.place(t)].0@ == t);
                        }
                    }
                    assert forall|t: IpcSessionToken<Seq<char>>| #[trigger]
                        self@.contains_key(t) implies self@[t] == before@.insert(
                        token@,
                        pending@,
                    )[t] by {
                        let k = self.place(t);
                        assert(self.entries[k].0@ == t);
                        if t != token@ {
                            assert(before.entries[k].0@ == t);
                            assert(before.place(t) == k);
                        }
                    }
                    assert(self@ =~= before@.insert(token@, pending@));
                }
            },
        }
    }

    /// Takes the context of a client.
    pub fn remove(&mut self, token: &IpcSessionToken) -> (pending: Option<PendingContext>)
        requires
            old(self).is_valid(),
        ensures
            final(self).is_valid(),
            final(self)@ == old(self)@.remove(token@),
            match pending {
                Some(pending) => old(self)@.contains_key(token@) && old(self)@[token@] == pending@,
                None => !old(self)@.contains_key(token@),
            },
    {
        let found = self.find(token);
        let ghost before = *self;
        match found {
            None => {
                assert(self@ =~= before@.remove(token@));
                None
            },
            Some(i) => {
                let (_, pending) = self.entries.remove(i);
                proof {
                    assert forall|j: int| 0 <= j < self.entries.len() implies
                        #[trigger] self.entries[j] == before.entries[if j < i {
                        j
                    } else {
                        j + 1
                    }] by {}
                    assert forall|j: int, k: int| 0 <= j < k < self.entries.len() implies
                        #[trigger] self.entries[j].0@ != #[trigger] self.entries[k].0@ by {
                        let before_j = if j < i { j } else { j + 1 };
                        let before_k = if k < i { k } else { k + 1 };
                        assert(before.entries[before_j].0@ != before.entries[before_k].0@);
                    }
                    assert(self.is_valid());
                    assert forall|t: IpcSessionToken<Seq<char>>| #[trigger]
                        self@.contains_key(t) <==> before@.remove(token@).contains_key(t) by {
                        if before.holds(t) && t != token@ {
                            let k = before.place(t);
                            assert(before.entries[k].0@ == t);
                            assert(before.entries[i as int].0@ == token@);
                            let after = if k < i { k } else { k - 1 };
                            assert(self.entries[after].0@ == t);
                        }
                        if self.holds(t) {
                            let k = self.place(t);
                            assert(self.entries[k].0@ == t);
                            let origin = if k < i { k } else { k + 1 };
                            assert(before.entries[origin].0@ == t);
                            assert(before.entries[i as int].0@ == token@);
                        }
                    }
                    assert forall|t: IpcSessionToken<Seq<char>>| #[trigger]
                        self@.contains_key(t) implies self@[t] == before@.remove(token@)[t] by {
                        let k = self.place(t);
                        assert(self.entries[k].0@ == t);
                        let origin = if k < i { k } else { k + 1 };
                        assert(before.entries[origin].0@ == t);
                        assert(before.place(t) == origin);
                    }
                    assert(self@ =~= before@.remove(token@));
                }
                Some(pending)
            },
        }
    }
}

/// Whether a client may use the converter.
#[derive(Clone, Copy, Debug, PartialEq, Eq, Structural)]
pub enum OwnerAccess {
    Owned,
    ClaimedLegacy,
    Rejected,
}

/// What becomes of a context.
#[derive(Clone, Copy, Debug, PartialEq, Eq, Structural)]
pub enum SetContextAccess {
    Apply,
    ClaimedLegacy,
    Staged,
}

/// Whether a client may add text.
#[derive(Debug, PartialEq, Eq)]
pub enum AppendAccess<T = String> {
    Owned,
    ClaimedLegacy,
    /// The converter may be claimed, with the context that was put aside.
    ClaimedExplicit { context: T },
    Rejected,
}

impl View for AppendAccess<String> {
    type V = AppendAccess<Seq<char>>;

    open spec fn view(&self) -> AppendAccess<Seq<char>> {
        match self {
            AppendAccess::Owned => AppendAccess::Owned,
            AppendAccess::ClaimedLegacy => AppendAccess::ClaimedLegacy,
            AppendAccess::ClaimedExplicit { context } => AppendAccess::ClaimedExplicit {
                context: context@,
            },
            AppendAccess::Rejected => AppendAccess::Rejected,
        }
    }
}

/// Who owns the converter, how often it has changed hands, and the contexts that
/// were put aside.
#[derive(Debug)]
pub struct FfiSessionState {
    pub active_session_token: Option<IpcSessionToken>,
    pub owner_generation: u64,
    pub pending_contexts: PendingContexts,
}

/// The contents of an `FfiSessionState`.
#[verifier::ext_equal]
pub struct SessionView {
    pub owner: Option<IpcSessionToken<Seq<char>>>,
    pub generation: u64,
    pub pending: Map<IpcSessionToken<Seq<char>>, PendingContext<Seq<char>>>,
}

impl View for FfiSessionState {
    type V = SessionView;

    open spec fn view(&self) -> SessionView {
        SessionView {
            owner: match self.active_session_token {
                Some(token) => Some(token@),
                None => None,
            },
            generation: self.owner_generation,
            pending: self.pending_contexts@,
        }
    }
}

impl SessionView {
    /// Nobody owns the converter yet.
    pub open spec fn new() -> SessionView {
        SessionView { owner: None, generation: 0, pending: Map::empty() }
    }

    /// Whether every context that was put aside was put aside under the present
    /// owner.
    pub open spec fn is_current(self) -> bool {
        forall|token: IpcSessionToken<Seq<char>>| #[trigger]
            self.pending.contains_key(token) ==> self.pending[token].observed_owner_generation
                == self.generation
    }

    /// The converter after it has changed hands. Contexts that were put aside
    /// under the owner before are dropped.
    pub open spec fn owned_by(self, token: IpcSessionToken<Seq<char>>) -> SessionView {
        SessionView {
            owner: Some(token),
            generation: if self.generation == u64::MAX {
                0
            } else {
                (self.generation + 1) as u64
            },
            pending: Map::empty(),
        }
    }

    /// Whether a client may use the converter. A client without a name takes it
    /// over; no other client can, this way.
    pub open spec fn access(self, token: IpcSessionToken<Seq<char>>) -> (SessionView, OwnerAccess) {
        if self.owner == Some(token) {
            (self, OwnerAccess::Owned)
        } else if token is Legacy {
            (self.owned_by(token), OwnerAccess::ClaimedLegacy)
        } else {
            (self, OwnerAccess::Rejected)
        }
    }

    /// What becomes of a context: that of a client that does not own the
    /// converter is put aside.
    pub open spec fn context_access(
        self,
        token: IpcSessionToken<Seq<char>>,
        context: Seq<char>,
    ) -> (SessionView, SetContextAccess) {
        match self.access(token) {
            (after, OwnerAccess::Owned) => (after, SetContextAccess::Apply),
            (after, OwnerAccess::ClaimedLegacy) => (after, SetContextAccess::ClaimedLegacy),
            (after, OwnerAccess::Rejected) => (
                SessionView {
                    pending: after.pending.insert(
                        token,
                        PendingContext { observed_owner_generation: after.generation, context },
                    ),
                    ..after
                },
                SetContextAccess::Staged,
            ),
        }
    }

    /// Whether a client may add text: the owner may, and a client whose context
    /// was put aside since the converter last changed hands.
    pub open spec fn append_access(self, token: IpcSessionToken<Seq<char>>) -> (
        SessionView,
        AppendAccess<Seq<char>>,
    ) {
        match self.access(token) {
            (after, OwnerAccess::Owned) => (after, AppendAccess::Owned),
            (after, OwnerAccess::ClaimedLegacy) => (after, AppendAccess::ClaimedLegacy),
            (after, OwnerAccess::Rejected) => {
                let taken = SessionView { pending: after.pending.remove(token), ..after };
                if after.pending.contains_key(token)
                    && after.pending[token].observed_owner_generation == after.generation {
                    (
                        taken,
                        AppendAccess::ClaimedExplicit { context: after.pending[token].context },
                    )
                } else {
                    (taken, AppendAccess::Rejected)
                }
            },
        }
    }
}

impl Default for FfiSessionState {
    fn default() -> (state: FfiSessionState)
        ensures
            state.is_valid(),
            state@ == SessionView::new(),
    {
        FfiSessionState {
            active_session_token: None,
            owner_generation: 0,
            pending_contexts: PendingContexts::new(),
        }
    }
}

impl FfiSessionState {
    /// No client has two contexts.
    pub open spec fn is_valid(self) -> bool {
        self.pending_contexts.is_valid()
    }

    /// Hands the converter to a client.
    pub fn change_owner(&mut self, token: IpcSessionToken)
        ensures
            final(self).is_valid(),
            final(self)@ == old(self)@.owned_by(token@),
    {
        self.active_session_token = Some(token);
        self.owner_generation = self.owner_generation.wrapping_add(1);
        self.pending_contexts = PendingContexts::new();
    }

    /// Finds out whether a client may use the converter.
    pub fn owner_access(&mut self, token: &IpcSessionToken) -> (access: OwnerAccess)
        requires
            old(self).is_valid(),
        ensures
            final(self).is_valid(),
            (final(self)@, access) == old(self)@.access(token@),
    {
        let owned = match &self.active_session_token {
            Some(owner) => owner.is_same(token),
            None => false,
        };
        if owned {
            return OwnerAccess::Owned;
        }
        match token {
            IpcSessionToken::Legacy => {
                self.change_owner(IpcSessionToken::Legacy);
                OwnerAccess::ClaimedLegacy
            },
            IpcSessionToken::Explicit(_) => OwnerAccess::Rejected,
        }
    }

    /// Finds out what becomes of a context, and puts it aside where the client
    /// does not own the converter.
    pub fn set_context_access(&mut self, token: &IpcSessionToken, context: String) -> (access:
        SetContextAccess)
        requires
            old(self).is_valid(),
        ensures
            final(self).is_valid(),
            (final(self)@, access) == old(self)@.context_access(token@, context@),
    {
        match self.owner_access(token) {
            OwnerAccess::Owned => SetContextAccess::Apply,
            OwnerAccess::ClaimedLegacy => SetContextAccess::ClaimedLegacy,
            OwnerAccess::Rejected => {
                let pending = PendingContext {
                    observed_owner_generation: self.owner_generation,
                    context,
                };
                self.pending_contexts.insert(token.copy(), pending);
                SetContextAccess::Staged
            },
        }
    }

    /// Finds out whether a client may add text. A context that was put aside is
    /// used up by the attempt.
    pub fn append_access(&mut self, token: &IpcSessionToken) -> (access: AppendAccess)
        requires
            old(self).is_valid(),
        ensures
            final(self).is_valid(),
            (final(self)@, access@) == old(self)@.append_access(token@),
    {
        match self.owner_access(token) {
            OwnerAccess::Owned => AppendAccess::Owned,
            OwnerAccess::ClaimedLegacy => AppendAccess::ClaimedLegacy,
            OwnerAccess::Rejected => match self.pending_contexts.remove(token) {
                None => AppendAccess::Rejected,
                Some(pending) => {
                    if pending.observed_owner_generation != self.owner_generation {
                        AppendAccess::Rejected
                    } else {
                        AppendAccess::ClaimedExplicit { context: pending.context }
                    }
                },
            },
        }
    }
}

/// No request leaves a context put aside under an earlier owner: such contexts are
/// dropped with the change of hands.
pub proof fn staged_contexts_are_current(
    state: SessionView,
    token: IpcSessionToken<Seq<char>>,
    context: Seq<char>,
)
    requires
        state.is_current(),
    ensures
        SessionView::new().is_current(),
        state.owned_by(token).is_current(),
        state.access(token).0.is_current(),
        state.context_access(token, context).0.is_current(),
        state.append_access(token).0.is_current(),
{
}

/// A client that names its session and does not own the converter cannot take it
/// with any request but the first text: neither who owns it nor the generation
/// changes.
pub proof fn a_stranger_changes_no_ownership(
    state: SessionView,
    name: Seq<char>,
    context: Seq<char>,
)
    requires
        state.owner != Some(IpcSessionToken::Explicit(name)),
    ensures
        ({
            let token = IpcSessionToken::Explicit(name);
            let staged = state.context_access(token, context);
            let appended = state.append_access(token);
            &&& state.access(token) == (state, OwnerAccess::Rejected)
            &&& staged.1 == SetContextAccess::Staged
            &&& staged.0.owner == state.owner && staged.0.generation == state.generation
            &&& appended.0.owner == state.owner && appended.0.generation == state.generation
        }),
{
}

/// The owner's own requests do not count as a change of hands.
pub proof fn the_owner_keeps_its_generation(
    state: SessionView,
    token: IpcSessionToken<Seq<char>>,
    context: Seq<char>,
)
    requires
        state.owner == Some(token),
    ensures
        state.access(token) == (state, OwnerAccess::Owned),
        state.context_access(token, context) == (state, SetContextAccess::Apply),
        state.append_access(token) == (state, AppendAccess::<Seq<char>>::Owned),
{
}

/// The first text claims the converter with the context that was put aside, as
/// long as the converter has not changed hands in between.
pub proof fn a_staged_context_is_carried_by_the_claim(
    state: SessionView,
    name: Seq<char>,
    context: Seq<char>,
)
    requires
        state.owner != Some(IpcSessionToken::Explicit(name)),
    ensures
        ({
            let token = IpcSessionToken::Explicit(name);
            let staged = state.context_access(token, context).0;
            staged.append_access(token).1 == (AppendAccess::ClaimedExplicit { context })
        }),
{
}

/// A claim by another client fences off what was put aside before it: the text
/// that follows is refused.
pub proof fn a_newer_claim_fences_older_contexts(
    state: SessionView,
    name: Seq<char>,
    context: Seq<char>,
    claimant: IpcSessionToken<Seq<char>>,
)
    requires
        claimant != IpcSessionToken::Explicit(name),
        state.owner != Some(IpcSessionToken::Explicit(name)),
    ensures
        ({
            let token = IpcSessionToken::Explicit(name);
            let staged = state.context_access(token, context).0;
            let claimed = staged.owned_by(claimant);
            &&& claimed.append_access(token).1 == AppendAccess::<Seq<char>>::Rejected
            &&& claimed.append_access(token).0.owner == Some(claimant)
        }),
{
}

/// Text without a context before it is refused to a client that does not own the
/// converter.
pub proof fn text_needs_a_context_first(state: SessionView, name: Seq<char>)
    requires
        state.owner != Some(IpcSessionToken::Explicit(name)),
        !state.pending.contains_key(IpcSessionToken::Explicit(name)),
    ensures
        state.append_access(IpcSessionToken::Explicit(name)).1
            == AppendAccess::<Seq<char>>::Rejected,
{
}

/// A client without a name takes the converter with any request, and keeps it.
pub proof fn a_legacy_client_always_gets_the_converter(state: SessionView, context: Seq<char>)
    ensures
        ({
            let token = IpcSessionToken::<Seq<char>>::Legacy;
            &&& state.access(token).1 != OwnerAccess::Rejected
            &&& state.access(token).0.owner == Some(token)
            &&& state.access(token).0.access(token).1 == OwnerAccess::Owned
            &&& state.context_access(token, context).1 != SetContextAccess::Staged
            &&& state.append_access(token).1 != AppendAccess::<Seq<char>>::Rejected
        }),
{
}

/// A change of hands makes the client the owner, counts as another generation, and
/// drops every context that was put aside.
pub proof fn a_change_of_hands_is_complete(
    state: SessionView,
    token: IpcSessionToken<Seq<char>>,
    other: IpcSessionToken<Seq<char>>,
)
    ensures
        state.owned_by(token).owner == Some(token),
        state.owned_by(token).generation != state.generation,
        !state.owned_by(token).pending.contains_key(other),
        state.owned_by(token).access(token).1 == OwnerAccess::Owned,
{
}

/// A client without a name that does not own the converter takes it over by any
/// request, and what was put aside before is gone.
pub proof fn a_legacy_client_takes_over(state: SessionView, context: Seq<char>)
    requires
        state.owner != Some(IpcSessionToken::<Seq<char>>::Legacy),
    ensures
        ({
            let token = IpcSessionToken::<Seq<char>>::Legacy;
            let (after, access) = state.access(token);
            &&& access == OwnerAccess::ClaimedLegacy
            &&& after.owner == Some(token)
            &&& after.generation != state.generation
            &&& after.pending =~= Map::empty()
            &&& state.context_access(token, context) == (after, SetContextAccess::ClaimedLegacy)
            &&& state.append_access(token) == (after, AppendAccess::<Seq<char>>::ClaimedLegacy)
        }),
{
}

/// A context that was put aside serves for one claim: the text behind it uses it
/// up, and more text is refused.
pub proof fn a_staged_context_serves_once(state: SessionView, name: Seq<char>)
    requires
        state.owner != Some(IpcSessionToken::Explicit(name)),
    ensures
        ({
            let token = IpcSessionToken::Explicit(name);
            let used = state.append_access(token).0;
            &&& !used.pending.contains_key(token)
            &&& used.append_access(token).1 == AppendAccess::<Seq<char>>::Rejected
        }),
{
}

/// Of two contexts that a client puts aside the later one counts.
pub proof fn the_later_context_counts(
    state: SessionView,
    name: Seq<char>,
    earlier: Seq<char>,
    later: Seq<char>,
)
    requires
        state.owner != Some(IpcSessionToken::Explicit(name)),
    ensures
        ({
            let token = IpcSessionToken::Explicit(name);
            let first = state.context_access(token, earlier).0;
            let second = first.context_access(token, later).0;
            &&& second.append_access(token).1 == (AppendAccess::ClaimedExplicit { context: later })
            &&& second == state.context_access(token, later).0
        }),
{
    let token = IpcSessionToken::Explicit(name);
    let first = state.context_access(token, earlier).0;
    let second = first.context_access(token, later).0;
    assert(second.pending =~= state.context_access(token, later).0.pending);
}

/// What one client puts aside or uses up is not felt by another.
pub proof fn clients_keep_their_own_contexts(
    state: SessionView,
    name: Seq<char>,
    context: Seq<char>,
    other: IpcSessionToken<Seq<char>>,
)
    requires
        state.owner != Some(IpcSessionToken::Explicit(name)),
        other != IpcSessionToken::Explicit(name),
    ensures
        ({
            let token = IpcSessionToken::Explicit(name);
            let staged = state.context_access(token, context).0;
            let used = state.append_access(token).0;
            &&& staged.pending.contains_key(other) == state.pending.contains_key(other)
            &&& used.pending.contains_key(other) == state.pending.contains_key(other)
            &&& state.pending.contains_key(other) ==> staged.pending[other] == state.pending[other]
                && used.pending[other] == state.pending[other]
            &&& state.owner != Some(other) && !(other is Legacy) ==> staged.append_access(other).1
                == state.append_access(other).1
        }),
{
}

} // verus!
