//! Surrogate identifiers: allocation, and resolution of legacy keys.

use vstd::prelude::*;
use rustc_hash::FxHashMap;
use crate::storage::{legacy_ids, new_legacy_table, register_legacy_key, resolve_legacy_key};

verus! {

/// A counter that hands out surrogate identifiers 1, 2, 3, ... in order.
pub struct AutoIncrement {
    value: i32,
}

impl AutoIncrement {
    /// The number of identifiers handed out so far.
    pub closed spec fn issued(&self) -> nat {
        self.value as nat
    }

    #[verifier::type_invariant]
    spec fn well_formed(&self) -> bool {
        0 <= self.value
    }

    /// A fresh counter: nothing has been handed out yet.
    pub fn new() -> (counter: Self)
        ensures
            counter.issued() == 0,
    {
        AutoIncrement { value: 0 }
    }

    /// Whether another identifier can still be allocated.
    pub fn has_next(&self) -> (available: bool)
        ensures
            available == (self.issued() < i32::MAX),
    {
        proof {
            use_type_invariant(self);
        }
        self.value < i32::MAX
    }

    /// The identifier that was allocated last, or zero before the first.
    pub fn latest(&self) -> (id: i32)
        ensures
            id == self.issued(),
    {
        proof {
            use_type_invariant(self);
        }
        self.value
    }

    /// Allocates the next identifier, one more than the previous one.
    pub fn next(&mut self) -> (id: i32)
        requires
            old(self).issued() < i32::MAX,
        ensures
            id == old(self).issued() + 1,
            final(self).issued() == id,
    {
        proof {
            use_type_invariant(&*self);
        }
        self.value = self.value + 1;
        self.value
    }
}

/// What an [`IdentityResolver`] knows: how many identifiers it has handed
/// out, and which legacy key resolves to which identifier.
pub ghost struct ResolverState {
    pub issued: nat,
    pub ids: Map<Seq<char>, i32>,
}

impl ResolverState {
    /// The state of a resolver that nothing was asked of yet.
    pub open spec fn fresh() -> ResolverState {
        ResolverState { issued: 0, ids: Map::empty() }
    }

    /// The state after one more identifier was handed out.
    pub open spec fn after_next(self) -> ResolverState {
        ResolverState { issued: self.issued + 1, ids: self.ids }
    }

    /// The state after a legacy key was registered.
    pub open spec fn after_register(self, key: Seq<char>, id: i32) -> ResolverState {
        ResolverState { issued: self.issued, ids: self.ids.insert(key, id) }
    }
}

/// Allocates surrogate identifiers and remembers them by legacy key.
pub struct IdentityResolver {
    auto_increment: AutoIncrement,
    table: FxHashMap<String, i32>,
}

impl View for IdentityResolver {
    type V = ResolverState;

    closed spec fn view(&self) -> ResolverState {
        ResolverState { issued: self.auto_increment.issued(), ids: legacy_ids(self.table) }
    }
}

impl IdentityResolver {
    /// A resolver that has handed out nothing and knows no legacy key.
    pub fn new() -> (resolver: Self)
        ensures
            resolver@ == ResolverState::fresh(),
    {
        IdentityResolver { auto_increment: AutoIncrement::new(), table: new_legacy_table() }
    }

    /// Whether another identifier can still be allocated.
    pub fn has_next(&self) -> (available: bool)
        ensures
            available == (self@.issued < i32::MAX),
    {
        self.auto_increment.has_next()
    }

    /// The identifier that was allocated last, or zero before the first.
    pub fn latest(&self) -> (id: i32)
        ensures
            id == self@.issued,
    {
        self.auto_increment.latest()
    }

    /// Allocates the next identifier. Registered keys stay as they are.
    pub fn next(&mut self) -> (id: i32)
        requires
            old(self)@.issued < i32::MAX,
        ensures
            id == old(self)@.issued + 1,
            final(self)@ == old(self)@.after_next(),
    {
        self.auto_increment.next()
    }

    /// Registers a legacy key with an identifier. A key that is already
    /// registered gets the new identifier, and the one it had is returned for
    /// the caller to report. The count of identifiers stays as it is.
    pub fn register(&mut self, key: String, id: i32) -> (previous: Option<i32>)
        ensures
            final(self)@ == old(self)@.after_register(key@, id),
            previous == old(self)@.ids.get(key@),
    {
        register_legacy_key(&mut self.table, key, id)
    }

    /// The identifier of a legacy key, or `None` for a key that was never
    /// registered.
    pub fn resolve(&self, key: &str) -> (id: Option<i32>)
        ensures
            id == self@.ids.get(key@),
    {
        resolve_legacy_key(&self.table, key)
    }

    /// Gives up the resolver for its table of legacy keys.
    pub fn into_table(self) -> (table: FxHashMap<String, i32>)
        ensures
            legacy_ids(table) == self@.ids,
    {
        self.table
    }
}

/// One request to an [`IdentityResolver`].
pub ghost enum Request {
    Next,
    Register { key: Seq<char>, id: i32 },
}

/// The state of a fresh resolver after a list of requests.
pub open spec fn state_after(requests: Seq<Request>) -> ResolverState
    decreases requests.len(),
{
    if requests.len() == 0 {
        ResolverState::fresh()
    } else {
        let before = state_after(requests.drop_last());
        match requests.last() {
            Request::Next => before.after_next(),
            Request::Register { key, id } => before.after_register(key, id),
        }
    }
}

/// The identifiers that a fresh resolver hands out over a list of requests.
pub open spec fn identifiers_of(requests: Seq<Request>) -> Seq<int>
    decreases requests.len(),
{
    if requests.len() == 0 {
        Seq::empty()
    } else {
        let before = identifiers_of(requests.drop_last());
        match requests.last() {
            Request::Next => before.push((state_after(requests.drop_last()).issued + 1) as int),
            Request::Register { key, id } => before,
        }
    }
}

/// A fresh resolver hands out 1, 2, 3, ... in this order, however many legacy
/// keys are registered in between.
pub proof fn lemma_identifiers_count_up(requests: Seq<Request>)
    ensures
        identifiers_of(requests).len() == state_after(requests).issued,
        forall|i: int|
            0 <= i < identifiers_of(requests).len() ==> identifiers_of(requests)[i] == i + 1,
    decreases requests.len(),
{
    if requests.len() > 0 {
        lemma_identifiers_count_up(requests.drop_last());
    }
}

/// A key that is registered twice resolves to the identifier of the second
/// registration; the first is what the second registration reports.
pub proof fn lemma_second_registration_wins(
    state: ResolverState,
    key: Seq<char>,
    first: i32,
    second: i32,
)
    ensures
        state.after_register(key, first).after_register(key, second).ids.get(key) == Some(second),
        state.after_register(key, first).ids.get(key) == Some(first),
        state.after_register(key, first).after_register(key, second).issued == state.issued,
{
}

} // verus!
