//! Endpoint selection, the memoized chain connection and the memoized
//! chain id.

use vstd::prelude::*;

use crate::types::{pow64, U256};

verus! {

/// The cursor that follows `cursor` in a pool of `n` endpoints.
pub open spec fn next_cursor(cursor: nat, n: nat) -> nat {
    (cursor + 1) % n
}

/// The cursor of a pool of `n` endpoints after `k` selections, starting at 0.
pub open spec fn cursor_after(n: nat, k: nat) -> nat
    decreases k,
{
    if k == 0 {
        0
    } else {
        next_cursor(cursor_after(n, (k - 1) as nat), n)
    }
}

/// An ordered, non-empty list of endpoint URLs with a round-robin cursor.
pub struct EndpointPool {
    providers: Vec<String>,
    cursor: usize,
}

impl EndpointPool {
    /// The endpoint URLs, in order.
    pub closed spec fn providers(&self) -> Seq<String> {
        self.providers@
    }

    /// The position that the next selection returns.
    pub closed spec fn cursor(&self) -> nat {
        self.cursor as nat
    }

    /// A pool is never empty and its cursor always points into it.
    #[verifier::type_invariant]
    pub closed spec fn wf(&self) -> bool {
        self.cursor < self.providers.len()
    }

    /// Builds a pool with its cursor at 0; an empty list has no pool.
    pub fn new(providers: Vec<String>) -> (pool: Option<EndpointPool>)
        ensures
            pool.is_some() <==> providers@.len() > 0,
            pool.is_some() ==> pool.unwrap().providers() == providers@ && pool.unwrap().cursor()
                == 0,
    {
        if providers.len() == 0 {
            None
        } else {
            Some(EndpointPool { providers, cursor: 0 })
        }
    }

    /// Number of endpoints.
    pub fn len(&self) -> (n: usize)
        ensures
            n == self.providers().len(),
            n > 0,
    {
        proof {
            use_type_invariant(self);
        }
        self.providers.len()
    }

    /// The URL at `index`.
    pub fn endpoint(&self, index: usize) -> (url: &String)
        requires
            index < self.providers().len(),
        ensures
            *url == self.providers()[index as int],
    {
        &self.providers[index]
    }

    /// Returns the position under the cursor and moves the cursor one step
    /// on, wrapping to 0 after the last endpoint.
    pub fn next_endpoint(&mut self) -> (index: usize)
        ensures
            index == old(self).cursor(),
            index < old(self).providers().len(),
            final(self).providers() == old(self).providers(),
            final(self).cursor() == next_cursor(old(self).cursor(), old(self).providers().len()),
    {
        proof {
            use_type_invariant(&*self);
        }
        let index: usize = self.cursor;
        let n: usize = self.providers.len();
        if index + 1 == n {
            proof {
                vstd::arithmetic::div_mod::lemma_mod_self_0(n as int);
            }
            self.cursor = 0;
        } else {
            proof {
                vstd::arithmetic::div_mod::lemma_small_mod((index + 1) as nat, n as nat);
            }
            self.cursor = index + 1;
        }
        index
    }
}

/// Selecting `k` times from a pool of `n` endpoints leaves the cursor at
/// `k mod n`: the selections run 0, 1, .., n-1, 0, 1, .. for any `k`.
pub proof fn lemma_round_robin(n: nat, k: nat)
    requires
        n > 0,
    ensures
        cursor_after(n, k) == k % n,
    decreases k,
{
    if k > 0 {
        lemma_round_robin(n, (k - 1) as nat);
        vstd::arithmetic::div_mod::lemma_add_mod_noop_right(1, (k - 1) as int, n as int);
    } else {
        vstd::arithmetic::div_mod::lemma_small_mod(0, n);
    }
}

/// Whether all workers use one connection or each its own.
#[derive(Clone, Copy, Debug, PartialEq, Eq, Structural)]
pub enum ConnectionPolicy {
    /// One connection for the whole process.
    Shared,
    /// One connection per worker.
    PerScope,
}

/// What a caller that wants a connection has to do.
#[derive(Clone, Copy, Debug, PartialEq, Eq, Structural)]
pub enum ChainAction {
    /// A connection is memoized: use it.
    Reuse,
    /// None is memoized: connect to the endpoint at this position and hand
    /// the connection in.
    Connect(usize),
}

/// What a caller that wants the chain id has to do.
#[derive(Clone, Copy, Debug, PartialEq, Eq, Structural)]
pub enum ChainIdAction {
    /// The id is memoized.
    Known(u64),
    /// None is memoized: ask the chain and hand the answer in.
    Query,
}

/// The chain answered with an id above 64 bits.
#[derive(Clone, Copy, Debug, PartialEq, Eq, Structural)]
pub struct ChainIdTooWide;

/// What is decided for a caller that finds `slot` and, should it have to
/// connect, the pool's cursor at `cursor`.
pub open spec fn action_for<H>(slot: Option<H>, cursor: nat) -> ChainAction {
    if slot.is_some() {
        ChainAction::Reuse
    } else {
        ChainAction::Connect(cursor as usize)
    }
}

/// The slot after a connection was handed in: the first one stays.
pub open spec fn slot_after<H>(slot: Option<H>, handle: H) -> Option<H> {
    if slot.is_some() {
        slot
    } else {
        Some(handle)
    }
}

/// The slot after a run of requests, where request `i` would hand in
/// `fresh[i]` if it had to connect.
pub open spec fn slot_after_requests<H>(slot: Option<H>, fresh: Seq<H>) -> Option<H>
    decreases fresh.len(),
{
    if fresh.len() == 0 {
        slot
    } else {
        slot_after(slot_after_requests(slot, fresh.drop_last()), fresh.last())
    }
}

/// How many requests of such a run have to connect.
pub open spec fn connects_of_requests<H>(slot: Option<H>, fresh: Seq<H>) -> nat
    decreases fresh.len(),
{
    if fresh.len() == 0 {
        0
    } else {
        connects_of_requests(slot, fresh.drop_last()) + if slot_after_requests(
            slot,
            fresh.drop_last(),
        ).is_some() {
            0nat
        } else {
            1nat
        }
    }
}

/// The memoized id after an answer was handed in: the first one stays, and
/// an answer above 64 bits is not kept.
pub open spec fn chain_id_after(slot: Option<u64>, answer: nat) -> Option<u64> {
    if slot.is_some() {
        slot
    } else if answer < pow64() {
        Some(answer as u64)
    } else {
        None
    }
}

/// The slot of one worker for its own connection.
pub struct WorkerChain<H> {
    chain: Option<H>,
}

impl<H> WorkerChain<H> {
    /// The memoized connection, if any.
    pub closed spec fn chain(&self) -> Option<H> {
        self.chain
    }

    /// A slot with no connection.
    pub fn new() -> (scope: Self)
        ensures
            scope.chain().is_none(),
    {
        WorkerChain { chain: None }
    }
}

/// What all workers share of the chain: the endpoint pool, the shared
/// connection and the chain id.
pub struct Chains<H> {
    pool: EndpointPool,
    one_chain: Option<H>,
    one_chain_id: Option<u64>,
}

impl<H> Chains<H> {
    /// The endpoint pool.
    pub closed spec fn pool(&self) -> EndpointPool {
        self.pool
    }

    /// The shared connection, if one is memoized.
    pub closed spec fn one_chain(&self) -> Option<H> {
        self.one_chain
    }

    /// The chain id, if it is memoized.
    pub closed spec fn one_chain_id(&self) -> Option<u64> {
        self.one_chain_id
    }

    /// The slot that `policy` selects: the shared one or the worker's own.
    pub open spec fn slot(&self, scope: &WorkerChain<H>, policy: ConnectionPolicy) -> Option<H> {
        match policy {
            ConnectionPolicy::Shared => self.one_chain(),
            ConnectionPolicy::PerScope => scope.chain(),
        }
    }

    /// Shared state over `pool` with nothing memoized.
    pub fn new(pool: EndpointPool) -> (chains: Self)
        ensures
            chains.pool() == pool,
            chains.one_chain().is_none(),
            chains.one_chain_id().is_none(),
    {
        Chains { pool, one_chain: None, one_chain_id: None }
    }

    /// The endpoint pool.
    pub fn endpoints(&self) -> (pool: &EndpointPool)
        ensures
            *pool == self.pool(),
    {
        &self.pool
    }

    /// Takes in a connection that a caller opened. It is memoized in the
    /// slot that `policy` selects unless that slot holds one already, which
    /// then stays.
    pub fn chain_connected(&mut self, scope: &mut WorkerChain<H>, policy: ConnectionPolicy, handle: H)
        ensures
            final(self).slot(final(scope), policy) == slot_after(
                old(self).slot(old(scope), policy),
                handle,
            ),
            policy == ConnectionPolicy::Shared ==> final(scope).chain() == old(scope).chain(),
            policy == ConnectionPolicy::PerScope ==> final(self).one_chain() == old(
                self,
            ).one_chain(),
            final(self).pool() == old(self).pool(),
            final(self).one_chain_id() == old(self).one_chain_id(),
    {
        match policy {
            ConnectionPolicy::Shared => {
                if self.one_chain.is_none() {
                    self.one_chain = Some(handle);
                }
            },
            ConnectionPolicy::PerScope => {
                if scope.chain.is_none() {
                    scope.chain = Some(handle);
                }
            },
        }
    }

    /// The memoized connection of the slot that `policy` selects, if any.
    pub fn chain<'a>(&'a self, scope: &'a WorkerChain<H>, policy: ConnectionPolicy) -> (handle:
        Option<&'a H>)
        ensures
            handle.is_some() == self.slot(scope, policy).is_some(),
            handle.is_some() ==> *handle.unwrap() == self.slot(scope, policy).unwrap(),
    {
        match policy {
            ConnectionPolicy::Shared => self.one_chain.as_ref(),
            ConnectionPolicy::PerScope => scope.chain.as_ref(),
        }
    }

    /// Takes in the chain's answer to the id query. A memoized id is never
    /// replaced; else the answer is memoized if it fits 64 bits. Returns
    /// the id that is memoized afterwards.
    pub fn chain_id_resolved(&mut self, answer: U256) -> (id: Result<u64, ChainIdTooWide>)
        ensures
            final(self).one_chain_id() == chain_id_after(old(self).one_chain_id(), answer@),
            id == match final(self).one_chain_id() {
                Some(id) => Ok::<u64, ChainIdTooWide>(id),
                None => Err::<u64, ChainIdTooWide>(ChainIdTooWide),
            },
            final(self).pool() == old(self).pool(),
            final(self).one_chain() == old(self).one_chain(),
    {
        match self.one_chain_id {
            Some(id) => Ok(id),
            None => match answer.to_u64() {
                Some(id) => {
                    self.one_chain_id = Some(id);
                    Ok(id)
                },
                None => Err(ChainIdTooWide),
            },
        }
    }
}

/// Picks the endpoint for a new connection: the one under the pool's
/// cursor, which moves on by one.
pub fn create_chain<H>(chains: &mut Chains<H>) -> (index: usize)
    ensures
        index == old(chains).pool().cursor(),
        index < old(chains).pool().providers().len(),
        final(chains).pool().providers() == old(chains).pool().providers(),
        final(chains).pool().cursor() == next_cursor(
            old(chains).pool().cursor(),
            old(chains).pool().providers().len(),
        ),
        final(chains).one_chain() == old(chains).one_chain(),
        final(chains).one_chain_id() == old(chains).one_chain_id(),
{
    chains.pool.next_endpoint()
}

/// Decides how a caller gets its connection. Where the slot that
/// `policy` selects holds one, nothing changes and it is reused. Where
/// it holds none, the caller is to connect to the next endpoint of the
/// pool; the slot stays empty until the connection is handed in, so a
/// connect that fails leaves no trace but the moved cursor.
pub fn get_chain<H>(chains: &mut Chains<H>, scope: &WorkerChain<H>, policy: ConnectionPolicy) -> (action:
    ChainAction)
    ensures
        action == action_for(old(chains).slot(scope, policy), old(chains).pool().cursor()),
        action == ChainAction::Reuse ==> final(chains).pool() == old(chains).pool(),
        action != ChainAction::Reuse ==> final(chains).pool().providers() == old(
            chains,
        ).pool().providers() && final(chains).pool().cursor() == next_cursor(
            old(chains).pool().cursor(),
            old(chains).pool().providers().len(),
        ),
        final(chains).one_chain() == old(chains).one_chain(),
        final(chains).one_chain_id() == old(chains).one_chain_id(),
{
    let memoized = match policy {
        ConnectionPolicy::Shared => chains.one_chain.is_some(),
        ConnectionPolicy::PerScope => scope.chain.is_some(),
    };
    if memoized {
        ChainAction::Reuse
    } else {
        ChainAction::Connect(create_chain(chains))
    }
}

/// Decides how a caller gets the chain id: the memoized one, or else by
/// asking the chain.
pub fn get_chain_id<H>(chains: &Chains<H>) -> (action: ChainIdAction)
    ensures
        action == match chains.one_chain_id() {
            Some(id) => ChainIdAction::Known(id),
            None => ChainIdAction::Query,
        },
{
    match chains.one_chain_id {
        Some(id) => ChainIdAction::Known(id),
        None => ChainIdAction::Query,
    }
}

/// However many requests for the shared connection follow each other from
/// an empty slot, exactly one of them connects, and after each of them the
/// slot holds the connection that the first one handed in.
pub proof fn lemma_shared_connects_once<H>(fresh: Seq<H>)
    requires
        fresh.len() >= 1,
    ensures
        connects_of_requests(None::<H>, fresh) == 1,
        forall|m: int|
            1 <= m <= fresh.len() ==> #[trigger] slot_after_requests(None::<H>, fresh.take(m))
                == Some(fresh[0]),
    decreases fresh.len(),
{
    let front = fresh.drop_last();
    assert(fresh.take(fresh.len() as int) == fresh);
    if fresh.len() == 1 {
        assert(front.len() == 0);
        assert(slot_after_requests(None::<H>, front) == None::<H>);
        assert(connects_of_requests(None::<H>, front) == 0);
    } else {
        lemma_shared_connects_once(front);
        assert(front[0] == fresh[0]);
        assert(front.take(front.len() as int) == front);
        assert forall|m: int| 1 <= m <= fresh.len() implies #[trigger] slot_after_requests(
            None::<H>,
            fresh.take(m),
        ) == Some(fresh[0]) by {
            if m < fresh.len() {
                assert(fresh.take(m) == front.take(m));
            }
        }
    }
}

} // verus!
