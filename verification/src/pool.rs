//! Bounded FIFO pool of established peer connections.
//!
//! The outbound path borrows a connection per send and returns it
//! afterwards.  Connections are held as opaque handles: the caller maps
//! each handle to whatever its RPC client type is and opens a fresh one
//! whenever the pool has none ready.  The pool is a fixed-capacity
//! queue; a return that finds the pool full is discarded without error.

use std::collections::HashMap;

use vstd::prelude::*;

verus! {

broadcast use vstd::std_specs::hash::group_hash_axioms;

#[verifier::external_type_specification]
#[verifier::external_body]
#[verifier::reject_recursive_types(T)]
pub struct ExArrayQueue<T>(crossbeam::queue::ArrayQueue<T>);

/// The handles a queue holds, oldest first.
pub uninterp spec fn queue_contents(q: crossbeam::queue::ArrayQueue<u64>) -> Seq<u64>;

/// The capacity the queue was created with.
pub uninterp spec fn queue_bound(q: crossbeam::queue::ArrayQueue<u64>) -> nat;

/// Relies on crossbeam's `ArrayQueue::new`: creates an empty queue with
/// the given capacity.  It panics on capacity zero, so that input is
/// excluded; the modest upper bound keeps its internal rounding to a
/// power of two in range.
#[verifier::external_body]
fn queue_new(cap: usize) -> (r: crossbeam::queue::ArrayQueue<u64>)
    requires
        1 <= cap <= 0x10000000,
    ensures
        queue_contents(r) == Seq::<u64>::empty(),
        queue_bound(r) == cap as nat,
{
    crossbeam::queue::ArrayQueue::new(cap)
}

/// Relies on crossbeam's `ArrayQueue::push`: appends the value when the
/// queue is below capacity and otherwise returns it back as an error,
/// leaving the queue unchanged.
#[verifier::external_body]
fn queue_push(q: &mut crossbeam::queue::ArrayQueue<u64>, value: u64) -> (r: bool)
    ensures
        queue_bound(*final(q)) == queue_bound(*old(q)),
        queue_contents(*old(q)).len() < queue_bound(*old(q)) ==> r && queue_contents(*final(q))
            == queue_contents(*old(q)).push(value),
        queue_contents(*old(q)).len() >= queue_bound(*old(q)) ==> !r && queue_contents(*final(q))
            == queue_contents(*old(q)),
{
    q.push(value).is_ok()
}

/// Relies on crossbeam's `ArrayQueue::pop`: removes and returns the
/// oldest value, or returns nothing when the queue is empty.
#[verifier::external_body]
fn queue_pop(q: &mut crossbeam::queue::ArrayQueue<u64>) -> (r: Option<u64>)
    ensures
        queue_bound(*final(q)) == queue_bound(*old(q)),
        queue_contents(*old(q)).len() == 0 ==> r is None && queue_contents(*final(q))
            == queue_contents(*old(q)),
        queue_contents(*old(q)).len() > 0 ==> r == Some(queue_contents(*old(q))[0])
            && queue_contents(*final(q)) == queue_contents(*old(q)).subrange(
            1,
            queue_contents(*old(q)).len() as int,
        ),
{
    q.pop()
}

/// How many connections a pool keeps ready per peer.
pub const POOL_CAPACITY: usize = 16;

/// Fixed-capacity FIFO pool of connection handles for one peer.
pub struct ConnectionPool {
    connections: crossbeam::queue::ArrayQueue<u64>,
}

impl ConnectionPool {
    /// The pooled handles, oldest first.
    pub closed spec fn conns(&self) -> Seq<u64> {
        queue_contents(self.connections)
    }

    /// The pool's queue has the fixed capacity and never holds more.
    pub closed spec fn wf(&self) -> bool {
        queue_bound(self.connections) == POOL_CAPACITY && self.conns().len() <= POOL_CAPACITY
    }

    /// Creates an empty pool.
    pub fn new() -> (r: Self)
        ensures
            r.wf(),
            r.conns() == Seq::<u64>::empty(),
    {
        ConnectionPool { connections: queue_new(POOL_CAPACITY) }
    }

    /// Borrows the oldest pooled connection.  When none is ready the
    /// caller opens a fresh connection instead.
    pub fn connection(&mut self) -> (r: Option<u64>)
        requires
            old(self).wf(),
        ensures
            final(self).wf(),
            old(self).conns().len() == 0 ==> r is None && final(self).conns() == old(self).conns(),
            old(self).conns().len() > 0 ==> r == Some(old(self).conns()[0]) && final(self).conns()
                == old(self).conns().subrange(1, old(self).conns().len() as int),
    {
        queue_pop(&mut self.connections)
    }

    /// Returns a connection to the pool.  A pool already at capacity
    /// discards the return without error; the handle is simply dropped
    /// and a later borrow opens a fresh connection.
    pub fn replenish(&mut self, conn: u64)
        requires
            old(self).wf(),
        ensures
            final(self).wf(),
            old(self).conns().len() < POOL_CAPACITY ==> final(self).conns() == old(
                self,
            ).conns().push(conn),
            old(self).conns().len() >= POOL_CAPACITY ==> final(self).conns() == old(self).conns(),
    {
        let _ = queue_push(&mut self.connections, conn);
    }
}

/// One connection pool per peer, created lazily the first time a peer
/// is addressed.
pub struct Connections {
    pools: HashMap<u64, ConnectionPool>,
}

impl Connections {
    /// The pooled handles of every known peer.
    pub closed spec fn pool_map(&self) -> Map<u64, Seq<u64>> {
        self.pools@.map_values(|p: ConnectionPool| p.conns())
    }

    /// Every peer's pool is well formed.
    pub closed spec fn wf(&self) -> bool {
        forall|k: u64| self.pools@.contains_key(k) ==> (#[trigger] self.pools@[k]).wf()
    }

    /// Creates an empty connection map.
    pub fn new() -> (r: Self)
        ensures
            r.wf(),
            r.pool_map() == Map::<u64, Seq<u64>>::empty(),
    {
        let r = Connections { pools: HashMap::new() };
        proof {
            assert(r.pool_map() =~= Map::<u64, Seq<u64>>::empty());
        }
        r
    }

    /// Borrows the oldest pooled connection for the given peer,
    /// creating the peer's empty pool on first contact.  When none is
    /// ready the caller opens a fresh connection instead.  Other peers'
    /// pools are untouched.
    pub fn checkout(&mut self, node: u64) -> (r: Option<u64>)
        requires
            old(self).wf(),
        ensures
            final(self).wf(),
            ({
                let before = if old(self).pool_map().contains_key(node) {
                    old(self).pool_map()[node]
                } else {
                    Seq::<u64>::empty()
                };
                &&& (before.len() == 0 ==> r is None && final(self).pool_map() == old(
                    self,
                ).pool_map().insert(node, before))
                &&& (before.len() > 0 ==> r == Some(before[0]) && final(self).pool_map() == old(
                    self,
                ).pool_map().insert(node, before.subrange(1, before.len() as int)))
            }),
    {
        let ghost pools0 = self.pools@;
        let pool = self.pools.entry(node).or_insert(ConnectionPool::new());
        let r = pool.connection();
        proof {
            assert(self.pools@ =~= pools0.insert(node, self.pools@[node]));
            assert(self.pool_map() =~= pools0.map_values(
                |p: ConnectionPool| p.conns(),
            ).insert(node, self.pools@[node].conns()));
        }
        r
    }

    /// Returns a connection to the given peer's pool, creating the pool
    /// on first contact; a pool at capacity discards the return without
    /// error.  Other peers' pools are untouched.
    pub fn checkin(&mut self, node: u64, conn: u64)
        requires
            old(self).wf(),
        ensures
            final(self).wf(),
            ({
                let before = if old(self).pool_map().contains_key(node) {
                    old(self).pool_map()[node]
                } else {
                    Seq::<u64>::empty()
                };
                &&& (before.len() < POOL_CAPACITY ==> final(self).pool_map() == old(
                    self,
                ).pool_map().insert(node, before.push(conn)))
                &&& (before.len() >= POOL_CAPACITY ==> final(self).pool_map() == old(
                    self,
                ).pool_map().insert(node, before))
            }),
    {
        let ghost pools0 = self.pools@;
        let pool = self.pools.entry(node).or_insert(ConnectionPool::new());
        pool.replenish(conn);
        proof {
            assert(self.pools@ =~= pools0.insert(node, self.pools@[node]));
            assert(self.pool_map() =~= pools0.map_values(
                |p: ConnectionPool| p.conns(),
            ).insert(node, self.pools@[node].conns()));
        }
    }
}

} // verus!
