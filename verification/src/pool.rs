//! The connection pool: idle database connections waiting in crossbeam's
//! lock-free bounded queue, shared by every worker without a lock.
//!
//! A connection is taken from the pool, or opened anew by the caller when
//! none is idle, and given back when the caller is done with it; a pool that
//! already holds its capacity refuses it and the caller closes it.
//!
//! Workers use the pool concurrently, through shared references. What
//! `acquire` returns therefore depends on what the other workers did in the
//! meantime; the contracts state what holds whatever they did.

use vstd::prelude::*;
use crossbeam::queue::ArrayQueue;

verus! {

/// crossbeam's bounded multi-producer multi-consumer queue, opaque to the
/// verifier.
#[verifier::external_type_specification]
#[verifier::external_body]
#[verifier::reject_recursive_types(T)]
pub struct ExArrayQueue<T>(ArrayQueue<T>);

/// Calls `ArrayQueue::new`: an empty queue holding at most `cap` items. It
/// panics on a capacity of zero, or one whose successor's next power of two
/// does not fit in 64 bits; `requires` leaves those out. Nothing is stated of
/// the queue itself: it is shared, and its contents are not named.
#[verifier::external_body]
fn queue_new<T>(cap: usize) -> (q: ArrayQueue<T>)
    requires
        0 < cap,
        cap < 0x8000_0000_0000_0000u64,
{
    ArrayQueue::new(cap)
}

/// Calls `ArrayQueue::push` on a shared queue. Whether the item is taken
/// depends on what other threads did; when the queue is full, the item comes
/// back unchanged as the error, which is what the contract states.
#[verifier::external_body]
fn queue_push<T>(q: &ArrayQueue<T>, value: T) -> (r: Result<(), T>)
    ensures
        r matches Err(v) ==> v == value,
{
    q.push(value)
}

/// Calls `ArrayQueue::pop` on a shared queue: the oldest item, or `None` when
/// the queue is empty. Which item that is depends on what other threads did,
/// so nothing is stated of the result.
#[verifier::external_body]
fn queue_pop<T>(q: &ArrayQueue<T>) -> (r: Option<T>) {
    q.pop()
}

/// A pool of idle connections of type `C`, shared by all workers.
#[verifier::reject_recursive_types(C)]
pub struct ConnectionPool<C> {
    connections: ArrayQueue<C>,
    max_size: usize,
}

impl<C> ConnectionPool<C> {
    /// The most idle connections the pool keeps.
    pub closed spec fn capacity(&self) -> nat {
        self.max_size as nat
    }

    /// An empty pool that keeps at most `max_size` idle connections.
    pub fn new(max_size: usize) -> (p: Self)
        requires
            0 < max_size,
            max_size < 0x8000_0000_0000_0000u64,
        ensures
            p.capacity() == max_size,
    {
        ConnectionPool { connections: queue_new(max_size), max_size }
    }

    /// The most idle connections the pool keeps.
    pub fn max_size(&self) -> (n: usize)
        ensures
            n == self.capacity(),
    {
        self.max_size
    }

    /// Takes the connection that has waited longest, or `None` when no
    /// connection is idle, in which case the caller opens a new one.
    pub fn acquire(&self) -> (r: Option<C>) {
        queue_pop(&self.connections)
    }

    /// Gives a connection back. The pool keeps it and returns `None`, or,
    /// when it already holds its capacity, hands the very same connection
    /// back for the caller to close.
    pub fn release(&self, conn: C) -> (refused: Option<C>)
        ensures
            refused matches Some(c) ==> c == conn,
    {
        match queue_push(&self.connections, conn) {
            Ok(()) => None,
            Err(c) => Some(c),
        }
    }
}

} // verus!
