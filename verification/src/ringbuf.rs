//! A lock-based bounded FIFO channel with a producer and a consumer
//! handle.
//!
//! The queue itself, `Inner`, is a plain bounded FIFO with exact
//! contracts; the handles share it behind a reader-writer lock whose
//! invariant pins the queue's well-formedness and capacity, so every
//! observation through a handle stays within the configured bound.

use std::sync::Arc;
use vstd::prelude::*;
use vstd::rwlock::{RwLock, RwLockPredicate};

verus! {

/// The bounded FIFO behind the handles: at most `cap` queued values, first
/// in, first out.
pub struct Inner<T> {
    buf: Vec<T>,
    cap: usize,
}

impl<T> Inner<T> {
    /// The queued values, oldest first.
    pub closed spec fn spec_items(self) -> Seq<T> {
        self.buf@
    }

    /// The fixed capacity.
    pub closed spec fn spec_cap(self) -> usize {
        self.cap
    }

    /// The queue never holds more than its capacity.
    pub open spec fn wf(self) -> bool {
        self.spec_items().len() <= self.spec_cap()
    }

    /// An empty queue of the given capacity.
    pub fn new(cap: usize) -> (r: Inner<T>)
        ensures
            r.wf(),
            r.spec_cap() == cap,
            r.spec_items() == Seq::<T>::empty(),
    {
        Inner { buf: Vec::new(), cap }
    }

    /// The number of queued values.
    pub fn len(&self) -> (r: usize)
        ensures
            r == self.spec_items().len(),
    {
        self.buf.len()
    }

    /// The fixed capacity.
    pub fn cap(&self) -> (r: usize)
        ensures
            r == self.spec_cap(),
    {
        self.cap
    }

    /// Appends a value at the back, unless the queue is full, in which case
    /// the value comes back unchanged.
    pub fn push(&mut self, v: T) -> (r: Result<(), T>)
        requires
            old(self).wf(),
        ensures
            final(self).wf(),
            final(self).spec_cap() == old(self).spec_cap(),
            old(self).spec_items().len() < old(self).spec_cap() ==> {
                &&& r is Ok
                &&& final(self).spec_items() == old(self).spec_items().push(v)
            },
            old(self).spec_items().len() == old(self).spec_cap() ==> {
                &&& r matches Err(e) && e == v
                &&& final(self).spec_items() == old(self).spec_items()
            },
    {
        if self.buf.len() == self.cap {
            return Err(v);
        }
        self.buf.push(v);
        Ok(())
    }

    /// Removes and returns the oldest value, or nothing when the queue is
    /// empty.
    pub fn pop(&mut self) -> (r: Option<T>)
        requires
            old(self).wf(),
        ensures
            final(self).wf(),
            final(self).spec_cap() == old(self).spec_cap(),
            old(self).spec_items().len() == 0 ==> {
                &&& r is None
                &&& final(self).spec_items() == old(self).spec_items()
            },
            old(self).spec_items().len() > 0 ==> {
                &&& r matches Some(v) && v == old(self).spec_items()[0]
                &&& final(self).spec_items() == old(self).spec_items().drop_first()
            },
    {
        if self.buf.len() == 0 {
            return None;
        }
        let v = self.buf.remove(0);
        proof {
            assert(self.buf@ =~= old(self).spec_items().drop_first());
        }
        Some(v)
    }
}

/// The lock invariant of a shared queue: well-formed, with the capacity
/// fixed at construction.
pub struct RingPred {
    pub cap: usize,
}

impl<T> RwLockPredicate<Inner<T>> for RingPred {
    open spec fn inv(self, v: Inner<T>) -> bool {
        v.wf() && v.spec_cap() == self.cap
    }
}

/// A bounded FIFO shared behind a lock, handed out as producer and
/// consumer handles.
pub struct RingBuf<T> {
    inner: Arc<RwLock<Inner<T>, RingPred>>,
}

/// The writing side of a shared queue.
pub struct Producer<T> {
    inner: Arc<RwLock<Inner<T>, RingPred>>,
}

/// The reading side of a shared queue.
pub struct Consumer<T> {
    inner: Arc<RwLock<Inner<T>, RingPred>>,
}

impl<T> RingBuf<T> {
    /// The capacity the queue was created with.
    pub closed spec fn spec_cap(self) -> usize {
        self.inner.pred().cap
    }

    /// An empty shared queue of the given capacity.
    pub fn new(cap: usize) -> (r: RingBuf<T>)
        ensures
            r.spec_cap() == cap,
    {
        let lock = RwLock::new(Inner::new(cap), Ghost(RingPred { cap }));
        RingBuf { inner: Arc::new(lock) }
    }

    /// A producer handle onto this queue.
    pub fn producer(&self) -> (r: Producer<T>)
        ensures
            r.spec_cap() == self.spec_cap(),
    {
        Producer { inner: self.inner.clone() }
    }

    /// A consumer handle onto this queue.
    pub fn consumer(&self) -> (r: Consumer<T>)
        ensures
            r.spec_cap() == self.spec_cap(),
    {
        Consumer { inner: self.inner.clone() }
    }
}

impl<T> Producer<T> {
    /// The capacity the queue was created with.
    pub closed spec fn spec_cap(self) -> usize {
        self.inner.pred().cap
    }

    /// Appends a value, unless the queue is momentarily full, in which
    /// case the value comes back unchanged.
    pub fn push(&mut self, v: T) -> (r: Result<(), T>)
        ensures
            *final(self) == *old(self),
            r matches Err(e) ==> e == v,
    {
        let (mut inner, handle) = self.inner.acquire_write();
        let res = inner.push(v);
        handle.release_write(inner);
        res
    }

    /// The number of queued values at the moment of observation; never
    /// more than the capacity.
    pub fn len(&self) -> (r: usize)
        ensures
            r <= self.spec_cap(),
    {
        let read = self.inner.acquire_read();
        let l = read.borrow().len();
        read.release_read();
        l
    }

    /// The capacity the queue was created with.
    pub fn cap(&self) -> (r: usize)
        ensures
            r == self.spec_cap(),
    {
        let read = self.inner.acquire_read();
        let c = read.borrow().cap();
        read.release_read();
        c
    }
}

impl<T> Consumer<T> {
    /// The capacity the queue was created with.
    pub closed spec fn spec_cap(self) -> usize {
        self.inner.pred().cap
    }

    /// Removes and returns the oldest value, or nothing when the queue is
    /// momentarily empty.
    pub fn pop(&mut self) -> (r: Option<T>)
        ensures
            *final(self) == *old(self),
    {
        let (mut inner, handle) = self.inner.acquire_write();
        let res = inner.pop();
        handle.release_write(inner);
        res
    }

    /// Whether the queue was empty at the moment of observation.
    pub fn is_empty(&self) -> (r: bool) {
        self.len() == 0
    }

    /// The number of queued values at the moment of observation; never
    /// more than the capacity.
    pub fn len(&self) -> (r: usize)
        ensures
            r <= self.spec_cap(),
    {
        let read = self.inner.acquire_read();
        let l = read.borrow().len();
        read.release_read();
        l
    }
}

} // verus!
