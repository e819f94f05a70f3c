use vstd::prelude::*;

use std::collections::VecDeque;

verus! {

/// A first-in-first-out queue of work items.
///
/// This is the sequential core of the shared work queue: it owns the ordered
/// buffer and carries the FIFO contract of every operation. A host embeds a
/// value of it behind one lock together with a wait/notify signal to share it
/// between producers and worker threads; waking consumers after an enqueue and
/// blocking a consumer until the queue is non-empty are the host's part.
pub struct WorkQueue<T> {
    queue: VecDeque<T>,
    capacity_hint: usize,
}

impl<T> View for WorkQueue<T> {
    type V = Seq<T>;

    closed spec fn view(&self) -> Seq<T> {
        self.queue@
    }
}

impl<T> WorkQueue<T> {
    /// The pre-allocation hint the queue was built with. It is only a hint:
    /// the queue is unbounded and never rejects an enqueue.
    pub closed spec fn hint(&self) -> usize {
        self.capacity_hint
    }

    /// Creates an empty queue. A `buffer_len` of 0 is coerced to 1; either
    /// way it is purely a pre-allocation hint, not a bound.
    pub fn new(buffer_len: usize) -> (q: WorkQueue<T>)
        ensures
            q@ == Seq::<T>::empty(),
            q.hint() == if buffer_len == 0 { 1usize } else { buffer_len },
    {
        let buffer_len = if buffer_len == 0 {
            1
        } else {
            buffer_len
        };

        WorkQueue { queue: VecDeque::with_capacity(buffer_len), capacity_hint: buffer_len }
    }

    /// Appends one item at the tail. Never blocks and never fails; the host
    /// wakes one waiting consumer after the call.
    pub fn dispatch(&mut self, work: T)
        ensures
            final(self)@ == old(self)@.push(work),
            final(self).hint() == old(self).hint(),
    {
        self.queue.push_back(work);
    }

    /// Appends a whole batch at the tail in one step, preserving the batch's
    /// order after everything already queued. The host wakes every waiting
    /// consumer after the call, so each blocked consumer gets a chance to
    /// observe a new item.
    pub fn dispatch_many(&mut self, work: Vec<T>)
        ensures
            final(self)@ == old(self)@ + work@,
            final(self).hint() == old(self).hint(),
    {
        let ghost orig: Seq<T> = work@;
        let mut work = work;
        let mut incoming: VecDeque<T> = VecDeque::with_capacity(work.len());
        proof {
            assert(orig.take(orig.len() as int) =~= orig);
            assert(orig.skip(orig.len() as int) =~= Seq::<T>::empty());
        }
        while work.len() > 0
            invariant
                work@.len() <= orig.len(),
                work@ == orig.take(work@.len() as int),
                incoming@ == orig.skip(work@.len() as int),
            decreases work@.len(),
        {
            let ghost n = work@.len() as int;
            let x = work.pop().unwrap();
            proof {
                assert(x == orig.take(n)[n - 1]);
                assert(work@ =~= orig.take(n - 1));
                assert(seq![x] + incoming@ =~= orig.skip(n - 1));
            }
            incoming.push_front(x);
        }
        proof {
            assert(incoming@ =~= orig);
        }
        self.queue.append(&mut incoming);
    }

    /// Removes and returns the head item. The caller must already know the
    /// queue is non-empty; in the shared setting the host waits on the queue's
    /// signal, re-checking emptiness under the lock, before calling this, so a
    /// consumer resumes only once there really is an item.
    pub fn find_work(&mut self) -> (work: T)
        requires
            old(self)@.len() > 0,
        ensures
            work == old(self)@[0],
            final(self)@ == old(self)@.skip(1),
            final(self).hint() == old(self).hint(),
    {
        self.queue.pop_front().unwrap()
    }

    /// How many items are queued.
    pub fn len(&self) -> (n: usize)
        ensures
            n == self@.len(),
    {
        self.queue.len()
    }

    /// Whether nothing is queued.
    pub fn is_empty(&self) -> (e: bool)
        ensures
            e == (self@.len() == 0),
    {
        self.queue.len() == 0
    }

    /// The pre-allocation hint the queue was built with.
    pub fn capacity_hint(&self) -> (h: usize)
        ensures
            h == self.hint(),
    {
        self.capacity_hint
    }
}

} // verus!
