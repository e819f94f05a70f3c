//! A generic fixed-size worker pool.
//!
//! A producer submits units of work of an arbitrary type and a configured
//! number of background workers consume and process them through one shared
//! FIFO work queue. The queue carries either a caller-submitted job or a quit
//! sentinel; shutdown enqueues one sentinel per live worker after everything
//! already queued, so pending jobs drain before any worker stops.
//!
//! This crate holds the verified core: the queue's FIFO semantics and the
//! pool's lifecycle decisions. The host program supplies what stays outside
//! the contracts — the lock and wait/notify signal that share the queue
//! between threads, the spawned worker threads, and the executor callback —
//! and drives them through the functions stated here.

use vstd::prelude::*;

pub mod work_queue;

pub use work_queue::WorkQueue;

verus! {

/// One unit of transport through the pool's queue: a caller-submitted job,
/// or the quit sentinel that instructs the worker observing it to stop
/// consuming. A worker processes or terminates on each item it dequeues.
#[derive(Clone, Debug)]
pub enum Work<T> {
    Job(T),
    Quit,
}

/// The payloads of the job items of `s`, in queue order: what a worker would
/// hand to the executor while draining `s` from the head.
pub open spec fn jobs_of<T>(s: Seq<Work<T>>) -> Seq<T>
    decreases s.len(),
{
    if s.len() == 0 {
        Seq::empty()
    } else {
        match s[0] {
            Work::Job(t) => seq![t] + jobs_of(s.skip(1)),
            Work::Quit => jobs_of(s.skip(1)),
        }
    }
}

/// `k` quit sentinels, as enqueued by a shutdown of a pool with `k` live
/// workers.
pub open spec fn quit_seq<T>(k: nat) -> Seq<Work<T>> {
    Seq::new(k, |i: int| Work::Quit)
}

/// The worker count a pool resolves from the caller's request: a positive
/// request stands as it is, while 0 asks for the host's detected hardware
/// parallelism, which may be unavailable — then no count can be resolved.
pub open spec fn resolved_threads(num_threads: usize, detected: Option<usize>) -> Option<usize> {
    if num_threads > 0 {
        Some(num_threads)
    } else {
        match detected {
            Some(p) => if p > 0 {
                Some(p)
            } else {
                None
            },
            None => None,
        }
    }
}

/// The queue capacity hint a pool resolves from the caller's request: an
/// absent request means 64, and 0 is coerced to 1 by the queue itself.
pub open spec fn resolved_hint(buf_len: Option<usize>) -> usize {
    match buf_len {
        Some(h) => if h == 0 {
            1
        } else {
            h
        },
        None => 64,
    }
}

/// A fixed set of worker threads consuming tagged work from one shared FIFO
/// queue.
///
/// This is the pool's verified state: the queue of pending items and how many
/// workers are requested, live and started. The host owns the actual thread
/// handles, spawns exactly as many threads as `set_executor_and_start`
/// returns, and joins exactly as many as `close` returns; each worker loops
/// on `take_work`, running the installed executor on every job until it
/// observes a quit sentinel.
pub struct WorkPool<T> {
    queue: WorkQueue<Work<T>>,
    live_workers: usize,
    requested_workers: usize,
    started: bool,
}

impl<T> WorkPool<T> {
    /// The pending items, head first.
    pub closed spec fn queue_view(&self) -> Seq<Work<T>> {
        self.queue@
    }

    /// How many worker threads are currently tracked as live.
    pub closed spec fn live(&self) -> usize {
        self.live_workers
    }

    /// The resolved worker count the pool was created with.
    pub closed spec fn requested(&self) -> usize {
        self.requested_workers
    }

    /// Whether an executor was installed and the workers spawned.
    pub closed spec fn has_started(&self) -> bool {
        self.started
    }

    /// The queue's pre-allocation hint.
    pub closed spec fn hint(&self) -> usize {
        self.queue.hint()
    }

    /// Well-formedness: never more live workers than were requested, and none
    /// before the pool has started.
    pub open spec fn wf(&self) -> bool {
        &&& self.live() <= self.requested()
        &&& !self.has_started() ==> self.live() == 0
    }

    /// The worker bookkeeping and queue hint of `self` and `other` agree:
    /// what every submission path leaves untouched.
    pub open spec fn same_workers(&self, other: &Self) -> bool {
        &&& self.live() == other.live()
        &&& self.requested() == other.requested()
        &&& self.has_started() == other.has_started()
        &&& self.hint() == other.hint()
    }

    /// Creates a pool with no thread running yet. `num_threads` of 0 asks for
    /// the host's detected hardware parallelism, handed in as
    /// `detected_parallelism`; construction fails exactly when that detection
    /// failed. The queue is built with the `buf_len` hint, 64 when absent.
    pub fn new(num_threads: usize, buf_len: Option<usize>, detected_parallelism: Option<usize>) -> (r:
        Result<WorkPool<T>, ()>)
        ensures
            r matches Ok(pool) ==> {
                &&& Some(pool.requested()) == resolved_threads(num_threads, detected_parallelism)
                &&& pool.live() == 0
                &&& !pool.has_started()
                &&& pool.queue_view() == Seq::<Work<T>>::empty()
                &&& pool.hint() == resolved_hint(buf_len)
                &&& pool.wf()
            },
            r is Ok <==> resolved_threads(num_threads, detected_parallelism) is Some,
    {
        let hint = match buf_len {
            Some(h) => h,
            None => 64,
        };
        let queue = WorkQueue::<Work<T>>::new(hint);

        let num_threads = if num_threads == 0 {
            match detected_parallelism {
                Some(p) => {
                    if p == 0 {
                        return Err(());
                    }
                    p
                },
                None => {
                    return Err(());
                },
            }
        } else {
            num_threads
        };

        Ok(WorkPool { queue, live_workers: 0, requested_workers: num_threads, started: false })
    }

    /// Submits one job: wraps it and appends it at the tail of the queue.
    /// The host wakes one waiting worker afterwards.
    pub fn dispatch(&mut self, work: T)
        ensures
            final(self).queue_view() == old(self).queue_view().push(Work::Job(work)),
            jobs_of(final(self).queue_view()) == jobs_of(old(self).queue_view()).push(work),
            old(self).same_workers(final(self)),
            old(self).wf() ==> final(self).wf(),
    {
        proof {
            lemma_jobs_of_add(self.queue_view(), seq![Work::Job(work)]);
            assert(jobs_of(seq![Work::<T>::Job(work)].skip(1)) =~= Seq::<T>::empty());
            assert(jobs_of(self.queue_view()) + seq![work] =~= jobs_of(self.queue_view()).push(work));
            assert(self.queue_view() + seq![Work::Job(work)] =~= self.queue_view().push(Work::Job(work)));
        }
        self.queue.dispatch(Work::Job(work));
    }

    /// Submits a batch: wraps every element as a job, preserving order, and
    /// appends the whole batch in one step. Equivalent to one `dispatch` per
    /// element, but the host wakes all waiting workers once instead of waking
    /// one worker per item.
    pub fn dispatch_many(&mut self, work: Vec<T>)
        ensures
            final(self).queue_view() == old(self).queue_view() + work@.map_values(|t: T| Work::<T>::Job(t)),
            jobs_of(final(self).queue_view()) == jobs_of(old(self).queue_view()) + work@,
            old(self).same_workers(final(self)),
            old(self).wf() ==> final(self).wf(),
    {
        let ghost orig: Seq<T> = work@;
        let mut work = work;
        let mut rev: Vec<Work<T>> = Vec::new();
        while work.len() > 0
            invariant
                work@.len() <= orig.len(),
                work@ == orig.take(work@.len() as int),
                rev@.len() == orig.len() - work@.len(),
                forall|j: int| 0 <= j < rev@.len() ==> rev@[j] == Work::<T>::Job(orig[orig.len() - 1 - j]),
            decreases work@.len(),
        {
            let ghost n = work@.len() as int;
            let x = work.pop().unwrap();
            proof {
                assert(x == orig.take(n)[n - 1]);
                assert(work@ =~= orig.take(n - 1));
            }
            rev.push(Work::Job(x));
        }

        let ghost half = rev@;
        let mut tagged: Vec<Work<T>> = Vec::new();
        while rev.len() > 0
            invariant
                rev@.len() <= half.len(),
                half.len() == orig.len(),
                rev@ == half.take(rev@.len() as int),
                forall|j: int| 0 <= j < half.len() ==> half[j] == Work::<T>::Job(orig[orig.len() - 1 - j]),
                tagged@.len() == half.len() - rev@.len(),
                forall|j: int| 0 <= j < tagged@.len() ==> tagged@[j] == Work::<T>::Job(orig[j]),
            decreases rev@.len(),
        {
            let ghost n = rev@.len() as int;
            let x = rev.pop().unwrap();
            proof {
                assert(x == half.take(n)[n - 1]);
                assert(rev@ =~= half.take(n - 1));
            }
            tagged.push(x);
        }
        proof {
            assert(half.take(orig.len() as int) =~= half);
            assert(tagged@ =~= orig.map_values(|t: T| Work::<T>::Job(t)));
            lemma_jobs_of_add(self.queue_view(), tagged@);
            lemma_jobs_of_all_jobs(orig);
        }
        self.queue.dispatch_many(tagged);
    }

    /// Marks the pool as started. The host installs the executor, spawns
    /// exactly the returned number of worker threads — each looping on
    /// `take_work`, invoking the executor on every job and terminating on a
    /// quit sentinel — and makes this transition exactly once per pool.
    pub fn set_executor_and_start(&mut self) -> (spawned: usize)
        requires
            !old(self).has_started(),
        ensures
            spawned == old(self).requested(),
            final(self).live() == old(self).requested(),
            final(self).requested() == old(self).requested(),
            final(self).has_started(),
            final(self).hint() == old(self).hint(),
            final(self).queue_view() == old(self).queue_view(),
            final(self).wf(),
    {
        self.started = true;
        self.live_workers = self.requested_workers;
        self.live_workers
    }

    /// Graceful-shutdown signalling: enqueues, in one batch append, exactly
    /// one quit sentinel per live worker — after everything already queued,
    /// so pending jobs drain first — and stops tracking the workers. Returns
    /// how many threads the host must now join; on a pool with no live
    /// workers (already closed, or never started) it enqueues nothing and
    /// returns 0.
    pub fn close(&mut self) -> (to_join: usize)
        ensures
            to_join == old(self).live(),
            final(self).live() == 0,
            final(self).queue_view() == old(self).queue_view() + quit_seq::<T>(old(self).live() as nat),
            jobs_of(final(self).queue_view()) == jobs_of(old(self).queue_view()),
            old(self).live() == 0 ==> final(self).queue_view() == old(self).queue_view(),
            final(self).requested() == old(self).requested(),
            final(self).has_started() == old(self).has_started(),
            final(self).hint() == old(self).hint(),
            old(self).wf() ==> final(self).wf(),
    {
        let count = self.live_workers;
        let mut quits: Vec<Work<T>> = Vec::new();
        let mut i: usize = 0;
        while i < count
            invariant
                i <= count,
                quits@ == quit_seq::<T>(i as nat),
            decreases count - i,
        {
            quits.push(Work::Quit);
            proof {
                assert(quits@ =~= quit_seq::<T>((i + 1) as nat));
            }
            i = i + 1;
        }

        proof {
            lemma_no_loss_on_close(self.queue_view(), count as nat);
            assert(quit_seq::<T>(0) =~= Seq::<Work<T>>::empty());
            assert(self.queue_view() + quit_seq::<T>(0) =~= self.queue_view());
        }
        self.queue.dispatch_many(quits);
        self.live_workers = 0;
        count
    }

    /// Abandon signalling, the scope-exit path: enqueues one quit sentinel
    /// per live worker through individual appends and stops tracking the
    /// workers, which keep running detached until each observes its sentinel.
    /// Returns how many sentinels were sent; the host calls this when the
    /// pool is dropped without `close` and does not join the threads.
    pub fn abandon(&mut self) -> (signalled: usize)
        ensures
            signalled == old(self).live(),
            final(self).live() == 0,
            final(self).queue_view() == old(self).queue_view() + quit_seq::<T>(old(self).live() as nat),
            jobs_of(final(self).queue_view()) == jobs_of(old(self).queue_view()),
            final(self).requested() == old(self).requested(),
            final(self).has_started() == old(self).has_started(),
            final(self).hint() == old(self).hint(),
            old(self).wf() ==> final(self).wf(),
    {
        let count = self.live_workers;
        let requested = self.requested_workers;
        let was_started = self.started;
        let ghost q0 = self.queue_view();
        let ghost h0 = self.hint();
        let mut i: usize = 0;
        while i < count
            invariant
                i <= count,
                self.live_workers == count,
                self.requested_workers == requested,
                self.started == was_started,
                self.hint() == h0,
                self.queue_view() == q0 + quit_seq::<T>(i as nat),
            decreases count - i,
        {
            self.queue.dispatch(Work::Quit);
            proof {
                assert(self.queue_view() =~= q0 + quit_seq::<T>((i + 1) as nat));
            }
            i = i + 1;
        }
        proof {
            lemma_no_loss_on_close(q0, count as nat);
        }
        self.live_workers = 0;
        count
    }

    /// Removes and returns the head item of the queue: the next thing a
    /// worker observes. The worker runs the executor on a job and terminates
    /// on a quit sentinel; blocking until the queue is non-empty, under the
    /// host's lock and signal, is the host's part.
    pub fn take_work(&mut self) -> (work: Work<T>)
        requires
            old(self).queue_view().len() > 0,
        ensures
            work == old(self).queue_view()[0],
            final(self).queue_view() == old(self).queue_view().skip(1),
            work matches Work::Job(t) ==> jobs_of(old(self).queue_view()) == seq![t]
                + jobs_of(final(self).queue_view()),
            work matches Work::Quit ==> jobs_of(old(self).queue_view()) == jobs_of(
                final(self).queue_view(),
            ),
            old(self).same_workers(final(self)),
            old(self).wf() ==> final(self).wf(),
    {
        self.queue.find_work()
    }

    /// The resolved worker count the pool was created with.
    pub fn thread_count(&self) -> (n: usize)
        ensures
            n == self.requested(),
    {
        self.requested_workers
    }

    /// How many worker threads are currently tracked as live.
    pub fn live_worker_count(&self) -> (n: usize)
        ensures
            n == self.live(),
    {
        self.live_workers
    }

    /// Whether an executor was installed and the workers spawned.
    pub fn is_started(&self) -> (s: bool)
        ensures
            s == self.has_started(),
    {
        self.started
    }

    /// How many items are pending on the queue.
    pub fn queue_len(&self) -> (n: usize)
        ensures
            n == self.queue_view().len(),
    {
        self.queue.len()
    }

    /// The queue's pre-allocation hint.
    pub fn queue_capacity_hint(&self) -> (h: usize)
        ensures
            h == self.hint(),
    {
        self.queue.capacity_hint()
    }
}

/// Splitting a queue at any point splits its jobs at the matching point: the
/// jobs of a concatenation are the jobs of the parts, concatenated.
pub proof fn lemma_jobs_of_add<T>(a: Seq<Work<T>>, b: Seq<Work<T>>)
    ensures
        jobs_of(a + b) == jobs_of(a) + jobs_of(b),
    decreases a.len(),
{
    if a.len() == 0 {
        assert(a + b =~= b);
        assert(jobs_of(a) + jobs_of(b) =~= jobs_of(b));
    } else {
        assert((a + b).skip(1) =~= a.skip(1) + b);
        lemma_jobs_of_add(a.skip(1), b);
        assert((a + b)[0] == a[0]);
        match a[0] {
            Work::Job(t) => {
                assert(seq![t] + (jobs_of(a.skip(1)) + jobs_of(b)) =~= (seq![t] + jobs_of(a.skip(1)))
                    + jobs_of(b));
            },
            Work::Quit => {},
        }
    }
}

/// A batch of wrapped payloads carries exactly those payloads as jobs, in
/// order.
pub proof fn lemma_jobs_of_all_jobs<T>(b: Seq<T>)
    ensures
        jobs_of(b.map_values(|t: T| Work::<T>::Job(t))) == b,
    decreases b.len(),
{
    let m = b.map_values(|t: T| Work::<T>::Job(t));
    if b.len() == 0 {
        assert(jobs_of(m) =~= b);
    } else {
        assert(m.skip(1) =~= b.skip(1).map_values(|t: T| Work::<T>::Job(t)));
        lemma_jobs_of_all_jobs(b.skip(1));
        assert(seq![b[0]] + b.skip(1) =~= b);
    }
}

/// Quit sentinels carry no job.
pub proof fn lemma_jobs_of_quits<T>(k: nat)
    ensures
        jobs_of(quit_seq::<T>(k)) == Seq::<T>::empty(),
    decreases k,
{
    if k > 0 {
        assert(quit_seq::<T>(k)[0] == Work::<T>::Quit);
        assert(quit_seq::<T>(k).skip(1) =~= quit_seq::<T>((k - 1) as nat));
        lemma_jobs_of_quits::<T>((k - 1) as nat);
    } else {
        assert(jobs_of(quit_seq::<T>(0)) =~= Seq::<T>::empty());
    }
}

/// No-loss law: shutdown signalling adds no job and loses none — appending
/// any number of quit sentinels leaves the pending jobs exactly as they were,
/// so after a close every job submitted beforehand is still handed out, each
/// exactly once, before the workers stop.
pub proof fn lemma_no_loss_on_close<T>(q: Seq<Work<T>>, k: nat)
    ensures
        jobs_of(q + quit_seq::<T>(k)) == jobs_of(q),
{
    lemma_jobs_of_add(q, quit_seq::<T>(k));
    lemma_jobs_of_quits::<T>(k);
    assert(jobs_of(q) + Seq::<T>::empty() =~= jobs_of(q));
}

/// Drain-before-quit law: quit sentinels are appended after the pending
/// content and never jump ahead — every item already queued keeps its place
/// in front of every sentinel, so a worker drains the jobs submitted before a
/// close before it observes its quit signal.
pub proof fn lemma_drain_before_quit<T>(q: Seq<Work<T>>, k: nat)
    ensures
        forall|i: int| 0 <= i < q.len() ==> (q + quit_seq::<T>(k))[i] == q[i],
        forall|j: int|
            q.len() <= j < q.len() + k ==> (q + quit_seq::<T>(k))[j] == Work::<T>::Quit,
{
}

/// One producer's submissions, each a batch (a single submission is a batch
/// of one), concatenated in submission order.
pub open spec fn submitted_in_order<T>(batches: Seq<Seq<Work<T>>>) -> Seq<Work<T>>
    decreases batches.len(),
{
    if batches.len() == 0 {
        Seq::empty()
    } else {
        submitted_in_order(batches.drop_last()) + batches.last()
    }
}

/// FIFO law: if the queue holds exactly the earlier submissions concatenated
/// in submission order, then appending the next submission — which is what
/// both submission paths do — leaves it holding all submissions concatenated
/// in submission order. Starting from an empty queue this pins the whole
/// contents under a single producer, and since `find_work`/`take_work` always
/// remove the head, a fixed worker observes the items in exactly the input
/// order.
pub proof fn lemma_fifo_order<T>(batches: Seq<Seq<Work<T>>>, contents: Seq<Work<T>>, next: Seq<Work<T>>)
    requires
        contents == submitted_in_order(batches),
    ensures
        contents + next == submitted_in_order(batches.push(next)),
{
    assert(batches.push(next).drop_last() =~= batches);
    assert(batches.push(next).last() == next);
}

} // verus!
