//! The worker pool's decision logic and its accounting model. The threads,
//! the channel and the joins live outside; what is here is what they must
//! decide: what a worker does with a message, how many shutdown signals a
//! pool owes its workers, and the bookkeeping that keeps job execution
//! exactly-once with at most the pool's size in flight.

use vstd::prelude::*;

verus! {

/// What the queue carries to a worker: a job, or the one shutdown signal
/// each worker is owed.
pub enum Message<J> {
    NewJob(J),
    Terminate,
}

/// What a worker does with a message it received.
pub enum WorkerAction<J> {
    Run(J),
    Exit,
}

/// The decision a worker makes on each message: run the job, or exit on
/// the shutdown signal.
pub fn worker_step<J>(msg: Message<J>) -> (r: WorkerAction<J>)
    ensures
        match msg {
            Message::NewJob(j) => (r matches WorkerAction::Run(j2) && j2 == j),
            Message::Terminate => r matches WorkerAction::Exit,
        },
{
    match msg {
        Message::NewJob(job) => WorkerAction::Run(job),
        Message::Terminate => WorkerAction::Exit,
    }
}

/// How many shutdown signals a pool of `size` workers is owed: exactly one
/// per worker, queued after any pending jobs.
pub fn shutdown_signals<J>(size: usize) -> (r: Vec<Message<J>>)
    ensures
        r@.len() == size,
        forall|i: int| 0 <= i < size ==> r@[i] is Terminate,
{
    let mut out: Vec<Message<J>> = Vec::new();
    let mut i: usize = 0;
    while i < size
        invariant
            i <= size,
            out@.len() == i,
            forall|j: int| 0 <= j < i ==> out@[j] is Terminate,
        decreases size - i,
    {
        out.push(Message::Terminate);
        i += 1;
    }
    out
}

/// The accounting of a fixed-size pool, with jobs tracked by identifier:
/// submitted jobs wait in FIFO order, at most `size` run at once, and a
/// finished job is recorded once.
pub struct PoolState {
    pub size: usize,
    pub queue: Vec<u64>,
    pub running: Vec<u64>,
    pub done: Vec<u64>,
    pub submitted: Vec<u64>,
}

impl PoolState {
    /// The accounting invariant: no more than `size` jobs are in flight,
    /// and the queued, running and finished jobs together are exactly the
    /// submitted ones.
    pub open spec fn inv(self) -> bool {
        self.running@.len() <= self.size && self.queue@.to_multiset().add(
            self.running@.to_multiset(),
        ).add(self.done@.to_multiset()) == self.submitted@.to_multiset()
    }

    /// A pool must have at least one worker.
    pub fn new(size: usize) -> (r: PoolState)
        requires
            size > 0,
        ensures
            r.inv(),
            r.size == size,
            r.queue@.len() == 0,
            r.running@.len() == 0,
            r.done@.len() == 0,
            r.submitted@.len() == 0,
    {
        let r = PoolState {
            size,
            queue: Vec::new(),
            running: Vec::new(),
            done: Vec::new(),
            submitted: Vec::new(),
        };
        proof {
            broadcast use vstd::seq_lib::group_to_multiset_ensures;

            assert(r.queue@.to_multiset().add(r.running@.to_multiset()).add(
                r.done@.to_multiset(),
            ) =~= r.submitted@.to_multiset());
        }
        r
    }

    /// Enqueues a job at the back; FIFO submission order is preserved.
    pub fn submit(&mut self, job: u64)
        requires
            old(self).inv(),
        ensures
            final(self).inv(),
            final(self).size == old(self).size,
            final(self).queue@ == old(self).queue@.push(job),
            final(self).running@ == old(self).running@,
            final(self).done@ == old(self).done@,
            final(self).submitted@ == old(self).submitted@.push(job),
    {
        self.queue.push(job);
        self.submitted.push(job);
        proof {
            broadcast use vstd::seq_lib::group_to_multiset_ensures;

            assert(self.queue@.to_multiset().add(self.running@.to_multiset()).add(
                self.done@.to_multiset(),
            ) =~= self.submitted@.to_multiset());
        }
    }

    /// An idle worker takes the front job, if there is one and the pool has
    /// capacity; the front of the queue always goes first.
    pub fn start_next(&mut self) -> (r: Option<u64>)
        requires
            old(self).inv(),
        ensures
            final(self).inv(),
            final(self).size == old(self).size,
            final(self).submitted@ == old(self).submitted@,
            final(self).done@ == old(self).done@,
            old(self).queue@.len() > 0 && old(self).running@.len() < old(self).size ==> (r == Some(
                old(self).queue@[0],
            ) && final(self).queue@ == old(self).queue@.drop_first() && final(self).running@ == old(
                self,
            ).running@.push(old(self).queue@[0])),
            !(old(self).queue@.len() > 0 && old(self).running@.len() < old(self).size) ==> (r
                is None && final(self).queue@ == old(self).queue@ && final(self).running@ == old(
                self,
            ).running@),
    {
        if self.queue.len() > 0 && self.running.len() < self.size {
            let job = self.queue.remove(0);
            self.running.push(job);
            proof {
                broadcast use vstd::seq_lib::group_to_multiset_ensures;

                assert(old(self).queue@.remove(0) =~= old(self).queue@.drop_first());
                assert(self.queue@.to_multiset().add(self.running@.to_multiset()).add(
                    self.done@.to_multiset(),
                ) =~= self.submitted@.to_multiset());
            }
            Some(job)
        } else {
            None
        }
    }

    /// A worker reports a running job finished; it moves to the finished
    /// record.
    pub fn finish(&mut self, job: u64)
        requires
            old(self).inv(),
            old(self).running@.contains(job),
        ensures
            final(self).inv(),
            final(self).size == old(self).size,
            final(self).submitted@ == old(self).submitted@,
            final(self).queue@ == old(self).queue@,
            final(self).done@ == old(self).done@.push(job),
            final(self).running@.len() == old(self).running@.len() - 1,
            final(self).running@.to_multiset() == old(self).running@.to_multiset().remove(job),
    {
        let n: usize = self.running.len();
        let mut i: usize = 0;
        let ghost r0 = self.running@;
        while i < n
            invariant
                n == self.running@.len(),
                i <= n,
                self == old(self),
                old(self).inv(),
                r0 == self.running@,
                forall|j: int| 0 <= j < i ==> self.running@[j] != job,
                exists|j: int| 0 <= j < n && self.running@[j] == job,
            decreases n - i,
        {
            if self.running[i] == job {
                self.running.remove(i);
                self.done.push(job);
                proof {
                    broadcast use vstd::seq_lib::group_to_multiset_ensures;
                    broadcast use vstd::multiset::group_multiset_axioms;

                    r0.to_multiset_ensures();
                    assert(r0.contains(job));
                    assert(r0.to_multiset().count(job) > 0);
                    assert(r0.remove(i as int).to_multiset() =~= r0.to_multiset().remove(job));
                    assert(self.done@.to_multiset() =~= old(self).done@.to_multiset().insert(job));
                    assert(self.queue@.to_multiset().add(self.running@.to_multiset()).add(
                        self.done@.to_multiset(),
                    ) =~= self.submitted@.to_multiset());
                }
                return ;
            }
            i += 1;
        }
        proof {
            assert(false);
        }
    }
}

/// The pool's accounting law: under the invariant, no more than `size`
/// jobs are ever in flight at once, and every submitted job is accounted
/// for exactly once across the queue, the running set and the finished
/// record.
pub proof fn lemma_pool_accounting(p: PoolState)
    requires
        p.inv(),
    ensures
        p.running@.len() <= p.size,
        p.queue@.to_multiset().add(p.running@.to_multiset()).add(p.done@.to_multiset())
            == p.submitted@.to_multiset(),
        forall|j: u64|
            #[trigger] p.queue@.to_multiset().count(j) + p.running@.to_multiset().count(j)
                + p.done@.to_multiset().count(j) == p.submitted@.to_multiset().count(j),
{
}

} // verus!
