use vstd::multiset::Multiset;
use vstd::prelude::*;

pub mod advanced_features;
pub mod closed_iter;
pub mod concurrent;
pub mod enum_match;
pub mod guess;
pub mod ownership;
pub mod package_crate_use;
pub mod smart_point;
pub mod struct_def;
pub mod type_trait_life;

verus! {

broadcast use {vstd::multiset::group_multiset_axioms, vstd::seq_lib::group_to_multiset_ensures};

// A fixed-size worker pool: a bounded set of workers draining a FIFO queue of
// one-shot jobs, with a clean shutdown that first closes intake and then joins
// every worker. The pool here is the coordination state machine itself: the
// queue, the per-worker states, and the accounting that shows every submitted
// job is claimed and completed exactly once. A host program drives real
// threads and a real channel by the transitions below, one call per event.

/// A one-shot unit of work, identified by the id its submitter chose.
/// It is created at submission, carried by the queue, and consumed by
/// exactly one worker.
#[derive(Clone, Copy, PartialEq, Eq, Structural, Debug)]
pub struct Job {
    pub id: u64,
}

/// The phase of a worker's loop: it runs until it observes that the channel
/// is closed and drained, and then shuts down for good.
#[derive(Clone, Copy, PartialEq, Eq, Structural, Debug)]
pub enum WorkerState {
    Running,
    ShuttingDown,
}

/// Stands for a worker's thread handle. It is held from spawn until the
/// pool's teardown takes it out to join the thread, at most once.
#[derive(Clone, Copy, PartialEq, Eq, Structural, Debug)]
pub struct ThreadHandle {
    pub worker_id: usize,
}

/// Stands for the sending side of the work queue. Teardown disposes of it
/// first, so that no further job can be enqueued.
#[derive(Clone, Copy, PartialEq, Eq, Structural, Debug)]
pub struct Sender {}

/// What one attempt to receive from the queue can yield: a job to run, the
/// observation that the queue is empty but may still be fed (a real worker
/// blocks here), or the observation that the channel is closed and drained.
#[derive(Clone, Copy, PartialEq, Eq, Structural, Debug)]
pub enum Received {
    NewJob(u64),
    Empty,
    Disconnected,
}

/// The one error a submission can meet: the sending side is already gone.
#[derive(Clone, Copy, PartialEq, Eq, Structural, Debug)]
pub enum SubmitError {
    ChannelClosed,
}

/// A long-lived executor. It repeatedly claims one job from the shared
/// queue and runs it; `current` is the job it has claimed and not yet
/// finished, held outside the queue lock.
#[derive(Clone, Copy, PartialEq, Eq, Structural, Debug)]
pub struct Worker {
    pub id: usize,
    pub state: WorkerState,
    pub current: Option<u64>,
    pub thread: Option<ThreadHandle>,
}

/// The jobs a single worker has claimed and not yet finished: none, or one.
pub open spec fn claimed_by(w: Worker) -> Multiset<u64> {
    match w.current {
        Some(id) => Multiset::empty().insert(id),
        None => Multiset::empty(),
    }
}

/// The jobs claimed and not yet finished, over all workers.
pub open spec fn in_flight(ws: Seq<Worker>) -> Multiset<u64>
    decreases ws.len(),
{
    if ws.len() == 0 {
        Multiset::empty()
    } else {
        in_flight(ws.drop_last()).add(claimed_by(ws.last()))
    }
}

proof fn lemma_in_flight_update(ws: Seq<Worker>, i: int, w: Worker)
    requires
        0 <= i < ws.len(),
    ensures
        in_flight(ws.update(i, w)).add(claimed_by(ws[i])) == in_flight(ws).add(claimed_by(w)),
    decreases ws.len(),
{
    let ws2 = ws.update(i, w);
    if i == ws.len() - 1 {
        assert(ws2.drop_last() =~= ws.drop_last());
        assert(ws2.last() == w);
        assert(in_flight(ws2).add(claimed_by(ws[i])) =~= in_flight(ws).add(claimed_by(w)));
    } else {
        assert(ws2.drop_last() =~= ws.drop_last().update(i, w));
        assert(ws2.last() == ws.last());
        lemma_in_flight_update(ws.drop_last(), i, w);
        assert(ws.drop_last()[i] == ws[i]);
        assert(in_flight(ws2) == in_flight(ws.drop_last().update(i, w)).add(claimed_by(ws.last())));
        assert(in_flight(ws) == in_flight(ws.drop_last()).add(claimed_by(ws.last())));
        assert(in_flight(ws2).add(claimed_by(ws[i])) =~= in_flight(ws).add(claimed_by(w))) by {
            assert forall|v: u64|
                in_flight(ws2).add(claimed_by(ws[i])).count(v) == in_flight(ws).add(
                    claimed_by(w),
                ).count(v) by {
                assert(in_flight(ws.drop_last().update(i, w)).add(claimed_by(ws[i])).count(v)
                    == in_flight(ws.drop_last()).add(claimed_by(w)).count(v));
            }
        };
    }
}

proof fn lemma_in_flight_empty(ws: Seq<Worker>)
    requires
        forall|i: int| 0 <= i < ws.len() ==> (#[trigger] ws[i]).current is None,
    ensures
        in_flight(ws) == Multiset::<u64>::empty(),
    decreases ws.len(),
{
    if ws.len() > 0 {
        lemma_in_flight_empty(ws.drop_last());
        assert(in_flight(ws) =~= Multiset::<u64>::empty());
    }
}

impl Worker {
    /// Brings up one worker: it starts in its running phase, with no job
    /// claimed and its thread handle in place.
    pub fn new(id: usize) -> (w: Worker)
        ensures
            w == (Worker {
                id,
                state: WorkerState::Running,
                current: None,
                thread: Some(ThreadHandle { worker_id: id }),
            }),
    {
        Worker { id, state: WorkerState::Running, current: None, thread: Some(ThreadHandle { worker_id: id }) }
    }
}

/// The pool: a fixed collection of workers, the sending side of the work
/// queue, the queue's pending contents in submission order, and the record
/// of finished jobs. `submitted` is the ghost history of every id ever
/// accepted and `claimed` the ghost history of every id a worker has taken,
/// in the order taken; the accounting below is stated against both.
pub struct ThreadPool {
    pub workers: Vec<Worker>,
    pub sender: Option<Sender>,
    pub queue: Vec<u64>,
    pub executed: Vec<u64>,
    pub submitted: Ghost<Seq<u64>>,
    pub claimed: Ghost<Seq<u64>>,
}

impl ThreadPool {
    /// Well-formedness: worker ids match their places; a live sender means
    /// every worker still runs and still holds its thread handle; the
    /// accepted jobs are the claimed ones, in the order they were taken,
    /// followed by the queued ones, in submission order; and every accepted
    /// job is in exactly one place: finished, claimed, or queued.
    pub open spec fn wf(&self) -> bool {
        &&& self.workers@.len() >= 1
        &&& forall|i: int|
            0 <= i < self.workers@.len() ==> (#[trigger] self.workers@[i]).id == i
        &&& self.sender is Some ==> forall|i: int|
            0 <= i < self.workers@.len() ==> (#[trigger] self.workers@[i]).state is Running
                && self.workers@[i].thread is Some
        &&& self.submitted@ == self.claimed@ + self.queue@
        &&& self.submitted@.to_multiset() == self.executed@.to_multiset().add(
            in_flight(self.workers@),
        ).add(self.queue@.to_multiset())
    }

    /// Teardown is complete: intake is closed, the queue is drained, and
    /// every worker has shut down, finished its work, and been joined.
    pub open spec fn is_shut_down(&self) -> bool {
        &&& self.sender is None
        &&& self.queue@.len() == 0
        &&& forall|i: int|
            0 <= i < self.workers@.len() ==> (#[trigger] self.workers@[i]).state
                is ShuttingDown && self.workers@[i].current is None && self.workers@[i].thread
                is None
    }

    /// Builds a pool of `size` workers around one shared queue. Asking for
    /// zero workers is a caller error, excluded here; an unverified caller
    /// must check and fail before calling.
    pub fn new(size: usize) -> (pool: ThreadPool)
        requires
            1 <= size,
        ensures
            pool.wf(),
            pool.workers@.len() == size,
            pool.sender is Some,
            pool.queue@ == Seq::<u64>::empty(),
            pool.executed@ == Seq::<u64>::empty(),
            pool.submitted@ == Seq::<u64>::empty(),
            pool.claimed@ == Seq::<u64>::empty(),
            forall|i: int|
                0 <= i < size ==> (#[trigger] pool.workers@[i]) == (Worker {
                    id: i as usize,
                    state: WorkerState::Running,
                    current: None,
                    thread: Some(ThreadHandle { worker_id: i as usize }),
                }),
    {
        let mut workers: Vec<Worker> = Vec::new();
        let mut id: usize = 0;
        while id < size
            invariant
                id <= size,
                workers@.len() == id,
                forall|i: int|
                    0 <= i < id ==> (#[trigger] workers@[i]) == (Worker {
                        id: i as usize,
                        state: WorkerState::Running,
                        current: None,
                        thread: Some(ThreadHandle { worker_id: i as usize }),
                    }),
            decreases size - id,
        {
            workers.push(Worker::new(id));
            id = id + 1;
        }
        let pool = ThreadPool {
            workers,
            sender: Some(Sender {}),
            queue: Vec::new(),
            executed: Vec::new(),
            submitted: Ghost(Seq::empty()),
            claimed: Ghost(Seq::empty()),
        };
        proof {
            assert(pool.submitted@ =~= pool.claimed@ + pool.queue@);
            lemma_in_flight_empty(pool.workers@);
            assert(pool.submitted@.to_multiset() =~= pool.executed@.to_multiset().add(
                in_flight(pool.workers@),
            ).add(pool.queue@.to_multiset()));
        }
        pool
    }

    /// Disposes of the sending side, the first step of teardown: from here
    /// on nothing can be enqueued, and workers that find the queue empty
    /// observe disconnection instead of waiting. `shutdown` performs the
    /// whole teardown; this single step is for a host driving the workers'
    /// transitions itself.
    pub fn close(&mut self)
        requires
            old(self).wf(),
        ensures
            final(self).wf(),
            final(self).sender is None,
            final(self).workers == old(self).workers,
            final(self).queue == old(self).queue,
            final(self).executed == old(self).executed,
            final(self).submitted == old(self).submitted,
            final(self).claimed == old(self).claimed,
    {
        self.sender = None;
    }

    /// Submits one job. While the pool is alive the job is appended to the
    /// queue and will be claimed by whichever worker is free; once the
    /// sending side is gone the job is refused and nothing changes.
    pub fn execute(&mut self, job: Job) -> (r: Result<(), SubmitError>)
        requires
            old(self).wf(),
        ensures
            final(self).wf(),
            final(self).workers == old(self).workers,
            final(self).sender == old(self).sender,
            final(self).executed == old(self).executed,
            final(self).claimed == old(self).claimed,
            old(self).sender is Some ==> {
                &&& r == Ok::<(), SubmitError>(())
                &&& final(self).queue@ == old(self).queue@.push(job.id)
                &&& final(self).submitted@ == old(self).submitted@.push(job.id)
            },
            old(self).sender is None ==> {
                &&& r == Err::<(), SubmitError>(SubmitError::ChannelClosed)
                &&& final(self).queue == old(self).queue
                &&& final(self).submitted == old(self).submitted
            },
    {
        if self.sender.is_some() {
            self.queue.push(job.id);
            self.submitted = Ghost(self.submitted@.push(job.id));
            proof {
                assert(self.submitted@ =~= self.claimed@ + self.queue@);
                assert(self.submitted@.to_multiset() =~= self.executed@.to_multiset().add(
                    in_flight(self.workers@),
                ).add(self.queue@.to_multiset()));
            }
            Ok(())
        } else {
            Err(SubmitError::ChannelClosed)
        }
    }

    /// One attempt by worker `w` to take a job from the shared queue, made
    /// under the queue lock. The front job, if any, is claimed by `w` and
    /// executed outside the lock; an empty queue whose sender is still live
    /// yields `Empty` (a real worker blocks there until either arrives); an
    /// empty queue whose sender is gone tells the worker to shut down.
    pub fn worker_recv(&mut self, w: usize) -> (r: Received)
        requires
            old(self).wf(),
            w < old(self).workers@.len(),
            old(self).workers@[w as int].state is Running,
            old(self).workers@[w as int].current is None,
        ensures
            final(self).wf(),
            final(self).workers@.len() == old(self).workers@.len(),
            final(self).sender == old(self).sender,
            final(self).executed == old(self).executed,
            final(self).submitted == old(self).submitted,
            forall|i: int|
                0 <= i < old(self).workers@.len() && i != w ==> final(self).workers@[i] == old(
                    self,
                ).workers@[i],
            old(self).queue@.len() > 0 ==> {
                &&& r == Received::NewJob(old(self).queue@[0])
                &&& final(self).queue@ == old(self).queue@.drop_first()
                &&& final(self).claimed@ == old(self).claimed@.push(old(self).queue@[0])
                &&& final(self).workers@[w as int] == (Worker {
                    current: Some(old(self).queue@[0]),
                    ..old(self).workers@[w as int]
                })
            },
            old(self).queue@.len() == 0 && old(self).sender is Some ==> {
                &&& r == Received::Empty
                &&& final(self).queue == old(self).queue
                &&& final(self).claimed == old(self).claimed
                &&& final(self).workers == old(self).workers
            },
            old(self).queue@.len() == 0 && old(self).sender is None ==> {
                &&& r == Received::Disconnected
                &&& final(self).queue == old(self).queue
                &&& final(self).claimed == old(self).claimed
                &&& final(self).workers@[w as int] == (Worker {
                    state: WorkerState::ShuttingDown,
                    ..old(self).workers@[w as int]
                })
            },
    {
        if self.queue.len() > 0 {
            let id = self.queue.remove(0);
            let mut wk = self.workers[w];
            wk.current = Some(id);
            self.workers[w] = wk;
            self.claimed = Ghost(self.claimed@.push(id));
            proof {
                lemma_in_flight_update(old(self).workers@, w as int, wk);
                assert(old(self).queue@.contains(id));
                assert(self.submitted@ =~= self.claimed@ + self.queue@);
                assert(self.submitted@.to_multiset() =~= self.executed@.to_multiset().add(
                    in_flight(self.workers@),
                ).add(self.queue@.to_multiset())) by {
                    assert forall|v: u64|
                        self.submitted@.to_multiset().count(v) == self.executed@.to_multiset().add(
                            in_flight(self.workers@),
                        ).add(self.queue@.to_multiset()).count(v) by {
                        assert(in_flight(self.workers@).add(
                            claimed_by(old(self).workers@[w as int]),
                        ).count(v) == in_flight(old(self).workers@).add(claimed_by(wk)).count(v));
                        assert(old(self).executed@.to_multiset().add(
                            in_flight(old(self).workers@),
                        ).add(old(self).queue@.to_multiset()).count(v) == old(
                            self,
                        ).submitted@.to_multiset().count(v));
                    }
                }
            }
            Received::NewJob(id)
        } else if self.sender.is_some() {
            Received::Empty
        } else {
            let mut wk = self.workers[w];
            wk.state = WorkerState::ShuttingDown;
            self.workers[w] = wk;
            proof {
                lemma_in_flight_update(old(self).workers@, w as int, wk);
                assert(self.submitted@.to_multiset() =~= self.executed@.to_multiset().add(
                    in_flight(self.workers@),
                ).add(self.queue@.to_multiset())) by {
                    assert forall|v: u64|
                        self.submitted@.to_multiset().count(v) == self.executed@.to_multiset().add(
                            in_flight(self.workers@),
                        ).add(self.queue@.to_multiset()).count(v) by {
                        assert(in_flight(self.workers@).add(
                            claimed_by(old(self).workers@[w as int]),
                        ).count(v) == in_flight(old(self).workers@).add(claimed_by(wk)).count(v));
                        assert(old(self).executed@.to_multiset().add(
                            in_flight(old(self).workers@),
                        ).add(old(self).queue@.to_multiset()).count(v) == old(
                            self,
                        ).submitted@.to_multiset().count(v));
                    }
                }
            }
            Received::Disconnected
        }
    }

    /// Worker `w` finishes the job it had claimed: the job is consumed,
    /// exactly once, and its id joins the record of executed jobs.
    pub fn worker_finish(&mut self, w: usize)
        requires
            old(self).wf(),
            w < old(self).workers@.len(),
            old(self).workers@[w as int].current is Some,
        ensures
            final(self).wf(),
            final(self).workers@.len() == old(self).workers@.len(),
            final(self).sender == old(self).sender,
            final(self).queue == old(self).queue,
            final(self).submitted == old(self).submitted,
            final(self).claimed == old(self).claimed,
            final(self).executed@ == old(self).executed@.push(
                old(self).workers@[w as int].current.unwrap(),
            ),
            final(self).workers@[w as int] == (Worker {
                current: None,
                ..old(self).workers@[w as int]
            }),
            forall|i: int|
                0 <= i < old(self).workers@.len() && i != w ==> final(self).workers@[i] == old(
                    self,
                ).workers@[i],
    {
        let mut wk = self.workers[w];
        if let Some(id) = wk.current {
            self.executed.push(id);
            wk.current = None;
            self.workers[w] = wk;
            proof {
                lemma_in_flight_update(old(self).workers@, w as int, wk);
                assert(self.submitted@.to_multiset() =~= self.executed@.to_multiset().add(
                    in_flight(self.workers@),
                ).add(self.queue@.to_multiset())) by {
                    assert forall|v: u64|
                        self.submitted@.to_multiset().count(v) == self.executed@.to_multiset().add(
                            in_flight(self.workers@),
                        ).add(self.queue@.to_multiset()).count(v) by {
                        assert(in_flight(self.workers@).add(
                            claimed_by(old(self).workers@[w as int]),
                        ).count(v) == in_flight(old(self).workers@).add(claimed_by(wk)).count(v));
                        assert(old(self).executed@.to_multiset().add(
                            in_flight(old(self).workers@),
                        ).add(old(self).queue@.to_multiset()).count(v) == old(
                            self,
                        ).submitted@.to_multiset().count(v));
                    }
                }
            }
        }
    }

    /// Takes worker `w`'s thread handle out, exactly once, and joins the
    /// thread. Joining blocks until the worker has shut down, so the worker
    /// must already have observed the closed channel.
    pub fn join_worker(&mut self, w: usize)
        requires
            old(self).wf(),
            w < old(self).workers@.len(),
            old(self).workers@[w as int].state is ShuttingDown,
            old(self).workers@[w as int].thread is Some,
        ensures
            final(self).wf(),
            final(self).workers@.len() == old(self).workers@.len(),
            final(self).sender == old(self).sender,
            final(self).queue == old(self).queue,
            final(self).executed == old(self).executed,
            final(self).submitted == old(self).submitted,
            final(self).claimed == old(self).claimed,
            final(self).workers@[w as int] == (Worker {
                thread: None,
                ..old(self).workers@[w as int]
            }),
            forall|i: int|
                0 <= i < old(self).workers@.len() && i != w ==> final(self).workers@[i] == old(
                    self,
                ).workers@[i],
    {
        let mut wk = self.workers[w];
        wk.thread = None;
        self.workers[w] = wk;
        proof {
            lemma_in_flight_update(old(self).workers@, w as int, wk);
            assert(self.submitted@.to_multiset() =~= self.executed@.to_multiset().add(
                in_flight(self.workers@),
            ).add(self.queue@.to_multiset())) by {
                assert forall|v: u64|
                    self.submitted@.to_multiset().count(v) == self.executed@.to_multiset().add(
                        in_flight(self.workers@),
                    ).add(self.queue@.to_multiset()).count(v) by {
                    assert(in_flight(self.workers@).add(
                        claimed_by(old(self).workers@[w as int]),
                    ).count(v) == in_flight(old(self).workers@).add(claimed_by(wk)).count(v));
                    assert(old(self).executed@.to_multiset().add(in_flight(old(self).workers@)).add(
                        old(self).queue@.to_multiset(),
                    ).count(v) == old(self).submitted@.to_multiset().count(v));
                }
            }
        }
    }

    /// The teardown the pool performs when it is disposed of. The sending
    /// handle is dropped first, so that nothing further can be enqueued;
    /// the workers then finish what they had claimed, drain what was still
    /// queued, observe the closed channel, and are joined one by one in
    /// registration order. No thread is leaked and no accepted job is
    /// abandoned: on return the record of executed jobs holds exactly the
    /// submitted jobs, and exactly as many threads were joined as the pool
    /// had workers.
    pub fn shutdown(&mut self)
        requires
            old(self).wf(),
            old(self).sender is Some,
        ensures
            final(self).wf(),
            final(self).is_shut_down(),
            final(self).workers@.len() == old(self).workers@.len(),
            final(self).submitted == old(self).submitted,
            final(self).claimed@ == old(self).submitted@,
            final(self).executed@.to_multiset() == old(self).submitted@.to_multiset(),
            forall|i: int|
                0 <= i < old(self).workers@.len() ==> (#[trigger] old(
                    self,
                ).workers@[i]).thread is Some && final(self).workers@[i].thread is None,
    {
        let n = self.workers.len();
        self.close();

        // Jobs that were already claimed run to completion.
        let mut i: usize = 0;
        while i < n
            invariant
                self.wf(),
                self.sender is None,
                n == self.workers@.len(),
                i <= n,
                self.submitted == old(self).submitted,
                forall|j: int|
                    0 <= j < n ==> (#[trigger] self.workers@[j]).state is Running
                        && self.workers@[j].thread is Some,
                forall|j: int| 0 <= j < i ==> (#[trigger] self.workers@[j]).current is None,
            decreases n - i,
        {
            if self.workers[i].current.is_some() {
                self.worker_finish(i);
            }
            i = i + 1;
        }

        // The queue is drained: every job still pending is claimed and run.
        while self.queue.len() > 0
            invariant
                self.wf(),
                self.sender is None,
                n == self.workers@.len(),
                n >= 1,
                self.submitted == old(self).submitted,
                forall|j: int|
                    0 <= j < n ==> (#[trigger] self.workers@[j]).state is Running
                        && self.workers@[j].thread is Some && self.workers@[j].current is None,
            decreases self.queue@.len(),
        {
            let r = self.worker_recv(0);
            self.worker_finish(0);
        }

        // Every worker observes the closed, drained channel and shuts down.
        let mut i: usize = 0;
        while i < n
            invariant
                self.wf(),
                self.sender is None,
                n == self.workers@.len(),
                i <= n,
                self.queue@.len() == 0,
                self.submitted == old(self).submitted,
                forall|j: int|
                    0 <= j < n ==> (#[trigger] self.workers@[j]).thread is Some
                        && self.workers@[j].current is None,
                forall|j: int| 0 <= j < i ==> (#[trigger] self.workers@[j]).state is ShuttingDown,
                forall|j: int| i <= j < n ==> (#[trigger] self.workers@[j]).state is Running,
            decreases n - i,
        {
            let r = self.worker_recv(i);
            i = i + 1;
        }

        // Each worker's thread handle is taken out and joined, in order.
        let mut i: usize = 0;
        while i < n
            invariant
                self.wf(),
                self.sender is None,
                n == self.workers@.len(),
                i <= n,
                self.queue@.len() == 0,
                self.submitted == old(self).submitted,
                forall|j: int|
                    0 <= j < n ==> (#[trigger] self.workers@[j]).state is ShuttingDown
                        && self.workers@[j].current is None,
                forall|j: int| 0 <= j < i ==> (#[trigger] self.workers@[j]).thread is None,
                forall|j: int| i <= j < n ==> (#[trigger] self.workers@[j]).thread is Some,
            decreases n - i,
        {
            self.join_worker(i);
            i = i + 1;
        }

        proof {
            assert(self.claimed@ =~= self.submitted@);
            lemma_in_flight_empty(self.workers@);
            assert(self.executed@.to_multiset() =~= self.submitted@.to_multiset()) by {
                assert forall|v: u64|
                    self.executed@.to_multiset().count(v) == self.submitted@.to_multiset().count(
                        v,
                    ) by {
                    assert(self.submitted@.to_multiset().count(v)
                        == self.executed@.to_multiset().add(in_flight(self.workers@)).add(
                        self.queue@.to_multiset(),
                    ).count(v));
                }
            }
        }
    }
}

/// Law: under normal operation nothing is duplicated and nothing is lost.
/// Once a pool has fully shut down, the record of executed jobs holds every
/// submitted job id exactly as often as it was submitted: a job submitted
/// once was executed exactly once, whichever worker ran it.
pub proof fn lemma_every_job_executed_exactly_once(p: &ThreadPool)
    requires
        p.wf(),
        p.is_shut_down(),
    ensures
        p.executed@.to_multiset() == p.submitted@.to_multiset(),
        forall|id: u64| #[trigger]
            p.executed@.to_multiset().count(id) == p.submitted@.to_multiset().count(id),
{
    lemma_in_flight_empty(p.workers@);
    assert(p.executed@.to_multiset() =~= p.submitted@.to_multiset()) by {
        assert forall|v: u64|
            p.executed@.to_multiset().count(v) == p.submitted@.to_multiset().count(v) by {
            assert(p.submitted@.to_multiset().count(v) == p.executed@.to_multiset().add(
                in_flight(p.workers@),
            ).add(p.queue@.to_multiset()).count(v));
        }
    }
}

/// Law: jobs are handed to workers in submission order. In every
/// well-formed state the ids claimed so far, in the order workers took
/// them, are exactly the first submitted ids, and what is still queued is
/// the rest, in submission order.
pub proof fn lemma_fifo_delivery(p: &ThreadPool)
    requires
        p.wf(),
    ensures
        p.claimed@ == p.submitted@.take(p.claimed@.len() as int),
        p.queue@ == p.submitted@.skip(p.claimed@.len() as int),
        p.claimed@.len() + p.queue@.len() == p.submitted@.len(),
{
    assert(p.claimed@ =~= p.submitted@.take(p.claimed@.len() as int));
    assert(p.queue@ =~= p.submitted@.skip(p.claimed@.len() as int));
}

/// Law: the count of jobs that ran equals the count of jobs that were
/// submitted, however many submitters fed the pool: no submission is lost
/// and none is run twice.
pub proof fn lemma_no_job_lost_or_duplicated(p: &ThreadPool)
    requires
        p.wf(),
        p.is_shut_down(),
    ensures
        p.executed@.len() == p.submitted@.len(),
{
    lemma_every_job_executed_exactly_once(p);
    assert(p.executed@.to_multiset().len() == p.submitted@.to_multiset().len());
}

/// Adds two numbers, as the unit-test module of the crate exercises it.
pub fn add(a: i32, b: i32) -> (r: i32)
    requires
        i32::MIN <= a + b <= i32::MAX,
    ensures
        r == a + b,
{
    a + b
}

/// A function's body ends in an expression, and that expression's value is
/// what the function returns: one more than the argument, here.
pub fn return_function(a: i32) -> (r: i32)
    requires
        a < i32::MAX,
    ensures
        r == a + 1,
{
    a + 1
}

/// Subtracts the second number from the first.
pub fn subtract(a: i32, b: i32) -> (r: i32)
    requires
        i32::MIN <= a - b <= i32::MAX,
    ensures
        r == a - b,
{
    a - b
}

} // verus!
