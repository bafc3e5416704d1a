//! What the worker pool decides, and the counts it decides from.
//!
//! Everything here happens with the pool's lock already held. Generic over what a job runs
//! against, what a job is and what workers meet at when the pool closes, none of which is looked
//! into.

use crate::duration;
use crate::error::Error;
use crate::options::Concurrency;
use core::time::Duration;
use std::collections::VecDeque;
use std::sync::Arc;
use vstd::prelude::*;

verus! {

/// What travels from a task to a worker. `Run` carries the operation and its reply channel;
/// `Stop` retires the worker that receives it, which is why [`State::begin_close`] queues
/// exactly one per live worker.
pub enum Job<R, S> {
    Run(R),
    Stop(Arc<S>),
}

/// What a caller must do after queueing a job the pool had nobody free to run: start the worker
/// the pool has already counted on its behalf. `index` is only the thread's name, and never
/// reused.
pub struct Spawn<C> {
    pub client: Arc<C>,
    pub index: u32,
}

/// What a worker waiting for a job does next.
pub enum Step<R, S> {
    /// Runs this job.
    Job(Job<R, S>),
    /// Leaves; the pool has stopped counting it and has taken its handle.
    Retire,
    /// Waits until something is queued.
    Wait,
    /// Waits until something is queued, and this long at most.
    WaitFor(Duration),
}

/// What a worker does with a job.
pub enum Duty<C, R, S> {
    /// Runs the operation on the handle it holds, and asks for the next job.
    Run(R),
    /// Deposits its handle at the rendezvous, and leaves.
    Retire(Arc<S>, Arc<C>),
    /// Leaves.
    Leave,
}

#[derive(Clone, Copy, Debug, PartialEq, Eq, Structural)]
pub enum Phase {
    Open,
    /// A close was asked for: no new work is taken, and one `Stop` is queued per live worker. No
    /// worker retires itself from here, so the count those stops were queued against stays true.
    Closing,
    /// Every handle on the engine went away without a close: what is already queued is run, and
    /// the workers go.
    Abandoned,
}

pub struct State<C, R, S> {
    queue: VecDeque<Job<R, S>>,
    /// Workers started and not yet gone, counting one that has been reserved but whose thread
    /// has not been spawned yet. Exact while the pool is open, because a close queues one `Stop`
    /// per worker. Frozen from there: a `Stop` retires its worker without coming through here.
    alive: u32,
    /// Workers counted in `alive` whose thread has not yet reached the queue. They will take a
    /// job that is waiting but are not free to take one *now*.
    pending: u32,
    /// Workers waiting for a job rather than running one.
    idle: u32,
    /// Workers ever started, for thread names.
    started: u32,
    phase: Phase,
    /// A handle for workers started later to run on. Given up as the pool closes, because the
    /// close needs the retiring workers to hold the last references to the engine.
    client: Option<Arc<C>>,
}

/// Where a pool stands.
#[verifier::ext_equal]
pub struct StateView<C, R, S> {
    pub queue: Seq<Job<R, S>>,
    pub alive: int,
    pub pending: int,
    pub idle: int,
    pub started: int,
    pub phase: Phase,
    pub client: Option<Arc<C>>,
}

impl<C, R, S> View for State<C, R, S> {
    type V = StateView<C, R, S>;

    closed spec fn view(&self) -> StateView<C, R, S> {
        StateView {
            queue: self.queue@,
            alive: self.alive as int,
            pending: self.pending as int,
            idle: self.idle as int,
            started: self.started as int,
            phase: self.phase,
            client: self.client,
        }
    }
}

/// What a worker that is waiting for a job is to do, before any of it is done.
pub enum Decision {
    Take,
    Retire,
    Wait,
    /// For this many nanoseconds at most.
    WaitFor(nat),
}

impl<C, R, S> StateView<C, R, S> {
    /// What every pool keeps: the waiting workers and the ones on their way are among the live
    /// ones, only an open pool holds a handle, and stops are queued by a close alone, behind
    /// everything else.
    pub open spec fn wf(self) -> bool {
        &&& 0 <= self.pending
        &&& 0 <= self.idle
        &&& self.idle + self.pending <= self.alive
        &&& self.phase != Phase::Open ==> self.client is None
        &&& self.phase != Phase::Closing ==> forall|i: int|
            0 <= i < self.queue.len() ==> (#[trigger] self.queue[i]) is Run
        &&& forall|i: int, j: int|
            0 <= i <= j < self.queue.len() && (#[trigger] self.queue[i]) is Stop ==> (
            #[trigger] self.queue[j]) is Stop
    }

    /// A pool nothing has happened to yet.
    pub open spec fn fresh() -> StateView<C, R, S> {
        StateView {
            queue: Seq::empty(),
            alive: 0,
            pending: 0,
            idle: 0,
            started: 0,
            phase: Phase::Open,
            client: None,
        }
    }

    /// With `count` more workers about to be started.
    pub open spec fn reserved(self, count: int) -> StateView<C, R, S> {
        StateView {
            alive: self.alive + count,
            pending: self.pending + count,
            started: self.started + count,
            ..self
        }
    }

    /// With a worker's thread having reached the queue.
    pub open spec fn arrived(self) -> StateView<C, R, S> {
        StateView { pending: self.pending - 1, ..self }
    }

    /// With a worker having failed to start: no longer counted, and with the stop queued for it,
    /// if there is one, taken back.
    pub open spec fn spawn_failed(self) -> (StateView<C, R, S>, Option<Arc<S>>) {
        let uncounted = StateView { alive: self.alive - 1, pending: self.pending - 1, ..self };
        if self.phase == Phase::Closing && self.queue.len() > 0 && self.queue.last() is Stop {
            (
                StateView { queue: self.queue.drop_last(), ..uncounted },
                Some(self.queue.last()->Stop_0),
            )
        } else {
            (uncounted, None)
        }
    }

    /// With a handle for workers started later, which only an open pool takes.
    pub open spec fn published(self, client: Arc<C>) -> StateView<C, R, S> {
        if self.phase == Phase::Open {
            StateView { client: Some(client), ..self }
        } else {
            self
        }
    }

    /// Whether the queue holds more work than the workers already free, or on their way to being
    /// free, can pick up, and the pool may grow.
    pub open spec fn wants_worker(self, max: u32) -> bool {
        self.alive < max && self.queue.len() > self.idle + self.pending
    }

    /// Whether one more job would have the pool grow.
    pub open spec fn would_grow(self, max: u32) -> bool {
        &&& self.client is Some
        &&& self.alive < max
        &&& self.queue.len() + 1 > self.idle + self.pending
    }

    /// With an operation queued, and the worker to be started for it counted.
    pub open spec fn queued(self, operation: R, max: u32) -> (
        StateView<C, R, S>,
        Option<Spawn<C>>,
    ) {
        let longer = StateView { queue: self.queue.push(Job::Run(operation)), ..self };
        match (longer.wants_worker(max), self.client) {
            (true, Some(client)) => (
                longer.reserved(1),
                Some(Spawn { client, index: self.started as u32 }),
            ),
            _ => (longer, None),
        }
    }

    /// With a worker waiting for a job rather than running one.
    pub open spec fn waiting(self) -> StateView<C, R, S> {
        StateView { idle: self.idle + 1, ..self }
    }

    /// With a worker having a job again.
    pub open spec fn resumed(self) -> StateView<C, R, S> {
        StateView { idle: self.idle - 1, ..self }
    }

    /// With a waiting worker gone.
    pub open spec fn retired(self) -> StateView<C, R, S> {
        StateView { idle: self.idle - 1, alive: self.alive - 1, ..self }
    }

    /// With the job at the front taken.
    pub open spec fn taken(self) -> (StateView<C, R, S>, Option<Job<R, S>>) {
        if self.queue.len() > 0 {
            (StateView { queue: self.queue.drop_first(), ..self }, Some(self.queue[0]))
        } else {
            (self, None)
        }
    }

    /// Workers whose threads are running: waiting for a job or inside one.
    pub open spec fn serving(self) -> int {
        self.alive - self.pending
    }

    /// Whether the pool would still have its floor of workers without one of them.
    pub open spec fn sparable(self, min: u32) -> bool {
        self.phase == Phase::Open && self.serving() > min
    }

    /// Whether a close can begin: the pool is open, and somebody is there to answer.
    pub open spec fn can_close(self) -> bool {
        self.phase == Phase::Open && self.alive > 0
    }

    /// With one stop queued for every live worker.
    pub open spec fn closing(self, shutdown: Arc<S>) -> StateView<C, R, S> {
        StateView {
            phase: Phase::Closing,
            client: None,
            queue: self.queue + Seq::new(self.alive as nat, |i: int| Job::<R, S>::Stop(shutdown)),
            ..self
        }
    }

    /// With every handle on the engine gone and no close asked for.
    pub open spec fn abandoned(self) -> StateView<C, R, S> {
        if self.phase == Phase::Open {
            StateView { phase: Phase::Abandoned, client: None, ..self }
        } else {
            self
        }
    }

    /// What a waiting worker is to do, given since when the pool could have spared it.
    ///
    /// A job is always taken first. Without one an abandoned pool lets its workers go, and an
    /// open pool lets go of one that it can spare and that has waited out the idle timeout.
    pub open spec fn decision(
        self,
        limits: Concurrency,
        sparable_since: Option<Duration>,
        now: Duration,
    ) -> Decision {
        if self.queue.len() > 0 {
            Decision::Take
        } else if self.phase == Phase::Abandoned {
            Decision::Retire
        } else if self.sparable(limits.spec_min()) && limits.spec_idle_timeout() is Some {
            let timeout = duration::nanos(limits.spec_idle_timeout()->0);
            let waited = elapsed(sparable_since, now);
            if waited >= timeout {
                Decision::Retire
            } else {
                Decision::WaitFor((timeout - waited) as nat)
            }
        } else {
            Decision::Wait
        }
    }
}

/// How many nanoseconds a worker has been one the pool could spare: none, if it has only just
/// become one.
pub open spec fn elapsed(sparable_since: Option<Duration>, now: Duration) -> nat {
    match sparable_since {
        Some(since) => if duration::nanos(since) <= duration::nanos(now) {
            (duration::nanos(now) - duration::nanos(since)) as nat
        } else {
            0
        },
        None => 0,
    }
}

/// `Arc::clone`: another handle on the same value.
#[verifier::external_body]
pub(crate) fn share<T>(handle: &Arc<T>) -> (shared: Arc<T>)
    ensures
        shared == *handle,
{
    Arc::clone(handle)
}

impl<C, R, S> State<C, R, S> {
    pub fn new() -> (state: Self)
        ensures
            state@ == StateView::<C, R, S>::fresh(),
            state@.wf(),
    {
        Self {
            queue: VecDeque::new(),
            alive: 0,
            pending: 0,
            idle: 0,
            started: 0,
            phase: Phase::Open,
            client: None,
        }
    }

    /// The workers started and not yet gone, counting those about to start.
    pub fn alive(&self) -> (alive: u32)
        ensures
            alive == self@.alive,
    {
        self.alive
    }

    /// The workers counted as alive whose thread has not reached the queue yet.
    pub fn pending(&self) -> (pending: u32)
        ensures
            pending == self@.pending,
    {
        self.pending
    }

    /// The workers waiting for a job rather than running one.
    pub fn idle(&self) -> (idle: u32)
        ensures
            idle == self@.idle,
    {
        self.idle
    }

    /// The workers ever started.
    pub fn started(&self) -> (started: u32)
        ensures
            started == self@.started,
    {
        self.started
    }

    /// The jobs nobody has taken yet, the one that has been queued longest first.
    pub fn queue(&self) -> (queue: &VecDeque<Job<R, S>>)
        ensures
            queue@ == self@.queue,
    {
        &self.queue
    }

    /// Counts a worker somebody is about to start, and answers the index for its name.
    pub fn reserve(&mut self) -> (index: u32)
        requires
            old(self)@.wf(),
            old(self)@.alive < u32::MAX,
            old(self)@.started < u32::MAX,
        ensures
            final(self)@ == old(self)@.reserved(1),
            final(self)@.wf(),
            index == old(self)@.started,
    {
        self.alive = self.alive + 1;
        self.pending = self.pending + 1;
        let index: u32 = self.started;
        self.started = self.started + 1;
        index
    }

    /// Counts the floor of workers an open starts with, and answers the indices for their names.
    /// The first is the one the open itself runs on.
    pub fn reserve_floor(&mut self, min: u32) -> (indices: Vec<u32>)
        requires
            old(self)@.wf(),
            old(self)@.alive + min <= u32::MAX,
            old(self)@.started + min <= u32::MAX,
        ensures
            final(self)@ == old(self)@.reserved(min as int),
            final(self)@.wf(),
            indices@ == Seq::new(min as nat, |i: int| (old(self)@.started + i) as u32),
    {
        let mut indices: Vec<u32> = Vec::new();
        let mut i: u32 = 0;
        while i < min
            invariant
                i <= min,
                old(self)@.alive + min <= u32::MAX,
                old(self)@.started + min <= u32::MAX,
                self@ == old(self)@.reserved(i as int),
                self@.wf(),
                indices@ == Seq::new(i as nat, |i: int| (old(self)@.started + i) as u32),
            decreases min - i,
        {
            indices.push(self.reserve());
            i = i + 1;
        }
        indices
    }

    /// Called by every worker as its thread starts, which is what stops it counting as one the
    /// pool is still waiting on.
    pub fn arrived(&mut self)
        requires
            old(self)@.wf(),
            old(self)@.pending > 0,
        ensures
            final(self)@ == old(self)@.arrived(),
            final(self)@.wf(),
    {
        self.pending = self.pending - 1;
    }

    /// Gives back the count a worker that failed to start was holding, and with it the
    /// rendezvous of the `Stop` queued for it if a close began in the meantime.
    ///
    /// That `Stop` has to go somewhere. It was queued against a count that included this worker,
    /// so the rendezvous is waiting for a retire the thread that never started can no longer
    /// make -- and the caller, which still holds the handle it was going to run on, is the one
    /// that can make it instead.
    pub fn spawn_failed(&mut self) -> (unclaimed: Option<Arc<S>>)
        requires
            old(self)@.wf(),
            old(self)@.pending > 0,
        ensures
            (final(self)@, unclaimed) == old(self)@.spawn_failed(),
            final(self)@.wf(),
    {
        self.alive = self.alive - 1;
        self.pending = self.pending - 1;
        match self.phase {
            // The stops are appended after every job already queued and are taken from the
            // front, so while a close is under way the back of the queue is one of them.
            Phase::Closing => match self.queue.pop_back() {
                Some(Job::Stop(shutdown)) => Some(shutdown),
                Some(job) => {
                    let ghost before = old(self)@.queue;
                    self.queue.push_back(job);
                    assert(self.queue@ =~= before);
                    None
                },
                None => None,
            },
            _ => None,
        }
    }

    /// Records the handle workers started later will run on. Ignored once the pool is closing: a
    /// pool nobody holds any more must not be given a handle to keep, or the engine it names
    /// would never close.
    pub fn publish(&mut self, client: Arc<C>)
        requires
            old(self)@.wf(),
        ensures
            final(self)@ == old(self)@.published(client),
            final(self)@.wf(),
    {
        if self.phase == Phase::Open {
            self.client = Some(client);
        }
    }

    /// Queues `operation`, and answers the worker the caller should now start -- none when one
    /// is free to take it or the pool is already at its ceiling.
    pub fn queue_job(&mut self, operation: R, max: u32) -> (result: Result<
        Option<Spawn<C>>,
        Error,
    >)
        requires
            old(self)@.wf(),
            old(self)@.would_grow(max) ==> old(self)@.started < u32::MAX,
        ensures
            final(self)@.wf(),
            match result {
                Ok(spawn) => {
                    &&& old(self)@.phase == Phase::Open
                    &&& (final(self)@, spawn) == old(self)@.queued(operation, max)
                },
                Err(error) => {
                    &&& old(self)@.phase != Phase::Open
                    &&& error is Closed
                    &&& final(self)@ == old(self)@
                },
            },
            old(self)@.alive <= max ==> final(self)@.alive <= max,
            match result {
                Ok(Some(_)) => {
                    &&& old(self)@.queue.len() + 1 > old(self)@.idle + old(self)@.pending
                    &&& old(self)@.alive < max
                    &&& final(self)@.alive == old(self)@.alive + 1
                    &&& final(self)@.pending == old(self)@.pending + 1
                    &&& final(self)@.started == old(self)@.started + 1
                },
                Ok(None) => {
                    &&& {
                        ||| old(self)@.queue.len() + 1 <= old(self)@.idle + old(self)@.pending
                        ||| old(self)@.alive >= max
                        ||| old(self)@.client is None
                    }
                    &&& final(self)@.alive == old(self)@.alive
                    &&& final(self)@.pending == old(self)@.pending
                    &&& final(self)@.started == old(self)@.started
                },
                Err(_) => true,
            },
            result is Ok ==> {
                &&& final(self)@.idle == old(self)@.idle
                &&& final(self)@.queue == old(self)@.queue.push(Job::Run(operation))
            },
    {
        if self.phase != Phase::Open {
            return Err(Error::Closed);
        }
        self.queue.push_back(Job::Run(operation));
        if !self.wants_worker(max) {
            return Ok(None);
        }
        let client: Arc<C> = match &self.client {
            Some(client) => share(client),
            None => return Ok(None),
        };
        let index: u32 = self.reserve();
        Ok(Some(Spawn { client, index }))
    }

    /// Counts the calling worker as one waiting for a job rather than running one.
    pub fn waiting(&mut self)
        requires
            old(self)@.wf(),
            old(self)@.idle + old(self)@.pending < old(self)@.alive,
        ensures
            final(self)@ == old(self)@.waiting(),
            final(self)@.wf(),
    {
        self.idle = self.idle + 1;
    }

    /// The calling worker has a job again.
    pub fn resumed(&mut self)
        requires
            old(self)@.wf(),
            old(self)@.idle > 0,
        ensures
            final(self)@ == old(self)@.resumed(),
            final(self)@.wf(),
    {
        self.idle = self.idle - 1;
    }

    /// The calling worker is leaving, and gives up its handle on the engine here.
    ///
    /// Under the same lock that stops counting it, on purpose. A handle let go a moment later
    /// would leave the claim that the retiring workers hold every last reference to the engine
    /// briefly false.
    pub fn retired(&mut self, client: &mut Option<Arc<C>>)
        requires
            old(self)@.wf(),
            old(self)@.idle > 0,
        ensures
            final(self)@ == old(self)@.retired(),
            final(self)@.wf(),
            *final(client) is None,
    {
        self.idle = self.idle - 1;
        self.alive = self.alive - 1;
        *client = None;
    }

    /// The job that has been queued longest, if there is one.
    pub fn take_job(&mut self) -> (job: Option<Job<R, S>>)
        requires
            old(self)@.wf(),
        ensures
            (final(self)@, job) == old(self)@.taken(),
            final(self)@.wf(),
    {
        self.queue.pop_front()
    }

    pub fn abandoned(&self) -> (abandoned: bool)
        ensures
            abandoned == (self@.phase == Phase::Abandoned),
    {
        self.phase == Phase::Abandoned
    }

    /// Whether the pool would still have its floor of workers without the caller.
    pub fn sparable(&self, min: u32) -> (sparable: bool)
        requires
            self@.wf(),
        ensures
            sparable == self@.sparable(min),
    {
        self.phase == Phase::Open && self.serving() > min
    }

    /// Queues one `Stop` per live worker against the rendezvous, built here from the count so
    /// that the two cannot disagree.
    ///
    /// From the moment the phase changes no worker retires itself and no new one is counted, so
    /// the stops queued are exactly the workers left to take one. Refused where nobody would
    /// ever answer: a pool that is not open, or that has no workers.
    pub fn begin_close<F: FnOnce(u32) -> Arc<S>>(&mut self, rendezvous: F) -> (result: Result<
        (),
        Error,
    >)
        requires
            old(self)@.wf(),
            old(self)@.can_close() ==> call_requires(rendezvous, (old(self)@.alive as u32,)),
        ensures
            final(self)@.wf(),
            match result {
                Ok(_) => {
                    &&& old(self)@.can_close()
                    &&& exists|shutdown: Arc<S>|
                        #![trigger old(self)@.closing(shutdown)]
                        {
                            &&& call_ensures(rendezvous, (old(self)@.alive as u32,), shutdown)
                            &&& final(self)@ == old(self)@.closing(shutdown)
                        }
                },
                Err(error) => {
                    &&& !old(self)@.can_close()
                    &&& error is Closed
                    &&& final(self)@ == old(self)@
                },
            },
    {
        if self.phase != Phase::Open || self.alive == 0 {
            return Err(Error::Closed);
        }
        self.phase = Phase::Closing;
        // The pool's own handle goes before the workers deposit theirs: the last worker to
        // retire has to be the engine's sole owner for the close to run and report.
        self.client = None;
        let workers: u32 = self.alive;
        let shutdown: Arc<S> = rendezvous(workers);
        let ghost jobs = self.queue@;
        let mut i: u32 = 0;
        while i < workers
            invariant
                i <= workers,
                self.phase == Phase::Closing,
                self.client is None,
                self.alive == workers,
                self.pending == old(self)@.pending,
                self.idle == old(self)@.idle,
                self.started == old(self)@.started,
                self.queue@ =~= jobs + Seq::new(i as nat, |i: int| Job::<R, S>::Stop(shutdown)),
            decreases workers - i,
        {
            self.queue.push_back(Job::Stop(share(&shutdown)));
            i = i + 1;
        }
        assert(self@ == old(self)@.closing(shutdown));
        Ok(())
    }

    /// Every handle on the engine is gone and nobody asked for a close.
    pub fn abandon(&mut self)
        requires
            old(self)@.wf(),
        ensures
            final(self)@ == old(self)@.abandoned(),
            final(self)@.wf(),
    {
        if self.phase != Phase::Open {
            return;
        }
        self.phase = Phase::Abandoned;
        self.client = None;
    }

    /// What the calling worker, counted as waiting, does next. A job or leave is final; after a
    /// wait it asks again.
    ///
    /// `sparable_since` is the worker's own note of since when the pool could have spared it. It
    /// is kept only while the pool can: a worker at the floor has nothing to count down to, and
    /// a fixed pool never counts at all.
    pub fn next_step(
        &mut self,
        limits: Concurrency,
        sparable_since: &mut Option<Duration>,
        now: Duration,
        client: &mut Option<Arc<C>>,
    ) -> (step: Step<R, S>)
        requires
            old(self)@.wf(),
            old(self)@.idle > 0,
        ensures
            final(self)@.wf(),
            match (old(self)@.decision(limits, *old(sparable_since), now), step) {
                (Decision::Take, Step::Job(job)) => {
                    &&& job == old(self)@.queue[0]
                    &&& final(self)@ == old(self)@.taken().0.resumed()
                    &&& *final(client) == *old(client)
                    &&& *final(sparable_since) == *old(sparable_since)
                },
                (Decision::Retire, Step::Retire) => {
                    &&& final(self)@ == old(self)@.retired()
                    &&& *final(client) is None
                },
                (Decision::Wait, Step::Wait) => {
                    &&& final(self)@ == old(self)@
                    &&& *final(client) == *old(client)
                    &&& *final(sparable_since) is None
                },
                (Decision::WaitFor(span), Step::WaitFor(wait)) => {
                    &&& duration::nanos(wait) == span
                    &&& final(self)@ == old(self)@
                    &&& *final(client) == *old(client)
                    &&& *final(sparable_since) == Some(
                        match *old(sparable_since) {
                            Some(since) => since,
                            None => now,
                        },
                    )
                },
                _ => false,
            },
    {
        if let Some(job) = self.take_job() {
            self.resumed();
            return Step::Job(job);
        }
        if self.abandoned() {
            self.retired(client);
            return Step::Retire;
        }
        let spare: bool = self.sparable(limits.min());
        let timeout: Duration = match (limits.idle_timeout(), spare) {
            (Some(timeout), true) => timeout,
            _ => {
                // Nothing to wait *out*: either the pool keeps every worker it has, or this one
                // is at the floor.
                *sparable_since = None;
                return Step::Wait;
            },
        };
        let since: Duration = match *sparable_since {
            Some(since) => since,
            None => now,
        };
        *sparable_since = Some(since);
        let remaining: Duration = duration::saturating_sub(
            timeout,
            duration::saturating_sub(now, since),
        );
        if duration::as_nanos(remaining) == 0 {
            self.retired(client);
            return Step::Retire;
        }
        Step::WaitFor(remaining)
    }

    /// Workers whose threads are running: waiting for a job or inside one.
    fn serving(&self) -> (serving: u32)
        requires
            self@.wf(),
        ensures
            serving == self@.serving(),
    {
        self.alive - self.pending
    }

    /// Whether the queue holds more work than the workers already free, or on their way to being
    /// free, can pick up.
    ///
    /// Both halves matter. Asking only whether one is idle under-counts demand: eight jobs
    /// queued while a single worker has yet to be rescheduled all see it free. Ignoring the ones
    /// on their way over-counts it: every job of a burst starts a thread, because none of the
    /// threads already starting has reached the queue yet.
    fn wants_worker(&self, max: u32) -> (wants: bool)
        requires
            self@.wf(),
        ensures
            wants == self@.wants_worker(max),
            wants ==> self@.alive < max && self@.queue.len() > self@.idle + self@.pending,
    {
        self.alive < max && self.queue.len() > (self.idle + self.pending) as usize
    }
}

/// What a worker that holds `held` does with `job`.
pub fn duty<C, R, S>(job: Job<R, S>, held: &mut Option<Arc<C>>) -> (duty: Duty<C, R, S>)
    ensures
        match job {
            Job::Run(operation) => {
                &&& duty == Duty::<C, R, S>::Run(operation)
                &&& *final(held) == *old(held)
            },
            Job::Stop(shutdown) => {
                &&& *final(held) is None
                &&& duty == match *old(held) {
                    Some(client) => Duty::<C, R, S>::Retire(shutdown, client),
                    None => Duty::<C, R, S>::Leave,
                }
            },
        },
{
    match job {
        Job::Run(operation) => Duty::Run(operation),
        // Taken rather than shared: the rendezvous counts handles, and the one this worker was
        // holding is the one it deposits.
        Job::Stop(shutdown) => match held.take() {
            Some(client) => Duty::Retire(shutdown, client),
            None => Duty::Leave,
        },
    }
}

/// How many workers a queue tells to leave.
pub open spec fn stops<R, S>(queue: Seq<Job<R, S>>) -> nat
    decreases queue.len(),
{
    if queue.len() == 0 {
        0
    } else if queue.last() is Stop {
        stops(queue.drop_last()) + 1
    } else {
        stops(queue.drop_last())
    }
}

/// Whether every worker is accounted for, when `running` of them have a thread and have not been
/// told to leave: an open or abandoned pool counts them all as alive, and a closing one has a
/// stop queued for each.
pub open spec fn accounted<C, R, S>(state: StateView<C, R, S>, running: int) -> bool {
    &&& 0 <= running
    &&& running + state.pending == if state.phase == Phase::Closing {
        stops(state.queue) as int
    } else {
        state.alive
    }
}

proof fn lemma_no_stops<R, S>(queue: Seq<Job<R, S>>)
    requires
        forall|i: int| 0 <= i < queue.len() ==> (#[trigger] queue[i]) is Run,
    ensures
        stops(queue) == 0,
    decreases queue.len(),
{
    if queue.len() > 0 {
        lemma_no_stops(queue.drop_last());
    }
}

proof fn lemma_all_stops<R, S>(queue: Seq<Job<R, S>>)
    requires
        forall|i: int| 0 <= i < queue.len() ==> (#[trigger] queue[i]) is Stop,
    ensures
        stops(queue) == queue.len(),
    decreases queue.len(),
{
    if queue.len() > 0 {
        lemma_all_stops(queue.drop_last());
    }
}

proof fn lemma_stops_of_both<R, S>(front: Seq<Job<R, S>>, back: Seq<Job<R, S>>)
    ensures
        stops(front + back) == stops(front) + stops(back),
    decreases back.len(),
{
    if back.len() == 0 {
        assert(front + back =~= front);
    } else {
        lemma_stops_of_both(front, back.drop_last());
        assert((front + back).drop_last() =~= front + back.drop_last());
    }
}

proof fn lemma_stops_without_first<R, S>(queue: Seq<Job<R, S>>)
    requires
        queue.len() > 0,
    ensures
        stops(queue) == stops(queue.drop_first()) + if queue[0] is Stop { 1nat } else { 0 },
{
    lemma_stops_of_both(seq![queue[0]], queue.drop_first());
    assert(seq![queue[0]] + queue.drop_first() =~= queue);
    assert(seq![queue[0]].drop_last() =~= Seq::<Job<R, S>>::empty());
    assert(stops(Seq::<Job<R, S>>::empty()) == 0);
}

/// A close queues exactly one stop for every worker there is, behind everything queued before it.
pub proof fn close_queues_one_stop_per_worker<C, R, S>(
    state: StateView<C, R, S>,
    shutdown: Arc<S>,
)
    requires
        state.wf(),
        state.can_close(),
    ensures
        state.closing(shutdown).wf(),
        stops(state.closing(shutdown).queue) == state.alive,
        state.closing(shutdown).queue.take(state.queue.len() as int) == state.queue,
        forall|i: int|
            state.queue.len() <= i < state.closing(shutdown).queue.len() ==> (
            #[trigger] state.closing(shutdown).queue[i]) == Job::<R, S>::Stop(shutdown),
{
    let told = Seq::new(state.alive as nat, |i: int| Job::<R, S>::Stop(shutdown));
    lemma_no_stops(state.queue);
    lemma_all_stops(told);
    lemma_stops_of_both(state.queue, told);
    assert(state.closing(shutdown).queue.take(state.queue.len() as int) =~= state.queue);
}

/// Workers stay accounted for whatever happens to the pool, in whatever order: as they are
/// reserved, arrive, fail to start, retire, are told to leave, and as the pool closes or is
/// abandoned under them. So a rendezvous is never left waiting for a worker that will not come,
/// and never short of one that will.
pub proof fn workers_stay_accounted_for<C, R, S>(
    state: StateView<C, R, S>,
    running: int,
    count: int,
    operation: R,
    max: u32,
    client: Arc<C>,
    shutdown: Arc<S>,
)
    requires
        state.wf(),
        accounted(state, running),
        0 <= count,
    ensures
        state.phase == Phase::Open ==> accounted(state.reserved(count), running),
        state.pending > 0 ==> accounted(state.arrived(), running + 1),
        state.pending > 0 ==> accounted(state.spawn_failed().0, running),
        accounted(state.published(client), running),
        state.phase == Phase::Open ==> accounted(state.queued(operation, max).0, running),
        accounted(state.waiting(), running),
        accounted(state.resumed(), running),
        state.phase != Phase::Closing && state.idle > 0 ==> accounted(
            state.retired(),
            running - 1,
        ),
        running > 0 && state.taken().1 is Some ==> accounted(
            state.taken().0,
            if state.taken().1->0 is Stop {
                running - 1
            } else {
                running
            },
        ),
        state.can_close() ==> accounted(state.closing(shutdown), running),
        accounted(state.abandoned(), running),
{
    if state.can_close() {
        close_queues_one_stop_per_worker(state, shutdown);
    }
    if state.queue.len() > 0 {
        lemma_stops_without_first(state.queue);
    }
    if state.pending > 0 && state.phase == Phase::Closing {
        a_worker_that_never_starts_hands_its_stop_back(state, running);
    }
}

/// While a pool closes, a worker that fails to start always finds the stop that was queued for
/// it, so its caller can retire in its place.
pub proof fn a_worker_that_never_starts_hands_its_stop_back<C, R, S>(
    state: StateView<C, R, S>,
    running: int,
)
    requires
        state.wf(),
        accounted(state, running),
        state.phase == Phase::Closing,
        state.pending > 0,
    ensures
        state.spawn_failed().1 is Some,
        stops(state.spawn_failed().0.queue) == stops(state.queue) - 1,
{
    if !(state.queue.last() is Stop) {
        assert forall|i: int| 0 <= i < state.queue.len() implies (#[trigger] state.queue[i]) is Run by {
            let last = state.queue[state.queue.len() - 1];
        }
        lemma_no_stops(state.queue);
    }
}

/// A job queued is a job met: as long as every queued job has a worker free or on its way, or
/// the pool is at its ceiling, queueing one more leaves it so. A burst asks for one worker per
/// job that would have waited, and never for more workers than the ceiling.
pub proof fn queueing_meets_demand<C, R, S>(state: StateView<C, R, S>, operation: R, max: u32)
    requires
        state.wf(),
        state.client is Some,
        state.alive <= max,
        state.alive == max || state.queue.len() <= state.idle + state.pending,
    ensures
        ({
            let next = state.queued(operation, max).0;
            &&& next.alive <= max
            &&& next.alive == max || next.queue.len() <= next.idle + next.pending
        }),
{
}

/// A worker that leaves an open pool leaves at least the floor of workers behind.
pub proof fn leaving_keeps_the_floor<C, R, S>(
    state: StateView<C, R, S>,
    limits: Concurrency,
    sparable_since: Option<Duration>,
    now: Duration,
)
    requires
        state.wf(),
        state.phase == Phase::Open,
        state.decision(limits, sparable_since, now) is Retire,
    ensures
        state.retired().serving() >= limits.spec_min(),
{
}

/// A pool that never gives workers up keeps every one of them for as long as it is open.
pub proof fn pool_without_a_timeout_keeps_its_workers<C, R, S>(
    state: StateView<C, R, S>,
    limits: Concurrency,
    sparable_since: Option<Duration>,
    now: Duration,
)
    requires
        limits.spec_idle_timeout() is None,
        state.phase != Phase::Abandoned,
    ensures
        !(state.decision(limits, sparable_since, now) is Retire),
        !(state.decision(limits, sparable_since, now) is WaitFor),
{
}

/// Jobs are run in the order they were queued.
pub proof fn first_queued_is_first_run<C, R, S>(
    state: StateView<C, R, S>,
    operation: R,
    max: u32,
)
    requires
        state.wf(),
        state.queue.len() > 0,
    ensures
        ({
            let (later, job) = state.queued(operation, max).0.taken();
            &&& job == state.taken().1
            &&& later.queue == state.taken().0.queue.push(Job::Run(operation))
        }),
{
    assert(state.queue.push(Job::Run(operation)).drop_first() =~= state.queue.drop_first().push(
        Job::Run(operation),
    ));
}

/// An abandoned pool runs everything already queued, and only then do its workers go.
pub proof fn abandoned_pool_finishes_its_queue<C, R, S>(
    state: StateView<C, R, S>,
    limits: Concurrency,
    sparable_since: Option<Duration>,
    now: Duration,
)
    requires
        state.phase == Phase::Open,
    ensures
        state.abandoned().queue == state.queue,
        state.abandoned().client is None,
        state.abandoned().decision(limits, sparable_since, now) == if state.queue.len() > 0 {
            Decision::Take
        } else {
            Decision::Retire
        },
{
}

} // verus!
