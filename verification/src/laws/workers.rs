//! The worker pool.

use crate::duration;
use crate::options::Concurrency;
use crate::workers::state::{Decision, Job, Phase, StateView};
use core::time::Duration;
use std::sync::Arc;
use vstd::prelude::*;

verus! {

/// A worker is asked for exactly where one is missing and may be had: the jobs queued, with the
/// new one, are more than the workers that wait for one and the workers on their way, and there
/// are fewer workers than the ceiling. It is counted from then on, under a name of its own. Where
/// none is missing no count changes.
pub proof fn a_worker_is_asked_for_only_where_one_is_missing<C, R, S>(
    state: StateView<C, R, S>,
    operation: R,
    max: u32,
)
    ensures
        ({
            let (after, spawn) = state.queued(operation, max);
            let missing = state.queue.len() + 1 > state.idle + state.pending;
            &&& spawn is Some <==> missing && state.alive < max && state.client is Some
            &&& spawn is Some ==> {
                &&& Some(spawn->0.client) == state.client
                &&& 0 <= state.started <= u32::MAX ==> spawn->0.index == state.started
                &&& after.alive == state.alive + 1
                &&& after.pending == state.pending + 1
                &&& after.started == state.started + 1
            }
            &&& spawn is None ==> {
                &&& after.alive == state.alive
                &&& after.pending == state.pending
                &&& after.started == state.started
            }
            &&& after.queue == state.queue.push(Job::Run(operation))
            &&& after.idle == state.idle
            &&& after.phase == state.phase
            &&& after.client == state.client
            &&& state.would_grow(max) <==> spawn is Some
        }),
{
}

/// Queueing as many jobs as there are workers free and on their way starts nobody, and each job
/// beyond that one worker, up to the ceiling: jobs and workers are matched one to one.
pub proof fn jobs_and_workers_are_matched_one_to_one<C, R, S>(
    state: StateView<C, R, S>,
    operations: Seq<R>,
    max: u32,
)
    requires
        state.client is Some,
        0 <= state.idle,
        0 <= state.pending,
        state.alive <= max,
        state.queue.len() <= state.idle + state.pending,
    ensures
        ({
            let after = queued_all(state, operations, max);
            let beyond = state.queue.len() + operations.len() - state.idle - state.pending;
            let room = max - state.alive;
            &&& after.alive - state.alive == if beyond <= 0 {
                0
            } else if beyond <= room {
                beyond
            } else {
                room
            }
            &&& after.queue.len() == state.queue.len() + operations.len()
            &&& after.pending - state.pending == after.alive - state.alive
            &&& after.idle == state.idle
            &&& after.client is Some
        }),
    decreases operations.len(),
{
    if operations.len() > 0 {
        jobs_and_workers_are_matched_one_to_one(state, operations.drop_last(), max);
        a_worker_is_asked_for_only_where_one_is_missing(
            queued_all(state, operations.drop_last(), max),
            operations.last(),
            max,
        );
    }
}

/// A pool after one operation after the other has been queued.
pub open spec fn queued_all<C, R, S>(
    state: StateView<C, R, S>,
    operations: Seq<R>,
    max: u32,
) -> StateView<C, R, S>
    decreases operations.len(),
{
    if operations.len() == 0 {
        state
    } else {
        queued_all(state, operations.drop_last(), max).queued(operations.last(), max).0
    }
}

/// How long a worker has been one that the pool could spare: no time at all, where that has only
/// just become so or the clock stands before it.
pub open spec fn waited(since: Option<Duration>, now: Duration) -> int {
    match since {
        Some(since) if duration::nanos(since) < duration::nanos(now) => duration::nanos(now)
            - duration::nanos(since),
        _ => 0,
    }
}

/// What a waiting worker does. It takes a job wherever there is one. Without one it leaves an
/// abandoned pool at once, and an open pool where more workers have arrived than the floor asks
/// for and it has waited out the whole idle timeout; it waits for the rest of the timeout where it
/// has not; and in every other case it waits for as long as it takes.
pub proof fn a_waiting_worker_takes_leaves_or_waits<C, R, S>(
    state: StateView<C, R, S>,
    limits: Concurrency,
    since: Option<Duration>,
    now: Duration,
)
    ensures
        ({
            let decision = state.decision(limits, since, now);
            let spare = state.phase == Phase::Open && state.alive - state.pending
                > limits.spec_min() && limits.spec_idle_timeout() is Some;
            let timeout = duration::nanos(limits.spec_idle_timeout()->0);
            &&& state.queue.len() > 0 <==> decision is Take
            &&& state.queue.len() == 0 && state.phase == Phase::Abandoned ==> decision is Retire
            &&& state.queue.len() == 0 && spare && waited(since, now) >= timeout ==> (decision
                is Retire)
            &&& state.queue.len() == 0 && spare && waited(since, now) < timeout ==> decision
                == Decision::WaitFor((timeout - waited(since, now)) as nat)
            &&& state.queue.len() == 0 && !spare && state.phase != Phase::Abandoned ==> (decision
                is Wait)
        }),
{
}

/// What each thing that happens to a worker does to the counts, and that it does nothing else.
pub proof fn each_happening_changes_its_own_counts<C, R, S>(
    state: StateView<C, R, S>,
    count: int,
    client: Arc<C>,
)
    ensures
        ({
            let after = state.reserved(count);
            &&& after.alive == state.alive + count
            &&& after.pending == state.pending + count
            &&& after.started == state.started + count
            &&& after.idle == state.idle
            &&& after.queue == state.queue
            &&& after.phase == state.phase
            &&& after.client == state.client
        }),
        ({
            let after = state.arrived();
            &&& after.pending == state.pending - 1
            &&& after.alive == state.alive
            &&& after.started == state.started
            &&& after.idle == state.idle
            &&& after.queue == state.queue
            &&& after.phase == state.phase
            &&& after.client == state.client
        }),
        ({
            let after = state.waiting();
            &&& after.idle == state.idle + 1
            &&& after.alive == state.alive
            &&& after.pending == state.pending
            &&& after.started == state.started
            &&& after.queue == state.queue
            &&& after.phase == state.phase
            &&& after.client == state.client
            &&& after.resumed() == state
        }),
        ({
            let after = state.retired();
            &&& after.idle == state.idle - 1
            &&& after.alive == state.alive - 1
            &&& after.pending == state.pending
            &&& after.started == state.started
            &&& after.queue == state.queue
            &&& after.phase == state.phase
            &&& after.client == state.client
        }),
        ({
            let after = state.published(client);
            &&& state.phase == Phase::Open ==> after.client == Some(client)
            &&& state.phase != Phase::Open ==> after.client == state.client
            &&& after.alive == state.alive
            &&& after.pending == state.pending
            &&& after.idle == state.idle
            &&& after.started == state.started
            &&& after.queue == state.queue
            &&& after.phase == state.phase
        }),
        state.serving() == state.alive - state.pending,
        ({
            let fresh = StateView::<C, R, S>::fresh();
            &&& fresh.alive == 0
            &&& fresh.pending == 0
            &&& fresh.idle == 0
            &&& fresh.started == 0
            &&& fresh.queue.len() == 0
            &&& fresh.phase == Phase::Open
            &&& fresh.client is None
        }),
{
}

/// The job that is taken is the first, and the others stay as they are.
pub proof fn the_first_job_is_the_one_taken<C, R, S>(state: StateView<C, R, S>)
    ensures
        ({
            let (after, job) = state.taken();
            &&& state.queue.len() == 0 ==> job is None && after == state
            &&& state.queue.len() > 0 ==> {
                &&& job == Some(state.queue[0])
                &&& seq![state.queue[0]] + after.queue == state.queue
                &&& after.alive == state.alive
                &&& after.pending == state.pending
                &&& after.idle == state.idle
                &&& after.started == state.started
                &&& after.phase == state.phase
                &&& after.client == state.client
            }
        }),
{
    if state.queue.len() > 0 {
        assert(seq![state.queue[0]] + state.taken().0.queue =~= state.queue);
    }
}

/// A close is accepted exactly where the pool is open and has a worker. It adds one stop for every
/// worker behind what is queued, and gives up the handle; an abandoned pool gives up the handle and
/// keeps everything else. Neither does anything to a pool that is no longer open.
pub proof fn closing_and_abandoning_give_up_the_handle<C, R, S>(
    state: StateView<C, R, S>,
    shutdown: Arc<S>,
)
    ensures
        state.can_close() <==> state.phase == Phase::Open && state.alive > 0,
        state.can_close() ==> {
            let after = state.closing(shutdown);
            &&& after.phase == Phase::Closing
            &&& after.client is None
            &&& after.queue.len() == state.queue.len() + state.alive
            &&& forall|i: int|
                0 <= i < after.queue.len() ==> #[trigger] after.queue[i] == if i < state.queue.len() {
                    state.queue[i]
                } else {
                    Job::<R, S>::Stop(shutdown)
                }
            &&& after.alive == state.alive
            &&& after.pending == state.pending
            &&& after.idle == state.idle
            &&& after.started == state.started
        },
        ({
            let after = state.abandoned();
            &&& state.phase == Phase::Open ==> after.phase == Phase::Abandoned && after.client
                is None
            &&& state.phase != Phase::Open ==> after == state
            &&& after.queue == state.queue
            &&& after.alive == state.alive
            &&& after.pending == state.pending
            &&& after.idle == state.idle
            &&& after.started == state.started
        }),
{
}

/// A worker that never starts is no longer counted, and takes the last stop of a closing pool with
/// it, and nothing else.
pub proof fn a_worker_that_never_starts_takes_one_stop_with_it<C, R, S>(state: StateView<C, R, S>)
    ensures
        ({
            let (after, stop) = state.spawn_failed();
            &&& after.alive == state.alive - 1
            &&& after.pending == state.pending - 1
            &&& after.idle == state.idle
            &&& after.started == state.started
            &&& after.phase == state.phase
            &&& after.client == state.client
            &&& state.phase == Phase::Closing && state.queue.len() > 0 && state.queue.last() is Stop
                ==> stop is Some && after.queue.push(Job::Stop(stop->0)) == state.queue
            &&& !(state.phase == Phase::Closing && state.queue.len() > 0 && state.queue.last()
                is Stop) ==> stop is None && after.queue == state.queue
        }),
{
    let (after, stop) = state.spawn_failed();
    if stop is Some {
        assert(after.queue.push(Job::Stop(stop->0)) =~= state.queue);
    }
}

} // verus!
