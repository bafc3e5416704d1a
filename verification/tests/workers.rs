use embedded_mongodb::error::Error;
use embedded_mongodb::options::Concurrency;
use embedded_mongodb::workers::shutdown::{answer, Shutdown};
use embedded_mongodb::workers::state::{duty, Duty, Job, Spawn, State, Step};
use std::sync::{Arc, Mutex};
use std::time::Duration;

type Rendezvous = Mutex<Shutdown<(), ()>>;
type Pool = State<(), &'static str, Rendezvous>;

fn opened(alive: u32) -> Pool {
    let mut state = State::new();
    for _ in 0..alive {
        state.reserve();
        state.arrived();
    }
    state.publish(Arc::new(()));
    state
}

fn close(state: &mut Pool) -> Result<(), Error> {
    state.begin_close(|workers| Arc::new(Mutex::new(Shutdown::new(workers, ()))))
}

fn elastic(min: u32, max: u32) -> Concurrency {
    Concurrency::dynamic(min, max, Duration::from_millis(20)).expect("a policy in range")
}

#[test]
fn a_job_queued_with_nobody_free_asks_for_another_worker() {
    let mut state = opened(1);

    let spawn = state.queue_job("job", 4).expect("an open pool takes jobs");

    assert!(
        matches!(spawn, Some(Spawn { index: 1, .. })),
        "the second worker should be started, under the second name"
    );
}

#[test]
fn a_job_queued_with_a_worker_free_asks_for_nothing() {
    let mut state = opened(1);
    state.waiting();

    let spawn = state.queue_job("job", 4).expect("an open pool takes jobs");

    assert!(
        spawn.is_none(),
        "a worker already waiting is the one that should run it"
    );
}

#[test]
fn a_burst_past_the_one_free_worker_asks_for_one_worker_per_job_left_waiting() {
    let mut state = opened(1);
    state.waiting();

    let spawns: Vec<_> = (0..3)
        .map(|_| state.queue_job("job", 4).expect("an open pool takes jobs"))
        .collect();

    assert!(spawns[0].is_none(), "the waiting worker takes the first");
    assert!(spawns[1].is_some(), "the second job has nobody left");
    assert!(spawns[2].is_some(), "and neither has the third");
    assert_eq!(state.pending(), 2);
    assert_eq!(state.alive(), 3);
}

#[test]
fn the_ceiling_is_the_end_of_growing() {
    let mut state = opened(2);

    let spawn = state.queue_job("job", 2).expect("an open pool takes jobs");

    assert!(spawn.is_none(), "the pool is already at its ceiling");
}

#[test]
fn a_worker_the_pool_can_spare_is_one_past_its_floor_that_has_arrived() {
    let state = opened(2);

    assert!(state.sparable(1));
    assert!(!state.sparable(2), "the floor keeps every worker it counts");
}

#[test]
fn a_worker_that_has_yet_to_start_does_not_make_the_floor_sparable() {
    let mut state = opened(1);
    state.queue_job("job", 4).expect("an open pool takes jobs");

    assert!(
        !state.sparable(1),
        "the only arrived worker must not retire behind one that has yet to start"
    );
}

#[test]
fn a_retiring_worker_gives_up_its_handle_as_it_stops_being_counted() {
    let mut state = opened(2);
    state.waiting();
    let client = Arc::new(());
    let mut held = Some(Arc::clone(&client));

    state.retired(&mut held);

    assert!(held.is_none());
    assert_eq!(
        Arc::strong_count(&client),
        1,
        "the handle has to be gone by the time the count is"
    );
    assert_eq!(state.alive(), 1);
}

#[test]
fn a_closing_pool_takes_no_more_work() {
    let mut state = opened(1);
    close(&mut state).expect("an open pool closes");

    assert!(matches!(state.queue_job("job", 4), Err(Error::Closed)));
}

#[test]
fn closing_queues_one_stop_for_every_worker() {
    let mut state = opened(3);

    close(&mut state).expect("an open pool closes");

    assert_eq!(state.queue().len(), 3);
    assert!(state.queue().iter().all(|job| matches!(job, Job::Stop(_))));
}

#[test]
fn closing_gives_up_the_handle_the_pool_was_holding() {
    let mut state: Pool = State::new();
    state.reserve();
    state.arrived();
    let client = Arc::new(());
    state.publish(Arc::clone(&client));

    close(&mut state).expect("an open pool closes");

    assert_eq!(
        Arc::strong_count(&client),
        1,
        "a handle the pool kept would leave the last worker unable to close the engine"
    );
}

#[test]
fn closing_a_pool_with_no_workers_left_is_refused_rather_than_waited_on() {
    let mut state = opened(0);

    assert!(
        matches!(close(&mut state), Err(Error::Closed)),
        "nobody would ever answer the rendezvous, so it must not be started"
    );
}

#[test]
fn closing_twice_is_refused() {
    let mut state = opened(1);
    close(&mut state).expect("an open pool closes");

    assert!(matches!(close(&mut state), Err(Error::Closed)));
}

#[test]
fn an_abandoned_pool_still_holds_the_work_already_queued() {
    let mut state = opened(1);
    state.queue_job("job", 4).expect("an open pool takes jobs");

    state.abandon();

    assert!(state.abandoned());
    assert!(
        state.take_job().is_some(),
        "the work already queued still runs"
    );
    assert!(state.take_job().is_none());
}

#[test]
fn abandoning_gives_up_the_handle_the_pool_was_holding() {
    let mut state: Pool = State::new();
    state.reserve();
    state.arrived();
    let client = Arc::new(());
    state.publish(Arc::clone(&client));

    state.abandon();

    assert_eq!(
        Arc::strong_count(&client),
        1,
        "a handle the pool kept would stop the engine ever closing"
    );
}

#[test]
fn a_pool_abandoned_while_it_was_still_opening_refuses_the_handle() {
    let mut state: Pool = State::new();
    let client = Arc::new(());

    state.abandon();
    state.publish(Arc::clone(&client));

    assert_eq!(Arc::strong_count(&client), 1);
}

#[test]
fn a_worker_that_failed_to_start_stops_being_counted() {
    let mut state = opened(1);
    state.reserve();

    let unclaimed = state.spawn_failed();

    assert!(unclaimed.is_none(), "no close is under way to hand back to");
    assert_eq!(
        state.alive(), 1,
        "a close must not wait for a thread that never started"
    );
    assert_eq!(state.pending(), 0, "nor may it be waited for as one arriving");
}

#[test]
fn a_worker_that_failed_to_start_while_the_pool_was_closing_hands_back_its_stop() {
    let mut state = opened(1);
    state.reserve();
    close(&mut state).expect("an open pool closes");

    let unclaimed = state.spawn_failed();

    assert!(
        unclaimed.is_some(),
        "the stop queued for the worker that never started has to come back"
    );
    assert_eq!(state.alive(), 1);
    assert_eq!(
        state.queue().len(),
        1,
        "one stop left, for the one worker still there to take it"
    );
}

/// One worker waiting for a job, as its pool sees it.
struct Waiting {
    sparable_since: Option<Duration>,
    held: Option<Arc<()>>,
}

impl Waiting {
    fn at(state: &mut Pool) -> Self {
        state.waiting();
        Self {
            sparable_since: None,
            held: Some(Arc::new(())),
        }
    }

    fn next(
        &mut self,
        state: &mut Pool,
        limits: Concurrency,
        now: u64,
    ) -> Step<&'static str, Rendezvous> {
        state.next_step(
            limits,
            &mut self.sparable_since,
            Duration::from_millis(now),
            &mut self.held,
        )
    }
}

#[test]
fn a_worker_the_pool_can_spare_retires_when_it_waits_out_the_timeout() {
    let mut state = opened(2);
    let mut worker = Waiting::at(&mut state);

    match worker.next(&mut state, elastic(1, 4), 100) {
        Step::WaitFor(wait) => assert_eq!(wait, Duration::from_millis(20)),
        _ => panic!("a spare worker waits out the timeout first"),
    }
    match worker.next(&mut state, elastic(1, 4), 115) {
        Step::WaitFor(wait) => assert_eq!(wait, Duration::from_millis(5)),
        _ => panic!("a worker woken early waits for the rest of its timeout"),
    }
    assert!(
        matches!(worker.next(&mut state, elastic(1, 4), 120), Step::Retire),
        "a spare worker with nothing to do should retire itself"
    );
    assert!(worker.held.is_none());
    assert_eq!(state.alive(), 1);
    assert_eq!(state.idle(), 0);
}

#[test]
fn the_last_worker_the_floor_needs_never_retires() {
    let mut state = opened(1);
    let mut worker = Waiting::at(&mut state);

    assert!(matches!(
        worker.next(&mut state, elastic(1, 4), 0),
        Step::Wait
    ));
    assert!(matches!(
        worker.next(&mut state, elastic(1, 4), 100),
        Step::Wait
    ));
    state.queue_job("job", 4).expect("an open pool takes jobs");

    assert!(
        matches!(
            worker.next(&mut state, elastic(1, 4), 100),
            Step::Job(Job::Run("job"))
        ),
        "the pool's floor of one worker has to still be there to take the job"
    );
}

#[test]
fn a_worker_without_an_idle_timeout_waits_however_long_it_takes() {
    let fixed = Concurrency::from_count(2).expect("2 sessions is in range");
    let mut state = opened(2);
    let mut worker = Waiting::at(&mut state);

    assert!(matches!(worker.next(&mut state, fixed, 0), Step::Wait));
    assert!(
        matches!(worker.next(&mut state, fixed, 1_000_000), Step::Wait),
        "a fixed pool retires nobody, however long they wait"
    );
    state.queue_job("job", 2).expect("an open pool takes jobs");
    assert!(matches!(
        worker.next(&mut state, fixed, 1_000_000),
        Step::Job(Job::Run("job"))
    ));
}

#[test]
fn a_queued_job_wakes_a_waiting_worker() {
    let mut state = opened(1);
    let mut worker = Waiting::at(&mut state);
    assert!(matches!(
        worker.next(&mut state, elastic(1, 4), 0),
        Step::Wait
    ));

    state.queue_job("job", 4).expect("an open pool takes jobs");

    assert!(matches!(
        worker.next(&mut state, elastic(1, 4), 20),
        Step::Job(Job::Run("job"))
    ));
    assert_eq!(state.idle(), 0);
}

#[test]
fn abandoning_wakes_every_worker_so_that_each_can_let_go() {
    let mut state = opened(2);
    let mut waiting = [Waiting::at(&mut state), Waiting::at(&mut state)];

    state.abandon();

    for worker in &mut waiting {
        assert!(
            matches!(worker.next(&mut state, elastic(1, 4), 0), Step::Retire),
            "an abandoned pool answers every waiting worker, not just the first"
        );
        assert!(worker.held.is_none());
    }
    assert_eq!(state.alive(), 0);
}

#[test]
fn the_floor_of_workers_is_counted_under_names_of_their_own() {
    let mut state: Pool = State::new();

    assert_eq!(state.reserve_floor(3), vec![0, 1, 2]);
    assert_eq!(state.alive(), 3);
    assert_eq!(state.pending(), 3);
    assert_eq!(state.reserve(), 3);
}

#[test]
fn jobs_run_in_the_order_they_were_queued() {
    let mut state = opened(1);
    state.queue_job("first", 1).expect("an open pool takes jobs");
    state.queue_job("second", 1).expect("an open pool takes jobs");

    assert!(matches!(state.take_job(), Some(Job::Run("first"))));
    assert!(matches!(state.take_job(), Some(Job::Run("second"))));
}

#[test]
fn only_the_last_worker_to_retire_closes_the_engine() {
    let mut shutdown = Shutdown::new(3, "reply");

    assert!(shutdown.retire(Arc::new("first")).is_none());
    assert!(shutdown.retire(Arc::new("second")).is_none());
    assert_eq!(shutdown.remaining(), 1);
    let last = shutdown
        .retire(Arc::new("third"))
        .expect("the last worker is handed everything");

    assert_eq!(*last.own, "third");
    assert_eq!(last.others, vec![Arc::new("first"), Arc::new("second")]);
    assert_eq!(last.reply, "reply");
    assert_eq!(shutdown.remaining(), 0);
}

#[test]
fn a_close_is_answered_what_the_engine_said_of_it() {
    let close = |client: &str| {
        assert_eq!(client, "client");
        Err(Error::Native("busy".to_owned()))
    };

    assert!(matches!(
        answer(Some("client"), close),
        Err(Error::Native(reason)) if reason == "busy"
    ));
    assert!(answer(Some("client"), |_| Ok(())).is_ok());
    assert!(
        matches!(
            answer(None::<&str>, |_| panic!("there is nothing to close")),
            Err(Error::Closed)
        ),
        "somebody else still holds the engine"
    );
}

#[test]
fn a_worker_told_to_stop_deposits_the_handle_it_holds() {
    let client = Arc::new(());
    let mut held = Some(Arc::clone(&client));

    assert!(matches!(
        duty::<(), &str, ()>(Job::Run("job"), &mut held),
        Duty::Run("job")
    ));
    assert!(held.is_some());
    assert!(matches!(
        duty::<(), &str, ()>(Job::Stop(Arc::new(())), &mut held),
        Duty::Retire(_, _)
    ));
    assert!(held.is_none());
    assert!(matches!(
        duty::<(), &str, ()>(Job::Stop(Arc::new(())), &mut held),
        Duty::Leave
    ));
}
