use embedded_mongodb::pool::reaper::{Checkout, Reaping, State};
use embedded_mongodb::pool::slot::CommandSlot;
use std::sync::atomic::{AtomicUsize, Ordering};
use std::sync::Arc;
use std::time::Duration;

/// A slot whose interrupt counts rather than kills, so the transitions can be checked without a
/// session to interrupt.
struct Counted {
    slot: CommandSlot<Arc<AtomicUsize>>,
}

impl Counted {
    fn new() -> Self {
        Self {
            slot: CommandSlot::new(),
        }
    }

    fn start(&mut self, interrupt: Arc<AtomicUsize>) -> bool {
        self.slot.start(interrupt)
    }

    fn finish(&mut self) {
        self.slot.finish();
    }

    fn cancel(&mut self) {
        if let Some(interrupt) = self.slot.cancel() {
            interrupt.fetch_add(1, Ordering::Relaxed);
        }
    }
}

fn counting() -> (Arc<AtomicUsize>, Arc<AtomicUsize>) {
    let calls = Arc::new(AtomicUsize::new(0));
    (Arc::clone(&calls), calls)
}

fn interrupted_while_running() {
    let mut slot = Counted::new();
    let (interrupt, calls) = counting();

    assert!(
        slot.start(interrupt),
        "a fresh slot should accept a command"
    );
    slot.cancel();

    assert_eq!(calls.load(Ordering::Relaxed), 1);
}

fn not_interrupted_once_finished() {
    let mut slot = Counted::new();
    let (interrupt, calls) = counting();

    assert!(slot.start(interrupt));
    slot.finish();
    slot.cancel();

    assert_eq!(
        calls.load(Ordering::Relaxed),
        0,
        "cancelling after the command finished must interrupt nothing"
    );
}

fn never_run_once_cancelled() {
    let mut slot = Counted::new();
    let (interrupt, calls) = counting();

    slot.cancel();

    assert!(
        !slot.start(interrupt),
        "a slot cancelled while queued should refuse to run its command at all"
    );
    assert_eq!(
        calls.load(Ordering::Relaxed),
        0,
        "a command that never ran has nothing to interrupt"
    );
}

fn interrupted_once_by_two_cancels() {
    let mut slot = Counted::new();
    let (interrupt, calls) = counting();

    assert!(slot.start(interrupt));
    slot.cancel();
    slot.cancel();

    assert_eq!(calls.load(Ordering::Relaxed), 1);
}

fn not_revived_by_finishing() {
    let mut slot = Counted::new();
    let (interrupt, calls) = counting();

    assert!(slot.start(interrupt));
    slot.cancel();
    slot.finish();
    slot.cancel();

    assert_eq!(
        calls.load(Ordering::Relaxed),
        1,
        "a disarm arriving after the cancel must not put the slot back in a killable state"
    );
}

#[test]
fn pool_a_running_command_is_interrupted_when_the_caller_stops_waiting() {
    interrupted_while_running();
}

#[test]
fn slot_a_running_command_is_interrupted_when_the_caller_stops_waiting() {
    interrupted_while_running();
}

#[test]
fn pool_a_command_that_already_finished_is_not_interrupted() {
    not_interrupted_once_finished();
}

#[test]
fn slot_a_command_that_already_finished_is_not_interrupted() {
    not_interrupted_once_finished();
}

#[test]
fn pool_a_command_cancelled_before_it_starts_is_never_run() {
    never_run_once_cancelled();
}

#[test]
fn slot_a_command_cancelled_before_it_starts_is_never_run() {
    never_run_once_cancelled();
}

#[test]
fn pool_cancelling_twice_interrupts_once() {
    interrupted_once_by_two_cancels();
}

#[test]
fn slot_cancelling_twice_interrupts_once() {
    interrupted_once_by_two_cancels();
}

#[test]
fn pool_finishing_a_cancelled_command_does_not_revive_it() {
    not_revived_by_finishing();
}

#[test]
fn slot_finishing_a_cancelled_command_does_not_revive_it() {
    not_revived_by_finishing();
}

const TIMEOUT: Duration = Duration::from_secs(60);

/// A session that counts its own closing.
struct Fake(Arc<AtomicUsize>);

impl Drop for Fake {
    fn drop(&mut self) {
        self.0.fetch_add(1, Ordering::Relaxed);
    }
}

/// A pool of `open` sessions, the idle ones of these ages and the rest out on loan, the count of
/// those closed, and now.
fn pool(open: u32, ages: &[Duration]) -> (State<Fake>, Arc<AtomicUsize>, Duration) {
    let base = Duration::from_secs(1_000);
    let oldest = ages.iter().copied().max().unwrap_or(Duration::ZERO);
    let now = base + oldest;
    let closed = Arc::new(AtomicUsize::new(0));
    let sessions = (0..open).map(|_| Fake(Arc::clone(&closed))).collect();
    let mut state = State::new(sessions, base);
    let mut lent: Vec<Fake> = std::iter::from_fn(|| state.take()).collect();
    for age in ages {
        let session = lent.pop().expect("as many sessions as ages");
        state.give_back(session, base + (oldest - *age));
    }
    // Nobody ever closes a session that is out on loan.
    lent.into_iter().for_each(std::mem::forget);
    (state, closed, now)
}

#[test]
fn a_session_idle_past_the_timeout_is_closed() {
    let (mut state, closed, now) = pool(2, &[TIMEOUT, Duration::ZERO]);

    let (expired, _) = state.reap(1, TIMEOUT, now);

    assert_eq!(expired.len(), 1);
    assert_eq!(state.open(), 1, "the closed session is no longer open");
    assert_eq!(state.idle().len(), 1, "the fresh session stays");
    drop(expired);
    assert_eq!(closed.load(Ordering::Relaxed), 1);
}

#[test]
fn the_floor_is_kept_however_long_its_sessions_have_been_idle() {
    let (mut state, _, now) = pool(2, &[TIMEOUT * 10, TIMEOUT * 10]);

    let (expired, wait) = state.reap(2, TIMEOUT, now);

    assert!(
        expired.is_empty(),
        "a pool already at its floor has nothing to spare"
    );
    assert_eq!(state.open(), 2);
    assert_eq!(
        wait, TIMEOUT,
        "with nothing to spare the reaper waits out a whole timeout rather than spinning"
    );
}

#[test]
fn sessions_out_on_loan_count_towards_the_floor() {
    let (mut state, _, now) = pool(4, &[TIMEOUT * 2, TIMEOUT * 2]);

    let (expired, _) = state.reap(3, TIMEOUT, now);

    assert_eq!(expired.len(), 1, "only one of the four is spare");
    assert_eq!(state.open(), 3);
}

#[test]
fn the_least_recently_used_session_is_the_first_to_go() {
    let (mut state, _, now) = pool(3, &[TIMEOUT * 3, TIMEOUT * 2, Duration::ZERO]);

    let (expired, _) = state.reap(1, TIMEOUT, now);

    assert_eq!(expired.len(), 2);
    assert_eq!(state.idle().len(), 1);
    assert_eq!(
        state.idle()[0].since, now,
        "the session returned most recently is the one kept"
    );
}

#[test]
fn nothing_expired_yet_asks_to_be_woken_when_the_oldest_comes_due() {
    let (mut state, _, now) = pool(2, &[TIMEOUT / 4, TIMEOUT / 2]);

    let (expired, wait) = state.reap(1, TIMEOUT, now);

    assert!(expired.is_empty());
    assert_eq!(
        wait,
        TIMEOUT - TIMEOUT / 2,
        "the wait is until the oldest spare session comes due, not a whole timeout"
    );
}

#[test]
fn a_wait_is_never_zero_even_when_a_session_the_pool_cannot_spare_is_overdue() {
    let (mut state, _, now) = pool(1, &[TIMEOUT * 5]);

    let (expired, wait) = state.reap(1, TIMEOUT, now);

    assert!(expired.is_empty());
    assert!(
        !wait.is_zero(),
        "a zero wait would turn the reaper's timed wait into a spin"
    );
}

#[test]
fn the_most_recently_returned_session_is_the_one_taken() {
    let (mut state, closed, _) = pool(2, &[TIMEOUT, Duration::ZERO]);

    let taken = state.take().expect("a free session");

    drop(taken);
    assert_eq!(closed.load(Ordering::Relaxed), 1);
    assert_eq!(
        state.idle().len(),
        1,
        "the session left behind is the older one, which is the one that may go stale"
    );
}

#[test]
fn the_reaper_stops_when_the_pool_closes() {
    let (mut state, _, now) = pool(1, &[]);

    state.stop_reaping();

    assert!(matches!(state.reaping(1, TIMEOUT, now), Reaping::Stop));
}

#[test]
fn the_reaper_closes_what_has_gone_stale() {
    let (mut state, closed, now) = pool(2, &[TIMEOUT * 2, TIMEOUT * 2]);

    match state.reaping(1, Duration::from_millis(1), now) {
        Reaping::Close(expired) => assert_eq!(expired.len(), 1),
        _ => panic!("a stale session should be closed"),
    }

    assert_eq!(closed.load(Ordering::Relaxed), 1);
    assert_eq!(state.open(), 1, "the pool shrank to its floor");
    assert_eq!(state.idle().len(), 1);
}

#[test]
fn a_session_handed_back_is_free_again() {
    let (mut state, _, now) = pool(1, &[]);

    state.give_back(Fake(Arc::new(AtomicUsize::new(0))), now);

    assert!(state.take().is_some());
}

#[test]
fn a_checkout_takes_a_free_session_then_opens_one_then_waits() {
    let mut state = State::new(vec!["first"], Duration::ZERO);

    assert!(matches!(state.checkout(2), Checkout::Session("first")));
    assert!(matches!(state.checkout(2), Checkout::Open));
    assert_eq!(state.open(), 2);
    assert!(matches!(state.checkout(2), Checkout::Wait));

    state.open_failed();
    assert_eq!(state.open(), 1, "a session that could not be opened is not counted");
    assert!(matches!(state.checkout(2), Checkout::Open));
}

#[test]
fn a_reaper_with_nothing_overdue_waits() {
    let (mut state, _, now) = pool(2, &[TIMEOUT / 4, TIMEOUT / 2]);

    match state.reaping(1, TIMEOUT, now) {
        Reaping::Wait(wait) => assert_eq!(wait, TIMEOUT / 2),
        _ => panic!("nothing is overdue"),
    }
}

#[test]
fn no_session_is_lost_by_reaping() {
    let (mut state, closed, now) = pool(5, &[TIMEOUT * 3, TIMEOUT * 2, TIMEOUT, TIMEOUT / 2]);

    let (expired, _) = state.reap(1, TIMEOUT, now);

    assert_eq!(expired.len() + state.idle().len(), 4);
    assert_eq!(expired.len(), 3);
    assert_eq!(state.open(), 2);
    assert_eq!(closed.load(Ordering::Relaxed), 0);
}

#[test]
fn a_session_is_never_with_two_callers() {
    let timeout = Duration::from_secs(1);
    let mut state = State::new(vec![0, 1], Duration::ZERO);
    let mut opened = 2;
    let mut lent: Vec<u32> = Vec::new();
    for second in 0..40 {
        let now = Duration::from_secs(second);
        match state.checkout(4) {
            Checkout::Session(session) => lent.push(session),
            Checkout::Open => {
                lent.push(opened);
                opened += 1;
            }
            Checkout::Wait => {
                let session = lent.remove(second as usize % lent.len());
                state.give_back(session, now);
            }
        }
        if second % 5 == 4 {
            let session = lent.swap_remove(0);
            state.give_back(session, now);
            let (gone, _) = state.reap(1, timeout, now + timeout);
            assert!(gone.iter().all(|session| !lent.contains(session)));
        }
        let mut held = lent.clone();
        held.extend(state.idle().iter().map(|entry| entry.session));
        held.sort_unstable();
        held.dedup();
        assert_eq!(held.len(), lent.len() + state.idle().len());
        assert_eq!(held.len(), state.open() as usize);
    }
    assert!(opened > 4, "sessions were closed and others opened in their place");
}
