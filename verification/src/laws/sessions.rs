//! The session pool and the interrupt of a command.

use crate::duration;
use crate::pool::reaper;
use crate::pool::reaper::{Checkout, Idle, StateView};
use crate::pool::slot;
use crate::pool::slot::{Event, Slot};
use core::time::Duration;
use vstd::prelude::*;

verus! {

/// A caller is given the session that was handed back last wherever one is free. Without a free
/// one it is told to open another exactly where there are fewer than the ceiling, which is counted
/// at once, and to wait exactly where there are not.
pub proof fn a_caller_gets_a_session_opens_one_or_waits<S>(
    before: StateView<S>,
    after: StateView<S>,
    checkout: Checkout<S>,
    max: u32,
)
    requires
        before.checked_out(after, checkout, max),
    ensures
        checkout is Session <==> before.idle.len() > 0,
        checkout is Open <==> before.idle.len() == 0 && before.open < max,
        checkout is Wait <==> before.idle.len() == 0 && before.open >= max,
        checkout is Session ==> {
            let last = before.idle[before.idle.len() - 1];
            &&& checkout->Session_0 == last.session
            &&& after.idle.push(last) == before.idle
            &&& after.open == before.open
        },
        checkout is Open ==> after.open == before.open + 1 && after.idle.len() == 0,
        checkout is Wait ==> after.open == before.open && after.idle.len() == 0,
        after.closing == before.closing,
{
    if checkout is Session {
        assert(after.idle.push(before.idle[before.idle.len() - 1]) =~= before.idle);
    }
}

/// A session that is handed back is free from that moment, behind all the others; one that could
/// not be opened is no longer counted, and nothing else changes.
pub proof fn a_session_comes_back_behind_the_others<S>(
    before: StateView<S>,
    after: StateView<S>,
    session: S,
    now: Duration,
)
    ensures
        before.handed_back(after, session, now) ==> {
            &&& after.idle.len() == before.idle.len() + 1
            &&& after.idle[before.idle.len() as int].session == session
            &&& after.idle[before.idle.len() as int].since == now
            &&& forall|i: int|
                0 <= i < before.idle.len() ==> #[trigger] after.idle[i] == before.idle[i]
            &&& after.open == before.open
            &&& after.closing == before.closing
        },
        before.uncounted(after) ==> {
            &&& after.open == before.open - 1
            &&& after.idle == before.idle
            &&& after.closing == before.closing
        },
{
}

/// Whether a session has sat idle for the whole of `timeout`.
pub open spec fn is_stale<S>(entry: Idle<S>, timeout: Duration, now: Duration) -> bool {
    duration::nanos(timeout) == 0 || duration::nanos(now) - duration::nanos(entry.since)
        >= duration::nanos(timeout)
}

/// A session that has not sat idle for the whole timeout is never closed: it is kept, with when it
/// was handed back.
pub proof fn a_session_is_not_closed_before_its_time<S>(
    idle: Seq<Idle<S>>,
    spare: nat,
    timeout: Duration,
    now: Duration,
    i: int,
)
    requires
        0 <= i < idle.len(),
        !is_stale(idle[i], timeout, now),
    ensures
        reaper::kept(idle, spare, timeout, now).contains(idle[i]),
    decreases idle.len(),
{
    let rest = idle.drop_last();
    let kept = reaper::kept(idle, spare, timeout, now);
    if i < rest.len() {
        a_session_is_not_closed_before_its_time(rest, spare, timeout, now, i);
        let j = choose|j: int|
            0 <= j < reaper::kept(rest, spare, timeout, now).len() && reaper::kept(
                rest,
                spare,
                timeout,
                now,
            )[j] == idle[i];
        assert(kept[j] == idle[i]);
    } else {
        assert(kept[kept.len() - 1] == idle[i]);
    }
}

/// How many sessions are beyond the floor.
pub open spec fn beyond(open: u32, min: u32) -> int {
    if open > min {
        open - min
    } else {
        0
    }
}

/// The sessions closed are the first, in the order they stand in, of those that have sat idle for
/// the whole timeout: all of them, or as many as there are beyond the floor where that is fewer.
pub proof fn the_first_stale_sessions_beyond_the_floor_are_closed<S>(
    idle: Seq<Idle<S>>,
    open: u32,
    min: u32,
    timeout: Duration,
    now: Duration,
)
    ensures
        ({
            let stale = idle.filter(|entry: Idle<S>| is_stale(entry, timeout, now));
            let count = if stale.len() < beyond(open, min) {
                stale.len() as int
            } else {
                beyond(open, min)
            };
            reaper::expired(idle, reaper::spare(open, min), timeout, now) == stale.map_values(
                |entry: Idle<S>| entry.session,
            ).take(count)
        }),
{
    lemma_first_stale(idle, reaper::spare(open, min), timeout, now);
}

proof fn lemma_first_stale<S>(idle: Seq<Idle<S>>, spare: nat, timeout: Duration, now: Duration)
    ensures
        ({
            let stale = idle.filter(|entry: Idle<S>| is_stale(entry, timeout, now));
            let count = if stale.len() < spare {
                stale.len() as int
            } else {
                spare as int
            };
            &&& reaper::expired(idle, spare, timeout, now) == stale.map_values(
                |entry: Idle<S>| entry.session,
            ).take(count)
            &&& reaper::overdue(idle, timeout, now) == stale.len()
        }),
    decreases idle.len(),
{
    reveal(Seq::filter);
    let is_old = |entry: Idle<S>| is_stale(entry, timeout, now);
    let session = |entry: Idle<S>| entry.session;
    let stale = idle.filter(is_old);
    if idle.len() > 0 {
        let rest = idle.drop_last();
        lemma_first_stale(rest, spare, timeout, now);
        let earlier = rest.filter(is_old);
        if is_stale(idle.last(), timeout, now) {
            assert(stale == earlier.push(idle.last()));
            if earlier.len() < spare {
                assert(stale.map_values(session).take(stale.len() as int) =~= earlier.map_values(
                    session,
                ).take(earlier.len() as int).push(idle.last().session));
            } else {
                assert(stale.map_values(session).take(spare as int) =~= earlier.map_values(
                    session,
                ).take(spare as int));
            }
        }
    } else {
        assert(stale.map_values(session).take(0) =~= seq![]);
    }
}

/// Closing sessions uncounts as many as are closed, keeps every other one, and changes nothing else.
pub proof fn closed_sessions_are_no_longer_counted<S>(
    before: StateView<S>,
    after: StateView<S>,
    gone: Seq<S>,
    min: u32,
    timeout: Duration,
    now: Duration,
)
    requires
        before.reaped(after, gone, min, timeout, now),
    ensures
        after.open + gone.len() == before.open,
        after.idle.len() + gone.len() == before.idle.len(),
        after.closing == before.closing,
        gone.len() <= beyond(before.open, min),
        gone == reaper::expired(before.idle, reaper::spare(before.open, min), timeout, now),
        after.idle == reaper::kept(before.idle, reaper::spare(before.open, min), timeout, now),
{
    lemma_first_stale(before.idle, reaper::spare(before.open, min), timeout, now);
    lemma_kept_or_closed(before.idle, reaper::spare(before.open, min), timeout, now);
}

proof fn lemma_kept_or_closed<S>(idle: Seq<Idle<S>>, spare: nat, timeout: Duration, now: Duration)
    ensures
        reaper::kept(idle, spare, timeout, now).len() + reaper::expired(
            idle,
            spare,
            timeout,
            now,
        ).len() == idle.len(),
    decreases idle.len(),
{
    if idle.len() > 0 {
        lemma_kept_or_closed(idle.drop_last(), spare, timeout, now);
    }
}

/// Where there are no fewer sessions beyond the floor than stale ones, what is kept is every other
/// session, in order; and where there is none beyond it, everything is kept as it stands.
pub proof fn what_is_kept_stays_in_order<S>(
    idle: Seq<Idle<S>>,
    open: u32,
    min: u32,
    timeout: Duration,
    now: Duration,
)
    ensures
        idle.filter(|entry: Idle<S>| is_stale(entry, timeout, now)).len() <= beyond(open, min)
            ==> reaper::kept(idle, reaper::spare(open, min), timeout, now) == idle.filter(
            |entry: Idle<S>| !is_stale(entry, timeout, now),
        ),
        open <= min ==> reaper::kept(idle, reaper::spare(open, min), timeout, now) == idle,
    decreases idle.len(),
{
    reveal(Seq::filter);
    lemma_first_stale(idle, reaper::spare(open, min), timeout, now);
    if idle.len() > 0 {
        what_is_kept_stays_in_order(idle.drop_last(), open, min, timeout, now);
        lemma_first_stale(idle.drop_last(), reaper::spare(open, min), timeout, now);
        assert(idle.drop_last().push(idle.last()) =~= idle);
    } else {
        assert(idle =~= seq![]);
    }
}

/// Whether the session at `i` is the next one due for anything: it has not sat idle for the whole
/// timeout, and fewer of those before it have than there are to spare.
pub open spec fn may_come_due<S>(
    idle: Seq<Idle<S>>,
    spare: nat,
    timeout: Duration,
    now: Duration,
    i: int,
) -> bool {
    &&& 0 <= i < idle.len()
    &&& !is_stale(idle[i], timeout, now)
    &&& idle.take(i).filter(|entry: Idle<S>| is_stale(entry, timeout, now)).len() < spare
}

/// The next look is due as soon as the first session comes due that there is one to spare for: no
/// later than the rest of the timeout of any of them, and exactly then for one of them -- or after
/// a whole timeout, where there is none.
pub proof fn the_next_look_is_when_the_first_session_comes_due<S>(
    idle: Seq<Idle<S>>,
    spare: nat,
    timeout: Duration,
    now: Duration,
)
    ensures
        ({
            let look = reaper::next_look(idle, spare, timeout, now);
            &&& look <= duration::nanos(timeout)
            &&& forall|i: int| #[trigger]
                may_come_due(idle, spare, timeout, now, i) ==> look <= duration::nanos(timeout)
                    - duration::nanos(now) + duration::nanos(idle[i].since)
            &&& look == duration::nanos(timeout) || exists|i: int| #[trigger]
                may_come_due(idle, spare, timeout, now, i) && look == duration::nanos(timeout)
                    - duration::nanos(now) + duration::nanos(idle[i].since)
        }),
    decreases idle.len(),
{
    if idle.len() > 0 {
        let rest = idle.drop_last();
        the_next_look_is_when_the_first_session_comes_due(rest, spare, timeout, now);
        lemma_first_stale(rest, spare, timeout, now);
        let last = idle.len() - 1;
        let look = reaper::next_look(idle, spare, timeout, now);
        let earlier = reaper::next_look(rest, spare, timeout, now);
        assert(idle.take(last) =~= rest);
        assert forall|i: int| #[trigger]
            may_come_due(idle, spare, timeout, now, i) implies look <= duration::nanos(timeout)
            - duration::nanos(now) + duration::nanos(idle[i].since) by {
            if i < last {
                assert(rest.take(i) =~= idle.take(i));
                assert(may_come_due(rest, spare, timeout, now, i));
            }
        }
        if look == earlier && look != duration::nanos(timeout) {
            let i = choose|i: int| #[trigger]
                may_come_due(rest, spare, timeout, now, i) && earlier == duration::nanos(timeout)
                    - duration::nanos(now) + duration::nanos(rest[i].since);
            assert(rest.take(i) =~= idle.take(i));
            assert(may_come_due(idle, spare, timeout, now, i));
        } else if look != earlier {
            assert(may_come_due(idle, spare, timeout, now, last));
        }
    }
}

/// What each event does to a command, wherever it stands: only one that waits is started, only one
/// that runs is finished, and a cancel ends it in any case and interrupts it where it runs.
pub proof fn events_do_nothing_else_to_a_command<I>(slot: Slot<I>, interrupt: I)
    ensures
        slot.after(Event::Start(interrupt)).0 == if slot is Waiting {
            Slot::Running(interrupt)
        } else {
            slot
        },
        slot.after(Event::Start(interrupt)).1 is None,
        slot.after(Event::Finish).0 == if slot is Running {
            Slot::Finished
        } else {
            slot
        },
        slot.after(Event::Finish).1 is None,
        slot.after(Event::Cancel).0 is Cancelled,
        slot is Running ==> slot.after(Event::Cancel).1 == Some(slot->Running_0),
        !(slot is Running) ==> slot.after(Event::Cancel).1 is None,
{
}

/// A command that runs is interrupted, with its own interrupt, when its caller stops waiting; one
/// that has not been started is not, and is not started then; and one that has finished is not.
pub proof fn a_running_command_is_interrupted_and_no_other<I>(interrupt: I)
    ensures
        slot::fired(Slot::Waiting, seq![Event::Start(interrupt), Event::Cancel]) == seq![interrupt],
        slot::fired(Slot::Waiting, seq![Event::Cancel, Event::Start(interrupt)]) == Seq::<
            I,
        >::empty(),
        slot::fired(
            Slot::Waiting,
            seq![Event::Start(interrupt), Event::Finish, Event::Cancel],
        ) == Seq::<I>::empty(),
        Slot::<I>::Waiting.after(Event::Start(interrupt)).0 == Slot::Running(interrupt),
        Slot::Running(interrupt).after(Event::Finish).0 == Slot::<I>::Finished,
        Slot::Running(interrupt).after(Event::Cancel) == (Slot::<I>::Cancelled, Some(interrupt)),
        Slot::<I>::Waiting.after(Event::Cancel) == (Slot::<I>::Cancelled, None::<I>),
{
    reveal_with_fuel(slot::fired, 4);
    let first = seq![Event::Start(interrupt), Event::Cancel];
    assert(first.drop_first() =~= seq![Event::Cancel]);
    assert(seq![Event::<I>::Cancel].drop_first() =~= seq![]);
    assert(seq![interrupt] + Seq::<I>::empty() =~= seq![interrupt]);
    let second = seq![Event::Cancel, Event::Start(interrupt)];
    assert(second.drop_first() =~= seq![Event::Start(interrupt)]);
    assert(seq![Event::Start(interrupt)].drop_first() =~= seq![]);
    let third = seq![Event::Start(interrupt), Event::Finish, Event::Cancel];
    assert(third.drop_first() =~= seq![Event::Finish, Event::Cancel]);
    assert(seq![Event::<I>::Finish, Event::Cancel].drop_first() =~= seq![Event::Cancel]);
}

} // verus!
