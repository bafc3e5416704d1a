//! Which sessions are free, since when, and which of them nobody needs.
//!
//! The pool is elastic or fixed depending on the policy it was opened with, and the difference
//! is only in the numbers: a fixed pool has `min == max`, so it never opens a session beyond the
//! ones it started with and never has one to spare.
//!
//! Times are spans since some moment fixed for the life of the pool. Generic over the session,
//! which is never looked into here.

use crate::duration;
use core::time::Duration;
use vstd::multiset::Multiset;
use vstd::prelude::*;

verus! {

/// A session waiting to be taken, and since when.
pub struct Idle<S> {
    pub session: S,
    pub since: Duration,
}

/// The pool's bookkeeping.
pub struct State<S> {
    /// Sessions free to be taken, least recently used first: [`take`](State::take) takes the
    /// last, so a session nobody needs sinks to the front and is the first one to be closed.
    idle: Vec<Idle<S>>,
    /// Sessions open or about to be: idle, checked out, or reserved by a caller that is opening
    /// one right now. The reservation is what keeps two callers from both opening the last
    /// session the ceiling allows.
    open: u32,
    /// Whether the pool is closing, so that the sessions need no more looking after.
    closing: bool,
}

/// How a caller that wants a session gets one.
pub enum Checkout<S> {
    /// This one is free.
    Session(S),
    /// None is free, but the pool is under its ceiling: a session is counted for the caller, who
    /// has to open it.
    Open,
    /// None is free and the pool is at its ceiling: the next one to come back.
    Wait,
}

/// What whoever closes idle sessions does next.
pub enum Reaping<S> {
    /// Nothing ever again: the pool is closing.
    Stop,
    /// Close these, with the pool unlocked, and look again.
    Close(Vec<S>),
    /// Look again after this long.
    Wait(Duration),
}

/// How long a session has been idle, in nanoseconds.
pub open spec fn waited<S>(entry: Idle<S>, now: Duration) -> nat {
    if duration::nanos(entry.since) <= duration::nanos(now) {
        (duration::nanos(now) - duration::nanos(entry.since)) as nat
    } else {
        0
    }
}

/// Whether a session has been idle at least `timeout`.
pub open spec fn is_overdue<S>(entry: Idle<S>, timeout: Duration, now: Duration) -> bool {
    waited(entry, now) >= duration::nanos(timeout)
}

/// How many sessions have been idle at least `timeout`.
pub open spec fn overdue<S>(idle: Seq<Idle<S>>, timeout: Duration, now: Duration) -> nat
    decreases idle.len(),
{
    if idle.len() == 0 {
        0
    } else {
        overdue(idle.drop_last(), timeout, now) + if is_overdue(idle.last(), timeout, now) {
            1nat
        } else {
            0nat
        }
    }
}

/// How many sessions there are past the floor.
pub open spec fn spare(open: u32, min: u32) -> nat {
    if open > min {
        (open - min) as nat
    } else {
        0
    }
}

/// Whether the last of these sessions is closed: it is overdue, and fewer sessions before it are
/// overdue than there are to spare.
pub open spec fn closes_last<S>(
    idle: Seq<Idle<S>>,
    spare: nat,
    timeout: Duration,
    now: Duration,
) -> bool {
    is_overdue(idle.last(), timeout, now) && overdue(idle.drop_last(), timeout, now) < spare
}

/// The sessions that are closed: the first `spare` of the overdue ones.
pub open spec fn expired<S>(
    idle: Seq<Idle<S>>,
    spare: nat,
    timeout: Duration,
    now: Duration,
) -> Seq<S>
    decreases idle.len(),
{
    if idle.len() == 0 {
        seq![]
    } else if closes_last(idle, spare, timeout, now) {
        expired(idle.drop_last(), spare, timeout, now).push(idle.last().session)
    } else {
        expired(idle.drop_last(), spare, timeout, now)
    }
}

/// The sessions that stay, in the order they were in.
pub open spec fn kept<S>(
    idle: Seq<Idle<S>>,
    spare: nat,
    timeout: Duration,
    now: Duration,
) -> Seq<Idle<S>>
    decreases idle.len(),
{
    if idle.len() == 0 {
        seq![]
    } else if closes_last(idle, spare, timeout, now) {
        kept(idle.drop_last(), spare, timeout, now)
    } else {
        kept(idle.drop_last(), spare, timeout, now).push(idle.last())
    }
}

/// How long until there is anything to do, in nanoseconds: until the first session comes due
/// that there is one to spare for, and a whole timeout at most.
pub open spec fn next_look<S>(
    idle: Seq<Idle<S>>,
    spare: nat,
    timeout: Duration,
    now: Duration,
) -> nat
    decreases idle.len(),
{
    if idle.len() == 0 {
        duration::nanos(timeout)
    } else {
        let earlier = next_look(idle.drop_last(), spare, timeout, now);
        let due = (duration::nanos(timeout) - waited(idle.last(), now)) as nat;
        if overdue(idle.drop_last(), timeout, now) < spare && !is_overdue(
            idle.last(),
            timeout,
            now,
        ) && due < earlier {
            due
        } else {
            earlier
        }
    }
}

/// Where a pool stands.
#[verifier::ext_equal]
pub struct StateView<S> {
    pub idle: Seq<Idle<S>>,
    pub open: u32,
    pub closing: bool,
}

impl<S> View for State<S> {
    type V = StateView<S>;

    closed spec fn view(&self) -> StateView<S> {
        StateView { idle: self.idle@, open: self.open, closing: self.closing }
    }
}

impl<S> StateView<S> {
    /// Every idle session is an open one.
    pub open spec fn wf(self) -> bool {
        self.idle.len() <= self.open
    }

    /// Whether every session is accounted for, when `out` of them are on loan or being opened:
    /// the rest are idle, and there are no more than the ceiling allows.
    pub open spec fn accounted(self, out: int, max: u32) -> bool {
        &&& 0 <= out
        &&& self.idle.len() + out == self.open
        &&& self.open <= max
    }

    /// Whether `after` is this pool once `checkout` has been answered: the session handed back
    /// last, or else one more counted where the ceiling allows, or else nothing.
    pub open spec fn checked_out(self, after: StateView<S>, checkout: Checkout<S>, max: u32) -> bool {
        &&& after.closing == self.closing
        &&& match checkout {
            Checkout::Session(session) => {
                &&& self.idle.len() > 0
                &&& session == self.idle.last().session
                &&& after.idle == self.idle.drop_last()
                &&& after.open == self.open
            },
            Checkout::Open => {
                &&& self.idle.len() == 0
                &&& self.open < max
                &&& after.idle == self.idle
                &&& after.open == self.open + 1
            },
            Checkout::Wait => {
                &&& self.idle.len() == 0
                &&& self.open >= max
                &&& after.idle == self.idle
                &&& after.open == self.open
            },
        }
    }

    /// Whether `after` is this pool without the count of a session that was to be opened.
    pub open spec fn uncounted(self, after: StateView<S>) -> bool {
        &&& after.open == self.open - 1
        &&& after.idle == self.idle
        &&& after.closing == self.closing
    }

    /// Whether `after` is this pool with `session` handed back at `now`.
    pub open spec fn handed_back(self, after: StateView<S>, session: S, now: Duration) -> bool {
        &&& after.idle == self.idle.push(Idle { session, since: now })
        &&& after.open == self.open
        &&& after.closing == self.closing
    }

    /// Whether `after` is this pool with `gone` taken out to be closed: the least recently used
    /// of the overdue sessions, down to the floor.
    pub open spec fn reaped(
        self,
        after: StateView<S>,
        gone: Seq<S>,
        min: u32,
        timeout: Duration,
        now: Duration,
    ) -> bool {
        &&& gone == expired(self.idle, spare(self.open, min), timeout, now)
        &&& after.idle == kept(self.idle, spare(self.open, min), timeout, now)
        &&& after.open == self.open - gone.len()
        &&& after.closing == self.closing
    }
}

impl<S> State<S> {
    /// A pool that starts with `sessions`, all of them free.
    pub fn new(sessions: Vec<S>, now: Duration) -> (state: Self)
        requires
            sessions@.len() <= u32::MAX,
        ensures
            state@.wf(),
            state@.open == sessions@.len(),
            !state@.closing,
            state@.idle == sessions@.map_values(|session: S| Idle { session, since: now }),
    {
        let open: u32 = sessions.len() as u32;
        let mut idle: Vec<Idle<S>> = Vec::new();
        for session in iter: sessions
            invariant
                iter.seq() == sessions@,
                idle@ =~= sessions@.take(iter.index()).map_values(
                    |session: S| Idle { session, since: now },
                ),
        {
            idle.push(Idle { session, since: now });
        }
        assert(sessions@.take(sessions@.len() as int) =~= sessions@);
        Self { idle, open, closing: false }
    }

    /// The sessions that are free, least recently used first.
    pub fn idle(&self) -> (idle: &Vec<Idle<S>>)
        ensures
            idle@ == self@.idle,
    {
        &self.idle
    }

    /// How many sessions are open, or about to be.
    pub fn open(&self) -> (open: u32)
        ensures
            open == self@.open,
    {
        self.open
    }

    /// The most recently returned free session, if there is one. Most recently rather than
    /// least, so that the sessions the pool could do without are the ones that go stale.
    pub fn take(&mut self) -> (session: Option<S>)
        ensures
            final(self)@.open == old(self)@.open,
            final(self)@.closing == old(self)@.closing,
            match session {
                Some(session) => {
                    &&& old(self)@.idle.len() > 0
                    &&& session == old(self)@.idle.last().session
                    &&& final(self)@.idle == old(self)@.idle.drop_last()
                },
                None => old(self)@.idle.len() == 0 && final(self)@.idle == old(self)@.idle,
            },
    {
        match self.idle.pop() {
            Some(entry) => Some(entry.session),
            None => None,
        }
    }

    /// Takes a session: a free one, a newly opened one while the pool is under its ceiling, or
    /// the next one to come back.
    ///
    /// A session to be opened is counted here, so that it can be opened with the pool free for
    /// other callers and yet cannot overshoot the ceiling.
    pub fn checkout(&mut self, max: u32) -> (checkout: Checkout<S>)
        ensures
            old(self)@.checked_out(final(self)@, checkout, max),
            old(self)@.wf() ==> final(self)@.wf(),
            old(self)@.open <= max ==> final(self)@.open <= max,
    {
        if let Some(session) = self.take() {
            return Checkout::Session(session);
        }
        if self.open < max {
            self.open = self.open + 1;
            return Checkout::Open;
        }
        Checkout::Wait
    }

    /// Gives back the count of a session that could not be opened after all.
    pub fn open_failed(&mut self)
        requires
            old(self)@.idle.len() < old(self)@.open,
        ensures
            old(self)@.uncounted(final(self)@),
            final(self)@.wf(),
    {
        self.open = self.open - 1;
    }

    /// Hands a session back.
    pub fn give_back(&mut self, session: S, now: Duration)
        ensures
            old(self)@.handed_back(final(self)@, session, now),
            old(self)@.idle.len() < old(self)@.open ==> final(self)@.wf(),
    {
        self.idle.push(Idle { session, since: now });
    }

    /// Says that the idle sessions need no more looking after.
    pub fn stop_reaping(&mut self)
        ensures
            final(self)@.closing,
            final(self)@.idle == old(self)@.idle,
            final(self)@.open == old(self)@.open,
    {
        self.closing = true;
    }

    /// Takes every session that has been idle at least `timeout`, down to a floor of `min`
    /// sessions open. Answers them -- for the caller to close with the pool unlocked -- and how
    /// long to wait before there is anything to do here again.
    pub fn reap(&mut self, min: u32, timeout: Duration, now: Duration) -> (reaped: (
        Vec<S>,
        Duration,
    ))
        ensures
            old(self)@.reaped(final(self)@, reaped.0@, min, timeout, now),
            duration::nanos(reaped.1) == next_look(
                old(self)@.idle,
                spare(old(self)@.open, min),
                timeout,
                now,
            ),
            old(self)@.wf() ==> final(self)@.wf(),
    {
        let ghost all = self.idle@;
        let ghost total = spare(self.open, min);
        let mut to_spare: u32 = if self.open > min {
            self.open - min
        } else {
            0
        };
        let opened: u32 = self.open;
        let mut idle: Vec<Idle<S>> = Vec::new();
        core::mem::swap(&mut self.idle, &mut idle);
        let mut staying: Vec<Idle<S>> = Vec::new();
        let mut closing: Vec<S> = Vec::new();
        let mut wait: Duration = timeout;
        let span: u128 = duration::as_nanos(timeout);
        for entry in iter: idle
            invariant
                iter.seq() == all,
                total <= opened,
                self.closing == old(self)@.closing,
                span == duration::nanos(timeout),
                self.open == opened - closing@.len(),
                to_spare == total - closing@.len(),
                closing@.len() == if overdue(all.take(iter.index()), timeout, now) < total {
                    overdue(all.take(iter.index()), timeout, now)
                } else {
                    total
                },
                closing@ == expired(all.take(iter.index()), total, timeout, now),
                staying@ == kept(all.take(iter.index()), total, timeout, now),
                staying@.len() + closing@.len() == iter.index(),
                duration::nanos(wait) == next_look(all.take(iter.index()), total, timeout, now),
        {
            assert(entry == all[iter.index()]);
            assert(all.take(iter.index() + 1).drop_last() =~= all.take(iter.index()));
            assert(all.take(iter.index() + 1).last() == entry);
            let idled: Duration = duration::saturating_sub(now, entry.since);
            if to_spare > 0 && duration::as_nanos(idled) >= span {
                to_spare = to_spare - 1;
                self.open = self.open - 1;
                closing.push(entry.session);
            } else {
                if to_spare > 0 {
                    // The next thing to do is this session coming due, unless an older one beats
                    // it to it.
                    let due: Duration = duration::saturating_sub(timeout, idled);
                    if duration::as_nanos(due) < duration::as_nanos(wait) {
                        wait = due;
                    }
                }
                staying.push(entry);
            }
        }
        assert(all.take(all.len() as int) =~= all);
        self.idle = staying;
        (closing, wait)
    }

    /// What to do about idle sessions now.
    pub fn reaping(&mut self, min: u32, timeout: Duration, now: Duration) -> (next: Reaping<S>)
        ensures
            final(self)@.closing == old(self)@.closing,
            old(self)@.wf() ==> final(self)@.wf(),
            ({
                let spare = spare(old(self)@.open, min);
                let gone = expired(old(self)@.idle, spare, timeout, now);
                match next {
                    Reaping::Stop => {
                        &&& old(self)@.closing
                        &&& final(self)@.idle == old(self)@.idle
                        &&& final(self)@.open == old(self)@.open
                    },
                    Reaping::Close(sessions) => {
                        &&& !old(self)@.closing
                        &&& gone.len() > 0
                        &&& sessions@ == gone
                        &&& final(self)@.idle == kept(old(self)@.idle, spare, timeout, now)
                        &&& final(self)@.open == old(self)@.open - gone.len()
                    },
                    Reaping::Wait(wait) => {
                        &&& !old(self)@.closing
                        &&& gone.len() == 0
                        &&& final(self)@.idle == kept(old(self)@.idle, spare, timeout, now)
                        &&& final(self)@.open == old(self)@.open
                        &&& duration::nanos(wait) == next_look(
                            old(self)@.idle,
                            spare,
                            timeout,
                            now,
                        )
                    },
                }
            }),
    {
        if self.closing {
            return Reaping::Stop;
        }
        let (sessions, wait) = self.reap(min, timeout, now);
        if sessions.len() > 0 {
            Reaping::Close(sessions)
        } else {
            Reaping::Wait(wait)
        }
    }
}

/// What the sessions in a list of idle ones are.
pub open spec fn sessions<S>(idle: Seq<Idle<S>>) -> Seq<S> {
    idle.map_values(|entry: Idle<S>| entry.session)
}

/// As many sessions are closed as are overdue, or as there are to spare where that is fewer, and
/// the rest stay.
proof fn lemma_how_many_expire<S>(
    idle: Seq<Idle<S>>,
    spare: nat,
    timeout: Duration,
    now: Duration,
)
    ensures
        expired(idle, spare, timeout, now).len() == if overdue(idle, timeout, now) < spare {
            overdue(idle, timeout, now)
        } else {
            spare
        },
        kept(idle, spare, timeout, now).len() + expired(idle, spare, timeout, now).len()
            == idle.len(),
    decreases idle.len(),
{
    if idle.len() > 0 {
        lemma_how_many_expire(idle.drop_last(), spare, timeout, now);
    }
}

/// Sessions stay accounted for whatever happens to a pool: as they are checked out, handed back,
/// opened, not opened after all, and closed for want of use. So there are never more of them
/// than the ceiling allows, and none is forgotten.
pub proof fn sessions_stay_accounted_for<S>(
    before: StateView<S>,
    after: StateView<S>,
    out: int,
    checkout: Checkout<S>,
    session: S,
    gone: Seq<S>,
    min: u32,
    max: u32,
    timeout: Duration,
    now: Duration,
)
    requires
        before.accounted(out, max),
    ensures
        before.checked_out(after, checkout, max) ==> after.accounted(
            if checkout is Wait {
                out
            } else {
                out + 1
            },
            max,
        ),
        0 < out && before.uncounted(after) ==> after.accounted(out - 1, max),
        0 < out && before.handed_back(after, session, now) ==> after.accounted(out - 1, max),
        before.reaped(after, gone, min, timeout, now) ==> after.accounted(out, max),
{
    lemma_how_many_expire(before.idle, spare(before.open, min), timeout, now);
}

/// Whose hands the sessions are in: the pool's own, or a caller's.
pub struct Custody<S> {
    pub pool: StateView<S>,
    /// The sessions out on loan, one entry for every caller that holds one.
    pub out: Multiset<S>,
}

/// Something that happens to the sessions of a pool.
pub enum Event<S> {
    /// A caller asks for a session.
    CheckOut { checkout: Checkout<S>, max: u32 },
    /// A caller that was told to open a session has opened this one.
    Opened { session: S },
    /// A caller that was told to open a session could not.
    NotOpened,
    /// A caller hands a session back.
    HandBack { session: S, now: Duration },
    /// Idle sessions are taken out to be closed.
    Reap { gone: Seq<S>, min: u32, timeout: Duration, now: Duration },
}

impl<S> Custody<S> {
    /// Every session there is, as often as somebody has it.
    pub open spec fn all(self) -> Multiset<S> {
        sessions(self.pool.idle).to_multiset().add(self.out)
    }

    /// Whether no session is in two hands.
    pub open spec fn is_exclusive(self) -> bool {
        forall|session: S| #[trigger] self.all().count(session) <= 1
    }

    /// Whether `after` is this once `event` has happened. A session that is opened is a new one,
    /// and one that is handed back is one that was lent.
    pub open spec fn becomes(self, after: Custody<S>, event: Event<S>) -> bool {
        match event {
            Event::CheckOut { checkout, max } => {
                &&& self.pool.checked_out(after.pool, checkout, max)
                &&& after.out == match checkout {
                    Checkout::Session(session) => self.out.insert(session),
                    _ => self.out,
                }
            },
            Event::Opened { session } => {
                &&& self.all().count(session) == 0
                &&& after.pool == self.pool
                &&& after.out == self.out.insert(session)
            },
            Event::NotOpened => {
                &&& self.pool.uncounted(after.pool)
                &&& after.out == self.out
            },
            Event::HandBack { session, now } => {
                &&& self.out.count(session) > 0
                &&& self.pool.handed_back(after.pool, session, now)
                &&& after.out == self.out.remove(session)
            },
            Event::Reap { gone, min, timeout, now } => {
                &&& self.pool.reaped(after.pool, gone, min, timeout, now)
                &&& after.out == self.out
            },
        }
    }
}

/// Nothing that happens to a pool puts a session into a second pair of hands.
proof fn lemma_stays_exclusive<S>(before: Custody<S>, after: Custody<S>, event: Event<S>)
    requires
        before.is_exclusive(),
        before.becomes(after, event),
    ensures
        after.is_exclusive(),
{
    broadcast use vstd::seq_lib::group_to_multiset_ensures;

    let idle = sessions(before.pool.idle);
    match event {
        Event::CheckOut { checkout, .. } => {
            if let Checkout::Session(session) = checkout {
                let rest = before.pool.idle.drop_last();
                assert(idle =~= sessions(rest).push(session));
                assert(after.all() =~= before.all());
            }
        },
        Event::Opened { session } => {
            assert(after.all() =~= before.all().insert(session));
        },
        Event::NotOpened => {},
        Event::HandBack { session, now } => {
            assert(sessions(after.pool.idle) =~= idle.push(session));
            assert(after.all() =~= before.all());
        },
        Event::Reap { gone, min, timeout, now } => {
            let spare = spare(before.pool.open, min);
            reaping_loses_no_session(before.pool.idle, spare, timeout, now);
            assert(before.all() =~= gone.to_multiset().add(after.all()));
            assert forall|session: S| #[trigger] after.all().count(session) <= 1 by {
                assert(before.all().count(session) <= 1);
            }
        },
    }
}

/// Over every history of checkouts, openings, returns and closings no session is ever on loan to
/// two callers, nor on loan and free at the same time, where none was to begin with.
pub proof fn no_session_is_lent_twice<S>(
    history: Seq<Custody<S>>,
    events: Seq<Event<S>>,
    moment: int,
)
    requires
        history.len() == events.len() + 1,
        history[0].is_exclusive(),
        forall|i: int|
            0 <= i < events.len() ==> history[i].becomes(history[i + 1], #[trigger] events[i]),
        0 <= moment < history.len(),
    ensures
        history[moment].is_exclusive(),
        forall|session: S| #[trigger] history[moment].out.count(session) <= 1,
        forall|i: int|
            0 <= i < history[moment].pool.idle.len() ==> history[moment].out.count(
                (#[trigger] history[moment].pool.idle[i]).session,
            ) == 0,
    decreases moment,
{
    broadcast use vstd::seq_lib::group_to_multiset_ensures;

    if moment > 0 {
        no_session_is_lent_twice(history, events, moment - 1);
        assert(history[moment - 1].becomes(history[moment - 1 + 1], events[moment - 1]));
        lemma_stays_exclusive(history[moment - 1], history[moment], events[moment - 1]);
    }
    let here = history[moment];
    assert forall|session: S| #[trigger] here.out.count(session) <= 1 by {
        assert(here.all().count(session) <= 1);
    }
    assert forall|i: int| 0 <= i < here.pool.idle.len() implies here.out.count(
        (#[trigger] here.pool.idle[i]).session,
    ) == 0 by {
        let session = here.pool.idle[i].session;
        assert(sessions(here.pool.idle)[i] == session);
        assert(sessions(here.pool.idle).contains(session));
        assert(here.all().count(session) <= 1);
    }
}

/// Closing idle sessions takes a pool that is at its floor or above it no lower than its floor,
/// however long its sessions have been idle. Sessions out on loan count towards the floor.
pub proof fn reaping_keeps_the_floor<S>(
    idle: Seq<Idle<S>>,
    open: u32,
    min: u32,
    timeout: Duration,
    now: Duration,
)
    requires
        min <= open,
    ensures
        min <= open - expired(idle, spare(open, min), timeout, now).len(),
{
    lemma_how_many_expire(idle, spare(open, min), timeout, now);
}

/// Closing idle sessions closes all it may: afterwards none of those kept is overdue, unless
/// the pool has none to spare.
pub proof fn reaping_leaves_nothing_overdue_to_spare<S>(
    idle: Seq<Idle<S>>,
    spare: nat,
    timeout: Duration,
    now: Duration,
)
    ensures
        expired(idle, spare, timeout, now).len() <= spare,
        expired(idle, spare, timeout, now).len() < spare ==> overdue(
            kept(idle, spare, timeout, now),
            timeout,
            now,
        ) == 0,
    decreases idle.len(),
{
    lemma_how_many_expire(idle, spare, timeout, now);
    if idle.len() > 0 {
        reaping_leaves_nothing_overdue_to_spare(idle.drop_last(), spare, timeout, now);
        let rest = kept(idle.drop_last(), spare, timeout, now);
        assert(rest.push(idle.last()).drop_last() =~= rest);
    }
}

/// No session is lost: each idle one is closed or kept, and none is both.
pub proof fn reaping_loses_no_session<S>(
    idle: Seq<Idle<S>>,
    spare: nat,
    timeout: Duration,
    now: Duration,
)
    ensures
        expired(idle, spare, timeout, now).to_multiset().add(
            sessions(kept(idle, spare, timeout, now)).to_multiset(),
        ) == sessions(idle).to_multiset(),
    decreases idle.len(),
{
    broadcast use vstd::seq_lib::group_to_multiset_ensures;

    let gone = expired(idle, spare, timeout, now);
    let stay = kept(idle, spare, timeout, now);
    if idle.len() == 0 {
        assert(sessions(stay) =~= gone);
        assert(sessions(idle) =~= gone);
        assert(gone.to_multiset().add(gone.to_multiset()) =~= gone.to_multiset());
    } else {
        reaping_loses_no_session(idle.drop_last(), spare, timeout, now);
        let before = idle.drop_last();
        assert(sessions(idle) =~= sessions(before).push(idle.last().session));
        let stayed = kept(before, spare, timeout, now);
        assert(sessions(stayed.push(idle.last())) =~= sessions(stayed).push(idle.last().session));
        assert(gone.to_multiset().add(sessions(stay).to_multiset())
            =~= sessions(idle).to_multiset());
    }
}

/// The wait before the next look is never zero and never longer than the timeout. A zero wait
/// would make whoever looks spin.
pub proof fn next_look_is_never_at_once<S>(
    idle: Seq<Idle<S>>,
    spare: nat,
    timeout: Duration,
    now: Duration,
)
    requires
        duration::nanos(timeout) > 0,
    ensures
        0 < next_look(idle, spare, timeout, now) <= duration::nanos(timeout),
    decreases idle.len(),
{
    if idle.len() > 0 {
        next_look_is_never_at_once(idle.drop_last(), spare, timeout, now);
    }
}

/// Nobody oversleeps: where nothing is closed and there is a session to spare, no idle session
/// comes due before the next look.
pub proof fn next_look_misses_no_session<S>(
    idle: Seq<Idle<S>>,
    spare: nat,
    timeout: Duration,
    now: Duration,
    i: int,
)
    requires
        spare > 0,
        expired(idle, spare, timeout, now).len() == 0,
        0 <= i < idle.len(),
    ensures
        waited(idle[i], now) + next_look(idle, spare, timeout, now) <= duration::nanos(timeout),
    decreases idle.len(),
{
    lemma_how_many_expire(idle, spare, timeout, now);
    lemma_how_many_expire(idle.drop_last(), spare, timeout, now);
    if i < idle.len() - 1 {
        next_look_misses_no_session(idle.drop_last(), spare, timeout, now, i);
    }
}

/// The least recently used sessions are the first to go: where sessions stand in the order they
/// were handed back in, the ones closed are a run at the front.
pub proof fn least_recently_used_go_first<S>(
    idle: Seq<Idle<S>>,
    spare: nat,
    timeout: Duration,
    now: Duration,
)
    requires
        forall|i: int, j: int|
            0 <= i <= j < idle.len() ==> duration::nanos(#[trigger] idle[i].since)
                <= duration::nanos(#[trigger] idle[j].since),
    ensures
        ({
            let count = expired(idle, spare, timeout, now).len() as int;
            &&& expired(idle, spare, timeout, now) == sessions(idle.take(count))
            &&& kept(idle, spare, timeout, now) == idle.skip(count)
        }),
    decreases idle.len(),
{
    lemma_how_many_expire(idle, spare, timeout, now);
    if idle.len() == 0 {
        assert(sessions(idle.take(0)) =~= seq![]);
        assert(idle.skip(0) =~= seq![]);
    } else {
        let before = idle.drop_last();
        least_recently_used_go_first(before, spare, timeout, now);
        lemma_how_many_expire(before, spare, timeout, now);
        let earlier = expired(before, spare, timeout, now).len() as int;
        if is_overdue(idle.last(), timeout, now) {
            lemma_all_overdue_before(idle, timeout, now);
        }
        let count = expired(idle, spare, timeout, now).len() as int;
        assert(sessions(before.take(earlier)) =~= sessions(idle.take(earlier)));
        if closes_last(idle, spare, timeout, now) {
            assert(count == idle.len());
            assert(sessions(idle.take(earlier)).push(idle.last().session) =~= sessions(
                idle.take(count),
            ));
            assert(kept(idle, spare, timeout, now) =~= idle.skip(count));
        } else {
            assert(before.skip(earlier).push(idle.last()) =~= idle.skip(earlier));
        }
    }
}

/// Where sessions stand in the order they were handed back in and the last is overdue, all are.
proof fn lemma_all_overdue_before<S>(idle: Seq<Idle<S>>, timeout: Duration, now: Duration)
    requires
        idle.len() > 0,
        is_overdue(idle.last(), timeout, now),
        forall|i: int, j: int|
            0 <= i <= j < idle.len() ==> duration::nanos(#[trigger] idle[i].since)
                <= duration::nanos(#[trigger] idle[j].since),
    ensures
        overdue(idle, timeout, now) == idle.len(),
    decreases idle.len(),
{
    let before = idle.drop_last();
    if before.len() > 0 {
        assert(duration::nanos(idle[idle.len() - 2].since) <= duration::nanos(
            idle[idle.len() - 1].since,
        ));
        assert(before.last() == idle[idle.len() - 2]);
        assert(is_overdue(before.last(), timeout, now));
        assert forall|i: int, j: int| 0 <= i <= j < before.len() implies duration::nanos(
            #[trigger] before[i].since,
        ) <= duration::nanos(#[trigger] before[j].since) by {
            assert(duration::nanos(idle[i].since) <= duration::nanos(idle[j].since));
        }
        lemma_all_overdue_before(before, timeout, now);
    } else {
        assert(overdue(before, timeout, now) == 0);
    }
}

} // verus!
