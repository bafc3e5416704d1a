//! The interrupt that lets a caller stop the command it started.

use vstd::prelude::*;

verus! {

/// How far a command has come, and what stops it while it runs.
///
/// The states are walked once, in order: a command is `Waiting` while queued, `Running` while a
/// session is executing it, and then either `Finished` or `Cancelled`.
pub enum Slot<I> {
    Waiting,
    Running(I),
    Finished,
    Cancelled,
}

/// Something that happens to a command.
pub enum Event<I> {
    /// A session is about to run it, and this interrupts it.
    Start(I),
    /// The session is done with it.
    Finish,
    /// The caller has stopped waiting for the answer.
    Cancel,
}

impl<I> Slot<I> {
    /// Where an event leaves a slot, and the interrupt it fires.
    pub open spec fn after(self, event: Event<I>) -> (Slot<I>, Option<I>) {
        match event {
            Event::Start(interrupt) => match self {
                Slot::Waiting => (Slot::Running(interrupt), None),
                _ => (self, None),
            },
            Event::Finish => match self {
                Slot::Running(_) => (Slot::Finished, None),
                _ => (self, None),
            },
            Event::Cancel => match self {
                Slot::Running(interrupt) => (Slot::Cancelled, Some(interrupt)),
                _ => (Slot::Cancelled, None),
            },
        }
    }
}

/// One dispatched command, and whether it may still be interrupted.
pub struct CommandSlot<I> {
    state: Slot<I>,
}

impl<I> View for CommandSlot<I> {
    type V = Slot<I>;

    closed spec fn view(&self) -> Slot<I> {
        self.state
    }
}

impl<I> CommandSlot<I> {
    pub fn new() -> (slot: Self)
        ensures
            slot@ == Slot::<I>::Waiting,
    {
        Self { state: Slot::Waiting }
    }

    /// Answers the interrupt to fire, if the command is running, and refuses it a session if one
    /// has not yet picked it up. For when the caller stops waiting for the answer.
    ///
    /// The interrupt has to be fired before anybody else reaches the slot: it is what stops the
    /// running command from finishing, returning its session and having it taken by another
    /// caller between the decision to interrupt and the interrupt itself.
    pub fn cancel(&mut self) -> (interrupt: Option<I>)
        ensures
            (final(self)@, interrupt) == old(self)@.after(Event::Cancel),
    {
        let mut state: Slot<I> = Slot::Cancelled;
        core::mem::swap(&mut self.state, &mut state);
        match state {
            Slot::Running(interrupt) => Some(interrupt),
            _ => None,
        }
    }

    /// Hands the slot the means to interrupt the session about to run its command. Answers
    /// whether the command should run at all -- `false` once it has been cancelled.
    pub fn start(&mut self, interrupt: I) -> (run: bool)
        ensures
            final(self)@ == old(self)@.after(Event::Start(interrupt)).0,
            run == (old(self)@ is Waiting),
    {
        match self.state {
            Slot::Waiting => {
                self.state = Slot::Running(interrupt);
                true
            },
            _ => false,
        }
    }

    /// Gives up the interrupt. From here a cancel does nothing, which is correct: the command is
    /// over, and the session is about to belong to somebody else.
    pub fn finish(&mut self)
        ensures
            final(self)@ == old(self)@.after(Event::Finish).0,
    {
        match self.state {
            Slot::Running(_) => {
                self.state = Slot::Finished;
            },
            _ => {},
        }
    }
}

/// The interrupts that a run of events fires.
pub open spec fn fired<I>(slot: Slot<I>, events: Seq<Event<I>>) -> Seq<I>
    decreases events.len(),
{
    if events.len() == 0 {
        seq![]
    } else {
        let (after, interrupt) = slot.after(events[0]);
        let rest = fired(after, events.drop_first());
        match interrupt {
            Some(interrupt) => seq![interrupt] + rest,
            None => rest,
        }
    }
}

/// Whether a command has ended, one way or the other.
pub open spec fn is_over<I>(slot: Slot<I>) -> bool {
    slot is Finished || slot is Cancelled
}

/// A command that has finished, or that was cancelled, is never interrupted again, whatever
/// happens to its slot: the session it ran on may already be running somebody else's command.
pub proof fn ended_command_is_never_interrupted<I>(slot: Slot<I>, events: Seq<Event<I>>)
    requires
        is_over(slot),
    ensures
        fired(slot, events) == Seq::<I>::empty(),
    decreases events.len(),
{
    if events.len() > 0 {
        ended_command_is_never_interrupted(slot.after(events[0]).0, events.drop_first());
    }
}

/// A command is interrupted at most once, and only with the interrupt it was started with.
pub proof fn command_is_interrupted_at_most_once<I>(slot: Slot<I>, events: Seq<Event<I>>)
    ensures
        fired(slot, events).len() <= 1,
        slot is Running && fired(slot, events).len() == 1 ==> fired(slot, events)[0]
            == slot->Running_0,
    decreases events.len(),
{
    if events.len() > 0 {
        let after = slot.after(events[0]).0;
        if is_over(after) {
            ended_command_is_never_interrupted(after, events.drop_first());
        } else {
            command_is_interrupted_at_most_once(after, events.drop_first());
        }
    }
}

/// A command that has ended -- cancelled before a session picked it up, say -- is not run from
/// there, and stays ended.
pub proof fn ended_command_never_starts<I>(slot: Slot<I>, interrupt: I)
    requires
        is_over(slot),
    ensures
        slot.after(Event::Start(interrupt)) == (slot, None::<I>),
        is_over(slot.after(Event::Finish).0),
        is_over(slot.after(Event::Cancel).0),
{
}

} // verus!
