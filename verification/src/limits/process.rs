//! Moving the free-disk floors on an engine that is already running.
//!
//! A move is four commands at most, each sent once the one before it has been answered. This
//! module decides which; whoever drives it sends them, and keeps other moves out meanwhile.

use crate::document;
use crate::error::Error;
use crate::limits::floor::FreeDiskFloor;
use crate::limits::knobs;
use crate::limits::knobs::{
    get_parameters_command, index_build_command, query_spilling_command, reported_floors,
    ReportedFloors,
};
use vstd::prelude::*;

verus! {

/// Where a move stands: which command is waiting for its answer.
pub enum MoveView {
    /// Reading the floors that a failure is to put back.
    Reading { requested: FreeDiskFloor },
    MovingIndexBuild { requested: FreeDiskFloor, before: knobs::Knobs },
    MovingSpilling { requested: FreeDiskFloor, before: knobs::Knobs },
    /// Putting the index build's knob back, the spilling's having been refused because of
    /// `cause`.
    PuttingBack { requested: FreeDiskFloor, before: knobs::Knobs, cause: Error },
}

/// What an answer makes of a move.
pub enum MoveNext {
    Continue(MoveView),
    /// Both knobs have been moved.
    Moved,
    /// The move failed, and the knobs are where they were.
    Refused,
    /// The move failed with one knob moved, and that knob could not be put back.
    NotRestored,
}

impl MoveView {
    /// The command that is waiting for its answer.
    pub open spec fn command(self) -> document::Fields {
        match self {
            MoveView::Reading { .. } => knobs::get_parameters(),
            MoveView::MovingIndexBuild { requested, .. } => knobs::set_parameter(
                knobs::INDEX_BUILD_FLOOR@,
                requested.knobs().index_build,
            ),
            MoveView::MovingSpilling { requested, .. } => knobs::set_parameter(
                knobs::QUERY_SPILLING_FLOOR@,
                requested.knobs().query_spilling,
            ),
            MoveView::PuttingBack { before, .. } => knobs::set_parameter(
                knobs::INDEX_BUILD_FLOOR@,
                before.index_build,
            ),
        }
    }

    /// What the answer to that command makes of the move.
    ///
    /// A refusal of the first setting puts nothing back, because nothing has moved. A refusal of
    /// the second puts the first knob back, to the count it was read at.
    pub open spec fn answered(self, reply: Result<bson::Document, Error>) -> MoveNext {
        match self {
            MoveView::Reading { requested } => match reply {
                Ok(response) => match knobs::reported_knobs(document::fields(response)) {
                    Ok(before) => MoveNext::Continue(
                        MoveView::MovingIndexBuild { requested, before },
                    ),
                    Err(_) => MoveNext::Refused,
                },
                Err(_) => MoveNext::Refused,
            },
            MoveView::MovingIndexBuild { requested, before } => match reply {
                Ok(_) => MoveNext::Continue(MoveView::MovingSpilling { requested, before }),
                Err(_) => MoveNext::Refused,
            },
            MoveView::MovingSpilling { requested, before } => match reply {
                Ok(_) => MoveNext::Moved,
                Err(cause) => MoveNext::Continue(
                    MoveView::PuttingBack { requested, before, cause },
                ),
            },
            MoveView::PuttingBack { .. } => match reply {
                Ok(_) => MoveNext::Refused,
                Err(_) => MoveNext::NotRestored,
            },
        }
    }

    /// Whether `error` is what a move that the answer ends is failed with: the answer's own
    /// failure, or the failure that had the knob put back, or both where that failed too.
    pub open spec fn is_failed_with(
        self,
        reply: Result<bson::Document, Error>,
        error: Error,
    ) -> bool {
        match (self, reply) {
            (MoveView::Reading { .. }, Ok(response)) => {
                let reading = knobs::reported_knobs(document::fields(response));
                reading is Err && error.is_invalid_response(reading->Err_0)
            },
            (MoveView::PuttingBack { cause, .. }, Ok(_)) => error == cause,
            (MoveView::PuttingBack { requested, cause, .. }, Err(rollback)) => {
                error == Error::FreeDiskFloorNotRestored {
                    requested,
                    cause: Box::new(cause),
                    rollback: Box::new(rollback),
                }
            },
            (_, Err(failure)) => error == failure,
            _ => false,
        }
    }
}

enum Stage {
    Reading,
    MovingIndexBuild(ReportedFloors),
    MovingSpilling(ReportedFloors),
    PuttingBack(ReportedFloors, Error),
}

/// A move of the free-disk floors, waiting for the answer to the command it last asked to have
/// sent.
///
/// The two knobs take two commands, so a refusal of the second would otherwise leave the first
/// already moved -- downward, in the case that matters, where a caller who caught the error and
/// concluded nothing had happened would go on to build an index against a floor far below the
/// one it believes is protecting it. So the floors are put back where they were, and a refusal
/// leaves the engine as it was rather than half moved. If putting them back fails too, the
/// floors are ones nobody chose and that is a different error:
/// [`Error::FreeDiskFloorNotRestored`].
pub struct FloorMove {
    requested: FreeDiskFloor,
    stage: Stage,
}

/// What a move does next.
pub enum MoveStep {
    /// Has this command sent, and waits for its answer.
    Send(FloorMove, bson::Document),
    Done(Result<(), Error>),
}

impl View for FloorMove {
    type V = MoveView;

    closed spec fn view(&self) -> MoveView {
        let requested = self.requested;
        match self.stage {
            Stage::Reading => MoveView::Reading { requested },
            Stage::MovingIndexBuild(before) => MoveView::MovingIndexBuild {
                requested,
                before: before.knobs(),
            },
            Stage::MovingSpilling(before) => MoveView::MovingSpilling {
                requested,
                before: before.knobs(),
            },
            Stage::PuttingBack(before, cause) => MoveView::PuttingBack {
                requested,
                before: before.knobs(),
                cause,
            },
        }
    }
}

impl FloorMove {
    /// A move to `floor`, and the command it starts with.
    pub fn new(floor: FreeDiskFloor) -> (start: (FloorMove, bson::Document))
        ensures
            start.0@ == (MoveView::Reading { requested: floor }),
            document::fields(start.1) == start.0@.command(),
    {
        (FloorMove { requested: floor, stage: Stage::Reading }, get_parameters_command())
    }

    /// Takes the answer to the command that was sent.
    pub fn answered(self, reply: Result<bson::Document, Error>) -> (step: MoveStep)
        ensures
            match (self@.answered(reply), step) {
                (MoveNext::Continue(next), MoveStep::Send(moving, command)) => {
                    &&& moving@ == next
                    &&& document::fields(command) == next.command()
                },
                (MoveNext::Moved, MoveStep::Done(Ok(_))) => true,
                (MoveNext::Refused, MoveStep::Done(Err(error))) => {
                    &&& self@.is_failed_with(reply, error)
                },
                (MoveNext::NotRestored, MoveStep::Done(Err(error))) => {
                    &&& self@.is_failed_with(reply, error)
                },
                _ => false,
            },
    {
        let requested: FreeDiskFloor = self.requested;
        match (self.stage, reply) {
            (Stage::Reading, Ok(response)) => match reported_floors(&response) {
                Ok(before) => MoveStep::Send(
                    FloorMove { requested, stage: Stage::MovingIndexBuild(before) },
                    index_build_command(requested.floors().index_build()),
                ),
                Err(error) => MoveStep::Done(Err(error)),
            },
            (Stage::MovingIndexBuild(before), Ok(_)) => MoveStep::Send(
                FloorMove { requested, stage: Stage::MovingSpilling(before) },
                query_spilling_command(requested.floors().query_spilling()),
            ),
            (Stage::MovingSpilling(_), Ok(_)) => MoveStep::Done(Ok(())),
            (Stage::MovingSpilling(before), Err(cause)) => MoveStep::Send(
                FloorMove { requested, stage: Stage::PuttingBack(before, cause) },
                index_build_command(before.index_build()),
            ),
            (Stage::PuttingBack(_, cause), Ok(_)) => MoveStep::Done(Err(cause)),
            (Stage::PuttingBack(_, cause), Err(rollback)) => MoveStep::Done(
                Err(
                    Error::FreeDiskFloorNotRestored {
                        requested,
                        cause: Box::new(cause),
                        rollback: Box::new(rollback),
                    },
                ),
            ),
            (_, Err(failure)) => MoveStep::Done(Err(failure)),
        }
    }
}

/// The knobs of an engine after it answered `command` with `reply`: an engine applies what it
/// accepts and nothing that it refuses.
pub open spec fn knobs_after(
    engine: knobs::Knobs,
    command: document::Fields,
    reply: Result<bson::Document, Error>,
) -> knobs::Knobs {
    if reply is Ok {
        knobs::applied(engine, command)
    } else {
        engine
    }
}

/// Whether a reply to a reading of the knobs is a true one: where counts can be read out of it,
/// they are the ones the engine holds.
pub open spec fn reports(reply: Result<bson::Document, Error>, engine: knobs::Knobs) -> bool {
    match reply {
        Ok(response) => match knobs::reported_knobs(document::fields(response)) {
            Ok(reported) => reported == engine,
            Err(_) => true,
        },
        Err(_) => true,
    }
}

/// Where a move ends and on which knobs it leaves the engine, when its commands are answered by
/// `replies`, one after the other.
pub open spec fn run_move(
    moving: MoveView,
    engine: knobs::Knobs,
    replies: Seq<Result<bson::Document, Error>>,
) -> (MoveNext, knobs::Knobs)
    decreases replies.len(),
{
    if replies.len() == 0 {
        (MoveNext::Continue(moving), engine)
    } else {
        let after = knobs_after(engine, moving.command(), replies[0]);
        match moving.answered(replies[0]) {
            MoveNext::Continue(next) => run_move(next, after, replies.drop_first()),
            end => (end, after),
        }
    }
}

/// A move is all or nothing: an engine ends on the floor that was asked for where the move
/// succeeds, and on the floors it was on where the move is refused. Only where the engine also
/// refuses to take the first knob back is it left on floors nobody chose, and then the move says
/// so.
pub proof fn a_move_is_all_or_nothing(
    requested: FreeDiskFloor,
    engine: knobs::Knobs,
    replies: Seq<Result<bson::Document, Error>>,
)
    requires
        replies.len() >= 4,
        reports(replies[0], engine),
    ensures
        ({
            let (end, after) = run_move(MoveView::Reading { requested }, engine, replies);
            match end {
                MoveNext::Continue(_) => false,
                MoveNext::Moved => after == requested.knobs(),
                MoveNext::Refused => after == engine,
                MoveNext::NotRestored => {
                    after == knobs::Knobs { index_build: requested.knobs().index_build, ..engine }
                },
            }
        }),
{
    reveal_with_fuel(run_move, 5);
    knobs::lemma_applied(engine, requested.knobs().index_build);
    let half = knobs::Knobs { index_build: requested.knobs().index_build, ..engine };
    knobs::lemma_applied(half, requested.knobs().query_spilling);
    knobs::lemma_applied(half, engine.index_build);
    let second = replies.drop_first();
    let third = second.drop_first();
    let fourth = third.drop_first();
    assert(second[0] == replies[1] && third[0] == replies[2] && fourth[0] == replies[3]);
}

} // verus!
