//! Establishing the free-disk floors on an engine that has just been opened.
//!
//! The two floors are server parameters, and the engine keeps one runtime for the whole life of
//! the process. A floor therefore belongs to the *process*, not to the client that named it, and
//! outlives that client. A client that lowers the floor to 32 MiB and closes would leave the
//! next one -- opened by a caller who asked for nothing -- running on 32 MiB.
//!
//! So every open sets a floor, the engine's own where the caller named none. Establishing it at
//! open holds however the last client ended, which putting it back at close would not.

use crate::document;
use crate::error::Error;
use crate::limits::floor::FreeDiskFloor;
use crate::limits::knobs;
use crate::limits::knobs::{
    get_parameters_command, index_build_command, query_spilling_command, reported_floors,
    ReportedFloors,
};
use crate::limits::process;
use vstd::prelude::*;

verus! {

/// The free-disk floors the engine itself starts with, read from the engine once and remembered
/// for the life of the process.
///
/// Read rather than written down as a constant. A constant would make this library the authority
/// on a number it does not own. The first open in the process is the only moment the defaults
/// are knowable, and it is a reliable one: nothing can have moved them before an engine exists
/// to move them through, and an open reads them before it applies anything and before the caller
/// who could move them is handed the client.
#[derive(Clone, Copy, Debug)]
pub struct EngineFloorDefaults {
    recorded: Option<ReportedFloors>,
}

impl EngineFloorDefaults {
    pub closed spec fn recorded(self) -> Option<knobs::Knobs> {
        match self.recorded {
            Some(floors) => Some(floors.knobs()),
            None => None,
        }
    }

    /// Defaults that nothing has recorded yet.
    pub fn new() -> (defaults: Self)
        ensures
            defaults.recorded() is None,
    {
        Self { recorded: None }
    }
}

/// Where an open stands in establishing its floor: which command is waiting for its answer.
pub enum OpenView {
    /// Reading the engine's own floors, nothing having been recorded yet.
    Reading { requested: Option<FreeDiskFloor> },
    SettingIndexBuild { to: knobs::Knobs },
    SettingSpilling { to: knobs::Knobs },
}

/// What an answer makes of an open.
pub enum OpenNext {
    Continue(OpenView),
    Established,
    Failed,
}

/// The knobs an open is to put in force: the ones of the floor that was named, or the engine's
/// own where none was.
pub open spec fn wanted(requested: Option<FreeDiskFloor>, engine_own: knobs::Knobs) -> knobs::Knobs {
    match requested {
        Some(floor) => floor.knobs(),
        None => engine_own,
    }
}

impl OpenView {
    /// Where an open starts: with a reading, unless the engine's own floors are known already.
    pub open spec fn start(
        requested: Option<FreeDiskFloor>,
        recorded: Option<knobs::Knobs>,
    ) -> OpenView {
        match recorded {
            Some(engine_own) => OpenView::SettingIndexBuild { to: wanted(requested, engine_own) },
            None => OpenView::Reading { requested },
        }
    }

    /// The command that is waiting for its answer.
    pub open spec fn command(self) -> document::Fields {
        match self {
            OpenView::Reading { .. } => knobs::get_parameters(),
            OpenView::SettingIndexBuild { to } => knobs::set_parameter(
                knobs::INDEX_BUILD_FLOOR@,
                to.index_build,
            ),
            OpenView::SettingSpilling { to } => knobs::set_parameter(
                knobs::QUERY_SPILLING_FLOOR@,
                to.query_spilling,
            ),
        }
    }

    /// What the answer to that command makes of the open, where `recorded` is what has been
    /// recorded of the engine's own floors before it.
    ///
    /// A reading that another open was ahead of decides nothing: what is recorded is what holds.
    pub open spec fn answered(
        self,
        recorded: Option<knobs::Knobs>,
        reply: Result<bson::Document, Error>,
    ) -> OpenNext {
        match self {
            OpenView::Reading { requested } => match self.recorded(recorded, reply) {
                Some(engine_own) => OpenNext::Continue(
                    OpenView::SettingIndexBuild { to: wanted(requested, engine_own) },
                ),
                None => OpenNext::Failed,
            },
            OpenView::SettingIndexBuild { to } => match reply {
                Ok(_) => OpenNext::Continue(OpenView::SettingSpilling { to }),
                Err(_) => OpenNext::Failed,
            },
            OpenView::SettingSpilling { .. } => match reply {
                Ok(_) => OpenNext::Established,
                Err(_) => OpenNext::Failed,
            },
        }
    }

    /// What is recorded of the engine's own floors after the answer to that command: what the
    /// first reading says, once, and never anything else.
    pub open spec fn recorded(
        self,
        recorded: Option<knobs::Knobs>,
        reply: Result<bson::Document, Error>,
    ) -> Option<knobs::Knobs> {
        match (self, recorded, reply) {
            (OpenView::Reading { .. }, None, Ok(response)) => {
                match knobs::reported_knobs(document::fields(response)) {
                    Ok(engine_own) => Some(engine_own),
                    Err(_) => None,
                }
            },
            _ => recorded,
        }
    }
}

enum Stage {
    Reading(Option<FreeDiskFloor>),
    SettingIndexBuild(ReportedFloors),
    SettingSpilling(ReportedFloors),
}

/// The establishing of the floor at an open, waiting for the answer to the command it last asked
/// to have sent.
///
/// A failure here fails the open.
pub struct Establishing {
    stage: Stage,
}

/// What an open does next.
pub enum OpenStep {
    /// Has this command sent, and waits for its answer.
    Send(Establishing, bson::Document),
    Done(Result<(), Error>),
}

impl View for Establishing {
    type V = OpenView;

    closed spec fn view(&self) -> OpenView {
        match self.stage {
            Stage::Reading(requested) => OpenView::Reading { requested },
            Stage::SettingIndexBuild(to) => OpenView::SettingIndexBuild { to: to.knobs() },
            Stage::SettingSpilling(to) => OpenView::SettingSpilling { to: to.knobs() },
        }
    }
}

/// The floors an open is to put in force.
fn floors_wanted(
    requested: Option<FreeDiskFloor>,
    engine_own: ReportedFloors,
) -> (floors: ReportedFloors)
    ensures
        floors.knobs() == wanted(requested, engine_own.knobs()),
        match requested {
            Some(floor) => {
                &&& floors.knobs().index_build == floor.spec_mebibytes()
                &&& floors.knobs().query_spilling == floor.spec_mebibytes() * 1024 * 1024
            },
            None => floors.knobs() == engine_own.knobs(),
        },
{
    match requested {
        Some(floor) => floor.floors(),
        None => engine_own,
    }
}

impl Establishing {
    /// The establishing of `requested`, or of the engine's own floors where that is nothing, and
    /// the command it starts with.
    pub fn new(
        requested: Option<FreeDiskFloor>,
        defaults: &EngineFloorDefaults,
    ) -> (start: (Establishing, bson::Document))
        ensures
            start.0@ == OpenView::start(requested, defaults.recorded()),
            document::fields(start.1) == start.0@.command(),
            match defaults.recorded() {
                Some(engine_own) => document::fields(start.1) == seq![
                    ("setParameter"@, document::Value::Int32(1)),
                    (
                        "indexBuildMinAvailableDiskSpaceMB"@,
                        document::Value::Int64(
                            match requested {
                                Some(floor) => floor.spec_mebibytes() as i64,
                                None => engine_own.index_build,
                            },
                        ),
                    ),
                ],
                None => document::fields(start.1) == seq![
                    ("getParameter"@, document::Value::Int32(1)),
                    ("indexBuildMinAvailableDiskSpaceMB"@, document::Value::Int32(1)),
                    ("internalQuerySpillingMinAvailableDiskSpaceBytes"@, document::Value::Int32(1)),
                ],
            },
    {
        match defaults.recorded {
            Some(engine_own) => {
                let to: ReportedFloors = floors_wanted(requested, engine_own);
                (
                    Establishing { stage: Stage::SettingIndexBuild(to) },
                    index_build_command(to.index_build()),
                )
            },
            // Read before anything is applied: the first open in a process may well be one that
            // names a floor, and recording afterwards would take that caller's floor for the
            // engine's and hand it to every later open that asked for the default.
            None => (
                Establishing { stage: Stage::Reading(requested) },
                get_parameters_command(),
            ),
        }
    }

    /// Takes the answer to the command that was sent.
    pub fn answered(
        self,
        reply: Result<bson::Document, Error>,
        defaults: &mut EngineFloorDefaults,
    ) -> (step: OpenStep)
        ensures
            final(defaults).recorded() == self@.recorded(old(defaults).recorded(), reply),
            match (self@.answered(old(defaults).recorded(), reply), step) {
                (OpenNext::Continue(next), OpenStep::Send(opening, command)) => {
                    &&& opening@ == next
                    &&& document::fields(command) == next.command()
                },
                (OpenNext::Established, OpenStep::Done(Ok(_))) => true,
                (OpenNext::Failed, OpenStep::Done(Err(error))) => match reply {
                    Ok(response) => {
                        let reading = knobs::reported_knobs(document::fields(response));
                        reading is Err && error.is_invalid_response(reading->Err_0)
                    },
                    Err(failure) => error == failure,
                },
                _ => false,
            },
    {
        match (self.stage, reply) {
            (Stage::Reading(requested), reply) => {
                let engine_own: ReportedFloors = match defaults.recorded {
                    Some(engine_own) => engine_own,
                    None => {
                        let response: bson::Document = match reply {
                            Ok(response) => response,
                            Err(failure) => return OpenStep::Done(Err(failure)),
                        };
                        match reported_floors(&response) {
                            Ok(engine_own) => {
                                defaults.recorded = Some(engine_own);
                                engine_own
                            },
                            Err(error) => return OpenStep::Done(Err(error)),
                        }
                    },
                };
                let to: ReportedFloors = floors_wanted(requested, engine_own);
                OpenStep::Send(
                    Establishing { stage: Stage::SettingIndexBuild(to) },
                    index_build_command(to.index_build()),
                )
            },
            (Stage::SettingIndexBuild(to), Ok(_)) => OpenStep::Send(
                Establishing { stage: Stage::SettingSpilling(to) },
                query_spilling_command(to.query_spilling()),
            ),
            (Stage::SettingSpilling(_), Ok(_)) => OpenStep::Done(Ok(())),
            (_, Err(failure)) => OpenStep::Done(Err(failure)),
        }
    }
}

/// Where an open ends, on which knobs it leaves the engine and what it leaves recorded, when its
/// commands are answered by `replies`, one after the other.
pub open spec fn run_open(
    opening: OpenView,
    engine: knobs::Knobs,
    recorded: Option<knobs::Knobs>,
    replies: Seq<Result<bson::Document, Error>>,
) -> (OpenNext, knobs::Knobs, Option<knobs::Knobs>)
    decreases replies.len(),
{
    if replies.len() == 0 {
        (OpenNext::Continue(opening), engine, recorded)
    } else {
        let after = process::knobs_after(engine, opening.command(), replies[0]);
        let known = opening.recorded(recorded, replies[0]);
        match opening.answered(recorded, replies[0]) {
            OpenNext::Continue(next) => run_open(next, after, known, replies.drop_first()),
            end => (end, after, known),
        }
    }
}

/// A record of the engine's own floors, once made, is never changed -- not by an open that was
/// under way when it was made, and whatever the engine answers -- and an open that was reading
/// then goes by it.
pub proof fn a_record_is_never_changed(
    opening: OpenView,
    requested: Option<FreeDiskFloor>,
    engine: knobs::Knobs,
    engine_own: knobs::Knobs,
    replies: Seq<Result<bson::Document, Error>>,
)
    ensures
        run_open(opening, engine, Some(engine_own), replies).2 == Some(engine_own),
        replies.len() > 0 ==> (OpenView::Reading { requested }).answered(
            Some(engine_own),
            replies[0],
        ) == OpenNext::Continue(OpenView::start(requested, Some(engine_own))),
    decreases replies.len(),
{
    if replies.len() > 0 {
        let after = process::knobs_after(engine, opening.command(), replies[0]);
        if let OpenNext::Continue(next) = opening.answered(Some(engine_own), replies[0]) {
            a_record_is_never_changed(next, requested, after, engine_own, replies.drop_first());
        }
    }
}

/// Whether what is recorded is right of an engine that started on `engine_own`: it is exactly
/// that, and as long as nothing is recorded nothing has been moved.
pub open spec fn recorded_rightly(
    engine_own: knobs::Knobs,
    engine: knobs::Knobs,
    recorded: Option<knobs::Knobs>,
) -> bool {
    match recorded {
        Some(known) => known == engine_own,
        None => engine == engine_own,
    }
}

/// Every open that succeeds leaves the engine on the floor its caller named, or on the engine's
/// own where it named none -- whatever an earlier client left behind. And whatever an open comes
/// to, what it leaves recorded is what the engine started on, so the same holds of the next.
pub proof fn an_open_is_on_the_floor_it_asked_for(
    requested: Option<FreeDiskFloor>,
    engine_own: knobs::Knobs,
    engine: knobs::Knobs,
    recorded: Option<knobs::Knobs>,
    replies: Seq<Result<bson::Document, Error>>,
)
    requires
        recorded_rightly(engine_own, engine, recorded),
        replies.len() >= 3,
        process::reports(replies[0], engine),
    ensures
        ({
            let (end, after, known) = run_open(
                OpenView::start(requested, recorded),
                engine,
                recorded,
                replies,
            );
            &&& !(end is Continue)
            &&& end is Established ==> after == wanted(requested, engine_own)
            &&& recorded_rightly(engine_own, after, known)
        }),
{
    reveal_with_fuel(run_open, 4);
    let to = wanted(requested, engine_own);
    let half = knobs::Knobs { index_build: to.index_build, ..engine };
    knobs::lemma_applied(engine, to.index_build);
    knobs::lemma_applied(half, to.query_spilling);
    let second = replies.drop_first();
    let third = second.drop_first();
    assert(second[0] == replies[1] && third[0] == replies[2]);
}

/// A floor moved while a client runs lasts until the next open, and no longer: whatever the
/// knobs have been moved to once the engine's own floors are recorded, the next open that
/// succeeds without naming a floor puts the engine back on its own.
pub proof fn a_moved_floor_lasts_until_the_next_open(
    engine_own: knobs::Knobs,
    moved: knobs::Knobs,
    replies: Seq<Result<bson::Document, Error>>,
)
    requires
        replies.len() >= 3,
    ensures
        ({
            let (end, after, known) = run_open(
                OpenView::start(None, Some(engine_own)),
                moved,
                Some(engine_own),
                replies,
            );
            &&& end is Established ==> after == engine_own
            &&& known == Some(engine_own)
        }),
{
    reveal_with_fuel(run_open, 4);
    let half = knobs::Knobs { index_build: engine_own.index_build, ..moved };
    knobs::lemma_applied(moved, engine_own.index_build);
    knobs::lemma_applied(half, engine_own.query_spilling);
    let second = replies.drop_first();
    assert(second[0] == replies[1]);
}

} // verus!
