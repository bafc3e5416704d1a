use bson::{Bson, Document};
use embedded_mongodb::error::Error;
use embedded_mongodb::limits::at_open::{EngineFloorDefaults, Establishing, OpenStep};
use embedded_mongodb::limits::floor::FreeDiskFloor;
use embedded_mongodb::limits::knobs::{
    get_parameters_command, reported_floors, IndexBuildFloor, QuerySpillingFloor, ReportedFloors,
    BYTES_PER_MEBIBYTE, INDEX_BUILD_FLOOR, QUERY_SPILLING_FLOOR,
};
use embedded_mongodb::limits::process::{FloorMove, MoveStep};
use std::cell::RefCell;

const DEFAULT_MEBIBYTES: i64 = 500;
const DEFAULT_BYTES: i64 = DEFAULT_MEBIBYTES * 1024 * 1024;

fn floor(mebibytes: u32) -> FreeDiskFloor {
    FreeDiskFloor::from_mebibytes(mebibytes).expect("a floor inside the accepted range")
}

fn set(knob: &str, count: i64) -> Document {
    let mut command = Document::new();
    command.insert("setParameter", 1);
    command.insert(knob, count);
    command
}

/// The two `setParameter` commands carrying these floors, spelled out here rather than built by
/// the code under test.
fn floors_set(mebibytes: i64, bytes: i64) -> Vec<Document> {
    vec![
        set("indexBuildMinAvailableDiskSpaceMB", mebibytes),
        set("internalQuerySpillingMinAvailableDiskSpaceBytes", bytes),
    ]
}

fn ok(value: f64) -> Document {
    let mut reply = Document::new();
    reply.insert("ok", value);
    reply
}

/// What one fake engine does that a healthy one would not.
#[derive(Clone, Copy)]
enum Quirk {
    Healthy,
    /// A knob this engine does not have, refused the way a renamed one would be.
    Refuses(&'static str),
    /// An engine that stops taking parameters from the nth one on.
    RefusesFrom(usize),
    /// A knob this engine will not report.
    Hides(&'static str),
    /// A knob this engine reports as something other than the integer it holds.
    Mistypes(&'static str),
    /// Floors that cannot be read at all, so a test can prove no read was taken.
    NeverRead,
}

/// An engine that answers `getParameter` with whatever `setParameter` last wrote.
struct FakeEngine {
    floors: RefCell<ReportedFloors>,
    commands: RefCell<Vec<Document>>,
    quirk: Quirk,
}

impl FakeEngine {
    const MISTYPED_AS: &'static str = "not a number at all";

    fn new(index_build_mebibytes: i64, query_spilling_bytes: i64) -> Self {
        Self {
            floors: RefCell::new(pair(index_build_mebibytes, query_spilling_bytes)),
            commands: RefCell::new(Vec::new()),
            quirk: Quirk::Healthy,
        }
    }

    fn reporting(mebibytes: i64) -> Self {
        Self::new(mebibytes, mebibytes * 1024 * 1024)
    }

    fn never_read() -> Self {
        Self::reporting(DEFAULT_MEBIBYTES).with(Quirk::NeverRead)
    }

    fn with(mut self, quirk: Quirk) -> Self {
        self.quirk = quirk;
        self
    }

    fn reported(&self) -> ReportedFloors {
        *self.floors.borrow()
    }

    fn floors_set(&self) -> Vec<Document> {
        self.commands
            .borrow()
            .iter()
            .filter(|command| command.contains_key("setParameter"))
            .cloned()
            .collect()
    }

    fn read(&self) -> Document {
        assert!(
            !matches!(self.quirk, Quirk::NeverRead),
            "the floors were read here rather than before the first floor moved"
        );
        let floors = self.reported();
        let mut reply = ok(1.0);
        for (knob, value) in [
            (INDEX_BUILD_FLOOR, floors.index_build().mebibytes()),
            (QUERY_SPILLING_FLOOR, floors.query_spilling().bytes()),
        ] {
            match self.quirk {
                Quirk::Hides(hidden) if hidden == knob => {}
                Quirk::Mistypes(mistyped) if mistyped == knob => {
                    reply.insert(knob, Self::MISTYPED_AS);
                }
                _ => {
                    reply.insert(knob, value);
                }
            }
        }
        reply
    }

    fn refused(&self, command: &Document) -> Option<&'static str> {
        let carried = [INDEX_BUILD_FLOOR, QUERY_SPILLING_FLOOR]
            .into_iter()
            .find(|knob| command.contains_key(knob))?;
        match self.quirk {
            Quirk::Refuses(knob) if knob == carried => Some(carried),
            Quirk::RefusesFrom(nth) if self.floors_set().len() > nth => Some(carried),
            _ => None,
        }
    }

    fn run_on_admin(&self, command: &Document) -> Result<Document, Error> {
        self.commands.borrow_mut().push(command.clone());
        if command.contains_key("getParameter") {
            return Ok(self.read());
        }
        if let Some(knob) = self.refused(command) {
            return Err(Error::Server {
                code: Some(72),
                message: format!("no such parameter {knob}"),
                response: Box::new(ok(0.0)),
            });
        }
        let mut floors = self.floors.borrow_mut();
        *floors = ReportedFloors::new(
            command
                .get_i64(INDEX_BUILD_FLOOR)
                .map_or(floors.index_build(), IndexBuildFloor::from_mebibytes),
            command
                .get_i64(QUERY_SPILLING_FLOOR)
                .map_or(floors.query_spilling(), QuerySpillingFloor::from_bytes),
        );
        Ok(ok(1.0))
    }
}

fn pair(mebibytes: i64, bytes: i64) -> ReportedFloors {
    ReportedFloors::new(
        IndexBuildFloor::from_mebibytes(mebibytes),
        QuerySpillingFloor::from_bytes(bytes),
    )
}

fn move_free_disk_floor(engine: &FakeEngine, floor: FreeDiskFloor) -> Result<(), Error> {
    let (mut moving, mut command) = FloorMove::new(floor);
    loop {
        match moving.answered(engine.run_on_admin(&command)) {
            MoveStep::Send(next, following) => {
                moving = next;
                command = following;
            }
            MoveStep::Done(result) => return result,
        }
    }
}

fn establish(
    engine: &FakeEngine,
    requested: Option<FreeDiskFloor>,
    defaults: &mut EngineFloorDefaults,
) -> Result<(), Error> {
    let (mut opening, mut command) = Establishing::new(requested, defaults);
    loop {
        match opening.answered(engine.run_on_admin(&command), defaults) {
            OpenStep::Send(next, following) => {
                opening = next;
                command = following;
            }
            OpenStep::Done(result) => return result,
        }
    }
}

#[test]
fn limits_a_floor_of_zero_is_refused_because_it_is_not_a_floor() {
    assert!(FreeDiskFloor::from_mebibytes(0).is_err());
}

#[test]
fn floor_a_floor_of_zero_is_refused_because_it_is_not_a_floor() {
    assert!(FreeDiskFloor::from_mebibytes(0).is_err());
}

#[test]
fn limits_the_smallest_floor_is_accepted() {
    assert_eq!(
        FreeDiskFloor::from_mebibytes(1)
            .expect("1 MiB is the minimum")
            .mebibytes(),
        1
    );
}

#[test]
fn floor_the_smallest_floor_is_accepted() {
    assert_eq!(
        FreeDiskFloor::from_mebibytes(1)
            .expect("1 MiB is the minimum")
            .mebibytes(),
        1
    );
}

#[test]
fn limits_the_index_build_floor_is_set_in_mebibytes() {
    let [index_build, _] = floor(32).commands();

    assert_eq!(
        index_build
            .get_i64("indexBuildMinAvailableDiskSpaceMB")
            .ok(),
        Some(32)
    );
}

#[test]
fn floor_the_index_build_floor_is_set_in_mebibytes() {
    let [index_build, _] = floor(32).commands();

    assert_eq!(index_build.get_i64(INDEX_BUILD_FLOOR).ok(), Some(32));
}

#[test]
fn limits_the_spilling_floor_is_set_in_bytes() {
    let [_, spilling] = floor(32).commands();

    assert_eq!(
        spilling
            .get_i64("internalQuerySpillingMinAvailableDiskSpaceBytes")
            .ok(),
        Some(33_554_432)
    );
}

#[test]
fn floor_the_spilling_floor_is_set_in_bytes() {
    let [_, spilling] = floor(32).commands();

    assert_eq!(
        spilling.get_i64(QUERY_SPILLING_FLOOR).ok(),
        Some(33_554_432)
    );
}

#[test]
fn limits_a_large_floor_does_not_overflow_the_byte_count() {
    let [_, spilling] = floor(u32::MAX).commands();

    assert_eq!(
        spilling
            .get_i64("internalQuerySpillingMinAvailableDiskSpaceBytes")
            .ok(),
        Some(i64::from(u32::MAX) * 1024 * 1024)
    );
}

#[test]
fn floor_a_large_floor_does_not_overflow_the_byte_count() {
    let [_, spilling] = floor(u32::MAX).commands();

    assert_eq!(
        spilling.get_i64(QUERY_SPILLING_FLOOR).ok(),
        Some(i64::from(u32::MAX) * 1024 * 1024)
    );
}

#[test]
fn floors_read_back_are_replayed_in_the_units_they_were_read_in() {
    let [index_build, spilling] = pair(500, 123_456_789).commands();

    assert_eq!(index_build.get_i64(INDEX_BUILD_FLOOR).ok(), Some(500));
    assert_eq!(
        spilling.get_i64(QUERY_SPILLING_FLOOR).ok(),
        Some(123_456_789)
    );
}

fn reading(engine: &FakeEngine) -> Result<ReportedFloors, Error> {
    reported_floors(&engine.run_on_admin(&get_parameters_command())?)
}

#[test]
fn both_knobs_are_asked_for_at_once() {
    let mut command = Document::new();
    command.insert("getParameter", 1);
    command.insert("indexBuildMinAvailableDiskSpaceMB", 1);
    command.insert("internalQuerySpillingMinAvailableDiskSpaceBytes", 1);

    assert_eq!(get_parameters_command(), command);
    assert_eq!(
        reading(&FakeEngine::new(7, 9)).expect("a healthy engine"),
        pair(7, 9)
    );
}

#[test]
fn a_knob_the_engine_leaves_out_is_reported_as_missing() {
    let engine = FakeEngine::reporting(500).with(Quirk::Hides(QUERY_SPILLING_FLOOR));

    let failure = reading(&engine).expect_err("a knob that is not there");

    assert!(
        matches!(&failure, Error::InvalidResponse(message)
                 if message.contains(QUERY_SPILLING_FLOOR) && message.contains("has no")),
        "{}",
        failure.message()
    );
}

#[test]
fn a_knob_the_engine_answers_with_something_else_is_not_reported_as_missing() {
    let engine = FakeEngine::reporting(500).with(Quirk::Mistypes(INDEX_BUILD_FLOOR));

    let failure = reading(&engine).expect_err("a knob holding the wrong type");

    assert!(
        matches!(&failure, Error::InvalidResponse(message)
                 if !message.contains("has no")),
        "{}",
        failure.message()
    );
}

#[test]
fn a_knob_the_engine_answers_with_something_else_reports_what_came_back() {
    let engine = FakeEngine::reporting(500).with(Quirk::Mistypes(INDEX_BUILD_FLOOR));

    let failure = reading(&engine).expect_err("a knob holding the wrong type");

    assert!(
        matches!(&failure, Error::InvalidResponse(message)
                 if message.contains(INDEX_BUILD_FLOOR)
                    && message.contains(FakeEngine::MISTYPED_AS)),
        "{}",
        failure.message()
    );
}

#[test]
fn a_mistyped_knob_is_shown_as_it_was_answered() {
    let mut reply = ok(1.0);
    reply.insert(INDEX_BUILD_FLOOR, Bson::Int32(5));

    assert_eq!(
        reported_floors(&reply).expect_err("a 32-bit count").message(),
        format!(
            "invalid embedded MongoDB response: getParameter answered {INDEX_BUILD_FLOOR} with \
             {:?}, not the 64-bit integer the knob holds",
            Bson::Int32(5)
        )
    );
}

#[test]
fn process_the_floor_a_caller_named_is_the_one_applied() {
    let engine = FakeEngine::reporting(DEFAULT_MEBIBYTES);

    move_free_disk_floor(&engine, floor(32)).expect("moving the floor");

    assert_eq!(engine.floors_set(), floors_set(32, 32 * BYTES_PER_MEBIBYTE));
}

#[test]
fn a_move_the_engine_refuses_part_way_leaves_the_floors_where_they_were() {
    let engine =
        FakeEngine::reporting(DEFAULT_MEBIBYTES).with(Quirk::Refuses(QUERY_SPILLING_FLOOR));

    move_free_disk_floor(&engine, floor(32)).expect_err("the engine refused the spilling knob");

    assert_eq!(engine.reported(), pair(DEFAULT_MEBIBYTES, DEFAULT_BYTES));
}

#[test]
fn a_move_that_was_put_back_reports_why_the_engine_refused_it() {
    let engine =
        FakeEngine::reporting(DEFAULT_MEBIBYTES).with(Quirk::Refuses(QUERY_SPILLING_FLOOR));

    let failure = move_free_disk_floor(&engine, floor(32))
        .expect_err("the engine refused the spilling knob");

    assert!(
        matches!(&failure, Error::Server { message, .. }
                 if message.contains(QUERY_SPILLING_FLOOR)),
        "{}",
        failure.message()
    );
}

#[test]
fn a_move_the_engine_refuses_outright_is_not_reported_as_floors_nobody_chose() {
    let engine = FakeEngine::reporting(DEFAULT_MEBIBYTES).with(Quirk::Refuses(INDEX_BUILD_FLOOR));

    let failure = move_free_disk_floor(&engine, floor(32))
        .expect_err("the engine refused the index build knob");

    assert!(
        matches!(&failure, Error::Server { message, .. }
                 if message.contains(INDEX_BUILD_FLOOR)),
        "{}",
        failure.message()
    );
    assert_eq!(engine.reported(), pair(DEFAULT_MEBIBYTES, DEFAULT_BYTES));
}

#[test]
fn a_move_whose_retreat_also_fails_is_a_failure_of_its_own() {
    let engine = FakeEngine::reporting(DEFAULT_MEBIBYTES).with(Quirk::RefusesFrom(1));

    let failure = move_free_disk_floor(&engine, floor(32))
        .expect_err("the engine refused the move and the retreat");

    assert!(
        matches!(&failure, Error::FreeDiskFloorNotRestored { requested, .. }
                 if *requested == floor(32)),
        "{}",
        failure.message()
    );
    assert_eq!(engine.reported(), pair(32, DEFAULT_BYTES));
}

#[test]
fn floors_nobody_chose_are_reported_with_both_reasons() {
    let engine = FakeEngine::reporting(DEFAULT_MEBIBYTES).with(Quirk::RefusesFrom(1));

    let failure = move_free_disk_floor(&engine, floor(32))
        .expect_err("the engine refused the move and the retreat");

    let reported = failure.message();
    assert!(reported.contains(QUERY_SPILLING_FLOOR), "{reported}");
    assert!(reported.contains(INDEX_BUILD_FLOOR), "{reported}");
}

#[test]
fn floors_nobody_chose_are_reported_in_one_sentence() {
    let engine = FakeEngine::reporting(DEFAULT_MEBIBYTES).with(Quirk::RefusesFrom(1));

    let failure = move_free_disk_floor(&engine, floor(32))
        .expect_err("the engine refused the move and the retreat");

    assert_eq!(
        failure.message(),
        "the free disk floor could not be moved to 32 MiB and the floors could not be put back \
         either, so the engine is on floors nobody chose -- the move failed with: MongoDB error \
         72: no such parameter internalQuerySpillingMinAvailableDiskSpaceBytes; putting them back \
         failed with: MongoDB error 72: no such parameter indexBuildMinAvailableDiskSpaceMB"
    );
}

#[test]
fn a_move_whose_floors_cannot_be_read_moves_nothing() {
    let engine = FakeEngine::reporting(DEFAULT_MEBIBYTES).with(Quirk::Hides(INDEX_BUILD_FLOOR));

    move_free_disk_floor(&engine, floor(32)).expect_err("an engine that hides a knob");

    assert!(engine.floors_set().is_empty());
}

#[test]
fn a_client_opened_without_a_floor_is_put_on_the_engines_own_floors() {
    let engine = FakeEngine::reporting(DEFAULT_MEBIBYTES);

    establish(&engine, None, &mut EngineFloorDefaults::new()).expect("establishing the floor");

    assert_eq!(
        engine.floors_set(),
        floors_set(DEFAULT_MEBIBYTES, DEFAULT_BYTES)
    );
}

#[test]
fn at_open_the_floor_a_caller_named_is_the_one_applied() {
    let engine = FakeEngine::reporting(DEFAULT_MEBIBYTES);

    establish(&engine, Some(floor(64)), &mut EngineFloorDefaults::new())
        .expect("establishing the floor");

    assert_eq!(engine.floors_set(), floors_set(64, 64 * 1024 * 1024));
}

#[test]
fn a_floor_left_behind_by_a_closed_client_does_not_reach_the_next_open() {
    let mut defaults = EngineFloorDefaults::new();
    let lowered = FakeEngine::reporting(DEFAULT_MEBIBYTES);
    establish(&lowered, Some(floor(32)), &mut defaults).expect("the first open");

    // The next client opens on an engine still holding the 32 MiB the first one set.
    let next = FakeEngine::reporting(32);
    establish(&next, None, &mut defaults).expect("the second open");

    assert_eq!(
        next.floors_set(),
        floors_set(DEFAULT_MEBIBYTES, DEFAULT_BYTES)
    );
}

#[test]
fn the_floors_recorded_are_the_ones_from_before_the_first_caller_moved_them() {
    let mut defaults = EngineFloorDefaults::new();
    let engine = FakeEngine::reporting(DEFAULT_MEBIBYTES);

    establish(&engine, Some(floor(32)), &mut defaults).expect("the first open");

    let next = FakeEngine::never_read();
    establish(&next, None, &mut defaults).expect("the floors were recorded at the first open");
    assert_eq!(next.reported(), pair(DEFAULT_MEBIBYTES, DEFAULT_BYTES));
}

#[test]
fn the_engines_own_floors_are_read_once_and_not_asked_for_again() {
    let mut defaults = EngineFloorDefaults::new();
    establish(
        &FakeEngine::reporting(DEFAULT_MEBIBYTES),
        None,
        &mut defaults,
    )
    .expect("the first open");

    // Answers the restore but refuses to be read.
    let next = FakeEngine::never_read();
    establish(&next, None, &mut defaults).expect("the second open");

    assert_eq!(
        next.floors_set(),
        floors_set(DEFAULT_MEBIBYTES, DEFAULT_BYTES)
    );
}

#[test]
fn a_record_once_made_is_not_overwritten_by_an_open_that_was_under_way() {
    let mut defaults = EngineFloorDefaults::new();
    let engine = FakeEngine::reporting(DEFAULT_MEBIBYTES);
    let (slow, _) = Establishing::new(None, &defaults);
    establish(&engine, Some(floor(32)), &mut defaults).expect("an open that is ahead of it");

    // What it reads now is the floor the other open set.
    let reading = engine.run_on_admin(&get_parameters_command());
    let command = match slow.answered(reading, &mut defaults) {
        OpenStep::Send(_, command) => command,
        OpenStep::Done(_) => panic!("there is a floor to put in force"),
    };

    assert_eq!(command, floors_set(DEFAULT_MEBIBYTES, DEFAULT_BYTES)[0]);
    let next = FakeEngine::never_read();
    establish(&next, None, &mut defaults).expect("a later open");
    assert_eq!(next.reported(), pair(DEFAULT_MEBIBYTES, DEFAULT_BYTES));
}

#[test]
fn pairs_of_the_same_counts_are_the_same_floors() {
    assert_eq!(pair(500, 7), pair(500, 7));
    assert_ne!(pair(500, 7), pair(500, 8));
    assert_ne!(pair(500, 7), pair(501, 7));
}

#[test]
fn floors_the_engine_reported_separately_are_put_back_separately() {
    let engine = FakeEngine::new(DEFAULT_MEBIBYTES, 123_456_789);

    establish(&engine, None, &mut EngineFloorDefaults::new()).expect("establishing the floor");

    assert_eq!(
        engine.floors_set(),
        floors_set(DEFAULT_MEBIBYTES, 123_456_789)
    );
}

#[test]
fn an_open_whose_floors_cannot_be_read_fails() {
    let engine = FakeEngine::reporting(DEFAULT_MEBIBYTES).with(Quirk::Hides(QUERY_SPILLING_FLOOR));

    let failure = establish(&engine, None, &mut EngineFloorDefaults::new())
        .expect_err("an engine that hides a knob cannot promise a floor");

    assert!(
        matches!(&failure, Error::InvalidResponse(message)
                 if message.contains(QUERY_SPILLING_FLOOR)),
        "{}",
        failure.message()
    );
}

#[test]
fn an_open_the_engine_refuses_to_put_the_floors_back_on_fails() {
    let engine = FakeEngine::reporting(DEFAULT_MEBIBYTES).with(Quirk::Refuses(INDEX_BUILD_FLOOR));

    let failure = establish(&engine, None, &mut EngineFloorDefaults::new())
        .expect_err("the engine refused the knob");

    assert!(
        matches!(&failure, Error::Server { message, .. }
                 if message.contains(INDEX_BUILD_FLOOR)),
        "{}",
        failure.message()
    );
}

#[test]
fn an_open_the_engine_refuses_the_named_floor_of_fails() {
    let engine =
        FakeEngine::reporting(DEFAULT_MEBIBYTES).with(Quirk::Refuses(QUERY_SPILLING_FLOOR));

    let failure = establish(&engine, Some(floor(64)), &mut EngineFloorDefaults::new())
        .expect_err("the engine refused the knob");

    assert!(
        matches!(&failure, Error::Server { message, .. }
                 if message.contains(QUERY_SPILLING_FLOOR)),
        "{}",
        failure.message()
    );
}

#[test]
fn a_floor_moved_while_running_lasts_until_the_next_open() {
    let mut defaults = EngineFloorDefaults::new();
    let engine = FakeEngine::reporting(DEFAULT_MEBIBYTES);
    establish(&engine, None, &mut defaults).expect("the first open");
    move_free_disk_floor(&engine, floor(16)).expect("lowering it while running");

    establish(&engine, None, &mut defaults).expect("the next open");

    assert_eq!(engine.reported(), pair(DEFAULT_MEBIBYTES, DEFAULT_BYTES));
}
