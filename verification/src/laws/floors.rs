//! The free-disk floors.

use crate::document;
use crate::error::Error;
use crate::limits::at_open;
use crate::limits::at_open::{EngineFloorDefaults, Establishing, OpenNext, OpenView};
use crate::limits::floor::FreeDiskFloor;
use crate::limits::knobs;
use crate::limits::knobs::Knobs;
use crate::limits::process;
use crate::limits::process::{MoveNext, MoveView};
use vstd::prelude::*;

verus! {

/// The command that sets the index build's knob, in the words the server reads.
pub open spec fn set_index_build(mebibytes: i64) -> document::Fields {
    seq![
        ("setParameter"@, document::Value::Int32(1)),
        ("indexBuildMinAvailableDiskSpaceMB"@, document::Value::Int64(mebibytes)),
    ]
}

/// The command that sets the spilling query's knob, in the words the server reads.
pub open spec fn set_query_spilling(bytes: i64) -> document::Fields {
    seq![
        ("setParameter"@, document::Value::Int32(1)),
        ("internalQuerySpillingMinAvailableDiskSpaceBytes"@, document::Value::Int64(bytes)),
    ]
}

/// The command that asks for both knobs, in the words the server reads.
pub open spec fn get_both() -> document::Fields {
    seq![
        ("getParameter"@, document::Value::Int32(1)),
        ("indexBuildMinAvailableDiskSpaceMB"@, document::Value::Int32(1)),
        ("internalQuerySpillingMinAvailableDiskSpaceBytes"@, document::Value::Int32(1)),
    ]
}

/// A floor is as many mebibytes for an index build as it was named with, and as many bytes for a
/// spilling query as those mebibytes have, however large it is.
pub proof fn a_floor_is_the_same_space_in_both_units(floor: FreeDiskFloor)
    ensures
        floor.knobs().index_build == floor.spec_mebibytes(),
        floor.knobs().query_spilling == floor.spec_mebibytes() * 1024 * 1024,
{
}

/// A floor's two commands set the index build's knob first and the spilling's second, each to its
/// own count, in the words the server reads.
pub proof fn floor_commands_are_spelled_out(commands: Seq<bson::Document>, to: Knobs)
    requires
        knobs::are_floor_commands(commands, to),
    ensures
        commands.len() == 2,
        document::fields(commands[0]) == set_index_build(to.index_build),
        document::fields(commands[1]) == set_query_spilling(to.query_spilling),
        knobs::get_parameters() == get_both(),
{
}

/// The floors an engine reports are read as it reports them, and only where it reports both as
/// 64-bit integers.
pub proof fn floors_are_read_as_they_are_reported(reply: document::Fields)
    ensures
        match (
            document::field(reply, "indexBuildMinAvailableDiskSpaceMB"@),
            document::field(reply, "internalQuerySpillingMinAvailableDiskSpaceBytes"@),
        ) {
            (
                Some(document::Value::Int64(mebibytes)),
                Some(document::Value::Int64(bytes)),
            ) => knobs::reported_knobs(reply) == Ok::<Knobs, Seq<char>>(
                Knobs { index_build: mebibytes, query_spilling: bytes },
            ),
            _ => knobs::reported_knobs(reply) is Err,
        },
{
}

/// A reply that does not report the floors says which one it lacks, or what it has in its place,
/// the index build's first.
pub proof fn floors_that_are_not_reported_are_named(reply: document::Fields)
    ensures
        match (
            document::field(reply, "indexBuildMinAvailableDiskSpaceMB"@),
            document::field(reply, "internalQuerySpillingMinAvailableDiskSpaceBytes"@),
        ) {
            (None, _) => knobs::reported_knobs(reply) == Err::<Knobs, Seq<char>>(
                "getParameter has no "@ + "indexBuildMinAvailableDiskSpaceMB"@,
            ),
            (Some(document::Value::Int64(_)), None) => knobs::reported_knobs(reply) == Err::<
                Knobs,
                Seq<char>,
            >("getParameter has no "@ + "internalQuerySpillingMinAvailableDiskSpaceBytes"@),
            (Some(document::Value::Int64(_)), Some(document::Value::Int64(_))) => true,
            (Some(document::Value::Int64(_)), Some(found)) => knobs::reported_knobs(reply) == Err::<
                Knobs,
                Seq<char>,
            >(
                "getParameter answered "@ + "internalQuerySpillingMinAvailableDiskSpaceBytes"@
                    + " with "@ + document::debug_text(found)
                    + ", not the 64-bit integer the knob holds"@,
            ),
            (Some(found), _) => knobs::reported_knobs(reply) == Err::<Knobs, Seq<char>>(
                "getParameter answered "@ + "indexBuildMinAvailableDiskSpaceMB"@ + " with "@
                    + document::debug_text(found) + ", not the 64-bit integer the knob holds"@,
            ),
        },
{
}

/// An open that names a floor sets that floor and no other, whatever the engine's own floors are:
/// as many mebibytes as were named, and as many bytes as those have. One that names none sets the
/// engine's own. It sends the index build's command first, the spilling's once that has been
/// accepted, and is established once both have.
pub proof fn an_open_sets_the_floor_it_names(
    requested: Option<FreeDiskFloor>,
    engine_own: Knobs,
    recorded: Option<Knobs>,
    first: bson::Document,
    second: bson::Document,
)
    ensures
        ({
            let mebibytes: int = match requested {
                Some(floor) => floor.spec_mebibytes() as int,
                None => engine_own.index_build as int,
            };
            let bytes: int = match requested {
                Some(floor) => floor.spec_mebibytes() * 1024 * 1024,
                None => engine_own.query_spilling as int,
            };
            let start = OpenView::start(requested, Some(engine_own));
            let next = start.answered(recorded, Ok(first));
            &&& start.command() == set_index_build(mebibytes as i64)
            &&& next is Continue
            &&& next->Continue_0.command() == set_query_spilling(bytes as i64)
            &&& next->Continue_0.answered(recorded, Ok(second)) is Established
        }),
{
}

/// An open reads the engine's own floors exactly where nobody has recorded them, before it sets
/// anything. What it reads is recorded as it was reported, and is what an open that names no floor
/// then sets; an open that cannot read it fails.
pub proof fn an_open_records_what_the_engine_reports(
    requested: Option<FreeDiskFloor>,
    known: Knobs,
    response: bson::Document,
    failure: Error,
)
    ensures
        OpenView::start(requested, None).command() == get_both(),
        OpenView::start(requested, Some(known)).command() != get_both(),
        ({
            let start = OpenView::start(requested, None);
            let reply = document::fields(response);
            let next = start.answered(None, Ok(response));
            match (
                document::field(reply, "indexBuildMinAvailableDiskSpaceMB"@),
                document::field(reply, "internalQuerySpillingMinAvailableDiskSpaceBytes"@),
            ) {
                (
                    Some(document::Value::Int64(mebibytes)),
                    Some(document::Value::Int64(bytes)),
                ) => {
                    let own = Knobs { index_build: mebibytes, query_spilling: bytes };
                    &&& start.recorded(None, Ok(response)) == Some(own)
                    &&& next == OpenNext::Continue(OpenView::start(requested, Some(own)))
                },
                _ => start.recorded(None, Ok(response)) is None && next is Failed,
            }
        }),
        OpenView::start(requested, None).answered(None, Err(failure)) is Failed,
        OpenView::start(requested, Some(known)).answered(Some(known), Err(failure)) is Failed,
{
    let reading = get_both();
    let setting = OpenView::start(requested, Some(known)).command();
    assert(reading.len() == 3);
    assert(setting.len() == 2);
}

/// An open that is established leaves the engine on the floor that was named, in both units, and
/// on the engine's own where none was named -- whatever the engine was on before.
pub proof fn an_established_open_is_on_the_named_floor(
    requested: Option<FreeDiskFloor>,
    engine_own: Knobs,
    engine: Knobs,
    recorded: Option<Knobs>,
    replies: Seq<Result<bson::Document, Error>>,
)
    requires
        match recorded {
            Some(known) => known == engine_own,
            None => engine == engine_own,
        },
        replies.len() >= 3,
        process::reports(replies[0], engine),
    ensures
        ({
            let (end, after, _) = at_open::run_open(
                OpenView::start(requested, recorded),
                engine,
                recorded,
                replies,
            );
            end is Established ==> match requested {
                Some(floor) => {
                    &&& after.index_build == floor.spec_mebibytes()
                    &&& after.query_spilling == floor.spec_mebibytes() * 1024 * 1024
                },
                None => after == engine_own,
            }
        }),
{
    at_open::an_open_is_on_the_floor_it_asked_for(
        requested,
        engine_own,
        engine,
        recorded,
        replies,
    );
}

/// An open begins with the index build's knob, set to the mebibytes that were named or else to the
/// engine's own count, as soon as the latter is known; and with a reading before it is.
pub proof fn an_open_begins_with_what_it_names(
    requested: Option<FreeDiskFloor>,
    defaults: EngineFloorDefaults,
    start: (Establishing, bson::Document),
)
    requires
        call_ensures(Establishing::new, (requested, &defaults), start),
    ensures
        match (defaults.recorded(), requested) {
            (None, _) => document::fields(start.1) == get_both(),
            (Some(_), Some(floor)) => document::fields(start.1) == set_index_build(
                floor.spec_mebibytes() as i64,
            ),
            (Some(own), None) => document::fields(start.1) == set_index_build(own.index_build),
        },
{
}

/// The two commands of a floor set both knobs to the space that was named, each in its own unit.
pub proof fn a_floor_commands_the_space_it_names(
    floor: FreeDiskFloor,
    commands: [bson::Document; 2],
)
    requires
        call_ensures(FreeDiskFloor::commands, (floor,), commands),
    ensures
        document::fields(commands@[0]) == set_index_build(floor.spec_mebibytes() as i64),
        document::fields(commands@[1]) == set_query_spilling(
            (floor.spec_mebibytes() * 1024 * 1024) as i64,
        ),
{
}

/// What a move sends. It asks for both knobs first; sets the index build's to the mebibytes that
/// were named, then the spilling's to the bytes those have; and where the spilling's is refused it
/// sets the index build's back to the count it was read at. It succeeds once both have been
/// accepted, and any other refusal ends it.
pub proof fn a_move_sends_the_named_floor_or_puts_the_old_one_back(
    requested: FreeDiskFloor,
    before: Knobs,
    response: bson::Document,
    failure: Error,
    rollback: Error,
)
    ensures
        ({
            let reading = MoveView::Reading { requested };
            let first = MoveView::MovingIndexBuild { requested, before };
            let second = MoveView::MovingSpilling { requested, before };
            let back = MoveView::PuttingBack { requested, before, cause: failure };
            let reply = document::fields(response);
            &&& reading.command() == get_both()
            &&& first.command() == set_index_build(requested.spec_mebibytes() as i64)
            &&& second.command() == set_query_spilling(
                (requested.spec_mebibytes() * 1024 * 1024) as i64,
            )
            &&& back.command() == set_index_build(before.index_build)
            &&& match (
                document::field(reply, "indexBuildMinAvailableDiskSpaceMB"@),
                document::field(reply, "internalQuerySpillingMinAvailableDiskSpaceBytes"@),
            ) {
                (
                    Some(document::Value::Int64(mebibytes)),
                    Some(document::Value::Int64(bytes)),
                ) => reading.answered(Ok(response)) == MoveNext::Continue(
                    MoveView::MovingIndexBuild {
                        requested,
                        before: Knobs { index_build: mebibytes, query_spilling: bytes },
                    },
                ),
                _ => reading.answered(Ok(response)) is Refused,
            }
            &&& first.answered(Ok(response)) == MoveNext::Continue(second)
            &&& second.answered(Ok(response)) is Moved
            &&& second.answered(Err(failure)) == MoveNext::Continue(back)
            &&& back.answered(Ok(response)) is Refused
            &&& back.answered(Err(rollback)) is NotRestored
            &&& reading.answered(Err(failure)) is Refused
            &&& first.answered(Err(failure)) is Refused
        }),
{
}

/// What a failed move reports: the refusal that ended it; the refusal that had the knob put back,
/// where that worked; and both, with the floor that was asked for, where it did not.
pub proof fn a_failed_move_reports_why(
    requested: FreeDiskFloor,
    before: Knobs,
    response: bson::Document,
    cause: Error,
    rollback: Error,
    error: Error,
)
    ensures
        (MoveView::PuttingBack { requested, before, cause }).is_failed_with(Ok(response), error)
            <==> error == cause,
        (MoveView::PuttingBack { requested, before, cause }).is_failed_with(Err(rollback), error)
            <==> error == (Error::FreeDiskFloorNotRestored {
            requested,
            cause: Box::new(cause),
            rollback: Box::new(rollback),
        }),
        (MoveView::MovingIndexBuild { requested, before }).is_failed_with(Err(cause), error) <==> (
        error == cause),
        (MoveView::Reading { requested }).is_failed_with(Err(cause), error) <==> error == cause,
{
}

} // verus!
