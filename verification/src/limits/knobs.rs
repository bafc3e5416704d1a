//! The two server parameters a free-disk floor is made of, and the unit each of them takes.
//!
//! One decision, two knobs, two units: the index build holds a count of mebibytes and the
//! spilling query a count of bytes, both as signed 64-bit integers in the engine. They are told
//! apart by type here rather than by position, because two `i64` parameters in one signature
//! swap without a compiler noticing.

use crate::document;
use crate::document::{Node, ValueRef};
use crate::error::Error;
use vstd::prelude::*;

verus! {

/// How much free disk an index build insists on before it starts, in mebibytes.
///
/// A count as the engine's knob holds it rather than a floor that was checked on the way in.
/// [`FreeDiskFloor`](crate::limits::floor::FreeDiskFloor) is the type a caller names.
#[derive(Clone, Copy, Debug, PartialEq, Eq, PartialOrd, Ord, Structural)]
pub struct IndexBuildFloor(i64);

impl IndexBuildFloor {
    pub closed spec fn spec_mebibytes(self) -> i64 {
        self.0
    }

    pub fn from_mebibytes(mebibytes: i64) -> (floor: Self)
        ensures
            floor.spec_mebibytes() == mebibytes,
    {
        Self(mebibytes)
    }

    pub fn mebibytes(self) -> (mebibytes: i64)
        ensures
            mebibytes == self.spec_mebibytes(),
    {
        self.0
    }
}

/// How much free disk a query insists on before it spills to disk, in bytes.
///
/// A value read back from the engine need not be a whole mebibyte at all.
#[derive(Clone, Copy, Debug, PartialEq, Eq, PartialOrd, Ord, Structural)]
pub struct QuerySpillingFloor(i64);

impl QuerySpillingFloor {
    pub closed spec fn spec_bytes(self) -> i64 {
        self.0
    }

    pub fn from_bytes(bytes: i64) -> (floor: Self)
        ensures
            floor.spec_bytes() == bytes,
    {
        Self(bytes)
    }

    pub fn bytes(self) -> (bytes: i64)
        ensures
            bytes == self.spec_bytes(),
    {
        self.0
    }
}

/// The two floors as the engine currently reports them, each in the unit its own knob uses.
///
/// These come back from the engine rather than going into it and can disagree with each other if
/// something set them separately. Putting a pair back replays the two counts as they were read
/// rather than a floor rounded out of them.
#[derive(Clone, Copy, Debug, PartialEq, Eq, Structural)]
pub struct ReportedFloors {
    index_build: IndexBuildFloor,
    query_spilling: QuerySpillingFloor,
}

/// The counts the two knobs hold, the index build's in mebibytes and the spilling's in bytes.
pub struct Knobs {
    pub index_build: i64,
    pub query_spilling: i64,
}

impl ReportedFloors {
    /// The counts these floors are.
    pub open spec fn knobs(self) -> Knobs {
        Knobs {
            index_build: self.spec_index_build().spec_mebibytes(),
            query_spilling: self.spec_query_spilling().spec_bytes(),
        }
    }

    pub closed spec fn spec_index_build(self) -> IndexBuildFloor {
        self.index_build
    }

    pub closed spec fn spec_query_spilling(self) -> QuerySpillingFloor {
        self.query_spilling
    }

    /// Constructable from outside so that a caller can write down the pair it expects.
    pub fn new(index_build: IndexBuildFloor, query_spilling: QuerySpillingFloor) -> (floors: Self)
        ensures
            floors.spec_index_build() == index_build,
            floors.spec_query_spilling() == query_spilling,
    {
        Self { index_build, query_spilling }
    }

    pub fn index_build(self) -> (floor: IndexBuildFloor)
        ensures
            floor == self.spec_index_build(),
    {
        self.index_build
    }

    pub fn query_spilling(self) -> (floor: QuerySpillingFloor)
        ensures
            floor == self.spec_query_spilling(),
    {
        self.query_spilling
    }

    /// The `setParameter` commands that put these floors back, each in the unit its knob takes.
    pub fn commands(self) -> (commands: [bson::Document; 2])
        ensures
            are_floor_commands(commands@, self.knobs()),
    {
        floor_commands(self.index_build, self.query_spilling)
    }
}

/// Two reported pairs are the same exactly where their two floors are, and two floors exactly
/// where their counts are: nothing else tells them apart, and neither floor says anything of the
/// other.
pub proof fn equal_counts_are_equal_floors(one: ReportedFloors, other: ReportedFloors)
    ensures
        one == other <==> one.spec_index_build() == other.spec_index_build()
            && one.spec_query_spilling() == other.spec_query_spilling(),
        one.spec_index_build() == other.spec_index_build() <==> one.knobs().index_build
            == other.knobs().index_build,
        one.spec_query_spilling() == other.spec_query_spilling() <==> one.knobs().query_spilling
            == other.knobs().query_spilling,
{
}

pub const INDEX_BUILD_FLOOR: &'static str = "indexBuildMinAvailableDiskSpaceMB";

pub const QUERY_SPILLING_FLOOR: &'static str = "internalQuerySpillingMinAvailableDiskSpaceBytes";

pub const BYTES_PER_MEBIBYTE: i64 = 1024 * 1024;

/// The fields of the command that sets `knob` to `count`.
pub open spec fn set_parameter(knob: Seq<char>, count: i64) -> document::Fields {
    seq![
        ("setParameter"@, document::Value::Int32(1)),
        (knob, document::Value::Int64(count)),
    ]
}

/// Whether `commands` set the two knobs, the index build first and the spilling second.
pub open spec fn are_floor_commands(commands: Seq<bson::Document>, to: Knobs) -> bool {
    &&& commands.len() == 2
    &&& document::fields(commands[0]) == set_parameter(INDEX_BUILD_FLOOR@, to.index_build)
    &&& document::fields(commands[1]) == set_parameter(QUERY_SPILLING_FLOOR@, to.query_spilling)
}

/// The fields of the command that asks for both knobs.
pub open spec fn get_parameters() -> document::Fields {
    seq![
        ("getParameter"@, document::Value::Int32(1)),
        (INDEX_BUILD_FLOOR@, document::Value::Int32(1)),
        (QUERY_SPILLING_FLOOR@, document::Value::Int32(1)),
    ]
}

/// The count a reply reports for `knob`, or why it cannot be read as one.
pub open spec fn reported_count(reply: document::Fields, knob: Seq<char>) -> Result<
    i64,
    Seq<char>,
> {
    match document::field(reply, knob) {
        Some(document::Value::Int64(count)) => Ok(count),
        Some(found) => Err(
            "getParameter answered "@ + knob + " with "@ + document::debug_text(found)
                + ", not the 64-bit integer the knob holds"@,
        ),
        None => Err("getParameter has no "@ + knob),
    }
}

/// The counts a reply reports for the two knobs, or why they cannot be read.
pub open spec fn reported_knobs(reply: document::Fields) -> Result<Knobs, Seq<char>> {
    match reported_count(reply, INDEX_BUILD_FLOOR@) {
        Ok(index_build) => match reported_count(reply, QUERY_SPILLING_FLOOR@) {
            Ok(query_spilling) => Ok(Knobs { index_build, query_spilling }),
            Err(reason) => Err(reason),
        },
        Err(reason) => Err(reason),
    }
}

/// The knobs of an engine that has applied `command`.
pub open spec fn applied(knobs: Knobs, command: document::Fields) -> Knobs {
    Knobs {
        index_build: match document::field(command, INDEX_BUILD_FLOOR@) {
            Some(document::Value::Int64(count)) => count,
            _ => knobs.index_build,
        },
        query_spilling: match document::field(command, QUERY_SPILLING_FLOOR@) {
            Some(document::Value::Int64(count)) => count,
            _ => knobs.query_spilling,
        },
    }
}

/// What the three commands do to an engine that applies them: each setting moves its own knob
/// and no other, and the asking moves nothing.
pub proof fn lemma_applied(knobs: Knobs, count: i64)
    ensures
        applied(knobs, set_parameter(INDEX_BUILD_FLOOR@, count)) == (Knobs {
            index_build: count,
            ..knobs
        }),
        applied(knobs, set_parameter(QUERY_SPILLING_FLOOR@, count)) == (Knobs {
            query_spilling: count,
            ..knobs
        }),
        applied(knobs, get_parameters()) == knobs,
{
    reveal_with_fuel(document::field, 4);
    lemma_names_differ();
}

/// The names that stand in the commands are four different ones.
proof fn lemma_names_differ()
    ensures
        INDEX_BUILD_FLOOR@ != QUERY_SPILLING_FLOOR@,
        INDEX_BUILD_FLOOR@ != "setParameter"@,
        QUERY_SPILLING_FLOOR@ != "setParameter"@,
        INDEX_BUILD_FLOOR@ != "getParameter"@,
        QUERY_SPILLING_FLOOR@ != "getParameter"@,
{
    reveal_strlit("setParameter");
    reveal_strlit("getParameter");
    reveal_strlit("indexBuildMinAvailableDiskSpaceMB");
    reveal_strlit("internalQuerySpillingMinAvailableDiskSpaceBytes");
    assert("setParameter"@.len() == 12);
    assert("getParameter"@.len() == 12);
    assert(INDEX_BUILD_FLOOR@.len() == 33);
    assert(QUERY_SPILLING_FLOOR@.len() == 47);
}

/// The command that sets `knob` to `count`.
fn set_parameter_command(knob: &str, count: i64) -> (command: bson::Document)
    requires
        knob@ != "setParameter"@,
    ensures
        document::fields(command) == set_parameter(knob@, count),
{
    broadcast use document::lemma_field_of_push;

    let mut command = bson::Document::new();
    document::append(&mut command, "setParameter", Node::Int32(1));
    document::append(&mut command, knob, Node::Int64(count));
    command
}

/// The command that moves the index build's knob.
pub fn index_build_command(floor: IndexBuildFloor) -> (command: bson::Document)
    ensures
        document::fields(command) == set_parameter(INDEX_BUILD_FLOOR@, floor.spec_mebibytes()),
{
    proof {
        lemma_names_differ();
    }
    set_parameter_command(INDEX_BUILD_FLOOR, floor.mebibytes())
}

/// The command that moves the spilling query's knob.
pub fn query_spilling_command(floor: QuerySpillingFloor) -> (command: bson::Document)
    ensures
        document::fields(command) == set_parameter(QUERY_SPILLING_FLOOR@, floor.spec_bytes()),
{
    proof {
        lemma_names_differ();
    }
    set_parameter_command(QUERY_SPILLING_FLOOR, floor.bytes())
}

/// The two `setParameter` commands that put this pair of knob values in force, in knob order.
///
/// Knob order -- index build first, spilling second -- is the order every array of commands in
/// this library is in, so a command that puts a knob back sits where the command that moved it
/// sat.
pub fn floor_commands(
    index_build: IndexBuildFloor,
    query_spilling: QuerySpillingFloor,
) -> (commands: [bson::Document; 2])
    ensures
        are_floor_commands(
            commands@,
            Knobs {
                index_build: index_build.spec_mebibytes(),
                query_spilling: query_spilling.spec_bytes(),
            },
        ),
{
    [index_build_command(index_build), query_spilling_command(query_spilling)]
}

/// The command that asks for both knobs.
pub fn get_parameters_command() -> (command: bson::Document)
    ensures
        document::fields(command) == get_parameters(),
{
    broadcast use document::lemma_field_of_push;

    proof {
        lemma_names_differ();
    }
    let mut command = bson::Document::new();
    document::append(&mut command, "getParameter", Node::Int32(1));
    document::append(&mut command, INDEX_BUILD_FLOOR, Node::Int32(1));
    document::append(&mut command, QUERY_SPILLING_FLOOR, Node::Int32(1));
    command
}

/// What an engine's reply says the two floors are.
pub fn reported_floors(reply: &bson::Document) -> (result: Result<ReportedFloors, Error>)
    ensures
        match reported_knobs(document::fields(*reply)) {
            Ok(knobs) => result is Ok && result->Ok_0.knobs() == knobs,
            Err(reason) => result is Err && result->Err_0.is_invalid_response(reason),
        },
{
    let index_build: i64 = match floor_in(reply, INDEX_BUILD_FLOOR) {
        Ok(count) => count,
        Err(error) => return Err(error),
    };
    let query_spilling: i64 = match floor_in(reply, QUERY_SPILLING_FLOOR) {
        Ok(count) => count,
        Err(error) => return Err(error),
    };
    Ok(
        ReportedFloors::new(
            IndexBuildFloor::from_mebibytes(index_build),
            QuerySpillingFloor::from_bytes(query_spilling),
        ),
    )
}

/// The count the engine reported for `knob`, or why it cannot be read as one.
///
/// A missing knob is raised rather than defaulted: a server that renamed one of these would
/// otherwise report a floor this library never set, and a caller would size its work against a
/// number that is not the one in force.
///
/// A knob that is present but holds something else is a different failure and says so, naming
/// what came back.
fn floor_in(reported: &bson::Document, knob: &str) -> (result: Result<i64, Error>)
    ensures
        match reported_count(document::fields(*reported), knob@) {
            Ok(count) => result == Ok::<i64, Error>(count),
            Err(reason) => result is Err && result->Err_0.is_invalid_response(reason),
        },
{
    match document::get(reported, knob) {
        Some(found) => match document::open(found) {
            ValueRef::Int64(count) => Ok(count),
            _ => {
                let mut reason: String = "getParameter answered ".to_owned();
                reason.append(knob);
                reason.append(" with ");
                let shown: String = document::debug(found);
                reason.append(shown.as_str());
                reason.append(", not the 64-bit integer the knob holds");
                Err(Error::InvalidResponse(reason))
            },
        },
        None => {
            let mut reason: String = "getParameter has no ".to_owned();
            reason.append(knob);
            Err(Error::InvalidResponse(reason))
        },
    }
}

} // verus!
