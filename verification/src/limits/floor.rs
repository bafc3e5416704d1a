//! The floor a caller names, and the pair of commands it turns into.

use crate::limits::knobs;
use crate::limits::knobs::{IndexBuildFloor, QuerySpillingFloor, ReportedFloors};
use crate::range;
use crate::range::{check_range, OutOfRange};
use vstd::prelude::*;

verus! {

/// How much free disk space an index build or a spilling query insists on before it starts.
///
/// Worth choosing deliberately rather than as low as it will go: nothing stops a build that runs
/// out of space part-way, and an engine that meets a full disk aborts the process.
///
/// Both floors are server parameters of the one runtime a process keeps, so a floor is a setting
/// of the process and not of the client that named it. It outlives that client, which is why
/// every open establishes the floor anew.
#[derive(Clone, Copy, Debug, PartialEq, Eq, PartialOrd, Ord)]
pub struct FreeDiskFloor(u32);

impl FreeDiskFloor {
    /// One mebibyte is the lowest floor that can be asked for, and is in practice no floor at
    /// all. Zero is excluded because the index build compares with `<=`: a floor of zero would
    /// still refuse a build on a disk with nothing left, while giving up every megabyte of
    /// warning before it.
    pub const MIN_MEBIBYTES: u32 = 1;

    /// The engine holds the floors in signed 64-bit integers, so the binding limit is this
    /// type's own.
    pub const MAX_MEBIBYTES: u32 = u32::MAX;

    pub closed spec fn spec_mebibytes(self) -> u32 {
        self.0
    }

    #[verifier::type_invariant]
    spec fn is_a_floor(self) -> bool {
        Self::MIN_MEBIBYTES <= self.0
    }

    /// The two knobs as this floor sets them.
    pub open spec fn knobs(self) -> knobs::Knobs {
        knobs::Knobs {
            index_build: self.spec_mebibytes() as i64,
            query_spilling: (self.spec_mebibytes() * knobs::BYTES_PER_MEBIBYTE) as i64,
        }
    }

    pub fn from_mebibytes(mebibytes: u32) -> (result: Result<Self, OutOfRange>)
        ensures
            match range::checked(
                "free disk floor",
                "MiB",
                mebibytes,
                Self::MIN_MEBIBYTES,
                Self::MAX_MEBIBYTES,
            ) {
                Ok(mebibytes) => result is Ok && result->Ok_0.spec_mebibytes() == mebibytes,
                Err(error) => result == Err::<Self, OutOfRange>(error),
            },
    {
        match check_range(
            "free disk floor",
            "MiB",
            mebibytes,
            Self::MIN_MEBIBYTES,
            Self::MAX_MEBIBYTES,
        ) {
            Ok(mebibytes) => Ok(Self(mebibytes)),
            Err(error) => Err(error),
        }
    }

    pub fn mebibytes(self) -> (mebibytes: u32)
        ensures
            mebibytes == self.spec_mebibytes(),
            Self::MIN_MEBIBYTES <= mebibytes,
    {
        proof {
            use_type_invariant(&self);
        }
        self.0
    }

    /// The two counts this floor is, each in the unit its knob takes.
    pub fn floors(self) -> (floors: ReportedFloors)
        ensures
            floors.knobs() == self.knobs(),
            self.knobs().query_spilling == self.spec_mebibytes() * 1024 * 1024,
    {
        let mebibytes: i64 = self.0 as i64;
        ReportedFloors::new(
            IndexBuildFloor::from_mebibytes(mebibytes),
            QuerySpillingFloor::from_bytes(mebibytes * knobs::BYTES_PER_MEBIBYTE),
        )
    }

    /// The two `setParameter` commands that move the floor, in the units each knob takes.
    ///
    /// Two commands rather than one: `setParameter` reports the previous value in a field named
    /// `was`, so a combined command answers with two fields of the same name and a parameter
    /// that was quietly rejected is indistinguishable from one that was applied.
    pub fn commands(self) -> (commands: [bson::Document; 2])
        ensures
            knobs::are_floor_commands(commands@, self.knobs()),
            self.knobs().query_spilling == self.spec_mebibytes() * 1024 * 1024,
    {
        self.floors().commands()
    }
}

} // verus!
