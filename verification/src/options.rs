//! Everything an open can be told, in one object.
//!
//! Some of these reach the engine while its storage is being opened and cannot be changed
//! afterwards; one is a pair of server parameters set on the running engine; and one --
//! [`OpenOptions::concurrency`] -- never reaches the engine at all. It is the policy by which
//! sessions are opened over the engine.

use crate::duration;
use crate::limits::floor::FreeDiskFloor;
use crate::range;
use crate::range::{check_range, Bounds, OutOfRange};
use core::time::Duration;
use vstd::prelude::*;

verus! {

/// How many commands the engine may run in parallel, and whether that number moves.
///
/// Each parallel command is a session, so this is the engine's connection policy: commands past
/// the ceiling wait for a session to come free rather than failing. There are two shapes.
///
/// - [`from_count`](Concurrency::from_count) is a **fixed** pool: exactly that many sessions,
///   opened at open time and kept for the life of the client.
/// - [`dynamic`](Concurrency::dynamic) is an **elastic** pool: `min` sessions opened up front,
///   more opened on demand up to `max` while every session is busy, and sessions idle past
///   `idle_timeout` closed again down to `min`.
///
/// The fields are private because they constrain each other. The constructors refuse a `min`
/// above `max` and an idle timeout of zero, so no value of this type holds either.
#[derive(Clone, Copy, Debug, PartialEq, Eq)]
pub struct Concurrency {
    min: u32,
    max: u32,
    /// How long a session above `min` may sit idle before it is closed. `None` is a fixed pool,
    /// which never opens a session beyond `min == max` and so has nothing to close.
    idle_timeout: Option<Duration>,
}

impl Concurrency {
    /// The floor is one session: an engine that runs no commands in parallel is still an engine.
    pub const MIN_COUNT: u32 = 1;

    /// The ceiling is far past where more parallelism on an embedded engine pays for the threads
    /// it would take to use.
    pub const MAX_COUNT: u32 = 256;

    /// What an open that names no policy gets.
    pub const DEFAULT_COUNT: u32 = 8;

    pub closed spec fn spec_min(self) -> u32 {
        self.min
    }

    pub closed spec fn spec_max(self) -> u32 {
        self.max
    }

    pub closed spec fn spec_idle_timeout(self) -> Option<Duration> {
        self.idle_timeout
    }

    /// What every policy keeps: at least one session, a floor no higher than the ceiling, a
    /// ceiling within bounds, an idle timeout of at least a millisecond, and no room to grow
    /// where there is no idle timeout.
    pub open spec fn wf(self) -> bool {
        &&& Self::MIN_COUNT <= self.spec_min() <= self.spec_max() <= Self::MAX_COUNT
        &&& match self.spec_idle_timeout() {
            Some(timeout) => duration::nanos(timeout) >= 1_000_000,
            None => self.spec_min() == self.spec_max(),
        }
    }

    #[verifier::type_invariant]
    spec fn holds_only_policies(self) -> bool {
        self.wf()
    }

    /// A fixed pool of `count` sessions: all of them opened at open time, none ever closed
    /// before the client is.
    pub fn from_count(count: u32) -> (result: Result<Self, OutOfRange>)
        ensures
            match range::checked(
                "concurrency",
                "sessions",
                count,
                Self::MIN_COUNT,
                Self::MAX_COUNT,
            ) {
                Ok(count) => result is Ok && result->Ok_0.is_fixed(count),
                Err(error) => result == Err::<Self, OutOfRange>(error),
            },
    {
        match check_range("concurrency", "sessions", count, Self::MIN_COUNT, Self::MAX_COUNT) {
            Ok(count) => Ok(Self::preallocated(count)),
            Err(error) => Err(error),
        }
    }

    /// An elastic pool: `min` sessions up front, up to `max` while callers are waiting, and
    /// sessions idle longer than `idle_timeout` closed back down to `min`.
    ///
    /// Refuses a `min` above `max`, either outside [`MIN_COUNT`](Concurrency::MIN_COUNT) and
    /// [`MAX_COUNT`](Concurrency::MAX_COUNT), and an idle timeout that lasts no whole
    /// millisecond.
    pub fn dynamic(min: u32, max: u32, idle_timeout: Duration) -> (result: Result<
        Self,
        OutOfRange,
    >)
        ensures
            match Self::dynamic_refusal(min, max, duration::nanos(idle_timeout)) {
                Some(error) => result == Err::<Self, OutOfRange>(error),
                None => {
                    &&& result is Ok
                    &&& result->Ok_0.spec_min() == min
                    &&& result->Ok_0.spec_max() == max
                    &&& result->Ok_0.spec_idle_timeout() == Some(idle_timeout)
                    &&& result->Ok_0.wf()
                },
            },
    {
        let max: u32 = match check_range(
            "maximum concurrency",
            "sessions",
            max,
            Self::MIN_COUNT,
            Self::MAX_COUNT,
        ) {
            Ok(max) => max,
            Err(error) => return Err(error),
        };
        // Checked against the ceiling just validated, so that a floor above it comes back as the
        // range error it is.
        let min: u32 = match check_range(
            "minimum concurrency",
            "sessions",
            min,
            Self::MIN_COUNT,
            max,
        ) {
            Ok(min) => min,
            Err(error) => return Err(error),
        };
        // Saturating: the check exists to refuse zero, and a timeout past the 49 days a `u32` of
        // milliseconds holds is nobody's mistake.
        let whole_millis: u128 = duration::as_millis(idle_timeout);
        let millis: u32 = if whole_millis <= u32::MAX as u128 {
            whole_millis as u32
        } else {
            u32::MAX
        };
        match check_range("idle timeout", "milliseconds", millis, 1, u32::MAX) {
            Ok(_) => Ok(Self { min, max, idle_timeout: Some(idle_timeout) }),
            Err(error) => Err(error),
        }
    }

    /// Why [`dynamic`](Concurrency::dynamic) refuses an elastic pool, if it does: the ceiling
    /// first, then the floor against that ceiling, then the timeout.
    pub open spec fn dynamic_refusal(min: u32, max: u32, nanos: nat) -> Option<OutOfRange> {
        if !(Self::MIN_COUNT <= max <= Self::MAX_COUNT) {
            Some(
                OutOfRange {
                    what: "maximum concurrency",
                    unit: "sessions",
                    value: max,
                    min: Self::MIN_COUNT,
                    max: Self::MAX_COUNT,
                },
            )
        } else if !(Self::MIN_COUNT <= min <= max) {
            Some(
                OutOfRange {
                    what: "minimum concurrency",
                    unit: "sessions",
                    value: min,
                    min: Self::MIN_COUNT,
                    max,
                },
            )
        } else if nanos < 1_000_000 {
            Some(
                OutOfRange {
                    what: "idle timeout",
                    unit: "milliseconds",
                    value: 0,
                    min: 1,
                    max: u32::MAX,
                },
            )
        } else {
            None
        }
    }

    /// Whether this is the fixed pool of `count` sessions.
    pub open spec fn is_fixed(self, count: u32) -> bool {
        &&& self.spec_min() == count
        &&& self.spec_max() == count
        &&& self.spec_idle_timeout() is None
        &&& self.wf()
    }

    /// Sessions opened before the first command runs.
    pub fn min(self) -> (min: u32)
        ensures
            min == self.spec_min(),
            self.wf(),
    {
        proof {
            use_type_invariant(&self);
        }
        self.min
    }

    /// The ceiling: the most sessions that will ever be open at once, and so the most commands
    /// that ever run in parallel.
    pub fn max(self) -> (max: u32)
        ensures
            max == self.spec_max(),
            self.wf(),
    {
        proof {
            use_type_invariant(&self);
        }
        self.max
    }

    /// How long an idle session above [`min`](Concurrency::min) is kept before being closed, or
    /// `None` for a fixed pool, which closes none.
    pub fn idle_timeout(self) -> (timeout: Option<Duration>)
        ensures
            timeout == self.spec_idle_timeout(),
            self.wf(),
    {
        proof {
            use_type_invariant(&self);
        }
        self.idle_timeout
    }

    /// The fixed pool of a count already known to be in range.
    fn preallocated(count: u32) -> (fixed: Self)
        requires
            Self::MIN_COUNT <= count <= Self::MAX_COUNT,
        ensures
            fixed.is_fixed(count),
    {
        Self { min: count, max: count, idle_timeout: None }
    }
}

impl Default for Concurrency {
    /// What an open that names no policy gets: a fixed pool of
    /// [`DEFAULT_COUNT`](Concurrency::DEFAULT_COUNT) sessions.
    fn default() -> (policy: Self)
        ensures
            policy.is_fixed(Self::DEFAULT_COUNT),
    {
        Self::preallocated(Self::DEFAULT_COUNT)
    }
}

/// The ceiling on the engine's cache, in mebibytes.
///
/// The native library is the authority on the sizes it accepts, so their range is an argument of
/// the constructor and written down nowhere here.
#[derive(Clone, Copy, Debug, PartialEq, Eq, PartialOrd, Ord)]
pub struct CacheSize(u32);

impl CacheSize {
    pub closed spec fn spec_mebibytes(self) -> u32 {
        self.0
    }

    /// The size of that many mebibytes, where `accepted` admits it.
    pub fn from_mebibytes(mebibytes: u32, accepted: Bounds) -> (result: Result<Self, OutOfRange>)
        ensures
            match accepted.checked(mebibytes) {
                Ok(mebibytes) => result is Ok && result->Ok_0.spec_mebibytes() == mebibytes,
                Err(error) => result == Err::<Self, OutOfRange>(error),
            },
    {
        match accepted.check(mebibytes) {
            Ok(mebibytes) => Ok(Self(mebibytes)),
            Err(error) => Err(error),
        }
    }

    pub fn mebibytes(self) -> (mebibytes: u32)
        ensures
            mebibytes == self.spec_mebibytes(),
    {
        self.0
    }
}

/// The size of one journal file, in mebibytes, and so what an empty directory costs on disk.
///
/// The native library is the authority on the sizes it accepts, so their range is an argument of
/// the constructor and written down nowhere here.
#[derive(Clone, Copy, Debug, PartialEq, Eq, PartialOrd, Ord)]
pub struct JournalFileSize(u32);

impl JournalFileSize {
    pub closed spec fn spec_mebibytes(self) -> u32 {
        self.0
    }

    /// The size of that many mebibytes, where `accepted` admits it.
    pub fn from_mebibytes(mebibytes: u32, accepted: Bounds) -> (result: Result<Self, OutOfRange>)
        ensures
            match accepted.checked(mebibytes) {
                Ok(mebibytes) => result is Ok && result->Ok_0.spec_mebibytes() == mebibytes,
                Err(error) => result == Err::<Self, OutOfRange>(error),
            },
    {
        match accepted.check(mebibytes) {
            Ok(mebibytes) => Ok(Self(mebibytes)),
            Err(error) => Err(error),
        }
    }

    pub fn mebibytes(self) -> (mebibytes: u32)
        ensures
            mebibytes == self.spec_mebibytes(),
    {
        self.0
    }
}

/// Whether a spare journal file is kept ready ahead of the one being written.
#[derive(Clone, Copy, Debug, PartialEq, Eq)]
pub enum Preallocation {
    Enabled,
    Disabled,
}

/// The limits that reach the engine while its storage is being opened. Anything left unset keeps
/// the engine's own default.
#[derive(Clone, Copy, Debug, PartialEq, Eq)]
pub struct EngineOptions {
    pub cache_size: Option<CacheSize>,
    pub journal_file_size: Option<JournalFileSize>,
    pub journal_preallocation: Option<Preallocation>,
}

impl EngineOptions {
    /// The options that ask for nothing.
    pub open spec fn unset() -> EngineOptions {
        EngineOptions { cache_size: None, journal_file_size: None, journal_preallocation: None }
    }

    pub fn new() -> (options: Self)
        ensures
            options == Self::unset(),
    {
        Self { cache_size: None, journal_file_size: None, journal_preallocation: None }
    }
}

/// Storage limits for an open. Anything left unset keeps the engine's own default, so opening
/// with options that ask for nothing and opening without options are the same -- the free-disk
/// floor included, which an open has to establish rather than leave alone to make true.
#[derive(Clone, Copy, Debug, PartialEq, Eq)]
pub struct OpenOptions {
    pub engine: EngineOptions,
    pub free_disk_floor: Option<FreeDiskFloor>,
    pub concurrency: Option<Concurrency>,
}

impl Default for OpenOptions {
    fn default() -> (options: Self)
        ensures
            options == Self::unset(),
    {
        Self { engine: EngineOptions::new(), free_disk_floor: None, concurrency: None }
    }
}

impl OpenOptions {
    /// The options that ask for nothing.
    pub open spec fn unset() -> OpenOptions {
        OpenOptions { engine: EngineOptions::unset(), free_disk_floor: None, concurrency: None }
    }

    pub fn new() -> (options: Self)
        ensures
            options == Self::unset(),
    {
        Self::default()
    }

    /// The ceiling on the engine's cache.
    pub fn cache_size(self, cache: CacheSize) -> (options: Self)
        ensures
            options == (Self {
                engine: EngineOptions { cache_size: Some(cache), ..self.engine },
                ..self
            }),
    {
        Self { engine: EngineOptions { cache_size: Some(cache), ..self.engine }, ..self }
    }

    /// The size of one journal file, and so what an empty directory costs on disk.
    pub fn journal_file_size(self, size: JournalFileSize) -> (options: Self)
        ensures
            options == (Self {
                engine: EngineOptions { journal_file_size: Some(size), ..self.engine },
                ..self
            }),
    {
        Self { engine: EngineOptions { journal_file_size: Some(size), ..self.engine }, ..self }
    }

    /// Whether a spare journal file is kept ready ahead of the one being written.
    pub fn journal_preallocation(self, preallocation: Preallocation) -> (options: Self)
        ensures
            options == (Self {
                engine: EngineOptions { journal_preallocation: Some(preallocation), ..self.engine },
                ..self
            }),
    {
        Self {
            engine: EngineOptions { journal_preallocation: Some(preallocation), ..self.engine },
            ..self
        }
    }

    /// How much free disk space an index build or a spilling query insists on. Read
    /// [`FreeDiskFloor`] before lowering it: it is a server parameter of the whole process,
    /// which is why it is named at every open rather than remembered for a directory.
    pub fn free_disk_floor(self, floor: FreeDiskFloor) -> (options: Self)
        ensures
            options == (Self { free_disk_floor: Some(floor), ..self }),
    {
        Self { free_disk_floor: Some(floor), ..self }
    }

    /// How many commands may run in parallel, and whether that number moves. Left unset it is
    /// the default of [`Concurrency`].
    pub fn concurrency(self, concurrency: Concurrency) -> (options: Self)
        ensures
            options == (Self { concurrency: Some(concurrency), ..self }),
    {
        Self { concurrency: Some(concurrency), ..self }
    }

    /// The policy an open resolves to: what was asked for, or the default. Answers the policy
    /// rather than a count, so the "at least one session" guarantee travels with it.
    pub fn resolve_concurrency(options: Option<&Self>) -> (policy: Concurrency)
        ensures
            match options {
                Some(options) => match options.concurrency {
                    Some(asked) => policy == asked,
                    None => policy.is_fixed(Concurrency::DEFAULT_COUNT),
                },
                None => policy.is_fixed(Concurrency::DEFAULT_COUNT),
            },
            policy.wf(),
    {
        let asked: Option<Concurrency> = match options {
            Some(options) => options.concurrency,
            None => None,
        };
        let policy: Concurrency = match asked {
            Some(asked) => asked,
            None => Concurrency::default(),
        };
        proof {
            use_type_invariant(&policy);
        }
        policy
    }
}

} // verus!
