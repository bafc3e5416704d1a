//! What an open can be told.

use crate::duration;
use crate::limits::floor::FreeDiskFloor;
use crate::options::{
    CacheSize, Concurrency, EngineOptions, JournalFileSize, OpenOptions, Preallocation,
};
use crate::range;
use crate::range::{Bounds, OutOfRange};
use crate::text;
use core::time::Duration;
use vstd::prelude::*;

verus! {

/// A count is handed back unchanged exactly where it lies between the two bounds, both included;
/// everywhere else it is refused, naming what was counted and every number involved.
pub proof fn a_count_is_accepted_exactly_within_its_bounds(
    what: &'static str,
    unit: &'static str,
    value: u32,
    min: u32,
    max: u32,
)
    ensures
        min <= value <= max ==> range::checked(what, unit, value, min, max) == Ok::<
            u32,
            OutOfRange,
        >(value),
        value < min || value > max ==> range::checked(what, unit, value, min, max) == Err::<
            u32,
            OutOfRange,
        >(OutOfRange { what, unit, value, min, max }),
        (Bounds { what, unit, min, max }).checked(value) == range::checked(
            what,
            unit,
            value,
            min,
            max,
        ),
{
}

/// A refusal says what was counted, the two bounds, the unit and what was asked for.
pub proof fn a_refused_count_is_spelled_out(refusal: OutOfRange)
    ensures
        refusal.text() == refusal.what@ + " must be between "@ + text::decimal(refusal.min as nat)
            + " and "@ + text::decimal(refusal.max as nat) + " "@ + refusal.unit@ + ", got "@
            + text::decimal(refusal.value as nat),
{
}

/// Any number of mebibytes but none is a floor.
pub proof fn a_floor_may_be_anything_but_nothing()
    ensures
        FreeDiskFloor::MIN_MEBIBYTES == 1,
        FreeDiskFloor::MAX_MEBIBYTES == 0xffff_ffff,
{
}

/// An elastic pool is accepted exactly where its floor is at least one session, its ceiling at
/// least its floor and at most 256 sessions, and its idle timeout at least a whole millisecond.
/// Where it is refused the ceiling is complained of first, then the floor, then the timeout.
pub proof fn an_elastic_pool_is_accepted_exactly_within_bounds(min: u32, max: u32, nanos: nat)
    ensures
        Concurrency::dynamic_refusal(min, max, nanos) is None <==> 1 <= min <= max <= 256 && nanos
            >= 1_000_000,
        ({
            let refusal = Concurrency::dynamic_refusal(min, max, nanos)->0;
            &&& max < 1 || max > 256 ==> refusal.value == max && refusal.min == 1 && refusal.max
                == 256 && refusal.what@ == "maximum concurrency"@ && refusal.unit@ == "sessions"@
            &&& 1 <= max <= 256 && (min < 1 || min > max) ==> refusal.value == min && refusal.min
                == 1 && refusal.max == max && refusal.what@ == "minimum concurrency"@
                && refusal.unit@ == "sessions"@
            &&& 1 <= min <= max <= 256 && nanos < 1_000_000 ==> refusal.value == 0 && refusal.min
                == 1 && refusal.max == u32::MAX && refusal.what@ == "idle timeout"@
                && refusal.unit@ == "milliseconds"@
        }),
{
}

/// A fixed pool opens as many sessions as it was given, no more and no fewer, and keeps them; the
/// pool of an open that names none has eight.
pub proof fn a_fixed_pool_has_one_size(policy: Concurrency, count: u32)
    requires
        policy.is_fixed(count),
    ensures
        policy.spec_min() == count,
        policy.spec_max() == count,
        policy.spec_idle_timeout() is None,
        1 <= count <= 256,
        Concurrency::DEFAULT_COUNT == 8,
        Concurrency::MIN_COUNT == 1,
        Concurrency::MAX_COUNT == 256,
{
}

/// Options that nothing was asked of ask for nothing.
pub proof fn untouched_options_ask_for_nothing()
    ensures
        OpenOptions::unset().free_disk_floor is None,
        OpenOptions::unset().concurrency is None,
        OpenOptions::unset().engine == EngineOptions::unset(),
        EngineOptions::unset().cache_size is None,
        EngineOptions::unset().journal_file_size is None,
        EngineOptions::unset().journal_preallocation is None,
{
}

/// Every option that is set is kept as it was set, whatever is set after it.
pub proof fn options_are_kept_as_they_were_set(
    options: OpenOptions,
    cache: CacheSize,
    cached: OpenOptions,
    size: JournalFileSize,
    sized: OpenOptions,
    preallocation: Preallocation,
    preallocated: OpenOptions,
    floor: FreeDiskFloor,
    floored: OpenOptions,
    policy: Concurrency,
    asked: OpenOptions,
)
    requires
        call_ensures(OpenOptions::cache_size, (options, cache), cached),
        call_ensures(OpenOptions::journal_file_size, (cached, size), sized),
        call_ensures(OpenOptions::journal_preallocation, (sized, preallocation), preallocated),
        call_ensures(OpenOptions::free_disk_floor, (preallocated, floor), floored),
        call_ensures(OpenOptions::concurrency, (floored, policy), asked),
    ensures
        asked.engine.cache_size == Some(cache),
        asked.engine.journal_file_size == Some(size),
        asked.engine.journal_preallocation == Some(preallocation),
        asked.free_disk_floor == Some(floor),
        asked.concurrency == Some(policy),
        cached.engine.journal_file_size == options.engine.journal_file_size,
        cached.engine.journal_preallocation == options.engine.journal_preallocation,
        cached.free_disk_floor == options.free_disk_floor,
        cached.concurrency == options.concurrency,
{
}

/// A pool and a floor are made of the counts that were asked for, and made exactly where those lie
/// within bounds.
pub proof fn what_is_made_is_what_was_asked_for(
    count: u32,
    fixed: Result<Concurrency, OutOfRange>,
    min: u32,
    max: u32,
    timeout: Duration,
    elastic: Result<Concurrency, OutOfRange>,
    mebibytes: u32,
    floor: Result<FreeDiskFloor, OutOfRange>,
)
    requires
        call_ensures(Concurrency::from_count, (count,), fixed),
        call_ensures(Concurrency::dynamic, (min, max, timeout), elastic),
        call_ensures(FreeDiskFloor::from_mebibytes, (mebibytes,), floor),
    ensures
        fixed is Ok <==> 1 <= count <= 256,
        fixed is Ok ==> fixed->Ok_0.spec_min() == count && fixed->Ok_0.spec_max() == count
            && fixed->Ok_0.spec_idle_timeout() is None,
        elastic is Ok <==> 1 <= min <= max <= 256 && duration::nanos(timeout) >= 1_000_000,
        elastic is Ok ==> elastic->Ok_0.spec_min() == min && elastic->Ok_0.spec_max() == max
            && elastic->Ok_0.spec_idle_timeout() == Some(timeout),
        floor is Ok <==> mebibytes > 0,
        floor is Ok ==> floor->Ok_0.spec_mebibytes() == mebibytes,
{
}

/// An open runs on the pool it asked for, and on a fixed one of eight sessions where it asked for
/// none.
pub proof fn an_open_runs_on_the_pool_it_asked_for(
    options: Option<&OpenOptions>,
    policy: Concurrency,
)
    requires
        call_ensures(OpenOptions::resolve_concurrency, (options,), policy),
    ensures
        match options {
            Some(options) if options.concurrency is Some => Some(policy) == options.concurrency,
            _ => policy.spec_min() == 8 && policy.spec_max() == 8 && policy.spec_idle_timeout()
                is None,
        },
{
}

} // verus!
