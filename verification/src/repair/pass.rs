//! When the pass runs at all, and when it counts as done.

use crate::error::Error;
use crate::repair::commands::Catalog;
use crate::repair::marker::MarkerState;
use crate::repair::namespace::Namespace;
use crate::text;
use vstd::prelude::*;

verus! {

/// Set to `1`, `true`, `yes` or `on`, in any case, to leave the pass out entirely. Any other
/// value -- `no` and `off` included -- leaves it on.
///
/// Skipping never writes the marker, so it suppresses the pass rather than cancelling it: the
/// next open without the variable set still checks the directory.
pub const SKIP_VARIABLE: &'static str = "EMBEDDED_MONGODB_SKIP_INDEX_REPAIR";

/// Whether the data directory already held a database before this process opened it.
#[derive(Clone, Copy, Debug, PartialEq, Eq, Structural)]
pub enum Origin {
    PreExisting,
    Fresh,
}

/// The file that the storage engine writes on the first open of a directory and never removes.
pub const ENGINE_FILE: &'static str = "WiredTiger";

/// What a directory was, by whether [`ENGINE_FILE`] stands in it. Its absence is the one thing
/// that says "nothing here yet" without opening anything.
pub fn origin(engine_file: bool) -> (origin: Origin)
    ensures
        origin == if engine_file {
            Origin::PreExisting
        } else {
            Origin::Fresh
        },
{
    if engine_file {
        Origin::PreExisting
    } else {
        Origin::Fresh
    }
}

/// Whether a value of the skip variable turns the pass off: one of four words, with any white
/// space around it and in any case.
pub open spec fn is_affirmative(value: Seq<char>) -> bool {
    exists|trimmed: Seq<char>| #[trigger]
        text::is_trimmed(value, trimmed) && {
            ||| text::agree_ignoring_case(trimmed, "1"@)
            ||| text::agree_ignoring_case(trimmed, "true"@)
            ||| text::agree_ignoring_case(trimmed, "yes"@)
            ||| text::agree_ignoring_case(trimmed, "on"@)
        }
}

/// Whether the pass is to be left out, by the value of the skip variable where it is set to one
/// that is text.
///
/// Deliberately a closed set of words. This switch disables a repair of damaged user data, so
/// the two ways of misreading it are not equally bad: declining to skip on a value nobody meant
/// as yes costs a scan, while skipping on `no` or `off` would leave a directory damaged for
/// good, and silently.
pub fn skip_requested(value: Option<&str>) -> (skip: bool)
    ensures
        skip == match value {
            Some(value) => is_affirmative(value@),
            None => false,
        },
{
    match value {
        Some(value) => {
            text::is_trimmed_ignoring_case(value, "1") || text::is_trimmed_ignoring_case(
                value,
                "true",
            ) || text::is_trimmed_ignoring_case(value, "yes") || text::is_trimmed_ignoring_case(
                value,
                "on",
            )
        },
        None => false,
    }
}

/// What an open does about the pass.
#[derive(Clone, Copy, Debug, PartialEq, Eq, Structural)]
pub enum Plan {
    /// Nothing, because it was asked not to.
    Skip,
    /// Nothing, because a pass has already run here.
    AlreadyDone,
    /// Marks the directory without a scan: nothing this process is about to create can carry
    /// damage an older build did.
    MarkAtBirth,
    /// Checks every collection, and marks the directory once that is complete.
    Check,
}

/// What an open does about the pass.
pub fn plan(skip: bool, marker: MarkerState, origin: Origin) -> (plan: Plan)
    ensures
        plan == if skip {
            Plan::Skip
        } else if marker == MarkerState::Recorded {
            Plan::AlreadyDone
        } else if origin == Origin::Fresh {
            Plan::MarkAtBirth
        } else {
            Plan::Check
        },
{
    if skip {
        return Plan::Skip;
    }
    if marker == MarkerState::Recorded {
        return Plan::AlreadyDone;
    }
    if origin == Origin::Fresh {
        return Plan::MarkAtBirth;
    }
    Plan::Check
}

/// Whether a pass reached every collection it set out to.
#[derive(Clone, Copy, Debug, PartialEq, Eq, Structural)]
pub enum Outcome {
    Complete,
    Incomplete,
}

/// Whether a catalog is one to sweep.
///
/// Databases that hold no collection at all is not an empty directory, it is what an engine that
/// does not register databases restored from disk looks like. Recording such a directory as
/// checked would skip its damage for good.
pub fn is_credible(catalog: &Catalog) -> (credible: bool)
    ensures
        credible == (catalog.databases == 0 || catalog.namespaces@.len() > 0),
{
    !(catalog.databases > 0 && catalog.namespaces.len() == 0)
}

/// Whether a sweep that called `check` on every one of `namespaces`, once each and in order, took
/// what it carries through `worlds` and was answered `results`.
///
/// `check` takes what the sweep carries by value and answers it back, so the calls follow one
/// another as the worlds do: each starts where the one before it ended.
pub open spec fn are_visits<W, F: Fn(W, &Namespace) -> (W, Result<(), Error>)>(
    namespaces: Seq<Namespace>,
    check: F,
    worlds: Seq<W>,
    results: Seq<Result<(), Error>>,
) -> bool {
    &&& results.len() == namespaces.len()
    &&& worlds.len() == namespaces.len() + 1
    &&& forall|i: int|
        0 <= i < namespaces.len() ==> call_ensures(
            check,
            (worlds[i], &namespaces[i]),
            (worlds[i + 1], #[trigger] results[i]),
        )
}

/// What a sweep comes to, by what its visits were answered.
pub open spec fn swept(results: Seq<Result<(), Error>>) -> Outcome {
    if forall|i: int| 0 <= i < results.len() ==> (#[trigger] results[i]) is Ok {
        Outcome::Complete
    } else {
        Outcome::Incomplete
    }
}

/// Whether a sweep over `namespaces` that starts on the world `before` may end on `after` with
/// `outcome`.
pub open spec fn is_sweep<W, F: Fn(W, &Namespace) -> (W, Result<(), Error>)>(
    namespaces: Seq<Namespace>,
    check: F,
    before: W,
    after: W,
    outcome: Outcome,
) -> bool {
    exists|worlds: Seq<W>, results: Seq<Result<(), Error>>| #[trigger]
        are_visits(namespaces, check, worlds, results) && worlds[0] == before && worlds.last()
            == after && outcome == swept(results)
}

/// Runs `check` over every namespace and answers whether all of them were reached.
///
/// One collection that cannot be checked must not cost the rest their repair, and it must still
/// withhold the marker, so that the next open starts over rather than treating a half-finished
/// pass as a finished one.
///
/// `world` is whatever the checks work on. Each of them is handed it and hands it on to the next.
pub fn sweep<W, F: Fn(W, &Namespace) -> (W, Result<(), Error>)>(
    namespaces: &[Namespace],
    world: W,
    check: F,
) -> (swept: (W, Outcome))
    requires
        forall|world: W, i: int|
            0 <= i < namespaces@.len() ==> #[trigger] call_requires(
                check,
                (world, &namespaces@[i]),
            ),
    ensures
        is_sweep(namespaces@, check, world, swept.0, swept.1),
{
    let ghost mut worlds: Seq<W> = seq![world];
    let ghost mut results: Seq<Result<(), Error>> = seq![];
    let mut carried: W = world;
    let mut outcome: Outcome = Outcome::Complete;
    let mut i: usize = 0;
    while i < namespaces.len()
        invariant
            i <= namespaces@.len(),
            are_visits(namespaces@.take(i as int), check, worlds, results),
            worlds[0] == world,
            worlds.last() == carried,
            outcome == swept(results),
            forall|world: W, i: int|
                0 <= i < namespaces@.len() ==> #[trigger] call_requires(
                    check,
                    (world, &namespaces@[i]),
                ),
        decreases namespaces@.len() - i,
    {
        let ghost before = results;
        let (next, result) = check(carried, &namespaces[i]);
        proof {
            let earlier = worlds;
            worlds = worlds.push(next);
            results = results.push(result);
            assert forall|j: int| 0 <= j < i + 1 implies call_ensures(
                check,
                (worlds[j], &namespaces@.take(i + 1)[j]),
                (worlds[j + 1], #[trigger] results[j]),
            ) by {
                if j < i {
                    assert(results[j] == before[j]);
                    assert(namespaces@.take(i + 1)[j] == namespaces@.take(i as int)[j]);
                    assert(worlds[j] == earlier[j] && worlds[j + 1] == earlier[j + 1]);
                }
            }
            assert(forall|j: int| 0 <= j < before.len() ==> #[trigger] before[j] == results[j]);
            assert(results[i as int] == result);
        }
        if result.is_err() {
            outcome = Outcome::Incomplete;
        }
        carried = next;
        i += 1;
    }
    assert(namespaces@.take(i as int) =~= namespaces@);
    assert(are_visits(namespaces@, check, worlds, results));
    (carried, outcome)
}

/// Whether a listing is one to sweep: it succeeded, and what it found is credible.
pub open spec fn is_sweepable(listed: Result<Catalog, Error>) -> bool {
    match listed {
        Ok(catalog) => catalog.databases == 0 || catalog.namespaces@.len() > 0,
        Err(_) => false,
    }
}

/// The pass over what was listed: a visit to every collection there is. Without a listing to go
/// by, or with one that cannot be believed, nothing is visited and the pass is not complete.
pub fn pass<W, F: Fn(W, &Namespace) -> (W, Result<(), Error>)>(
    listed: &Result<Catalog, Error>,
    world: W,
    check: F,
) -> (passed: (W, Outcome))
    requires
        listed is Ok ==> forall|world: W, i: int|
            0 <= i < listed->Ok_0.namespaces@.len() ==> #[trigger] call_requires(
                check,
                (world, &listed->Ok_0.namespaces@[i]),
            ),
    ensures
        if is_sweepable(*listed) {
            is_sweep(listed->Ok_0.namespaces@, check, world, passed.0, passed.1)
        } else {
            passed == (world, Outcome::Incomplete)
        },
{
    match listed {
        Ok(catalog) => {
            if !is_credible(catalog) {
                return (world, Outcome::Incomplete);
            }
            sweep(catalog.namespaces.as_slice(), world, check)
        },
        Err(_) => (world, Outcome::Incomplete),
    }
}

/// A directory that has to be checked is marked only once its collections have been listed, the
/// listing can be believed, and every single one of them has been visited with success.
pub proof fn a_checked_directory_is_marked_only_once_all_is_visited<
    W,
    F: Fn(W, &Namespace) -> (W, Result<(), Error>),
>(listed: Result<Catalog, Error>, check: F, before: W, after: W, outcome: Outcome)
    requires
        if is_sweepable(listed) {
            is_sweep(listed->Ok_0.namespaces@, check, before, after, outcome)
        } else {
            (after, outcome) == (before, Outcome::Incomplete)
        },
        is_marked(Plan::Check, Some(outcome)),
    ensures
        is_sweepable(listed),
        exists|worlds: Seq<W>, results: Seq<Result<(), Error>>| #[trigger]
            are_visits(listed->Ok_0.namespaces@, check, worlds, results) && worlds[0] == before
                && worlds.last() == after && forall|i: int|
                0 <= i < results.len() ==> (#[trigger] results[i]) is Ok,
{
}

/// Whether an open that followed `plan` marks the directory, where `outcome` is what its pass
/// came to: a directory that is new, and one whose pass is complete. A pass that was left out
/// leaves the directory as it is, and one that was cut short is retried on the next open.
pub open spec fn is_marked(plan: Plan, outcome: Option<Outcome>) -> bool {
    match plan {
        Plan::Skip => false,
        Plan::AlreadyDone => false,
        Plan::MarkAtBirth => true,
        Plan::Check => outcome == Some(Outcome::Complete),
    }
}

/// Whether an open that followed `plan` marks the directory, where `outcome` is what its pass
/// came to.
pub fn marks(plan: Plan, outcome: Option<Outcome>) -> (marks: bool)
    ensures
        marks == is_marked(plan, outcome),
{
    match plan {
        Plan::MarkAtBirth => true,
        Plan::Check => match outcome {
            Some(outcome) => outcome == Outcome::Complete,
            None => false,
        },
        _ => false,
    }
}

} // verus!
