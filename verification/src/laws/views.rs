//! What a value is said to hold is what it holds.

use crate::command::{Request, RequestView};
use crate::document;
use crate::error::{Error, NativeError};
use crate::find;
use crate::find::{Next, NextView};
use crate::repair::commands;
use crate::repair::commands::{Failure, ListingNext, ListingStep, ListingView};
use crate::repair::marker::{FileAction, FileActionView};
use crate::repair::namespace::{Namespace, NamespaceView};
use crate::repair::pass;
use crate::repair::pass::Outcome;
use crate::repair::report;
use crate::repair::report::{Damage, Health, HealthView, Repaired};
use crate::repair::visit::{Notice, NoticeView};
use crate::workers::shutdown::Last;
use vstd::prelude::*;

verus! {

/// A run of strings, documents, values or namespaces holds what each of them holds, at its
/// position.
pub proof fn runs_are_shown_one_by_one(
    strings: Seq<String>,
    documents: Seq<bson::Document>,
    values: Seq<bson::Bson>,
    namespaces: Seq<Namespace>,
    i: int,
)
    ensures
        report::shown(strings).len() == strings.len(),
        0 <= i < strings.len() ==> report::shown(strings)[i] == strings[i]@,
        find::contents(documents).len() == documents.len(),
        0 <= i < documents.len() ==> find::contents(documents)[i] == document::fields(
            documents[i],
        ),
        document::values(values).len() == values.len(),
        0 <= i < values.len() ==> document::values(values)[i] == document::value(values[i]),
        commands::named(namespaces).len() == namespaces.len(),
        0 <= i < namespaces.len() ==> commands::named(namespaces)[i] == namespaces[i]@,
{
}

/// A request goes to its database with the fields of its command.
pub proof fn a_request_is_shown_whole(request: Request)
    ensures
        request@.database == request.database@,
        request@.command == document::fields(request.command),
{
}

/// What a reply was read as is shown field by field.
pub proof fn reports_are_shown_whole(damage: Damage, repaired: Repaired, reason: String, i: int)
    ensures
        damage@.missing_index_entries == damage.missing_index_entries,
        damage@.errors.len() == damage.errors@.len(),
        0 <= i < damage.errors@.len() ==> damage@.errors[i] == damage.errors@[i]@,
        Health::Sound@ is Sound,
        Health::Damaged(damage)@ == HealthView::Damaged(damage@),
        Health::Inconclusive(reason)@ == HealthView::Inconclusive(reason@),
        repaired@.inserted_index_entries == repaired.inserted_index_entries,
        repaired@.moved_documents == repaired.moved_documents,
        repaired@.removed_corrupt_records == repaired.removed_corrupt_records,
        repaired@.removed_extra_index_entries == repaired.removed_extra_index_entries,
        repaired@.lost_and_found is Some <==> repaired.lost_and_found is Some,
        repaired.lost_and_found is Some ==> repaired@.lost_and_found->0
            == repaired.lost_and_found->0@,
        repaired@.warnings.len() == repaired.warnings@.len(),
        0 <= i < repaired.warnings@.len() ==> repaired@.warnings[i] == repaired.warnings@[i]@,
{
}

/// What is said of a visit is shown whole.
pub proof fn notices_are_shown_whole(
    damage: Damage,
    repaired: Repaired,
    deleted: bool,
    destination_unknown: bool,
)
    ensures
        Notice::Damaged(damage)@ == NoticeView::Damaged(damage@),
        Notice::StillDamaged(damage)@ == NoticeView::StillDamaged(damage@),
        (Notice::Repaired { repaired, deleted, destination_unknown })@ == (NoticeView::Repaired {
            repaired: repaired@,
            deleted,
            destination_unknown,
        }),
{
}

/// What a cursor is about to do, what is done to a file and what the last worker is handed are
/// shown whole.
pub proof fn steps_are_shown_whole<C, P>(
    document: bson::Document,
    contents: String,
    last: Last<C, P>,
)
    ensures
        Next::Document(document)@ == NextView::Document(document::fields(document)),
        Next::Fetch(document)@ == NextView::Fetch(document::fields(document)),
        Next::Exhausted@ is Exhausted,
        FileAction::WritePartial(contents)@ == FileActionView::WritePartial(contents@),
        FileAction::Publish@ is Publish,
        FileAction::RemovePartial@ is RemovePartial,
        last@.own == last.own,
        last@.others == last.others@,
        last@.reply == last.reply,
{
}

/// A listing does what it is to do next, and nothing else: it goes on with the command that is
/// due, it finishes with as many databases and with the very collections it found, or it fails for
/// the reason there is.
pub proof fn a_listing_does_what_is_next(
    step: ListingStep,
    reply: Result<bson::Document, Error>,
    listing: ListingView,
    request: RequestView,
    databases: nat,
    found: Seq<NamespaceView>,
    reason: Seq<char>,
    given_up: Option<RequestView>,
    i: int,
)
    ensures
        step.agrees(ListingNext::Send(listing, request), reply) ==> step is Send && step->Send_0@
            == listing && step->Send_1@ == request,
        step.agrees(ListingNext::Done(databases, found), reply) ==> {
            &&& step is Done
            &&& step->Done_0.databases == databases
            &&& step->Done_0.namespaces@.len() == found.len()
            &&& 0 <= i < found.len() ==> step->Done_0.namespaces@[i]@ == found[i]
        },
        step.agrees(ListingNext::Failed(Failure::Reply, given_up), reply) ==> {
            &&& step is Failed
            &&& reply is Err
            &&& step->Failed_0 == reply->Err_0
            &&& step->Failed_1 is Some <==> given_up is Some
            &&& given_up is Some ==> step->Failed_1->0@ == given_up->0
        },
        step.agrees(ListingNext::Failed(Failure::Invalid(reason), given_up), reply) ==> {
            &&& step is Failed
            &&& step->Failed_0 is InvalidResponse
            &&& step->Failed_0->InvalidResponse_0@ == reason
            &&& step->Failed_1 is Some <==> given_up is Some
            &&& given_up is Some ==> step->Failed_1->0@ == given_up->0
        },
{
    if let ListingStep::Done(catalog) = step {
        assert(commands::named(catalog.namespaces@).len() == catalog.namespaces@.len());
        if 0 <= i < catalog.namespaces@.len() {
            assert(commands::named(catalog.namespaces@)[i] == catalog.namespaces@[i]@);
        }
    }
}

/// A sweep calls the check on every namespace, the first to the last, each on what the one before
/// it left; and is complete only where every call answered success.
pub proof fn a_sweep_visits_every_namespace<
    W,
    F: Fn(W, &Namespace) -> (W, Result<(), Error>),
>(namespaces: Seq<Namespace>, check: F, before: W, after: W, outcome: Outcome) -> (visits: (
    Seq<W>,
    Seq<Result<(), Error>>,
))
    requires
        pass::is_sweep(namespaces, check, before, after, outcome),
    ensures
        visits.0.len() == namespaces.len() + 1,
        visits.1.len() == namespaces.len(),
        visits.0[0] == before,
        visits.0[namespaces.len() as int] == after,
        forall|i: int|
            0 <= i < namespaces.len() ==> call_ensures(
                check,
                (visits.0[i], &namespaces[i]),
                (visits.0[i + 1], #[trigger] visits.1[i]),
            ),
        outcome == Outcome::Complete <==> forall|i: int|
            0 <= i < namespaces.len() ==> (#[trigger] visits.1[i]) is Ok,
{
    choose|worlds: Seq<W>, results: Seq<Result<(), Error>>| #[trigger]
        pass::are_visits(namespaces, check, worlds, results) && worlds[0] == before
            && worlds.last() == after && outcome == pass::swept(results)
}

/// A closed engine is a closed client, and any other failure of the engine is passed on in its own
/// words.
pub proof fn native_failures_are_passed_on(reason: String)
    ensures
        <Error as vstd::std_specs::convert::FromSpec<NativeError>>::from_spec(NativeError::Closed)
            == Error::Closed,
        <Error as vstd::std_specs::convert::FromSpec<NativeError>>::from_spec(
            NativeError::Failed(reason),
        ) == Error::Native(reason),
{
}

} // verus!
