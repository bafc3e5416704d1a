//! The repair pass: what a reply says of a collection, what is said of a repair, what is looked
//! at, and when a directory counts as done.

use crate::command::RequestView;
use crate::document;
use crate::error::Error;
use crate::find;
use crate::find::CursorView;
use crate::repair::commands;
use crate::repair::commands::{
    Catalog, DatabaseEntries, Drained, Failure, ListingNext, ListingView, StageView,
};
use crate::repair::marker;
use crate::repair::marker::MarkerState;
use crate::repair::namespace::NamespaceView;
use crate::repair::pass;
use crate::repair::pass::{Origin, Outcome, Plan};
use crate::repair::report;
use crate::repair::report::Repaired;
use crate::repair::visit;
use crate::repair::visit::{Notice, NoticeView, Stage, VisitNext, VisitView};
use crate::text;
use vstd::prelude::*;

verus! {

/// Whether a reply carries a whole number above zero under `key`, in whichever width.
pub open spec fn counts_some(reply: document::Fields, key: Seq<char>) -> bool {
    match document::field(reply, key) {
        Some(document::Value::Int32(number)) => number > 0,
        Some(document::Value::Int64(number)) => number > 0,
        _ => false,
    }
}

/// Whether `number` is the whole number a reply carries under `key`, in whichever width, and zero
/// where it carries none.
pub open spec fn says(reply: document::Fields, key: Seq<char>, number: i64) -> bool {
    match document::field(reply, key) {
        Some(document::Value::Int32(found)) => number == found,
        Some(document::Value::Int64(found)) => number == found,
        _ => number == 0,
    }
}

/// The texts among the values of the array a reply carries under `key`, in their order: none where
/// it carries no array.
pub open spec fn texts_of(reply: document::Fields, key: Seq<char>) -> Seq<Seq<char>> {
    match document::field(reply, key) {
        Some(document::Value::Array(values)) => values.filter(
            |value: document::Value| value is Text,
        ).map_values(|value: document::Value| value->Text_0),
        _ => seq![],
    }
}

proof fn lemma_texts(values: Seq<document::Value>)
    ensures
        report::texts(values) == values.filter(|value: document::Value| value is Text).map_values(
            |value: document::Value| value->Text_0,
        ),
    decreases values.len(),
{
    reveal(Seq::filter);
    let is_text = |value: document::Value| value is Text;
    let held = |value: document::Value| value->Text_0;
    if values.len() > 0 {
        lemma_texts(values.drop_last());
        let earlier = values.drop_last().filter(is_text);
        if values.last() is Text {
            assert(earlier.push(values.last()).map_values(held) =~= earlier.map_values(held).push(
                values.last()->Text_0,
            ));
        }
    } else {
        assert(values.filter(is_text).map_values(held) =~= seq![]);
    }
}

/// Every text of an array of a reply is read, in order, and nothing that is no text.
pub proof fn texts_are_read_as_they_stand(reply: document::Fields, key: Seq<char>)
    ensures
        report::texts_under(reply, key) == texts_of(reply, key),
{
    if let Some(document::Value::Array(values)) = document::field(reply, key) {
        lemma_texts(values);
    }
}

/// The answer to a repair is spoken of exactly where one of its four counts is above zero, each
/// of them by itself: entries put into an index, documents moved away, records removed and entries
/// removed from an index. Whatever it says, the collection is checked again next.
pub proof fn a_repair_that_counts_anything_is_spoken_of(
    namespace: NamespaceView,
    response: bson::Document,
)
    ensures
        ({
            let reply = document::fields(response);
            let (next, notice) = (VisitView { namespace, stage: Stage::Repair }).answered(
                Ok(response),
            );
            &&& counts_some(reply, "numInsertedMissingIndexEntries"@) ==> notice is Some
            &&& counts_some(reply, "numDocumentsMovedToLostAndFound"@) ==> notice is Some
            &&& counts_some(reply, "numRemovedCorruptRecords"@) ==> notice is Some
            &&& counts_some(reply, "numRemovedExtraIndexEntries"@) ==> notice is Some
            &&& notice is Some ==> {
                ||| counts_some(reply, "numInsertedMissingIndexEntries"@)
                ||| counts_some(reply, "numDocumentsMovedToLostAndFound"@)
                ||| counts_some(reply, "numRemovedCorruptRecords"@)
                ||| counts_some(reply, "numRemovedExtraIndexEntries"@)
            }
            &&& notice == visit::said_of(report::repaired(reply))
            &&& next == VisitNext::Send(VisitView { namespace, stage: Stage::Confirm })
        }),
{
}

/// The same of the reply itself: it is read, and announced where any of its four counts is above
/// zero, each by itself, and not announced where none is.
pub proof fn a_repair_is_announced_where_it_counts_anything(
    response: bson::Document,
    repaired: Repaired,
    notice: Option<Notice>,
)
    requires
        call_ensures(Repaired::parse, (&response,), repaired),
        call_ensures(visit::announce_repair, (repaired,), notice),
    ensures
        notice is Some <==> {
            let reply = document::fields(response);
            ||| counts_some(reply, "numInsertedMissingIndexEntries"@)
            ||| counts_some(reply, "numDocumentsMovedToLostAndFound"@)
            ||| counts_some(reply, "numRemovedCorruptRecords"@)
            ||| counts_some(reply, "numRemovedExtraIndexEntries"@)
        },
{
}

/// What is said of a repair is what its answer says: the four counts as they stand there, every
/// warning, that records were deleted exactly where any were, and where moved documents went -- a
/// collection of the `local` database that is called after the collection's UUID -- or that this
/// cannot be told.
pub proof fn a_repair_is_spoken_of_as_it_was_answered(
    namespace: NamespaceView,
    response: bson::Document,
)
    ensures
        ({
            let reply = document::fields(response);
            let notice = (VisitView { namespace, stage: Stage::Repair }).answered(Ok(response)).1;
            notice is Some ==> {
                let repaired = notice->0->repaired;
                let destination = match document::field(reply, "uuid"@) {
                    Some(document::Value::Uuid(bytes)) if bytes.len() == 16 => Some(
                        NamespaceView {
                            database: "local"@,
                            collection: "lost_and_found."@ + document::uuid_text(bytes),
                        },
                    ),
                    _ => None,
                };
                &&& notice->0 is Repaired
                &&& says(
                    reply,
                    "numInsertedMissingIndexEntries"@,
                    repaired.inserted_index_entries,
                )
                &&& says(reply, "numDocumentsMovedToLostAndFound"@, repaired.moved_documents)
                &&& says(reply, "numRemovedCorruptRecords"@, repaired.removed_corrupt_records)
                &&& says(
                    reply,
                    "numRemovedExtraIndexEntries"@,
                    repaired.removed_extra_index_entries,
                )
                &&& repaired.warnings == texts_of(reply, "warnings"@)
                &&& repaired.moved_documents != 0 ==> repaired.lost_and_found == destination
                &&& repaired.moved_documents == 0 ==> repaired.lost_and_found is None
                &&& notice->0->deleted <==> repaired.removed_corrupt_records != 0
                &&& notice->0->destination_unknown <==> repaired.moved_documents != 0
                    && destination is None
            }
        }),
{
    texts_are_read_as_they_stand(document::fields(response), "warnings"@);
}

/// Whether a text says that a validation threw, in the engine's words.
pub open spec fn says_it_threw(warning: Seq<char>) -> bool {
    exists|front: Seq<char>, back: Seq<char>|
        warning == #[trigger] (front + "exception during collection validation"@ + back)
}

/// Whether a text among `texts` says that a validation threw.
pub open spec fn one_says_it_threw(texts: Seq<Seq<char>>) -> bool {
    exists|i: int| 0 <= i < texts.len() && says_it_threw(#[trigger] texts[i])
}

/// Whether nothing in an answer speaks against a collection: it is called valid, there is no text
/// among its errors, and no index entry is missing.
pub open spec fn is_called_sound(reply: document::Fields) -> bool {
    &&& document::field(reply, "valid"@) == Some(document::Value::Boolean(true))
    &&& texts_of(reply, "errors"@).len() == 0
    &&& !(document::field(reply, "missingIndexEntries"@) matches Some(
        document::Value::Array(entries),
    ) && entries.len() > 0)
}

/// A collection is sound, damaged or unchecked by what its answer says, and by nothing else. It is
/// unchecked exactly where a warning says that the validation threw, which is then the reason. It
/// is sound exactly where none does and nothing speaks against it. In every other case it is
/// damaged, with all its errors and as many missing entries as are listed.
pub proof fn a_collection_is_what_its_answer_says(reply: document::Fields)
    ensures
        ({
            let warnings = texts_of(reply, "warnings"@);
            let health = report::health(reply);
            &&& health is Inconclusive <==> one_says_it_threw(warnings)
            &&& health is Inconclusive ==> warnings.contains(health->Inconclusive_0)
                && says_it_threw(health->Inconclusive_0)
            &&& health is Sound <==> !one_says_it_threw(warnings) && is_called_sound(reply)
            &&& health is Damaged <==> !one_says_it_threw(warnings) && !is_called_sound(reply)
            &&& health is Damaged ==> {
                let damage = health->Damaged_0;
                &&& damage.errors == texts_of(reply, "errors"@)
                &&& damage.missing_index_entries == match document::field(
                    reply,
                    "missingIndexEntries"@,
                ) {
                    Some(document::Value::Array(entries)) => entries.len(),
                    _ => 0,
                }
            }
        }),
{
    texts_are_read_as_they_stand(reply, "warnings"@);
    texts_are_read_as_they_stand(reply, "errors"@);
    lemma_first_that_threw(texts_of(reply, "warnings"@));
}

proof fn lemma_first_that_threw(all: Seq<Seq<char>>)
    ensures
        ({
            let found = report::first_with(all, "exception during collection validation"@);
            &&& found is Some <==> one_says_it_threw(all)
            &&& found is Some ==> all.contains(found->0) && says_it_threw(found->0)
        }),
    decreases all.len(),
{
    if all.len() > 0 {
        let rest = all.drop_first();
        crate::laws::words::a_part_stands_between_two_ends(
            all[0],
            "exception during collection validation"@,
        );
        lemma_first_that_threw(rest);
        let found = report::first_with(all, "exception during collection validation"@);
        if text::contains(all[0], "exception during collection validation"@) {
            assert(says_it_threw(all[0]));
        } else {
            assert(!says_it_threw(all[0]));
            if found is Some {
                let i = choose|i: int| 0 <= i < rest.len() && says_it_threw(#[trigger] rest[i]);
                assert(all[i + 1] == rest[i]);
                let j = choose|j: int| 0 <= j < rest.len() && rest[j] == found->0;
                assert(all[j + 1] == found->0);
            }
            if one_says_it_threw(all) {
                let i = choose|i: int| 0 <= i < all.len() && says_it_threw(#[trigger] all[i]);
                assert(rest[i - 1] == all[i]);
            }
        }
    }
}

/// The commands of a visit: a validation of the collection that changes nothing, before a repair
/// and after one, and the repair itself between them.
pub proof fn visit_commands_are_spelled_out(namespace: NamespaceView)
    ensures
        (VisitView { namespace, stage: Stage::Check }).request() == (RequestView {
            database: namespace.database,
            command: seq![("validate"@, document::Value::Text(namespace.collection))],
        }),
        (VisitView { namespace, stage: Stage::Repair }).request() == (RequestView {
            database: namespace.database,
            command: seq![
                ("validate"@, document::Value::Text(namespace.collection)),
                ("repair"@, document::Value::Boolean(true)),
            ],
        }),
        (VisitView { namespace, stage: Stage::Confirm }).request() == (RequestView {
            database: namespace.database,
            command: seq![("validate"@, document::Value::Text(namespace.collection))],
        }),
{
}

/// What the answer to a check makes of a visit. A sound collection is done with. A damaged one is
/// repaired, and that is said, where it had not been yet; after a repair it is said to be damaged
/// still. A scan that threw, and a command that failed, leave it unchecked.
pub proof fn a_visit_repairs_what_is_damaged_and_nothing_else(
    namespace: NamespaceView,
    response: bson::Document,
    failure: Error,
    stage: Stage,
)
    ensures
        ({
            let reply = document::fields(response);
            let threw = one_says_it_threw(texts_of(reply, "warnings"@));
            let (checked, said) = (VisitView { namespace, stage: Stage::Check }).answered(
                Ok(response),
            );
            let (confirmed, said_then) = (VisitView { namespace, stage: Stage::Confirm }).answered(
                Ok(response),
            );
            &&& threw ==> checked is Unfinished && confirmed is Unfinished && said is None
                && said_then is None
            &&& !threw && is_called_sound(reply) ==> checked is Visited && confirmed is Visited
                && said is None && said_then is None
            &&& !threw && !is_called_sound(reply) ==> {
                &&& checked == VisitNext::Send(VisitView { namespace, stage: Stage::Repair })
                &&& confirmed is Visited
                &&& said matches Some(NoticeView::Damaged(damage)) && damage.errors == texts_of(
                    reply,
                    "errors"@,
                )
                &&& said_then matches Some(NoticeView::StillDamaged(damage)) && damage.errors
                    == texts_of(reply, "errors"@)
            }
            &&& (VisitView { namespace, stage }).answered(Err(failure)) == (
                VisitNext::Failed,
                None::<NoticeView>,
            )
        }),
{
    a_collection_is_what_its_answer_says(document::fields(response));
}

/// A scan that did not finish is reported with the collection it was on and the engine's reason.
pub proof fn an_unfinished_scan_says_where_and_why(namespace: NamespaceView, reason: Seq<char>)
    ensures
        visit::unfinished_reason(namespace, reason) == "validate on "@ + (namespace.database
            + seq!['.'] + namespace.collection) + " did not finish: "@ + reason,
{
    crate::laws::words::a_namespace_is_dotted(namespace);
}

/// The commands of a listing: the databases of the engine, and the collections of each of them.
pub proof fn listing_commands_are_spelled_out(
    entries: Seq<document::Value>,
    at: int,
    name: Seq<char>,
    entry: document::Fields,
    found: Seq<NamespaceView>,
)
    requires
        0 <= at < entries.len(),
        entries[at] == document::Value::Document(entry),
        document::field(entry, "name"@) == Some(document::Value::Text(name)),
    ensures
        commands::listing_fields("listDatabases"@) == seq![
            ("listDatabases"@, document::Value::Int32(1)),
            ("nameOnly"@, document::Value::Boolean(true)),
        ],
        commands::turned_to(entries, at, found) == ListingNext::Send(
            ListingView { stage: StageView::Collections, entries, at, database: name, found },
            RequestView {
                database: name,
                command: seq![
                    ("listCollections"@, document::Value::Int32(1)),
                    ("nameOnly"@, document::Value::Boolean(true)),
                ],
            },
        ),
        commands::turned_to(entries, entries.len() as int, found) == ListingNext::Done(
            entries.len(),
            found,
        ),
{
}

/// Only an entry whose type is the word `view` is passed over: any other type, and none at all, is
/// that of a collection.
pub proof fn only_views_are_passed_over(entry: document::Fields)
    ensures
        !commands::names_collection(entry) <==> (document::field(entry, "type"@) matches Some(
            document::Value::Text(kind),
        ) && kind == "view"@),
        match document::field(entry, "name"@) {
            Some(document::Value::Text(name)) => commands::entry_name(entry) == Some(name),
            _ => commands::entry_name(entry) is None,
        },
        commands::database_name(document::Value::Document(entry)) == commands::entry_name(entry),
{
}

/// The collections that a database is found to hold are those of its entries that are no view, by
/// the names they carry, every one of them and in order.
pub proof fn what_is_selected_is_every_collection(
    database: Seq<char>,
    entries: Seq<document::Fields>,
)
    ensures
        commands::selected(database, entries) == entries.filter(
            |entry: document::Fields|
                document::field(entry, "type"@) != Some(document::Value::Text("view"@)),
        ).map_values(
            |entry: document::Fields|
                NamespaceView { database, collection: commands::entry_name(entry)->0 },
        ),
    decreases entries.len(),
{
    let stays = |entry: document::Fields|
        document::field(entry, "type"@) != Some(document::Value::Text("view"@));
    let called = |entry: document::Fields|
        NamespaceView { database, collection: commands::entry_name(entry)->0 };
    if entries.len() == 0 {
        reveal(Seq::filter);
        assert(entries.filter(stays).map_values(called) =~= seq![]);
    } else {
        let first = seq![entries[0]];
        let rest = entries.drop_first();
        what_is_selected_is_every_collection(database, rest);
        assert(first + rest =~= entries);
        Seq::filter_distributes_over_add(first, rest, stays);
        assert(first.filter(stays) =~= if stays(entries[0]) {
            first
        } else {
            seq![]
        }) by {
            reveal(Seq::filter);
            assert(first.drop_last() =~= seq![]);
            assert(Seq::<document::Fields>::empty().filter(stays) =~= seq![]);
        }
        assert(entries.filter(stays).map_values(called) =~= first.filter(stays).map_values(called)
            + rest.filter(stays).map_values(called));
        assert(first.map_values(called) =~= seq![called(entries[0])]);
        assert(Seq::<document::Fields>::empty().map_values(called) =~= seq![]);
    }
}

/// No collection is missed: every entry of every batch of every database that is no view and
/// carries a name is among what a whole directory is found to hold, under the name of its database
/// and its own.
pub proof fn no_collection_is_missed(
    directory: Seq<DatabaseEntries>,
    d: int,
    b: int,
    e: int,
    name: Seq<char>,
)
    requires
        0 <= d < directory.len(),
        0 <= b < directory[d].batches.len(),
        0 <= e < directory[d].batches[b].1.len(),
        document::field(directory[d].batches[b].1[e], "type"@) != Some(
            document::Value::Text("view"@),
        ),
        document::field(directory[d].batches[b].1[e], "name"@) == Some(document::Value::Text(name)),
    ensures
        commands::all_selected(directory).contains(
            NamespaceView { database: directory[d].name, collection: name },
        ),
    decreases directory.len(),
{
    let here = directory[0];
    let first = commands::selected(here.name, find::joined(here.batches));
    let later = commands::all_selected(directory.drop_first());
    let wanted = NamespaceView { database: directory[d].name, collection: name };
    if d == 0 {
        let at = lemma_every_entry_is_joined(here.batches, b, e);
        let k = lemma_every_collection_is_selected(here.name, find::joined(here.batches), at);
        assert((first + later)[k] == wanted);
    } else {
        let rest = directory.drop_first();
        assert(rest[d - 1] == directory[d]);
        no_collection_is_missed(rest, d - 1, b, e, name);
        let k = choose|k: int| 0 <= k < later.len() && later[k] == wanted;
        assert((first + later)[first.len() + k] == wanted);
    }
}

proof fn lemma_every_entry_is_joined(
    batches: Seq<(i64, Seq<document::Fields>)>,
    b: int,
    e: int,
) -> (at: int)
    requires
        0 <= b < batches.len(),
        0 <= e < batches[b].1.len(),
    ensures
        0 <= at < find::joined(batches).len(),
        find::joined(batches)[at] == batches[b].1[e],
    decreases batches.len(),
{
    if b == 0 {
        e
    } else {
        let rest = batches.drop_first();
        assert(rest[b - 1] == batches[b]);
        batches[0].1.len() + lemma_every_entry_is_joined(rest, b - 1, e)
    }
}

proof fn lemma_every_collection_is_selected(
    database: Seq<char>,
    entries: Seq<document::Fields>,
    at: int,
) -> (k: int)
    requires
        0 <= at < entries.len(),
        document::field(entries[at], "type"@) != Some(document::Value::Text("view"@)),
        commands::entry_name(entries[at]) is Some,
    ensures
        0 <= k < commands::selected(database, entries).len(),
        commands::selected(database, entries)[k] == (NamespaceView {
            database,
            collection: commands::entry_name(entries[at])->0,
        }),
    decreases entries.len(),
{
    if at == 0 {
        0
    } else {
        let rest = entries.drop_first();
        assert(rest[at - 1] == entries[at]);
        let k = lemma_every_collection_is_selected(database, rest, at - 1);
        if commands::names_collection(entries[0]) {
            k + 1
        } else {
            k
        }
    }
}

/// A listing that fails gives up the cursor it was reading: with the very id the engine knows it
/// by, on the database it was opened on, and only where the engine still holds one.
pub proof fn a_failed_listing_gives_its_cursor_up(
    listing: ListingView,
    cursor: CursorView,
    failure: Error,
)
    requires
        listing.stage == StageView::Batch(cursor),
    ensures
        commands::kill_request(cursor) == if cursor.id == 0 {
            None
        } else {
            Some(
                RequestView {
                    database: cursor.database,
                    command: seq![
                        ("killCursors"@, document::Value::Text(cursor.collection)),
                        ("cursors"@, document::Value::Array(seq![document::Value::Int64(cursor.id)])),
                    ],
                },
            )
        },
        listing.answered(Err(failure)) == ListingNext::Failed(
            Failure::Reply,
            commands::kill_request(cursor),
        ),
{
}

/// A listing goes on with the id that was answered it, for as long as that is not zero, under the
/// name that cursors over collections go by; and it turns to the next database once it is.
pub proof fn a_listing_goes_on_to_the_end_of_its_cursor(
    listing: ListingView,
    response: bson::Document,
    id: i64,
    documents: Seq<document::Fields>,
)
    requires
        listing.stage is Collections,
        find::read_batch(document::fields(response), "firstBatch"@) == Ok::<
            (i64, Seq<document::Fields>),
            Seq<char>,
        >((id, documents)),
        commands::are_named(documents),
    ensures
        id != 0 ==> {
            let next = listing.answered(Ok(response));
            &&& next is Send
            &&& next->Send_1 == RequestView {
                database: listing.database,
                command: seq![
                    ("getMore"@, document::Value::Int64(id)),
                    ("collection"@, document::Value::Text("$cmd.listCollections"@)),
                ],
            }
            &&& next->Send_0.found == listing.found + commands::selected(
                listing.database,
                documents,
            )
            &&& next->Send_0.at == listing.at
            &&& next->Send_0.entries == listing.entries
        },
        id == 0 ==> listing.answered(Ok(response)) == commands::turned_to(
            listing.entries,
            listing.at + 1,
            listing.found + commands::selected(listing.database, documents),
        ),
{
    let cursor = CursorView {
        database: listing.database,
        collection: "$cmd.listCollections"@,
        id,
        documents,
        finished: false,
    };
    commands::lemma_drained(listing.database, cursor, listing.found);
    let (after, found, end) = commands::drained(listing.database, cursor, listing.found);
    if id != 0 {
        lemma_fetches_by_its_id(listing.database, cursor, listing.found);
    }
}

proof fn lemma_fetches_by_its_id(
    database: Seq<char>,
    cursor: CursorView,
    found: Seq<NamespaceView>,
)
    requires
        !cursor.finished,
        cursor.id != 0,
        commands::drained(database, cursor, found).2 is Fetch,
    ensures
        commands::drained(database, cursor, found).2 == Drained::Fetch(
            seq![
                ("getMore"@, document::Value::Int64(cursor.id)),
                ("collection"@, document::Value::Text(cursor.collection)),
            ],
        ),
    decreases cursor.documents.len(),
{
    if cursor.documents.len() > 0 {
        let (after, _) = cursor.next();
        let entry = cursor.documents[0];
        if !commands::names_collection(entry) {
            lemma_fetches_by_its_id(database, after, found);
        } else if let Some(collection) = commands::entry_name(entry) {
            lemma_fetches_by_its_id(
                database,
                after,
                found.push(NamespaceView { database, collection }),
            );
        }
    }
}

/// A listing fails with the reason a reply is no batch for; and, where an entry that is no view
/// carries no name, says so. Either way it gives up the cursor that the engine holds for it.
pub proof fn a_listing_fails_over_a_batch_it_cannot_use(
    listing: ListingView,
    cursor: CursorView,
    response: bson::Document,
)
    ensures
        listing.stage is Collections ==> match find::read_batch(
            document::fields(response),
            "firstBatch"@,
        ) {
            Err(reason) => listing.answered(Ok(response)) == ListingNext::Failed(
                Failure::Invalid(reason),
                None,
            ),
            Ok((id, documents)) => !commands::are_named(documents) ==> {
                let end = listing.answered(Ok(response));
                &&& end is Failed
                &&& end->Failed_0 == Failure::Invalid(
                    "listCollections response has an entry without a name"@,
                )
                &&& id == 0 ==> end->Failed_1 is None
                &&& id != 0 ==> end->Failed_1 == Some(
                    RequestView {
                        database: listing.database,
                        command: seq![
                            (
                                "killCursors"@,
                                document::Value::Text("$cmd.listCollections"@),
                            ),
                            (
                                "cursors"@,
                                document::Value::Array(seq![document::Value::Int64(id)]),
                            ),
                        ],
                    },
                )
            },
        },
        listing.stage == StageView::Batch(cursor) && find::read_batch(
            document::fields(response),
            "nextBatch"@,
        ) is Err ==> listing.answered(Ok(response)) == ListingNext::Failed(
            Failure::Invalid(
                find::read_batch(document::fields(response), "nextBatch"@)->Err_0,
            ),
            commands::kill_request(cursor),
        ),
{
    if listing.stage is Collections {
        if let Ok((id, documents)) = find::read_batch(
            document::fields(response),
            "firstBatch"@,
        ) {
            let opened = CursorView {
                database: listing.database,
                collection: "$cmd.listCollections"@,
                id,
                documents,
                finished: false,
            };
            lemma_stays_the_same_cursor(listing.database, opened, listing.found);
            if !commands::are_named(documents) {
                commands::lemma_stops_at_unnamed(listing.database, opened, listing.found);
            }
        }
    }
}

proof fn lemma_stays_the_same_cursor(
    database: Seq<char>,
    cursor: CursorView,
    found: Seq<NamespaceView>,
)
    ensures
        commands::drained(database, cursor, found).0.id == cursor.id,
        commands::drained(database, cursor, found).0.database == cursor.database,
        commands::drained(database, cursor, found).0.collection == cursor.collection,
    decreases cursor.documents.len(),
{
    if cursor.documents.len() > 0 {
        let (after, _) = cursor.next();
        let entry = cursor.documents[0];
        if !commands::names_collection(entry) {
            lemma_stays_the_same_cursor(database, after, found);
        } else if let Some(collection) = commands::entry_name(entry) {
            lemma_stays_the_same_cursor(
                database,
                after,
                found.push(NamespaceView { database, collection }),
            );
        }
    }
}

/// What a listing that cannot go on is failed with.
pub proof fn a_listing_that_cannot_go_on_says_why(
    response: bson::Document,
    entries: Seq<document::Value>,
    at: int,
    found: Seq<NamespaceView>,
    failure: Error,
)
    ensures
        !(document::field(document::fields(response), "databases"@) matches Some(
            document::Value::Array(_),
        )) ==> ListingView::start().answered(Ok(response)) == ListingNext::Failed(
            Failure::Invalid("listDatabases response has no databases array"@),
            None,
        ),
        0 <= at < entries.len() && !(entries[at] matches document::Value::Document(entry)
            && document::field(entry, "name"@) matches Some(document::Value::Text(_)))
            ==> commands::turned_to(entries, at, found) == ListingNext::Failed(
            Failure::Invalid("listDatabases response has an entry without a name"@),
            None,
        ),
        ListingView::start().answered(Err(failure)) == ListingNext::Failed(Failure::Reply, None),
{
}

/// A marker counts exactly where its first line is the record, alone in the file or ended by a
/// line feed, with or without a carriage return before that. Whatever stands behind is not read,
/// and a file that cannot be read does not count.
pub proof fn a_marker_counts_by_its_first_line(contents: Seq<char>)
    ensures
        marker::state_of(Some(contents)) == MarkerState::Recorded <==> {
            let record = "embedded-mongodb index repair v1"@;
            ||| contents == record
            ||| (record + seq!['\n']).is_prefix_of(contents)
            ||| (record + seq!['\r', '\n']).is_prefix_of(contents)
        },
        marker::state_of(None) == MarkerState::Missing,
{
    reveal_strlit("embedded-mongodb index repair v1");
    let record = "embedded-mongodb index repair v1"@;
    assert(record.len() == 32 && record[31] == '1');
    assert(forall|i: int| 0 <= i < record.len() ==> #[trigger] record[i] != '\n');
    lemma_line_feed(contents);
    let end = marker::line_feed(contents);
    let fed = record + seq!['\n'];
    let returned = record + seq!['\r', '\n'];
    if marker::state_of(Some(contents)) == MarkerState::Recorded {
        if end < contents.len() && end > 0 && contents[end - 1] == '\r' {
            assert(contents.take(end - 1) == record);
            assert(contents.take(34) =~= returned) by {
                assert(forall|i: int| 0 <= i < 32 ==> contents[i] == contents.take(end - 1)[i]);
            }
        } else {
            assert(contents.take(end) == record);
            if end < contents.len() {
                assert(contents.take(33) =~= fed) by {
                    assert(forall|i: int| 0 <= i < 32 ==> contents[i] == contents.take(end)[i]);
                }
            } else {
                assert(contents.take(end) =~= contents);
            }
        }
    }
    if contents == record {
        assert(end == 32);
        assert(contents.take(32) =~= record);
    }
    if fed.is_prefix_of(contents) {
        let front = contents.subrange(0, 33);
        assert(forall|i: int| 0 <= i < 33 ==> contents[i] == front[i] && front[i] == fed[i]);
        assert(contents[32] == '\n' && contents[31] == '1');
        assert(forall|i: int| 0 <= i < 32 ==> contents[i] == record[i]);
        assert(end == 32);
        assert(contents.take(32) =~= record);
    }
    if returned.is_prefix_of(contents) {
        let front = contents.subrange(0, 34);
        assert(forall|i: int| 0 <= i < 34 ==> contents[i] == front[i] && front[i] == returned[i]);
        assert(contents[33] == '\n' && contents[32] == '\r');
        assert(forall|i: int| 0 <= i < 32 ==> contents[i] == record[i]);
        assert(end == 33);
        assert(contents.take(32) =~= record);
    }
}

proof fn lemma_line_feed(contents: Seq<char>)
    ensures
        0 <= marker::line_feed(contents) <= contents.len(),
        forall|i: int| 0 <= i < marker::line_feed(contents) ==> #[trigger] contents[i] != '\n',
        marker::line_feed(contents) < contents.len() ==> contents[marker::line_feed(contents)]
            == '\n',
    decreases contents.len(),
{
    if contents.len() > 0 && contents[0] != '\n' {
        let rest = contents.drop_first();
        lemma_line_feed(rest);
        assert forall|i: int| 0 <= i < marker::line_feed(contents) implies #[trigger] contents[i]
            != '\n' by {
            if i > 0 {
                assert(rest[i - 1] == contents[i]);
            }
        }
    }
}

/// What is written into a marker starts with the line that it counts by.
pub proof fn a_marker_is_written_with_its_record_first()
    ensures
        ("embedded-mongodb index repair v1"@ + seq!['\n']).is_prefix_of(
            marker::recorded_contents(),
        ),
{
    reveal_strlit("embedded-mongodb index repair v1");
    reveal_strlit("\n");
    let line = "embedded-mongodb index repair v1"@ + seq!['\n'];
    assert(marker::recorded_contents().subrange(0, line.len() as int) =~= line);
}

/// A directory is marked in exactly two cases: it was new, or every collection of it was visited
/// with success. A sweep is complete exactly where every visit was.
pub proof fn a_directory_is_marked_when_new_or_visited_throughout(
    plan: Plan,
    outcome: Option<Outcome>,
    results: Seq<Result<(), Error>>,
    i: int,
)
    ensures
        pass::is_marked(plan, outcome) <==> plan == Plan::MarkAtBirth || (plan == Plan::Check
            && outcome == Some(Outcome::Complete)),
        0 <= i < results.len() && results[i] is Err ==> pass::swept(results)
            == Outcome::Incomplete,
        pass::swept(results) == Outcome::Incomplete ==> exists|k: int|
            0 <= k < results.len() && (#[trigger] results[k]) is Err,
{
}

/// The names that others go by: the files of a data directory, the variable that leaves the pass
/// out, and the file whose presence says that an engine has been here.
pub proof fn the_names_others_go_by()
    ensures
        marker::FILE_NAME@ == ".embedded-mongodb-index-repair"@,
        marker::PARTIAL_FILE_NAME@ == ".embedded-mongodb-index-repair.partial"@,
        pass::SKIP_VARIABLE@ == "EMBEDDED_MONGODB_SKIP_INDEX_REPAIR"@,
        pass::ENGINE_FILE@ == "WiredTiger"@,
{
}

/// A listing is swept exactly where it succeeded, and found a collection or no database at all.
pub proof fn a_listing_is_swept_where_it_can_be_believed(listed: Result<Catalog, Error>)
    ensures
        pass::is_sweepable(listed) <==> (listed matches Ok(catalog) && (catalog.databases == 0
            || catalog.namespaces@.len() > 0)),
{
}

/// What an open does about the pass: nothing where it was asked not to, whatever else is true;
/// nothing where the directory is recorded; a mark and no scan where the directory is new; and a
/// check of everything in every other case, and in no other. A directory is new exactly where the
/// engine's file is not in it.
pub proof fn an_open_checks_what_is_old_and_not_recorded(
    skip: bool,
    marker: MarkerState,
    engine_file: bool,
    origin: Origin,
    plan: Plan,
)
    requires
        call_ensures(pass::origin, (engine_file,), origin),
        call_ensures(pass::plan, (skip, marker, origin), plan),
    ensures
        plan == Plan::Skip <==> skip,
        plan == Plan::AlreadyDone <==> !skip && marker == MarkerState::Recorded,
        plan == Plan::MarkAtBirth <==> !skip && marker == MarkerState::Missing && !engine_file,
        plan == Plan::Check <==> !skip && marker == MarkerState::Missing && engine_file,
{
}

/// Whether a word is one of the four that leave the pass out: a one, `true`, `yes` or `on`, each
/// letter in either case.
pub open spec fn is_switch(word: Seq<char>) -> bool {
    ||| word.len() == 1 && word[0] == '1'
    ||| word.len() == 2 && (word[0] == 'o' || word[0] == 'O') && (word[1] == 'n' || word[1] == 'N')
    ||| {
        &&& word.len() == 3
        &&& word[0] == 'y' || word[0] == 'Y'
        &&& word[1] == 'e' || word[1] == 'E'
        &&& word[2] == 's' || word[2] == 'S'
    }
    ||| {
        &&& word.len() == 4
        &&& word[0] == 't' || word[0] == 'T'
        &&& word[1] == 'r' || word[1] == 'R'
        &&& word[2] == 'u' || word[2] == 'U'
        &&& word[3] == 'e' || word[3] == 'E'
    }
}

/// Whether a text is white space alone.
pub open spec fn is_blank(part: Seq<char>) -> bool {
    forall|i: int| 0 <= i < part.len() ==> text::is_space(#[trigger] part[i])
}

/// Whether a value is one of the four words, with white space around it.
pub open spec fn is_switch_in_blanks(
    value: Seq<char>,
    front: Seq<char>,
    word: Seq<char>,
    back: Seq<char>,
) -> bool {
    value == front + word + back && is_blank(front) && is_switch(word) && is_blank(back)
}

/// The pass is left out exactly where the variable holds one of the four words, with nothing but
/// white space around it.
pub proof fn the_pass_is_left_out_by_four_words(value: Seq<char>)
    ensures
        pass::is_affirmative(value) <==> exists|front: Seq<char>, word: Seq<char>, back: Seq<char>|
            #[trigger] is_switch_in_blanks(value, front, word, back),
{
    if pass::is_affirmative(value) {
        let word = choose|trimmed: Seq<char>| #[trigger]
            text::is_trimmed(value, trimmed) && {
                ||| text::agree_ignoring_case(trimmed, "1"@)
                ||| text::agree_ignoring_case(trimmed, "true"@)
                ||| text::agree_ignoring_case(trimmed, "yes"@)
                ||| text::agree_ignoring_case(trimmed, "on"@)
            };
        let (start, end) = choose|start: int, end: int| #[trigger]
            text::is_trimmed_range(value, start, end) && word == value.subrange(start, end);
        let front = value.take(start);
        let back = value.skip(end);
        assert(value =~= front + word + back);
        lemma_is_a_switch(word);
        assert(is_switch_in_blanks(value, front, word, back));
    }
    if exists|front: Seq<char>, word: Seq<char>, back: Seq<char>| #[trigger]
        is_switch_in_blanks(value, front, word, back) {
        let (front, word, back) = choose|front: Seq<char>, word: Seq<char>, back: Seq<char>|
            #[trigger]
            is_switch_in_blanks(value, front, word, back);
        lemma_is_trimmed(value, front, word, back);
        lemma_is_a_switch(word);
    }
}

proof fn lemma_is_trimmed(value: Seq<char>, front: Seq<char>, word: Seq<char>, back: Seq<char>)
    requires
        is_switch_in_blanks(value, front, word, back),
    ensures
        text::is_trimmed(value, word),
{
    let start = front.len() as int;
    let end = start + word.len();
    assert(value[start] == word[0]);
    assert(value[end - 1] == word[word.len() - 1]);
    assert forall|i: int| 0 <= i < start implies text::is_space(#[trigger] value[i]) by {
        assert(value[i] == front[i]);
    }
    assert forall|i: int| end <= i < value.len() implies text::is_space(#[trigger] value[i]) by {
        assert(value[i] == back[i - end]);
    }
    assert(text::is_trimmed_range(value, start, end));
    assert(value.subrange(start, end) =~= word);
}

proof fn lemma_is_a_switch(word: Seq<char>)
    ensures
        is_switch(word) <==> {
            ||| text::agree_ignoring_case(word, "1"@)
            ||| text::agree_ignoring_case(word, "true"@)
            ||| text::agree_ignoring_case(word, "yes"@)
            ||| text::agree_ignoring_case(word, "on"@)
        },
{
    reveal_strlit("1");
    reveal_strlit("on");
    reveal_strlit("yes");
    reveal_strlit("true");
    lemma_agrees(word, "1"@);
    lemma_agrees(word, "on"@);
    lemma_agrees(word, "yes"@);
    lemma_agrees(word, "true"@);
    let one = "1"@;
    let on = "on"@;
    let yes = "yes"@;
    let affirmed = "true"@;
    assert(one.len() == 1 && one[0] == '1');
    assert(on.len() == 2 && on[0] == 'o' && on[1] == 'n');
    assert(yes.len() == 3 && yes[0] == 'y' && yes[1] == 'e' && yes[2] == 's');
    assert(affirmed.len() == 4 && affirmed[0] == 't' && affirmed[1] == 'r' && affirmed[2] == 'u'
        && affirmed[3] == 'e');
}

proof fn lemma_agrees(one: Seq<char>, other: Seq<char>)
    ensures
        text::agree_ignoring_case(one, other) <==> one.len() == other.len() && forall|i: int|
            0 <= i < one.len() ==> text::lower(one[i]) == text::lower(#[trigger] other[i]),
{
    let small = |character: char| text::lower(character);
    if text::agree_ignoring_case(one, other) {
        assert(one.map_values(small).len() == other.map_values(small).len());
        assert forall|i: int| 0 <= i < one.len() implies text::lower(one[i]) == text::lower(
            #[trigger] other[i],
        ) by {
            assert(one.map_values(small)[i] == other.map_values(small)[i]);
        }
    }
    if one.len() == other.len() && forall|i: int|
        0 <= i < one.len() ==> text::lower(one[i]) == text::lower(#[trigger] other[i]) {
        assert(one.map_values(small) =~= other.map_values(small));
    }
}

} // verus!
