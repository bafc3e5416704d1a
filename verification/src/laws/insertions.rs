//! Insertions.

use crate::collection::Collection;
use crate::command::Request;
use crate::document;
use crate::error::Error;
use crate::find;
use crate::insert;
use crate::text;
use std::collections::HashMap;
use vstd::prelude::*;

verus! {

/// A document is inserted as it was given. One that carries an id is sent field for field
/// unchanged and under that id; one that carries none is sent with all its fields, in their order,
/// and an object id behind them. So whatever the key, what is sent holds under it what was given,
/// but for an id where there was none.
pub proof fn a_document_is_inserted_as_it_was_given(
    given: document::Fields,
    sent: document::Fields,
    id: document::Value,
    key: Seq<char>,
)
    requires
        insert::is_identified(given, sent, id),
    ensures
        document::field(given, "_id"@) is Some ==> sent == given && Some(id) == document::field(
            given,
            "_id"@,
        ),
        document::field(given, "_id"@) is None ==> {
            &&& sent.len() == given.len() + 1
            &&& sent.last() == ("_id"@, id)
            &&& id is ObjectId
            &&& id->ObjectId_0.len() == 12
        },
        given.is_prefix_of(sent),
        document::field(sent, "_id"@) == Some(id),
        key != "_id"@ || document::field(given, "_id"@) is Some ==> document::field(sent, key)
            == document::field(given, key),
{
    broadcast use document::lemma_field_of_push;

}

/// The same of several documents: as many are sent as were given, each as it was given and under
/// the id that is answered for its position, and no other position has an id.
pub proof fn documents_are_inserted_as_they_were_given(
    given: Seq<bson::Document>,
    sent: Seq<bson::Document>,
    ids: Map<usize, bson::Bson>,
    i: usize,
    key: Seq<char>,
)
    requires
        insert::are_identified(given, sent, ids),
    ensures
        sent.len() == given.len(),
        ids.dom().contains(i) <==> i < given.len(),
        i < given.len() ==> {
            let before = document::fields(given[i as int]);
            let after = document::fields(sent[i as int]);
            let id = document::value(ids[i]);
            &&& document::field(after, "_id"@) == Some(id)
            &&& document::field(before, "_id"@) is Some ==> after == before
            &&& document::field(before, "_id"@) is None ==> after == before.push(("_id"@, id))
                && id is ObjectId
            &&& key != "_id"@ || document::field(before, "_id"@) is Some ==> document::field(
                after,
                key,
            ) == document::field(before, key)
        },
{
    assert(ids.contains_key(i) <==> i < given.len());
    if i < given.len() {
        let id = ids[i];
        a_document_is_inserted_as_it_was_given(
            document::fields(given[i as int]),
            document::fields(sent[i as int]),
            document::value(id),
            key,
        );
    }
}

/// The command of an insertion carries every document that was given, at its position and as it
/// was given: a document that carries an id unchanged, and every field of one that carries none.
pub proof fn an_insertion_carries_what_was_given(
    command: document::Fields,
    collection: Seq<char>,
    given: Seq<bson::Document>,
    ids: Map<usize, bson::Bson>,
    i: usize,
    key: Seq<char>,
)
    requires
        insert::is_insertion(command, collection, given, ids),
        i < given.len(),
    ensures
        document::field(command, "insert"@) == Some(document::Value::Text(collection)),
        document::field(command, "documents"@) is Some,
        document::field(command, "documents"@)->0 is Array,
        ({
            let sent = document::field(command, "documents"@)->0->Array_0;
            let before = document::fields(given[i as int]);
            let carried = document::field(before, "_id"@);
            &&& sent.len() == given.len()
            &&& sent[i as int] is Document
            &&& {
                let after = sent[i as int]->Document_0;
                &&& document::field(after, "_id"@) == Some(document::value(ids[i]))
                &&& carried is Some ==> after == before && carried == Some(document::value(ids[i]))
                &&& carried is None ==> document::value(ids[i]) is ObjectId
                &&& key != "_id"@ ==> document::field(after, key) == document::field(before, key)
            }
        }),
{
    reveal_with_fuel(document::field, 3);
    reveal_strlit("insert");
    reveal_strlit("documents");
    assert("insert"@.len() != "documents"@.len());
    let sent = choose|sent: Seq<bson::Document>| #[trigger]
        insert::are_identified(given, sent, ids) && command == insert::insert_fields(
            collection,
            find::contents(sent),
        );
    documents_are_inserted_as_they_were_given(given, sent, ids, i, key);
    insert_commands_are_spelled_out(collection, find::contents(sent));
    assert(command.drop_last().last() == command[0]);
}

/// The request that inserts one document carries that one as it was given: whatever the key, what
/// is sent holds under it what was given, but for an id where there was none; and the id answered
/// is the one it is sent under.
pub proof fn one_document_is_sent_as_it_was_given(
    collection: Collection,
    given: bson::Document,
    request: Request,
    id: bson::Bson,
    key: Seq<char>,
)
    requires
        call_ensures(Collection::insert_one, (&collection, given), (request, id)),
    ensures
        request@.database == collection.spec_database(),
        ({
            let before = document::fields(given);
            let sent = document::field(request@.command, "documents"@);
            &&& document::field(request@.command, "insert"@) == Some(
                document::Value::Text(collection.spec_name()),
            )
            &&& sent is Some
            &&& sent->0 is Array
            &&& sent->0->Array_0.len() == 1
            &&& sent->0->Array_0[0] is Document
            &&& {
                let after = sent->0->Array_0[0]->Document_0;
                &&& document::field(after, "_id"@) == Some(document::value(id))
                &&& document::field(before, "_id"@) is Some ==> after == before
                &&& key != "_id"@ ==> document::field(after, key) == document::field(before, key)
            }
        }),
{
    broadcast use document::lemma_field_of_push;

    reveal_with_fuel(document::field, 3);
    reveal_strlit("insert");
    reveal_strlit("documents");
    assert("insert"@.len() != "documents"@.len());
    let command = request@.command;
    assert(command.drop_last().last() == command[0]);
}

/// The request that inserts several documents carries every one of them so, at its position; and
/// it is refused exactly where there is none to insert.
pub proof fn many_documents_are_sent_as_they_were_given(
    collection: Collection,
    given: Vec<bson::Document>,
    result: Result<(Request, HashMap<usize, bson::Bson>), Error>,
    i: usize,
    key: Seq<char>,
)
    requires
        call_ensures(Collection::insert_many, (&collection, given), result),
    ensures
        result is Ok <==> given@.len() > 0,
        result is Ok && i < given@.len() ==> {
            let (request, ids) = result->Ok_0;
            let before = document::fields(given@[i as int]);
            let sent = document::field(request@.command, "documents"@);
            &&& request@.database == collection.spec_database()
            &&& document::field(request@.command, "insert"@) == Some(
                document::Value::Text(collection.spec_name()),
            )
            &&& sent is Some
            &&& sent->0 is Array
            &&& sent->0->Array_0.len() == given@.len()
            &&& sent->0->Array_0[i as int] is Document
            &&& {
                let after = sent->0->Array_0[i as int]->Document_0;
                &&& document::field(after, "_id"@) == Some(document::value(ids@[i]))
                &&& document::field(before, "_id"@) is Some ==> after == before
                &&& key != "_id"@ ==> document::field(after, key) == document::field(before, key)
            }
        },
{
    if result is Ok && i < given@.len() {
        let (request, ids) = result->Ok_0;
        an_insertion_carries_what_was_given(
            request@.command,
            collection.spec_name(),
            given@,
            ids@,
            i,
            key,
        );
    }
}

/// The command of an insertion carries the collection and every document, in order, under the
/// names the server reads them by.
pub proof fn insert_commands_are_spelled_out(
    collection: Seq<char>,
    documents: Seq<document::Fields>,
)
    ensures
        insert::insert_fields(collection, documents) == seq![
            ("insert"@, document::Value::Text(collection)),
            (
                "documents"@,
                document::Value::Array(
                    Seq::new(documents.len(), |i: int| document::Value::Document(documents[i])),
                ),
            ),
        ],
{
    assert(insert::insert_fields(collection, documents)[1].1->Array_0 =~= Seq::new(
        documents.len(),
        |i: int| document::Value::Document(documents[i]),
    ));
}

/// Whether a reply that counts `count` documents is complained of exactly where that is not the
/// number expected, naming both.
pub open spec fn is_judged(response: document::Fields, count: int, expected: usize) -> bool {
    insert::count_complaint(response, expected) == if count == expected {
        None
    } else {
        Some(
            "inserted "@ + text::decimal(count as nat) + " documents, expected "@ + text::decimal(
                expected as nat,
            ),
        )
    }
}

/// An insertion succeeds exactly where the engine says that it inserted as many documents as it
/// was sent, in whichever width it says so; where it names another number that number and the
/// expected one are both reported.
pub proof fn an_insertion_is_held_to_its_count(response: document::Fields, expected: usize)
    ensures
        match document::field(response, "n"@) {
            Some(document::Value::Int32(count)) if 0 <= count => {
                is_judged(response, count as int, expected)
            },
            Some(document::Value::Int64(count)) if 0 <= count <= usize::MAX => {
                is_judged(response, count as int, expected)
            },
            _ => insert::count_complaint(response, expected) == Some(
                "insert response has no valid n field"@,
            ),
        },
{
}

} // verus!
