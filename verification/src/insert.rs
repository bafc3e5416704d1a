//! Insertions: the ids documents are given, the command they go in, and what its reply is held
//! to.

use crate::aggregate;
use crate::aggregate::to_array;
use crate::document;
use crate::document::{Node, ValueRef};
use crate::error::Error;
use crate::find;
use crate::text;
use std::collections::HashMap;
use vstd::prelude::*;

verus! {

/// What an insertion of one document comes to.
#[derive(Clone, Debug, PartialEq)]
pub struct InsertOneResult {
    pub inserted_id: bson::Bson,
}

/// What an insertion of several documents comes to: the id of each, by its position.
#[derive(Clone, Debug, PartialEq)]
pub struct InsertManyResult {
    pub inserted_ids: HashMap<usize, bson::Bson>,
}

/// Whether `after` is the document `before` as it is inserted, and `id` the id it is inserted
/// under: the one it carries, or a new object id added at its end where it carries none.
pub open spec fn is_identified(
    before: document::Fields,
    after: document::Fields,
    id: document::Value,
) -> bool {
    match document::field(before, "_id"@) {
        Some(carried) => after == before && id == carried,
        None => {
            &&& id is ObjectId
            &&& id->ObjectId_0.len() == 12
            &&& after == before.push(("_id"@, id))
        },
    }
}

/// A document is inserted under the id that is answered for it.
pub proof fn answered_id_is_the_inserted_one(
    before: document::Fields,
    after: document::Fields,
    id: document::Value,
)
    requires
        is_identified(before, after, id),
    ensures
        document::field(after, "_id"@) == Some(id),
{
    broadcast use document::lemma_field_of_push;

}

/// The fields of the command that inserts documents.
pub open spec fn insert_fields(
    collection: Seq<char>,
    documents: Seq<document::Fields>,
) -> document::Fields {
    seq![
        ("insert"@, document::Value::Text(collection)),
        ("documents"@, document::Value::Array(aggregate::as_values(documents))),
    ]
}

/// How many documents a reply says were inserted, where it says so with a count.
pub open spec fn inserted_count(response: document::Fields) -> Option<int> {
    match document::field(response, "n"@) {
        Some(document::Value::Int32(count)) if 0 <= count => Some(count as int),
        Some(document::Value::Int64(count)) if 0 <= count <= usize::MAX => Some(count as int),
        _ => None,
    }
}

/// Why a reply to an insertion of `expected` documents is not the one it should be, if it is
/// not.
pub open spec fn count_complaint(response: document::Fields, expected: usize) -> Option<Seq<char>> {
    match inserted_count(response) {
        None => Some("insert response has no valid n field"@),
        Some(actual) => if actual == expected {
            None
        } else {
            Some(
                "inserted "@ + text::decimal(actual as nat) + " documents, expected "@
                    + text::decimal(expected as nat),
            )
        },
    }
}

/// Gives a document an id where it carries none, and answers the one it has then.
pub fn ensure_id(document: &mut bson::Document) -> (id: bson::Bson)
    ensures
        is_identified(
            document::fields(*old(document)),
            document::fields(*final(document)),
            document::value(id),
        ),
        match document::field(document::fields(*old(document)), "_id"@) {
            Some(carried) => {
                &&& document::fields(*final(document)) == document::fields(*old(document))
                &&& document::value(id) == carried
            },
            None => {
                &&& document::fields(*final(document)) == document::fields(*old(document)).push(
                    ("_id"@, document::value(id)),
                )
                &&& document::value(id) is ObjectId
            },
        },
{
    if let Some(id) = document::get(document, "_id") {
        return id.clone();
    }
    let id: bson::Bson = document::new_object_id();
    document::insert(document, "_id", id.clone());
    id
}

/// The command that inserts documents.
pub fn insert_command(collection: &str, documents: Vec<bson::Document>) -> (command: bson::Document)
    ensures
        document::fields(command) == insert_fields(collection@, find::contents(documents@)),
{
    broadcast use document::lemma_field_of_push;

    proof {
        reveal_strlit("insert");
        reveal_strlit("documents");
        assert("insert"@.len() != "documents"@.len());
    }
    let mut command = bson::Document::new();
    document::append(&mut command, "insert", Node::Text(collection.to_owned()));
    document::append(&mut command, "documents", Node::Array(to_array(documents)));
    command
}

/// Holds a reply to the number of documents that were to be inserted.
pub fn expect_inserted_count(response: &bson::Document, expected: usize) -> (result: Result<
    (),
    Error,
>)
    ensures
        match count_complaint(document::fields(*response), expected) {
            None => result is Ok,
            Some(reason) => result is Err && result->Err_0.is_invalid_response(reason),
        },
{
    let counted: Option<i64> = match document::get(response, "n") {
        Some(found) => match document::open(found) {
            ValueRef::Int32(count) => Some(count as i64),
            ValueRef::Int64(count) => Some(count),
            _ => None,
        },
        None => None,
    };
    let actual: usize = match counted {
        Some(count) if 0 <= count && count as u64 <= usize::MAX as u64 => count as usize,
        _ => return Err(
            Error::InvalidResponse("insert response has no valid n field".to_owned()),
        ),
    };
    if actual != expected {
        let mut reason: String = "inserted ".to_owned();
        text::push_decimal(&mut reason, actual as u64);
        reason.append(" documents, expected ");
        text::push_decimal(&mut reason, expected as u64);
        return Err(Error::InvalidResponse(reason));
    }
    Ok(())
}

/// Whether `after` are the documents `before` as they are inserted, and `ids` the ids they are
/// inserted under, by position.
pub open spec fn are_identified(
    before: Seq<bson::Document>,
    after: Seq<bson::Document>,
    ids: Map<usize, bson::Bson>,
) -> bool {
    &&& after.len() == before.len()
    &&& forall|i: usize| #[trigger] ids.contains_key(i) <==> i < before.len()
    &&& forall|i: usize|
        #![trigger ids[i]]
        i < before.len() ==> is_identified(
            document::fields(before[i as int]),
            document::fields(after[i as int]),
            document::value(ids[i]),
        )
}

/// Whether `command` inserts `documents` into `collection`, each under its id.
pub open spec fn is_insertion(
    command: document::Fields,
    collection: Seq<char>,
    documents: Seq<bson::Document>,
    ids: Map<usize, bson::Bson>,
) -> bool {
    exists|inserted: Seq<bson::Document>| #[trigger]
        are_identified(documents, inserted, ids) && command == insert_fields(
            collection,
            find::contents(inserted),
        )
}

/// Gives every document an id where it carries none, and answers the documents as they are to be
/// inserted and the id of each.
pub fn identify(documents: Vec<bson::Document>) -> (identified: (
    Vec<bson::Document>,
    HashMap<usize, bson::Bson>,
))
    ensures
        are_identified(documents@, identified.0@, identified.1@),
        identified.1@.len() == documents@.len(),
{
    broadcast use vstd::std_specs::hash::group_hash_axioms;

    let mut ready: Vec<bson::Document> = Vec::new();
    let mut ids: HashMap<usize, bson::Bson> = HashMap::new();
    for each in iter: documents
        invariant
            iter.seq() == documents@,
            are_identified(documents@.take(iter.index()), ready@, ids@),
            ids@.dom().finite(),
            ids@.len() == iter.index(),
    {
        let ghost index = iter.index();
        let ghost earlier = ready@;
        let ghost known = ids@;
        assert(each == documents@[index]);
        let mut each: bson::Document = each;
        let id: bson::Bson = ensure_id(&mut each);
        ids.insert(ready.len(), id);
        ready.push(each);
        assert(are_identified(documents@.take(index + 1), ready@, ids@)) by {
            assert forall|i: usize|
                #![trigger ids@[i]]
                i < index + 1 implies is_identified(
                document::fields(documents@.take(index + 1)[i as int]),
                document::fields(ready@[i as int]),
                document::value(ids@[i]),
            ) by {
                if i < index {
                    assert(ids@[i] == known[i]);
                    assert(documents@.take(index + 1)[i as int] == documents@.take(index)[i as int]);
                }
            }
        }
    }
    assert(documents@.take(documents@.len() as int) =~= documents@);
    (ready, ids)
}

} // verus!
