//! Queries and cursors.

use crate::aggregate;
use crate::collection::Collection;
use crate::document;
use crate::error::Error;
use crate::find;
use crate::find::{Cursor, CursorView, NextView};
use std::collections::VecDeque;
use vstd::prelude::*;

verus! {

/// The commands of a query carry the collection, the filter and the id they were given, under the
/// names the server reads them by, and nothing besides.
pub proof fn query_commands_are_spelled_out(
    collection: Seq<char>,
    filter: document::Fields,
    pipeline: Seq<document::Fields>,
    id: i64,
)
    ensures
        find::find_fields(collection, filter) == seq![
            ("find"@, document::Value::Text(collection)),
            ("filter"@, document::Value::Document(filter)),
        ],
        find::find_one_fields(collection, filter) == seq![
            ("find"@, document::Value::Text(collection)),
            ("filter"@, document::Value::Document(filter)),
            ("limit"@, document::Value::Int64(1)),
            ("singleBatch"@, document::Value::Boolean(true)),
        ],
        find::get_more_fields(id, collection) == seq![
            ("getMore"@, document::Value::Int64(id)),
            ("collection"@, document::Value::Text(collection)),
        ],
        find::kill_cursors_fields(collection, id) == seq![
            ("killCursors"@, document::Value::Text(collection)),
            ("cursors"@, document::Value::Array(seq![document::Value::Int64(id)])),
        ],
        aggregate::aggregate_fields(collection, pipeline) == seq![
            ("aggregate"@, document::Value::Text(collection)),
            (
                "pipeline"@,
                document::Value::Array(
                    Seq::new(pipeline.len(), |i: int| document::Value::Document(pipeline[i])),
                ),
            ),
            ("cursor"@, document::Value::Document(seq![])),
        ],
{
    assert(aggregate::as_values(pipeline) =~= Seq::new(
        pipeline.len(),
        |i: int| document::Value::Document(pipeline[i]),
    ));
}

/// A batch is read as it was answered: the id is the very number the reply carries, whichever
/// width it has, and the documents are all of the batch's, in order.
pub proof fn a_batch_is_read_as_it_was_answered(
    response: document::Fields,
    cursor: document::Fields,
    id: i64,
    batch: Seq<document::Value>,
    batch_name: Seq<char>,
)
    requires
        document::field(response, "cursor"@) == Some(document::Value::Document(cursor)),
        document::field(cursor, "id"@) == Some(document::Value::Int64(id)) || exists|narrow: i32|
            #![auto]
            document::field(cursor, "id"@) == Some(document::Value::Int32(narrow)) && narrow == id,
        document::field(cursor, batch_name) == Some(document::Value::Array(batch)),
        batch_name != "id"@,
        forall|i: int| 0 <= i < batch.len() ==> (#[trigger] batch[i]) is Document,
    ensures
        find::read_batch(response, batch_name) is Ok,
        find::read_batch(response, batch_name)->Ok_0.0 == id,
        find::read_batch(response, batch_name)->Ok_0.1.len() == batch.len(),
        forall|i: int|
            0 <= i < batch.len() ==> #[trigger] batch[i] == document::Value::Document(
                find::read_batch(response, batch_name)->Ok_0.1[i],
            ),
{
    document::removed_field_is_gone(cursor, "id"@, batch_name);
}

/// Nothing else is read as a batch: a reply without a cursor document, without an id that is a
/// whole number, without the batch, or with a batch that holds anything but documents is refused.
pub proof fn what_is_no_batch_is_refused(response: document::Fields, batch_name: Seq<char>)
    requires
        batch_name != "id"@,
        find::read_batch(response, batch_name) is Ok,
    ensures
        ({
            let cursor = document::field(response, "cursor"@);
            &&& cursor is Some
            &&& cursor->0 is Document
            &&& {
                let id = document::field(cursor->0->Document_0, "id"@);
                let batch = document::field(cursor->0->Document_0, batch_name);
                &&& id is Some
                &&& id->0 is Int64 || id->0 is Int32
                &&& batch is Some
                &&& batch->0 is Array
                &&& forall|i: int|
                    0 <= i < batch->0->Array_0.len() ==> (#[trigger] batch->0->Array_0[i]) is Document
            }
        }),
{
    let cursor = document::field(response, "cursor"@)->0->Document_0;
    document::removed_field_is_gone(cursor, "id"@, batch_name);
}

/// A reply that is no batch is refused for the first thing it lacks: the cursor, its id, the batch,
/// or a batch of nothing but documents.
pub proof fn what_is_no_batch_says_what_it_lacks(response: document::Fields, batch_name: Seq<char>)
    requires
        batch_name != "id"@,
    ensures
        match document::field(response, "cursor"@) {
            Some(document::Value::Document(cursor)) => {
                let named = document::field(cursor, "id"@) matches Some(document::Value::Int64(_))
                    || document::field(cursor, "id"@) matches Some(document::Value::Int32(_));
                if !named {
                    find::read_batch(response, batch_name) == Err::<
                        (i64, Seq<document::Fields>),
                        Seq<char>,
                    >("cursor response has no valid id"@)
                } else {
                    match document::field(cursor, batch_name) {
                        Some(document::Value::Array(batch)) => find::read_batch(
                            response,
                            batch_name,
                        ) is Err ==> find::read_batch(response, batch_name)->Err_0 == "cursor "@
                            + batch_name + " contains a non-document value"@,
                        _ => find::read_batch(response, batch_name) == Err::<
                            (i64, Seq<document::Fields>),
                            Seq<char>,
                        >("cursor response has no "@ + batch_name + " array"@),
                    }
                }
            },
            _ => find::read_batch(response, batch_name) == Err::<
                (i64, Seq<document::Fields>),
                Seq<char>,
            >("command response has no cursor document"@),
        },
{
    if let Some(document::Value::Document(cursor)) = document::field(response, "cursor"@) {
        document::removed_field_is_gone(cursor, "id"@, batch_name);
    }
}

/// A cursor goes by the id it was answered: once its batch has been handed out it asks for more
/// with that very number, and gives up that very number -- and neither, where the number is zero.
pub proof fn a_cursor_goes_by_the_id_it_was_answered(
    response: document::Fields,
    fields: document::Fields,
    id: i64,
    batch: Seq<document::Value>,
    batch_name: Seq<char>,
    before: CursorView,
)
    requires
        document::field(response, "cursor"@) == Some(document::Value::Document(fields)),
        document::field(fields, "id"@) == Some(document::Value::Int64(id)),
        document::field(fields, batch_name) == Some(document::Value::Array(batch)),
        batch_name != "id"@,
        forall|i: int| 0 <= i < batch.len() ==> (#[trigger] batch[i]) is Document,
        !before.finished,
    ensures
        find::read_batch(response, batch_name) is Ok,
        ({
            let cursor = before.with_batch(find::read_batch(response, batch_name)->Ok_0);
            let used = CursorView { documents: seq![], ..cursor };
            &&& cursor.id == id
            &&& cursor.documents.len() == batch.len()
            &&& forall|i: int|
                0 <= i < batch.len() ==> #[trigger] batch[i] == document::Value::Document(
                    cursor.documents[i],
                )
            &&& cursor.database == before.database
            &&& cursor.collection == before.collection
            &&& id != 0 ==> used.next() == (
                used,
                NextView::Fetch(
                    seq![
                        ("getMore"@, document::Value::Int64(id)),
                        ("collection"@, document::Value::Text(before.collection)),
                    ],
                ),
            )
            &&& id == 0 ==> used.next().1 is Exhausted
            &&& find::kill_cursors_fields(cursor.collection, cursor.id) == seq![
                ("killCursors"@, document::Value::Text(before.collection)),
                ("cursors"@, document::Value::Array(seq![document::Value::Int64(id)])),
            ]
        }),
{
    a_batch_is_read_as_it_was_answered(response, fields, id, batch, batch_name);
}

/// A cursor hands out the first document it has left and keeps all the others, whatever else is
/// true of it.
pub proof fn a_cursor_hands_out_what_it_has_first(cursor: CursorView)
    requires
        cursor.documents.len() > 0,
    ensures
        cursor.next().1 == NextView::Document(cursor.documents[0]),
        cursor.next().0.documents.len() == cursor.documents.len() - 1,
        forall|i: int|
            0 <= i < cursor.documents.len() - 1 ==> #[trigger] cursor.next().0.documents[i]
                == cursor.documents[i + 1],
        cursor.next().0.id == cursor.id,
        cursor.next().0.finished == cursor.finished,
        cursor.next().0.database == cursor.database,
        cursor.next().0.collection == cursor.collection,
{
}

/// Reading the answer to a query takes the id out of it as it stands there, in whichever width, and
/// every document of the batch, in order; and the cursor made of it is on the collection it was
/// asked of.
pub proof fn an_answer_is_taken_as_it_stands(
    collection: Collection,
    response: bson::Document,
    taken: Result<(i64, VecDeque<bson::Document>), Error>,
    made: Result<Cursor, Error>,
    i: int,
)
    requires
        call_ensures(find::take_cursor_batch, (response, "firstBatch"), taken),
        call_ensures(Collection::cursor, (&collection, response), made),
    ensures
        taken is Ok <==> made is Ok,
        taken is Ok ==> {
            let cursor = document::field(document::fields(response), "cursor"@)->0->Document_0;
            let id = document::field(cursor, "id"@);
            let batch = document::field(cursor, "firstBatch"@)->0->Array_0;
            &&& id == Some(document::Value::Int64(taken->Ok_0.0)) || (id matches Some(
                document::Value::Int32(narrow),
            ) && narrow == taken->Ok_0.0)
            &&& taken->Ok_0.1@.len() == batch.len()
            &&& 0 <= i < batch.len() ==> batch[i] == document::Value::Document(
                document::fields(taken->Ok_0.1@[i]),
            )
            &&& made->Ok_0@.id == taken->Ok_0.0
            &&& made->Ok_0@.documents.len() == batch.len()
            &&& 0 <= i < batch.len() ==> batch[i] == document::Value::Document(
                made->Ok_0@.documents[i],
            )
            &&& made->Ok_0@.database == collection.spec_database()
            &&& made->Ok_0@.collection == collection.spec_name()
            &&& !made->Ok_0@.finished
        },
{
    reveal_strlit("id");
    reveal_strlit("firstBatch");
    assert("id"@.len() != "firstBatch"@.len());
    if taken is Ok {
        let reply = document::fields(response);
        what_is_no_batch_is_refused(reply, "firstBatch"@);
        let cursor = document::field(reply, "cursor"@)->0->Document_0;
        let batch = document::field(cursor, "firstBatch"@)->0->Array_0;
        a_batch_is_read_as_it_was_answered(
            reply,
            cursor,
            taken->Ok_0.0,
            batch,
            "firstBatch"@,
        );
        let documents = taken->Ok_0.1@;
        assert(find::contents(documents).len() == documents.len());
        if 0 <= i < batch.len() {
            assert(find::contents(documents)[i] == document::fields(documents[i]));
        }
    }
}

} // verus!
