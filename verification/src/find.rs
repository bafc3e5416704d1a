//! Queries: the commands they are made of, and the cursor their answers come through.
//!
//! A cursor decides and somebody else sends: [`Cursor::next`] answers the next document, or that
//! there is none, or the command that fetches the next batch, whose reply goes back in through
//! [`Cursor::fetched`].

use crate::document;
use crate::document::Node;
use crate::error::Error;
use std::collections::VecDeque;
use vstd::prelude::*;

verus! {

/// The fields of the command that starts a query.
pub open spec fn find_fields(collection: Seq<char>, filter: document::Fields) -> document::Fields {
    seq![
        ("find"@, document::Value::Text(collection)),
        ("filter"@, document::Value::Document(filter)),
    ]
}

/// The fields of the command that asks for one document.
pub open spec fn find_one_fields(collection: Seq<char>, filter: document::Fields) -> document::Fields {
    seq![
        ("find"@, document::Value::Text(collection)),
        ("filter"@, document::Value::Document(filter)),
        ("limit"@, document::Value::Int64(1)),
        ("singleBatch"@, document::Value::Boolean(true)),
    ]
}

/// The fields of the command that fetches the next batch of a cursor.
pub open spec fn get_more_fields(id: i64, collection: Seq<char>) -> document::Fields {
    seq![
        ("getMore"@, document::Value::Int64(id)),
        ("collection"@, document::Value::Text(collection)),
    ]
}

/// The fields of the command that gives a cursor up.
pub open spec fn kill_cursors_fields(collection: Seq<char>, id: i64) -> document::Fields {
    seq![
        ("killCursors"@, document::Value::Text(collection)),
        ("cursors"@, document::Value::Array(seq![document::Value::Int64(id)])),
    ]
}

/// The command that starts a query.
pub fn find_command(collection: &str, filter: bson::Document) -> (command: bson::Document)
    ensures
        document::fields(command) == find_fields(collection@, document::fields(filter)),
{
    broadcast use document::lemma_field_of_push;

    proof {
        reveal_strlit("find");
        reveal_strlit("filter");
        assert("find"@.len() != "filter"@.len());
    }
    let mut command = bson::Document::new();
    document::append(&mut command, "find", Node::Text(collection.to_owned()));
    document::append(&mut command, "filter", Node::Document(filter));
    command
}

/// The command that asks for one document.
pub fn find_one_command(collection: &str, filter: bson::Document) -> (command: bson::Document)
    ensures
        document::fields(command) == find_one_fields(collection@, document::fields(filter)),
{
    broadcast use document::lemma_field_of_push;

    proof {
        reveal_strlit("find");
        reveal_strlit("filter");
        reveal_strlit("limit");
        reveal_strlit("singleBatch");
        assert("find"@.len() == 4 && "filter"@.len() == 6);
        assert("limit"@.len() == 5 && "singleBatch"@.len() == 11);
    }
    let mut command = bson::Document::new();
    document::append(&mut command, "find", Node::Text(collection.to_owned()));
    document::append(&mut command, "filter", Node::Document(filter));
    document::append(&mut command, "limit", Node::Int64(1));
    document::append(&mut command, "singleBatch", Node::Boolean(true));
    command
}

/// The command that fetches the next batch of a cursor.
pub fn get_more_command(id: i64, collection: &str) -> (command: bson::Document)
    ensures
        document::fields(command) == get_more_fields(id, collection@),
{
    broadcast use document::lemma_field_of_push;

    proof {
        reveal_strlit("getMore");
        reveal_strlit("collection");
        assert("getMore"@.len() != "collection"@.len());
    }
    let mut command = bson::Document::new();
    document::append(&mut command, "getMore", Node::Int64(id));
    document::append(&mut command, "collection", Node::Text(collection.to_owned()));
    command
}

/// The command that gives a cursor up.
pub fn kill_cursors_command(collection: &str, id: i64) -> (command: bson::Document)
    ensures
        document::fields(command) == kill_cursors_fields(collection@, id),
{
    broadcast use document::lemma_field_of_push;

    proof {
        reveal_strlit("killCursors");
        reveal_strlit("cursors");
        assert("killCursors"@.len() != "cursors"@.len());
    }
    let cursors: Vec<bson::Bson> = vec![document::put_together(Node::Int64(id))];
    assert(document::values(cursors@) =~= seq![document::Value::Int64(id)]);
    let mut command = bson::Document::new();
    document::append(&mut command, "killCursors", Node::Text(collection.to_owned()));
    document::append(&mut command, "cursors", Node::Array(cursors));
    command
}

/// The id in a reply's cursor document, where it is a whole number.
pub open spec fn cursor_id(cursor: document::Fields) -> Option<i64> {
    match document::field(cursor, "id"@) {
        Some(document::Value::Int64(id)) => Some(id),
        Some(document::Value::Int32(id)) => Some(id as i64),
        _ => None,
    }
}

/// The batch in a reply's cursor document, once the id has been taken out of it.
pub open spec fn cursor_batch(cursor: document::Fields, batch_name: Seq<char>) -> Option<
    Seq<document::Value>,
> {
    match document::field(document::without_field(cursor, "id"@), batch_name) {
        Some(document::Value::Array(batch)) => Some(batch),
        _ => None,
    }
}

/// What a reply says of a cursor: its id and the documents of the batch, or why the reply is
/// not one a cursor answers with.
pub open spec fn read_batch(response: document::Fields, batch_name: Seq<char>) -> Result<
    (i64, Seq<document::Fields>),
    Seq<char>,
> {
    match document::field(response, "cursor"@) {
        Some(document::Value::Document(cursor)) => match cursor_id(cursor) {
            Some(id) => match cursor_batch(cursor, batch_name) {
                Some(batch) => if forall|i: int| 0 <= i < batch.len() ==> batch[i] is Document {
                    Ok((id, batch.map_values(|value: document::Value| value->Document_0)))
                } else {
                    Err("cursor "@ + batch_name + " contains a non-document value"@)
                },
                None => Err("cursor response has no "@ + batch_name + " array"@),
            },
            None => Err("cursor response has no valid id"@),
        },
        _ => Err("command response has no cursor document"@),
    }
}

/// What a run of documents holds.
pub open spec fn contents(documents: Seq<bson::Document>) -> Seq<document::Fields> {
    documents.map_values(|each: bson::Document| document::fields(each))
}

/// The documents of a batch, in order, or nothing where one of its values is no document.
fn take_documents(batch: Vec<bson::Bson>) -> (taken: Option<VecDeque<bson::Document>>)
    ensures
        match taken {
            Some(documents) => {
                &&& documents@.len() == batch@.len()
                &&& forall|i: int|
                    0 <= i < batch@.len() ==> document::value(#[trigger] batch@[i])
                        == document::Value::Document(document::fields(documents@[i]))
            },
            None => exists|i: int|
                0 <= i < batch@.len() && !(document::value(#[trigger] batch@[i]) is Document),
        },
{
    let mut documents: VecDeque<bson::Document> = VecDeque::new();
    for each in iter: batch
        invariant
            iter.seq() == batch@,
            documents@.len() == iter.index(),
            forall|i: int|
                0 <= i < iter.index() ==> document::value(#[trigger] batch@[i])
                    == document::Value::Document(document::fields(documents@[i])),
    {
        assert(each == batch@[iter.index()]);
        match document::take_apart(each) {
            Node::Document(one) => {
                documents.push_back(one);
            },
            _ => return None,
        }
    }
    Some(documents)
}

/// Takes the cursor id and the batch called `batch_name` out of a reply.
pub fn take_cursor_batch(response: bson::Document, batch_name: &str) -> (result: Result<
    (i64, VecDeque<bson::Document>),
    Error,
>)
    ensures
        match read_batch(document::fields(response), batch_name@) {
            Ok((id, documents)) => {
                &&& result is Ok
                &&& result->Ok_0.0 == id
                &&& contents(result->Ok_0.1@) == documents
            },
            Err(reason) => result is Err && result->Err_0.is_invalid_response(reason),
        },
        result is Ok ==> match document::field(document::fields(response), "cursor"@) {
            Some(document::Value::Document(cursor)) => match document::field(cursor, "id"@) {
                Some(document::Value::Int64(id)) => result->Ok_0.0 == id,
                Some(document::Value::Int32(id)) => result->Ok_0.0 == id,
                _ => false,
            },
            _ => false,
        },
{
    let mut response: bson::Document = response;
    let mut cursor: bson::Document = match document::remove(&mut response, "cursor") {
        Some(found) => match document::take_apart(found) {
            Node::Document(cursor) => cursor,
            _ => return Err(
                Error::InvalidResponse("command response has no cursor document".to_owned()),
            ),
        },
        None => return Err(
            Error::InvalidResponse("command response has no cursor document".to_owned()),
        ),
    };
    let id: i64 = match document::remove(&mut cursor, "id") {
        Some(found) => match document::take_apart(found) {
            Node::Int64(id) => id,
            Node::Int32(id) => id as i64,
            _ => return Err(Error::InvalidResponse("cursor response has no valid id".to_owned())),
        },
        None => return Err(Error::InvalidResponse("cursor response has no valid id".to_owned())),
    };
    let batch: Option<Vec<bson::Bson>> = match document::remove(&mut cursor, batch_name) {
        Some(found) => match document::take_apart(found) {
            Node::Array(batch) => Some(batch),
            _ => None,
        },
        None => None,
    };
    let batch: Vec<bson::Bson> = match batch {
        Some(batch) => batch,
        None => {
            let mut reason: String = "cursor response has no ".to_owned();
            reason.append(batch_name);
            reason.append(" array");
            return Err(Error::InvalidResponse(reason));
        },
    };
    let ghost all = document::values(batch@);
    match take_documents(batch) {
        Some(documents) => {
            proof {
                assert(forall|i: int| 0 <= i < all.len() ==> all[i] is Document);
                assert(contents(documents@) =~= all.map_values(
                    |value: document::Value| value->Document_0,
                ));
            }
            Ok((id, documents))
        },
        None => {
            proof {
                let i = choose|i: int|
                    0 <= i < batch@.len() && !(document::value(#[trigger] batch@[i]) is Document);
                assert(!(all[i] is Document));
            }
            let mut reason: String = "cursor ".to_owned();
            reason.append(batch_name);
            reason.append(" contains a non-document value");
            Err(Error::InvalidResponse(reason))
        },
    }
}

/// What a cursor is about to do.
pub enum Next {
    /// Hand out the next document.
    Document(bson::Document),
    /// Nothing: every document has been handed out.
    Exhausted,
    /// Wait for the reply to this command, which fetches the next batch.
    Fetch(bson::Document),
}

/// [`Next`] by what its documents hold.
pub enum NextView {
    Document(document::Fields),
    Exhausted,
    Fetch(document::Fields),
}

impl View for Next {
    type V = NextView;

    open spec fn view(&self) -> NextView {
        match self {
            Next::Document(each) => NextView::Document(document::fields(*each)),
            Next::Exhausted => NextView::Exhausted,
            Next::Fetch(command) => NextView::Fetch(document::fields(*command)),
        }
    }
}

/// Where a cursor stands.
#[verifier::ext_equal]
pub struct CursorView {
    pub database: Seq<char>,
    pub collection: Seq<char>,
    /// The engine's name for the cursor, or zero once the engine has nothing left for it.
    pub id: i64,
    /// The documents of the current batch that have not been handed out.
    pub documents: Seq<document::Fields>,
    /// Whether the cursor has stopped.
    pub finished: bool,
}

impl CursorView {
    /// What a cursor does next, and where it stands afterwards.
    pub open spec fn next(self) -> (CursorView, NextView) {
        if self.documents.len() > 0 {
            (
                CursorView { documents: self.documents.drop_first(), ..self },
                NextView::Document(self.documents[0]),
            )
        } else if self.finished || self.id == 0 {
            (CursorView { finished: true, ..self }, NextView::Exhausted)
        } else {
            (self, NextView::Fetch(get_more_fields(self.id, self.collection)))
        }
    }

    /// Where a cursor stands once a batch has come in.
    pub open spec fn with_batch(self, batch: (i64, Seq<document::Fields>)) -> CursorView {
        CursorView { id: batch.0, documents: batch.1, ..self }
    }
}

/// The documents a query answers, a batch at a time.
pub struct Cursor {
    database: String,
    collection: String,
    id: i64,
    documents: VecDeque<bson::Document>,
    finished: bool,
}

impl View for Cursor {
    type V = CursorView;

    closed spec fn view(&self) -> CursorView {
        CursorView {
            database: self.database@,
            collection: self.collection@,
            id: self.id,
            documents: contents(self.documents@),
            finished: self.finished,
        }
    }
}

impl Cursor {
    /// The cursor over what `response` answers.
    pub fn from_response(
        database: &str,
        collection: &str,
        response: bson::Document,
        batch_name: &str,
    ) -> (result: Result<Cursor, Error>)
        ensures
            match read_batch(document::fields(response), batch_name@) {
                Ok((id, documents)) => {
                    &&& result is Ok
                    &&& result->Ok_0@ == CursorView {
                        database: database@,
                        collection: collection@,
                        id,
                        documents,
                        finished: false,
                    }
                },
                Err(reason) => result is Err && result->Err_0.is_invalid_response(reason),
            },
    {
        match take_cursor_batch(response, batch_name) {
            Ok((id, documents)) => Ok(
                Cursor {
                    database: database.to_owned(),
                    collection: collection.to_owned(),
                    id,
                    documents,
                    finished: false,
                },
            ),
            Err(error) => Err(error),
        }
    }

    /// The database the cursor's commands go to.
    pub fn database(&self) -> (database: &str)
        ensures
            database@ == self@.database,
    {
        self.database.as_str()
    }

    /// The next document, or that there is none, or the command that fetches more.
    pub fn next(&mut self) -> (next: Next)
        ensures
            (final(self)@, next@) == old(self)@.next(),
            match next {
                Next::Document(each) => {
                    &&& old(self)@.documents.len() > 0
                    &&& document::fields(each) == old(self)@.documents[0]
                },
                Next::Exhausted => {
                    &&& old(self)@.documents.len() == 0
                    &&& old(self)@.finished || old(self)@.id == 0
                },
                Next::Fetch(command) => {
                    &&& old(self)@.documents.len() == 0
                    &&& document::fields(command) == seq![
                        ("getMore"@, document::Value::Int64(old(self)@.id)),
                        ("collection"@, document::Value::Text(old(self)@.collection)),
                    ]
                },
            },
    {
        let ghost before = self.documents@;
        if let Some(each) = self.documents.pop_front() {
            assert(contents(self.documents@) =~= contents(before).drop_first());
            assert(document::fields(each) == contents(before)[0]);
            return Next::Document(each);
        }
        if self.finished || self.id == 0 {
            self.finished = true;
            return Next::Exhausted;
        }
        Next::Fetch(get_more_command(self.id, self.collection.as_str()))
    }

    /// Takes the reply to the command that [`next`](Cursor::next) asked to have sent.
    ///
    /// A command that failed, or a reply that is not a batch, ends the cursor: the failure is
    /// answered, and nothing more comes out.
    pub fn fetched(&mut self, reply: Result<bson::Document, Error>) -> (failure: Option<Error>)
        ensures
            match reply {
                Ok(response) => match read_batch(document::fields(response), "nextBatch"@) {
                    Ok(batch) => {
                        &&& failure is None
                        &&& final(self)@ == old(self)@.with_batch(batch)
                    },
                    Err(reason) => {
                        &&& failure is Some
                        &&& failure->0.is_invalid_response(reason)
                        &&& final(self)@ == (CursorView { finished: true, ..old(self)@ })
                    },
                },
                Err(error) => {
                    &&& failure == Some(error)
                    &&& final(self)@ == (CursorView { finished: true, ..old(self)@ })
                },
            },
    {
        match reply {
            Ok(response) => match take_cursor_batch(response, "nextBatch") {
                Ok((id, documents)) => {
                    self.id = id;
                    self.documents = documents;
                    None
                },
                Err(error) => {
                    self.finished = true;
                    Some(error)
                },
            },
            Err(error) => {
                self.finished = true;
                Some(error)
            },
        }
    }

    /// Gives the cursor up, and answers the command that tells the engine so -- nothing where
    /// the engine holds nothing for it any more.
    pub fn kill(&mut self) -> (command: Option<bson::Document>)
        ensures
            final(self)@ == (CursorView { id: 0, ..old(self)@ }),
            match command {
                Some(command) => {
                    &&& old(self)@.id != 0
                    &&& document::fields(command) == kill_cursors_fields(
                        old(self)@.collection,
                        old(self)@.id,
                    )
                },
                None => old(self)@.id == 0,
            },
            command is Some ==> document::fields(command->0) == seq![
                ("killCursors"@, document::Value::Text(old(self)@.collection)),
                ("cursors"@, document::Value::Array(seq![document::Value::Int64(old(self)@.id)])),
            ],
    {
        let id: i64 = self.id;
        self.id = 0;
        if id == 0 {
            return None;
        }
        Some(kill_cursors_command(self.collection.as_str(), id))
    }
}

/// The documents that come out of a cursor whose requests for more are answered by `batches`,
/// one after the other.
pub open spec fn collected(
    cursor: CursorView,
    batches: Seq<(i64, Seq<document::Fields>)>,
) -> Seq<document::Fields>
    decreases batches.len(), cursor.documents.len(),
{
    match cursor.next() {
        (after, NextView::Document(each)) => seq![each] + collected(after, batches),
        (_, NextView::Exhausted) => seq![],
        (after, NextView::Fetch(_)) => if batches.len() == 0 {
            seq![]
        } else {
            collected(after.with_batch(batches[0]), batches.drop_first())
        },
    }
}

/// Whether `batches` are what an engine answers a cursor called `id` with: another batch for as
/// long as the cursor has a name, and none once it has lost it.
pub open spec fn continues(id: i64, batches: Seq<(i64, Seq<document::Fields>)>) -> bool
    decreases batches.len(),
{
    if id == 0 {
        batches.len() == 0
    } else {
        batches.len() > 0 && continues(batches[0].0, batches.drop_first())
    }
}

/// The documents of all the batches, one batch after the other.
pub open spec fn joined(batches: Seq<(i64, Seq<document::Fields>)>) -> Seq<document::Fields>
    decreases batches.len(),
{
    if batches.len() == 0 {
        seq![]
    } else {
        batches[0].1 + joined(batches.drop_first())
    }
}

/// A cursor hands out every document of every batch, once and in order.
pub proof fn cursor_hands_out_every_document(
    cursor: CursorView,
    batches: Seq<(i64, Seq<document::Fields>)>,
)
    requires
        !cursor.finished,
        continues(cursor.id, batches),
    ensures
        collected(cursor, batches) == cursor.documents + joined(batches),
    decreases batches.len(), cursor.documents.len(),
{
    if cursor.documents.len() > 0 {
        let (after, _) = cursor.next();
        cursor_hands_out_every_document(after, batches);
        assert(seq![cursor.documents[0]] + (cursor.documents.drop_first() + joined(batches))
            =~= cursor.documents + joined(batches));
    } else if cursor.id != 0 {
        cursor_hands_out_every_document(cursor.with_batch(batches[0]), batches.drop_first());
        assert(cursor.documents + joined(batches) =~= joined(batches));
    } else {
        assert(cursor.documents + joined(batches) =~= seq![]);
    }
}

/// A cursor that answered that it is exhausted answers nothing else from then on.
pub proof fn exhausted_cursor_stays_exhausted(cursor: CursorView)
    requires
        cursor.next().1 is Exhausted,
    ensures
        cursor.next().0.next() == (cursor.next().0, NextView::Exhausted),
{
}

/// A cursor whose request for more failed hands out nothing more.
pub proof fn failed_cursor_hands_out_nothing(cursor: CursorView)
    requires
        cursor.next().1 is Fetch,
    ensures
        (CursorView { finished: true, ..cursor.next().0 }).next().1 is Exhausted,
{
}

} // verus!
