//! A database and a collection, as the place commands go to.

use crate::aggregate;
use crate::aggregate::aggregate_command;
use crate::command::{Request, RequestView};
use crate::document;
use crate::error::Error;
use crate::find;
use crate::find::{find_command, find_one_command, Cursor, CursorView};
use crate::insert;
use crate::insert::{
    ensure_id, expect_inserted_count, identify, insert_command, InsertManyResult, InsertOneResult,
};
use std::collections::HashMap;
use vstd::prelude::*;

verus! {

/// One database.
#[derive(Clone, Debug)]
pub struct Database {
    name: String,
}

impl View for Database {
    type V = Seq<char>;

    closed spec fn view(&self) -> Seq<char> {
        self.name@
    }
}

impl Database {
    pub fn new(name: &str) -> (database: Self)
        ensures
            database@ == name@,
    {
        Self { name: name.to_owned() }
    }

    pub fn name(&self) -> (name: &str)
        ensures
            name@ == self@,
    {
        self.name.as_str()
    }

    pub fn collection(&self, name: &str) -> (collection: Collection)
        ensures
            collection.spec_database() == self@,
            collection.spec_name() == name@,
    {
        Collection::new(self.name.as_str(), name)
    }

    /// The request that runs `command` on this database.
    pub fn run_command(&self, command: bson::Document) -> (request: Request)
        ensures
            request@ == (RequestView { database: self@, command: document::fields(command) }),
    {
        Request { database: self.name.clone(), command }
    }
}

/// One collection of one database.
#[derive(Clone, Debug)]
pub struct Collection {
    database: String,
    name: String,
}

impl Collection {
    pub closed spec fn spec_database(&self) -> Seq<char> {
        self.database@
    }

    pub closed spec fn spec_name(&self) -> Seq<char> {
        self.name@
    }

    pub fn new(database: &str, name: &str) -> (collection: Self)
        ensures
            collection.spec_database() == database@,
            collection.spec_name() == name@,
    {
        Self { database: database.to_owned(), name: name.to_owned() }
    }

    pub fn name(&self) -> (name: &str)
        ensures
            name@ == self.spec_name(),
    {
        self.name.as_str()
    }

    pub fn database_name(&self) -> (name: &str)
        ensures
            name@ == self.spec_database(),
    {
        self.database.as_str()
    }

    /// The request that runs `command` on this collection's database.
    fn request(&self, command: bson::Document) -> (request: Request)
        ensures
            request@ == (RequestView {
                database: self.spec_database(),
                command: document::fields(command),
            }),
    {
        Request { database: self.database.clone(), command }
    }

    /// The request for one document that matches `filter`.
    pub fn find_one(&self, filter: bson::Document) -> (request: Request)
        ensures
            request@ == (RequestView {
                database: self.spec_database(),
                command: find::find_one_fields(self.spec_name(), document::fields(filter)),
            }),
    {
        self.request(find_one_command(self.name.as_str(), filter))
    }

    /// The request for the documents that match `filter`.
    pub fn find(&self, filter: bson::Document) -> (request: Request)
        ensures
            request@ == (RequestView {
                database: self.spec_database(),
                command: find::find_fields(self.spec_name(), document::fields(filter)),
            }),
    {
        self.request(find_command(self.name.as_str(), filter))
    }

    /// The request for what `pipeline` makes of the collection.
    pub fn aggregate(&self, pipeline: Vec<bson::Document>) -> (request: Request)
        ensures
            request@ == (RequestView {
                database: self.spec_database(),
                command: aggregate::aggregate_fields(self.spec_name(), find::contents(pipeline@)),
            }),
    {
        self.request(aggregate_command(self.name.as_str(), pipeline))
    }

    /// The cursor over what the engine answered one of those requests with.
    pub fn cursor(&self, response: bson::Document) -> (result: Result<Cursor, Error>)
        ensures
            match find::read_batch(document::fields(response), "firstBatch"@) {
                Ok((id, documents)) => {
                    &&& result is Ok
                    &&& result->Ok_0@ == CursorView {
                        database: self.spec_database(),
                        collection: self.spec_name(),
                        id,
                        documents,
                        finished: false,
                    }
                },
                Err(reason) => result is Err && result->Err_0.is_invalid_response(reason),
            },
    {
        Cursor::from_response(
            self.database.as_str(),
            self.name.as_str(),
            response,
            "firstBatch",
        )
    }

    /// The request that inserts `document`, and the id it is inserted under.
    pub fn insert_one(&self, document: bson::Document) -> (insertion: (Request, bson::Bson))
        ensures
            exists|inserted: document::Fields|
                {
                    &&& #[trigger] insert::is_identified(
                        document::fields(document),
                        inserted,
                        document::value(insertion.1),
                    )
                    &&& insertion.0@ == (RequestView {
                        database: self.spec_database(),
                        command: insert::insert_fields(self.spec_name(), seq![inserted]),
                    })
                },
            ({
                let given = document::fields(document);
                let id = document::value(insertion.1);
                let sent = if document::field(given, "_id"@) is Some {
                    given
                } else {
                    given.push(("_id"@, id))
                };
                &&& insertion.0@.database == self.spec_database()
                &&& insertion.0@.command == seq![
                    ("insert"@, document::Value::Text(self.spec_name())),
                    ("documents"@, document::Value::Array(seq![document::Value::Document(sent)])),
                ]
                &&& match document::field(given, "_id"@) {
                    Some(carried) => id == carried,
                    None => id is ObjectId,
                }
            }),
    {
        let mut ready: bson::Document = document;
        let inserted_id: bson::Bson = ensure_id(&mut ready);
        let ghost inserted = document::fields(ready);
        let documents: Vec<bson::Document> = vec![ready];
        assert(find::contents(documents@) =~= seq![inserted]);
        assert(aggregate::as_values(seq![inserted]) =~= seq![document::Value::Document(inserted)]);
        let request: Request = self.request(insert_command(self.name.as_str(), documents));
        assert(insert::is_identified(
            document::fields(document),
            inserted,
            document::value(inserted_id),
        ));
        (request, inserted_id)
    }

    /// The request that inserts `documents`, in order, and the id each is inserted under.
    ///
    /// Refuses to insert none.
    pub fn insert_many(&self, documents: Vec<bson::Document>) -> (result: Result<
        (Request, HashMap<usize, bson::Bson>),
        Error,
    >)
        ensures
            match result {
                Ok((request, ids)) => {
                    &&& documents@.len() > 0
                    &&& request@.database == self.spec_database()
                    &&& insert::is_insertion(
                        request@.command,
                        self.spec_name(),
                        documents@,
                        ids@,
                    )
                    &&& ids@.len() == documents@.len()
                    &&& request@.command.len() == 2
                    &&& request@.command[0] == (
                        "insert"@,
                        document::Value::Text(self.spec_name()),
                    )
                    &&& request@.command[1].0 == "documents"@
                    &&& request@.command[1].1 is Array
                    &&& request@.command[1].1->Array_0.len() == documents@.len()
                    &&& forall|i: usize|
                        #![trigger ids@[i]]
                        i < documents@.len() ==> {
                            let given = document::fields(documents@[i as int]);
                            let sent = request@.command[1].1->Array_0[i as int];
                            let id = document::value(ids@[i]);
                            match document::field(given, "_id"@) {
                                Some(carried) => id == carried && sent == document::Value::Document(
                                    given,
                                ),
                                None => id is ObjectId && sent == document::Value::Document(
                                    given.push(("_id"@, id)),
                                ),
                            }
                        }
                },
                Err(error) => {
                    &&& documents@.len() == 0
                    &&& error == Error::InvalidArgument(
                        "insert_many requires at least one document",
                    )
                },
            },
    {
        let (ready, ids) = identify(documents);
        if ready.len() == 0 {
            return Err(Error::InvalidArgument("insert_many requires at least one document"));
        }
        let ghost inserted = ready@;
        let request: Request = self.request(insert_command(self.name.as_str(), ready));
        assert(insert::are_identified(documents@, inserted, ids@));
        Ok((request, ids))
    }
}

/// What an insertion of one document comes to, by what the engine answered it with.
pub fn inserted_one(response: &bson::Document, inserted_id: bson::Bson) -> (result: Result<
    InsertOneResult,
    Error,
>)
    ensures
        match insert::count_complaint(document::fields(*response), 1) {
            None => result is Ok && result->Ok_0.inserted_id == inserted_id,
            Some(reason) => result is Err && result->Err_0.is_invalid_response(reason),
        },
{
    match expect_inserted_count(response, 1) {
        Ok(_) => Ok(InsertOneResult { inserted_id }),
        Err(error) => Err(error),
    }
}

/// What an insertion of several documents comes to, by what the engine answered it with. There
/// is one id for each document that was to be inserted.
pub fn inserted_many(
    response: &bson::Document,
    inserted_ids: HashMap<usize, bson::Bson>,
) -> (result: Result<InsertManyResult, Error>)
    ensures
        match insert::count_complaint(
            document::fields(*response),
            inserted_ids@.len() as usize,
        ) {
            None => result is Ok && result->Ok_0.inserted_ids == inserted_ids,
            Some(reason) => result is Err && result->Err_0.is_invalid_response(reason),
        },
{
    broadcast use vstd::std_specs::hash::group_hash_axioms;

    match expect_inserted_count(response, inserted_ids.len()) {
        Ok(_) => Ok(InsertManyResult { inserted_ids }),
        Err(error) => Err(error),
    }
}

} // verus!
