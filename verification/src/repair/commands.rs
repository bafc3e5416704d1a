//! The three commands the pass sends, and the one place their replies are trusted.
//!
//! `listDatabases` and `listCollections` decide what gets looked at; `validate` does the
//! looking, and with `repair: true` the fixing.

use crate::command::{Request, RequestView};
use crate::document;
use crate::document::{Node, ValueRef};
use crate::error::Error;
use crate::find;
use crate::find::{Cursor, CursorView, Next, NextView};
use crate::repair::namespace::{Namespace, NamespaceView};
use crate::text;
use vstd::prelude::*;

verus! {

/// Whether `validate` should fix what it finds.
#[derive(Clone, Copy, Debug, PartialEq, Eq, Structural)]
pub enum Mode {
    Check,
    Repair,
}

/// `getMore` on a `listCollections` cursor names this instead of a collection.
pub const LIST_COLLECTIONS: &'static str = "$cmd.listCollections";

/// The one `listCollections` type that is not a collection.
pub const VIEW: &'static str = "view";

/// The fields of the command that validates a collection.
pub open spec fn validate_fields(collection: Seq<char>, mode: Mode) -> document::Fields {
    match mode {
        Mode::Check => seq![("validate"@, document::Value::Text(collection))],
        Mode::Repair => seq![
            ("validate"@, document::Value::Text(collection)),
            ("repair"@, document::Value::Boolean(true)),
        ],
    }
}

/// The command that validates a collection.
///
/// Deliberately not `full: true`. Full validation walks every index entry back to its document
/// and costs far more, while the default already reports the missing entries this defect
/// produces.
pub fn validate(namespace: &Namespace, mode: Mode) -> (request: Request)
    ensures
        request@ == (RequestView {
            database: namespace@.database,
            command: validate_fields(namespace@.collection, mode),
        }),
{
    broadcast use document::lemma_field_of_push;

    proof {
        reveal_strlit("validate");
        reveal_strlit("repair");
        assert("validate"@.len() != "repair"@.len());
    }
    let mut command = bson::Document::new();
    document::append(&mut command, "validate", Node::Text(namespace.collection().to_owned()));
    if mode == Mode::Repair {
        document::append(&mut command, "repair", Node::Boolean(true));
    }
    Request { database: namespace.database().to_owned(), command }
}

/// The fields of a command called `name` that lists nothing but names.
pub open spec fn listing_fields(name: Seq<char>) -> document::Fields {
    seq![(name, document::Value::Int32(1)), ("nameOnly"@, document::Value::Boolean(true))]
}

/// The command called `name` that lists nothing but names.
fn listing_command(name: &str) -> (command: bson::Document)
    requires
        name@ != "nameOnly"@,
    ensures
        document::fields(command) == listing_fields(name@),
{
    broadcast use document::lemma_field_of_push;

    let mut command = bson::Document::new();
    document::append(&mut command, name, Node::Int32(1));
    document::append(&mut command, "nameOnly", Node::Boolean(true));
    command
}

/// The command that lists the databases.
pub fn list_databases() -> (request: Request)
    ensures
        request@ == (RequestView {
            database: "admin"@,
            command: listing_fields("listDatabases"@),
        }),
{
    proof {
        reveal_strlit("listDatabases");
        reveal_strlit("nameOnly");
        assert("listDatabases"@.len() != "nameOnly"@.len());
    }
    Request { database: "admin".to_owned(), command: listing_command("listDatabases") }
}

/// The command that lists the collections of a database.
pub fn list_collections(database: &str) -> (request: Request)
    ensures
        request@ == (RequestView {
            database: database@,
            command: listing_fields("listCollections"@),
        }),
{
    proof {
        reveal_strlit("listCollections");
        reveal_strlit("nameOnly");
        assert("listCollections"@.len() != "nameOnly"@.len());
    }
    Request { database: database.to_owned(), command: listing_command("listCollections") }
}

/// The name in an entry of a listing, where it is a string.
pub open spec fn entry_name(entry: document::Fields) -> Option<Seq<char>> {
    match document::field(entry, "name"@) {
        Some(document::Value::Text(name)) => Some(name),
        _ => None,
    }
}

/// The name of a listed database.
pub open spec fn database_name(entry: document::Value) -> Option<Seq<char>> {
    match entry {
        document::Value::Document(entry) => entry_name(entry),
        _ => None,
    }
}

/// Whether an entry of a listing names something that is validated: everything but a view.
pub open spec fn names_collection(entry: document::Fields) -> bool {
    document::field(entry, "type"@) != Some(document::Value::Text(VIEW@))
}

/// The name in an entry of a listing, where it is a string.
fn name_in(entry: &bson::Document) -> (name: Option<&str>)
    ensures
        match name {
            Some(name) => entry_name(document::fields(*entry)) == Some(name@),
            None => entry_name(document::fields(*entry)) is None,
        },
{
    match document::get(entry, "name") {
        Some(found) => match document::open(found) {
            ValueRef::Text(name) => Some(name),
            _ => None,
        },
        None => None,
    }
}

/// Whether a `listCollections` entry names something `validate` should be run on.
///
/// The command answers `collection`, `view` or `timeseries`. Only a view is not a collection:
/// `validate` refuses one outright, so it is dropped here rather than turned into a failure per
/// view further in. A time-series collection *is* a real collection, so it stays.
///
/// Everything unrecognised stays too, a missing `type` included. Dropping is the dangerous
/// direction: a reply shape this does not know would otherwise turn into a pass that checked
/// nothing and still recorded the directory as done, while keeping an entry `validate` cannot
/// handle costs one error, and an error withholds the marker.
pub fn is_collection(entry: &bson::Document) -> (answer: bool)
    ensures
        answer == names_collection(document::fields(*entry)),
{
    match document::get(entry, "type") {
        Some(found) => match document::open(found) {
            ValueRef::Text(kind) => !text::same(kind, VIEW),
            _ => true,
        },
        None => true,
    }
}

/// What the directory holds, as far as the engine will say.
pub struct Catalog {
    /// Kept alongside the namespaces because the two disagreeing is diagnostic.
    pub databases: usize,
    pub namespaces: Vec<Namespace>,
}

/// What a run of namespaces names.
pub open spec fn named(namespaces: Seq<Namespace>) -> Seq<NamespaceView> {
    namespaces.map_values(|each: Namespace| each@)
}

/// Which answer a listing is waiting for.
pub enum StageView {
    Databases,
    Collections,
    /// The next batch of a listing of collections.
    Batch(CursorView),
}

/// Where a listing stands.
#[verifier::ext_equal]
pub struct ListingView {
    pub stage: StageView,
    /// The databases the engine listed.
    pub entries: Seq<document::Value>,
    /// The one of them whose collections are being listed, and its name.
    pub at: int,
    pub database: Seq<char>,
    /// The collections found so far.
    pub found: Seq<NamespaceView>,
}

/// Why a listing fails.
pub enum Failure {
    /// A command failed, and this is that failure.
    Reply,
    /// A reply is not one the command answers with.
    Invalid(Seq<char>),
}

/// What an answer makes of a listing.
pub enum ListingNext {
    Send(ListingView, RequestView),
    Done(nat, Seq<NamespaceView>),
    /// Failed, and the command that gives up the cursor it was reading, where the engine still
    /// holds one.
    Failed(Failure, Option<RequestView>),
}

/// Why a listing stops reading a cursor.
pub enum Drained {
    Exhausted,
    /// The batch is used up, and this command fetches the next.
    Fetch(document::Fields),
    /// An entry carries no name.
    Unnamed,
}

/// What a listing reads off a cursor until the cursor needs its next batch or is used up.
pub open spec fn drained(
    database: Seq<char>,
    cursor: CursorView,
    found: Seq<NamespaceView>,
) -> (CursorView, Seq<NamespaceView>, Drained)
    decreases cursor.documents.len(),
{
    match cursor.next() {
        (after, NextView::Document(entry)) => if !names_collection(entry) {
            drained(database, after, found)
        } else {
            match entry_name(entry) {
                Some(collection) => drained(
                    database,
                    after,
                    found.push(NamespaceView { database, collection }),
                ),
                None => (after, found, Drained::Unnamed),
            }
        },
        (after, NextView::Exhausted) => (after, found, Drained::Exhausted),
        (after, NextView::Fetch(command)) => (after, found, Drained::Fetch(command)),
    }
}

/// The command that gives a cursor up, where the engine still holds it.
pub open spec fn kill_request(cursor: CursorView) -> Option<RequestView> {
    if cursor.id == 0 {
        None
    } else {
        Some(
            RequestView {
                database: cursor.database,
                command: find::kill_cursors_fields(cursor.collection, cursor.id),
            },
        )
    }
}

/// A listing that turns to the database at `at`, having been through all before it.
pub open spec fn turned_to(
    entries: Seq<document::Value>,
    at: int,
    found: Seq<NamespaceView>,
) -> ListingNext {
    if at >= entries.len() {
        ListingNext::Done(entries.len(), found)
    } else {
        match database_name(entries[at]) {
            Some(database) => ListingNext::Send(
                ListingView { stage: StageView::Collections, entries, at, database, found },
                RequestView { database, command: listing_fields("listCollections"@) },
            ),
            None => ListingNext::Failed(
                Failure::Invalid("listDatabases response has an entry without a name"@),
                None,
            ),
        }
    }
}

impl ListingView {
    /// A listing that has asked for the databases.
    pub open spec fn start() -> ListingView {
        ListingView {
            stage: StageView::Databases,
            entries: seq![],
            at: 0,
            database: seq![],
            found: seq![],
        }
    }

    /// A listing that reads on through `cursor`.
    pub open spec fn reading(self, cursor: CursorView) -> ListingNext {
        let (after, found, end) = drained(self.database, cursor, self.found);
        match end {
            Drained::Exhausted => turned_to(self.entries, self.at + 1, found),
            Drained::Fetch(command) => ListingNext::Send(
                ListingView { stage: StageView::Batch(after), found, ..self },
                RequestView { database: after.database, command },
            ),
            Drained::Unnamed => ListingNext::Failed(
                Failure::Invalid("listCollections response has an entry without a name"@),
                kill_request(after),
            ),
        }
    }

    /// What the answer to the command that was sent makes of a listing.
    pub open spec fn answered(self, reply: Result<bson::Document, Error>) -> ListingNext {
        match (self.stage, reply) {
            (StageView::Databases, Ok(response)) => {
                match document::field(document::fields(response), "databases"@) {
                    Some(document::Value::Array(entries)) => turned_to(entries, 0, seq![]),
                    _ => ListingNext::Failed(
                        Failure::Invalid("listDatabases response has no databases array"@),
                        None,
                    ),
                }
            },
            (StageView::Collections, Ok(response)) => {
                match find::read_batch(document::fields(response), "firstBatch"@) {
                    Ok((id, documents)) => self.reading(
                        CursorView {
                            database: self.database,
                            collection: LIST_COLLECTIONS@,
                            id,
                            documents,
                            finished: false,
                        },
                    ),
                    Err(reason) => ListingNext::Failed(Failure::Invalid(reason), None),
                }
            },
            (StageView::Batch(cursor), Ok(response)) => {
                match find::read_batch(document::fields(response), "nextBatch"@) {
                    Ok(batch) => self.reading(cursor.with_batch(batch)),
                    Err(reason) => ListingNext::Failed(
                        Failure::Invalid(reason),
                        kill_request(cursor),
                    ),
                }
            },
            (StageView::Batch(cursor), Err(_)) => ListingNext::Failed(
                Failure::Reply,
                kill_request(cursor),
            ),
            (_, Err(_)) => ListingNext::Failed(Failure::Reply, None),
        }
    }
}

enum Stage {
    Databases,
    Collections,
    Batch(Cursor),
}

/// A listing of every collection in the directory, waiting for the answer to the command it last
/// asked to have sent.
///
/// A failure ends the pass rather than skipping the database it happened in: not being able to
/// enumerate is a statement about the engine, not about one database, and continuing would write
/// a marker over collections that were never looked at.
pub struct Listing {
    stage: Stage,
    entries: Vec<bson::Bson>,
    at: usize,
    database: String,
    found: Vec<Namespace>,
}

/// What a listing does next.
pub enum ListingStep {
    /// Has this command sent, and waits for its answer.
    Send(Listing, Request),
    Done(Catalog),
    /// Fails, once this command has been sent where there is one.
    Failed(Error, Option<Request>),
}

impl ListingStep {
    /// Whether this is the step that `next` says, after `reply`.
    pub open spec fn agrees(self, next: ListingNext, reply: Result<bson::Document, Error>) -> bool {
        match (next, self) {
            (ListingNext::Send(listing_view, request_view), ListingStep::Send(listing, request)) => {
                &&& listing@ == listing_view
                &&& request@ == request_view
            },
            (ListingNext::Done(databases, namespaces), ListingStep::Done(catalog)) => {
                &&& catalog.databases == databases
                &&& named(catalog.namespaces@) == namespaces
            },
            (ListingNext::Failed(failure, request_view), ListingStep::Failed(error, request)) => {
                &&& match failure {
                    Failure::Reply => reply == Err::<bson::Document, Error>(error),
                    Failure::Invalid(reason) => error.is_invalid_response(reason),
                }
                &&& match request {
                    Some(request) => request_view == Some(request@),
                    None => request_view is None,
                }
            },
            _ => false,
        }
    }
}

impl View for Listing {
    type V = ListingView;

    closed spec fn view(&self) -> ListingView {
        ListingView {
            stage: match self.stage {
                Stage::Databases => StageView::Databases,
                Stage::Collections => StageView::Collections,
                Stage::Batch(cursor) => StageView::Batch(cursor@),
            },
            entries: document::values(self.entries@),
            at: self.at as int,
            database: self.database@,
            found: named(self.found@),
        }
    }
}

impl Listing {
    #[verifier::type_invariant]
    spec fn is_at_a_database(self) -> bool {
        self.stage is Databases || self.at < self.entries@.len()
    }

    /// A listing, and the command it starts with.
    pub fn new() -> (start: (Listing, Request))
        ensures
            start.0@ == ListingView::start(),
            start.1@ == (RequestView {
                database: "admin"@,
                command: listing_fields("listDatabases"@),
            }),
    {
        proof {
            reveal_strlit("");
            assert(""@ =~= seq![]);
        }
        let listing: Listing = Listing {
            stage: Stage::Databases,
            entries: Vec::new(),
            at: 0,
            database: "".to_owned(),
            found: Vec::new(),
        };
        assert(named(listing.found@) =~= seq![]);
        assert(document::values(listing.entries@) =~= seq![]);
        (listing, list_databases())
    }

    /// Takes the answer to the command that was sent.
    pub fn answered(self, reply: Result<bson::Document, Error>) -> (step: ListingStep)
        ensures
            step.agrees(self@.answered(reply), reply),
    {
        proof {
            use_type_invariant(&self);
        }
        let ghost before = self@;
        match (self.stage, reply) {
            (Stage::Databases, Ok(mut response)) => {
                match document::remove(&mut response, "databases") {
                    Some(found) => match document::take_apart(found) {
                        Node::Array(entries) => {
                            let none: Vec<Namespace> = Vec::new();
                            assert(named(none@) =~= seq![]);
                            turn_to(entries, 0, none, Ghost(reply))
                        },
                        _ => ListingStep::Failed(
                            Error::InvalidResponse(
                                "listDatabases response has no databases array".to_owned(),
                            ),
                            None,
                        ),
                    },
                    None => ListingStep::Failed(
                        Error::InvalidResponse(
                            "listDatabases response has no databases array".to_owned(),
                        ),
                        None,
                    ),
                }
            },
            // Through the cursor rather than off the first batch alone, so a directory with more
            // collections than fit one batch is checked to the end instead of halfway.
            (Stage::Collections, Ok(response)) => match Cursor::from_response(
                self.database.as_str(),
                LIST_COLLECTIONS,
                response,
                "firstBatch",
            ) {
                Ok(cursor) => read_on(
                    self.entries,
                    self.at,
                    self.database,
                    cursor,
                    self.found,
                    Ghost(before),
                    Ghost(reply),
                ),
                Err(error) => ListingStep::Failed(error, None),
            },
            (Stage::Batch(mut cursor), reply) => match cursor.fetched(reply) {
                None => read_on(
                    self.entries,
                    self.at,
                    self.database,
                    cursor,
                    self.found,
                    Ghost(before),
                    Ghost(reply),
                ),
                Some(error) => {
                    let request: Option<Request> = give_up(cursor);
                    ListingStep::Failed(error, request)
                },
            },
            (_, Err(error)) => ListingStep::Failed(error, None),
        }
    }
}

/// The command that gives a cursor up, where the engine still holds it.
fn give_up(cursor: Cursor) -> (request: Option<Request>)
    ensures
        match request {
            Some(request) => kill_request(cursor@) == Some(request@),
            None => kill_request(cursor@) is None,
        },
{
    let mut cursor: Cursor = cursor;
    match cursor.kill() {
        Some(command) => Some(Request { database: cursor.database().to_owned(), command }),
        None => None,
    }
}

/// Turns to the database at `at`, having been through all before it.
fn turn_to(
    entries: Vec<bson::Bson>,
    at: usize,
    found: Vec<Namespace>,
    Ghost(reply): Ghost<Result<bson::Document, Error>>,
) -> (step: ListingStep)
    ensures
        step.agrees(turned_to(document::values(entries@), at as int, named(found@)), reply),
{
    if at >= entries.len() {
        return ListingStep::Done(Catalog { databases: entries.len(), namespaces: found });
    }
    let ghost entry = document::values(entries@)[at as int];
    assert(entry == document::value(entries@[at as int]));
    let database: Option<String> = match document::open(&entries[at]) {
        ValueRef::Document(entry) => match name_in(entry) {
            Some(name) => Some(name.to_owned()),
            None => None,
        },
        _ => None,
    };
    match database {
        Some(database) => {
            let request: Request = list_collections(database.as_str());
            ListingStep::Send(
                Listing { stage: Stage::Collections, entries, at, database, found },
                request,
            )
        },
        None => ListingStep::Failed(
            Error::InvalidResponse("listDatabases response has an entry without a name".to_owned()),
            None,
        ),
    }
}

/// Reads on through the cursor `from`.
fn read_on(
    entries: Vec<bson::Bson>,
    at: usize,
    database: String,
    from: Cursor,
    found: Vec<Namespace>,
    Ghost(before): Ghost<ListingView>,
    Ghost(reply): Ghost<Result<bson::Document, Error>>,
) -> (step: ListingStep)
    requires
        at < entries@.len(),
        before.entries == document::values(entries@),
        before.at == at,
        before.database == database@,
        before.found == named(found@),
    ensures
        step.agrees(before.reading(from@), reply),
{
    let count: usize = entries.len();
    let mut cursor: Cursor = from;
    let mut found: Vec<Namespace> = found;
    loop
        invariant
            at < count,
            count == entries@.len(),
            before.entries == document::values(entries@),
            before.at == at,
            before.database == database@,
            drained(before.database, from@, before.found) == drained(
                before.database,
                cursor@,
                named(found@),
            ),
        decreases cursor@.documents.len(),
    {
        match cursor.next() {
            Next::Document(entry) => {
                if is_collection(&entry) {
                    match name_in(&entry) {
                        Some(name) => {
                            let ghost earlier = found@;
                            found.push(Namespace::new(database.as_str(), name));
                            assert(named(found@) =~= named(earlier).push(
                                NamespaceView { database: database@, collection: name@ },
                            ));
                        },
                        None => {
                            let request: Option<Request> = give_up(cursor);
                            return ListingStep::Failed(
                                Error::InvalidResponse(
                                    "listCollections response has an entry without a name".to_owned(),
                                ),
                                request,
                            );
                        },
                    }
                }
            },
            Next::Exhausted => return turn_to(entries, at + 1, found, Ghost(reply)),
            Next::Fetch(command) => {
                let request: Request = Request { database: cursor.database().to_owned(), command };
                return ListingStep::Send(
                    Listing { stage: Stage::Batch(cursor), entries, at, database, found },
                    request,
                );
            },
        }
    }
}

/// The collections among a database's entries, in order, each of which carries a name.
pub open spec fn selected(database: Seq<char>, entries: Seq<document::Fields>) -> Seq<
    NamespaceView,
>
    decreases entries.len(),
{
    if entries.len() == 0 {
        seq![]
    } else if !names_collection(entries[0]) {
        selected(database, entries.drop_first())
    } else {
        seq![NamespaceView { database, collection: entry_name(entries[0])->0 }] + selected(
            database,
            entries.drop_first(),
        )
    }
}

/// What a listing comes to when its commands are answered by `replies`, one after the other:
/// nothing yet where it waits for more.
pub open spec fn run_listing(
    listing: ListingView,
    replies: Seq<Result<bson::Document, Error>>,
) -> Option<ListingNext>
    decreases replies.len(),
{
    if replies.len() == 0 {
        None
    } else {
        match listing.answered(replies[0]) {
            ListingNext::Send(next, _) => run_listing(next, replies.drop_first()),
            end => Some(end),
        }
    }
}

/// What a step of a listing comes to when the commands from there on are answered by `replies`.
pub open spec fn run_on(
    next: ListingNext,
    replies: Seq<Result<bson::Document, Error>>,
) -> Option<ListingNext> {
    match next {
        ListingNext::Send(listing, _) => run_listing(listing, replies),
        end => Some(end),
    }
}

/// What a database holds, as an engine hands it out: its name, and the entries of its
/// collections in one batch or more.
#[verifier::ext_equal]
pub struct DatabaseEntries {
    pub name: Seq<char>,
    pub batches: Seq<(i64, Seq<document::Fields>)>,
}

impl DatabaseEntries {
    /// Whether these are batches an engine hands out -- another for as long as the cursor has a
    /// name -- and every collection among the entries carries a name.
    pub open spec fn wf(self) -> bool {
        &&& self.batches.len() > 0
        &&& find::continues(self.batches[0].0, self.batches.drop_first())
        &&& are_named(find::joined(self.batches))
    }

    /// Whether these batches are what `replies` start with.
    pub open spec fn answered_by(self, replies: Seq<Result<bson::Document, Error>>) -> bool {
        &&& replies.len() >= self.batches.len()
        &&& is_batch(replies[0], "firstBatch"@, self.batches[0])
        &&& forall|i: int|
            0 < i < self.batches.len() ==> is_batch(
                #[trigger] replies[i],
                "nextBatch"@,
                self.batches[i],
            )
    }
}

/// Whether every collection among `entries` carries a name.
pub open spec fn are_named(entries: Seq<document::Fields>) -> bool {
    forall|i: int|
        0 <= i < entries.len() && names_collection(#[trigger] entries[i]) ==> entry_name(
            entries[i],
        ) is Some
}

/// Whether a reply is a batch.
pub open spec fn is_batch(
    reply: Result<bson::Document, Error>,
    batch_name: Seq<char>,
    batch: (i64, Seq<document::Fields>),
) -> bool {
    reply is Ok && find::read_batch(document::fields(reply->Ok_0), batch_name) == Ok::<
        (i64, Seq<document::Fields>),
        Seq<char>,
    >(batch)
}

/// Whether `replies` are the batches of every database of a directory, one after the other.
pub open spec fn are_answers(
    replies: Seq<Result<bson::Document, Error>>,
    directory: Seq<DatabaseEntries>,
) -> bool
    decreases directory.len(),
{
    directory.len() > 0 ==> {
        &&& directory[0].wf()
        &&& directory[0].answered_by(replies)
        &&& are_answers(
            replies.skip(directory[0].batches.len() as int),
            directory.drop_first(),
        )
    }
}

/// The collections of every database of a directory.
pub open spec fn all_selected(directory: Seq<DatabaseEntries>) -> Seq<NamespaceView>
    decreases directory.len(),
{
    if directory.len() == 0 {
        seq![]
    } else {
        selected(directory[0].name, find::joined(directory[0].batches)) + all_selected(
            directory.drop_first(),
        )
    }
}

/// Reading a cursor to the end of its batch finds the collections of that batch.
pub(crate) proof fn lemma_drained(database: Seq<char>, cursor: CursorView, found: Seq<NamespaceView>)
    requires
        !cursor.finished,
        are_named(cursor.documents),
    ensures
        ({
            let (after, all, end) = drained(database, cursor, found);
            let used = CursorView { documents: seq![], ..cursor };
            &&& all == found + selected(database, cursor.documents)
            &&& cursor.id == 0 ==> end is Exhausted
            &&& cursor.id != 0 ==> end is Fetch && after == used
        }),
    decreases cursor.documents.len(),
{
    if cursor.documents.len() > 0 {
        let (after, _) = cursor.next();
        let entry = cursor.documents[0];
        let rest = cursor.documents.drop_first();
        assert(are_named(after.documents)) by {
            assert forall|i: int|
                0 <= i < rest.len() && names_collection(#[trigger] rest[i]) implies entry_name(
                rest[i],
            ) is Some by {
                assert(rest[i] == cursor.documents[i + 1]);
            }
        }
        if names_collection(entry) {
            let one = NamespaceView { database, collection: entry_name(entry)->0 };
            lemma_drained(database, after, found.push(one));
            assert(found.push(one) + selected(database, rest) =~= found + (seq![one] + selected(
                database,
                rest,
            )));
        } else {
            lemma_drained(database, after, found);
        }
    } else {
        assert(cursor.documents =~= seq![]);
        assert(found + selected(database, cursor.documents) =~= found);
    }
}

/// The collections of two runs of entries are those of the one and then those of the other.
proof fn lemma_selected_of_both(
    database: Seq<char>,
    front: Seq<document::Fields>,
    back: Seq<document::Fields>,
)
    ensures
        selected(database, front + back) == selected(database, front) + selected(database, back),
    decreases front.len(),
{
    if front.len() == 0 {
        assert(front + back =~= back);
        assert(selected(database, front) + selected(database, back) =~= selected(database, back));
    } else {
        lemma_selected_of_both(database, front.drop_first(), back);
        assert((front + back).drop_first() =~= front.drop_first() + back);
        if names_collection(front[0]) {
            let one = seq![NamespaceView { database, collection: entry_name(front[0])->0 }];
            assert(one + (selected(database, front.drop_first()) + selected(database, back)) =~= (
            one + selected(database, front.drop_first())) + selected(database, back));
        }
    }
}

/// A listing that reads a database batch by batch turns to the next with the collections of all
/// the batches found.
proof fn lemma_batches(
    listing: ListingView,
    cursor: CursorView,
    batches: Seq<(i64, Seq<document::Fields>)>,
    replies: Seq<Result<bson::Document, Error>>,
)
    requires
        !cursor.finished,
        find::continues(cursor.id, batches),
        are_named(cursor.documents + find::joined(batches)),
        replies.len() >= batches.len(),
        forall|i: int|
            0 <= i < batches.len() ==> is_batch(#[trigger] replies[i], "nextBatch"@, batches[i]),
    ensures
        run_on(listing.reading(cursor), replies) == run_on(
            turned_to(
                listing.entries,
                listing.at + 1,
                listing.found + selected(
                    listing.database,
                    cursor.documents + find::joined(batches),
                ),
            ),
            replies.skip(batches.len() as int),
        ),
    decreases batches.len(),
{
    let database = listing.database;
    let all = cursor.documents + find::joined(batches);
    assert(are_named(cursor.documents)) by {
        assert forall|i: int|
            0 <= i < cursor.documents.len() && names_collection(
                #[trigger] cursor.documents[i],
            ) implies entry_name(cursor.documents[i]) is Some by {
            assert(all[i] == cursor.documents[i]);
        }
    }
    lemma_drained(database, cursor, listing.found);
    if cursor.id == 0 {
        assert(all =~= cursor.documents);
        assert(replies.skip(0) =~= replies);
    } else {
        let (after, here, end) = drained(database, cursor, listing.found);
        let next = ListingView { stage: StageView::Batch(after), found: here, ..listing };
        let later = batches.drop_first();
        let rest = replies.drop_first();
        let fetched = after.with_batch(batches[0]);
        assert(is_batch(replies[0], "nextBatch"@, batches[0]));
        assert(next.answered(replies[0]) == next.reading(fetched));
        assert(run_on(listing.reading(cursor), replies) == run_on(next.reading(fetched), rest));
        let remaining = fetched.documents + find::joined(later);
        assert(remaining =~= find::joined(batches));
        assert(are_named(remaining)) by {
            assert forall|i: int|
                0 <= i < remaining.len() && names_collection(
                    #[trigger] remaining[i],
                ) implies entry_name(remaining[i]) is Some by {
                assert(all[cursor.documents.len() + i] == remaining[i]);
            }
        }
        assert forall|i: int| 0 <= i < later.len() implies is_batch(
            #[trigger] rest[i],
            "nextBatch"@,
            later[i],
        ) by {
            assert(is_batch(replies[i + 1], "nextBatch"@, batches[i + 1]));
        }
        lemma_batches(next, fetched, later, rest);
        assert(rest.skip(later.len() as int) =~= replies.skip(batches.len() as int));
        lemma_selected_of_both(database, cursor.documents, find::joined(batches));
        assert(here + selected(database, remaining) =~= listing.found + selected(database, all));
    }
}

/// A listing that turns to a database goes through it and every one after it.
proof fn lemma_directory(
    entries: Seq<document::Value>,
    at: int,
    found: Seq<NamespaceView>,
    directory: Seq<DatabaseEntries>,
    replies: Seq<Result<bson::Document, Error>>,
)
    requires
        0 <= at,
        entries.len() == at + directory.len(),
        forall|i: int|
            0 <= i < directory.len() ==> database_name(entries[at + i]) == Some(
                (#[trigger] directory[i]).name,
            ),
        are_answers(replies, directory),
    ensures
        run_on(turned_to(entries, at, found), replies) == Some(
            ListingNext::Done(entries.len(), found + all_selected(directory)),
        ),
    decreases directory.len(),
{
    if directory.len() == 0 {
        assert(found + all_selected(directory) =~= found);
    } else {
        let here = directory[0];
        let later = directory.drop_first();
        let rest = replies.drop_first();
        let listing = ListingView {
            stage: StageView::Collections,
            entries,
            at,
            database: here.name,
            found,
        };
        let cursor = CursorView {
            database: here.name,
            collection: LIST_COLLECTIONS@,
            id: here.batches[0].0,
            documents: here.batches[0].1,
            finished: false,
        };
        assert(database_name(entries[at + 0]) == Some(directory[0].name));
        assert(run_on(turned_to(entries, at, found), replies) == run_listing(listing, replies));
        assert(listing.answered(replies[0]) == listing.reading(cursor));
        assert(run_listing(listing, replies) == run_on(listing.reading(cursor), rest));
        let batches = here.batches.drop_first();
        assert(cursor.documents + find::joined(batches) =~= find::joined(here.batches));
        assert forall|i: int| 0 <= i < batches.len() implies is_batch(
            #[trigger] rest[i],
            "nextBatch"@,
            batches[i],
        ) by {
            assert(is_batch(replies[i + 1], "nextBatch"@, here.batches[i + 1]));
        }
        lemma_batches(listing, cursor, batches, rest);
        let beyond = replies.skip(here.batches.len() as int);
        assert(rest.skip(batches.len() as int) =~= beyond);
        let more = found + selected(here.name, find::joined(here.batches));
        assert forall|i: int| 0 <= i < later.len() implies database_name(entries[at + 1 + i])
            == Some((#[trigger] later[i]).name) by {
            assert(directory[i + 1] == later[i]);
            assert(database_name(entries[at + (i + 1)]) == Some(directory[i + 1].name));
        }
        lemma_directory(entries, at + 1, more, later, beyond);
        assert(more + all_selected(later) =~= found + all_selected(directory));
    }
}

/// A listing finds every collection of every database of a directory, once and in order, however
/// many batches the engine hands the entries out in -- and nothing that is a view.
pub proof fn every_collection_is_listed(
    entries: Seq<document::Value>,
    directory: Seq<DatabaseEntries>,
    replies: Seq<Result<bson::Document, Error>>,
)
    requires
        replies.len() > 0,
        replies[0] is Ok,
        document::field(document::fields(replies[0]->Ok_0), "databases"@) == Some(
            document::Value::Array(entries),
        ),
        entries.len() == directory.len(),
        forall|i: int|
            0 <= i < directory.len() ==> database_name(entries[i]) == Some(
                (#[trigger] directory[i]).name,
            ),
        are_answers(replies.drop_first(), directory),
    ensures
        run_listing(ListingView::start(), replies) == Some(
            ListingNext::Done(directory.len(), all_selected(directory)),
        ),
{
    lemma_directory(entries, 0, seq![], directory, replies.drop_first());
    assert(Seq::<NamespaceView>::empty() + all_selected(directory) =~= all_selected(directory));
}

/// Reading a cursor stops at an entry without a name, if there is one among its collections.
pub(crate) proof fn lemma_stops_at_unnamed(database: Seq<char>, cursor: CursorView, found: Seq<NamespaceView>)
    requires
        !are_named(cursor.documents),
    ensures
        drained(database, cursor, found).2 is Unnamed,
    decreases cursor.documents.len(),
{
    let (after, _) = cursor.next();
    let entry = cursor.documents[0];
    let i = choose|i: int|
        0 <= i < cursor.documents.len() && names_collection(#[trigger] cursor.documents[i])
            && entry_name(cursor.documents[i]) is None;
    if i > 0 {
        assert(after.documents[i - 1] == cursor.documents[i]);
        if !names_collection(entry) {
            lemma_stops_at_unnamed(database, after, found);
        } else if let Some(collection) = entry_name(entry) {
            lemma_stops_at_unnamed(
                database,
                after,
                found.push(NamespaceView { database, collection }),
            );
        }
    }
}

/// A listing that finishes, from where it reads a cursor on, has read every batch of that cursor.
proof fn lemma_read_every_batch(
    listing: ListingView,
    cursor: CursorView,
    replies: Seq<Result<bson::Document, Error>>,
) -> (batches: Seq<(i64, Seq<document::Fields>)>)
    requires
        !cursor.finished,
        run_on(listing.reading(cursor), replies) is Some,
        run_on(listing.reading(cursor), replies)->0 is Done,
    ensures
        find::continues(cursor.id, batches),
        are_named(cursor.documents + find::joined(batches)),
        replies.len() >= batches.len(),
        forall|i: int|
            0 <= i < batches.len() ==> is_batch(#[trigger] replies[i], "nextBatch"@, batches[i]),
    decreases replies.len(),
{
    let database = listing.database;
    if !are_named(cursor.documents) {
        lemma_stops_at_unnamed(database, cursor, listing.found);
    }
    lemma_drained(database, cursor, listing.found);
    if cursor.id == 0 {
        let batches = Seq::<(i64, Seq<document::Fields>)>::empty();
        assert(cursor.documents + find::joined(batches) =~= cursor.documents);
        batches
    } else {
        let (after, here, end) = drained(database, cursor, listing.found);
        let next = ListingView { stage: StageView::Batch(after), found: here, ..listing };
        let rest = replies.drop_first();
        assert(run_on(listing.reading(cursor), replies) == run_listing(next, replies));
        let first = find::read_batch(
            document::fields(replies[0]->Ok_0),
            "nextBatch"@,
        )->Ok_0;
        assert(is_batch(replies[0], "nextBatch"@, first));
        let fetched = after.with_batch(first);
        assert(next.answered(replies[0]) == next.reading(fetched));
        assert(run_listing(next, replies) == run_on(next.reading(fetched), rest));
        let later = lemma_read_every_batch(next, fetched, rest);
        let batches = seq![first] + later;
        assert(batches.drop_first() =~= later);
        assert(find::joined(batches) =~= fetched.documents + find::joined(later));
        let all = cursor.documents + find::joined(batches);
        assert forall|i: int| 0 <= i < all.len() && names_collection(#[trigger] all[i]) implies (
        entry_name(all[i]) is Some) by {
            if i < cursor.documents.len() {
                assert(all[i] == cursor.documents[i]);
            } else {
                assert(all[i] == (fetched.documents + find::joined(later))[i
                    - cursor.documents.len()]);
            }
        }
        assert forall|i: int| 0 <= i < batches.len() implies is_batch(
            #[trigger] replies[i],
            "nextBatch"@,
            batches[i],
        ) by {
            if i > 0 {
                assert(is_batch(rest[i - 1], "nextBatch"@, later[i - 1]));
            }
        }
        batches
    }
}

/// A listing that finishes, from where it turns to a database on, has been through that database
/// and every one after it.
proof fn lemma_went_through(
    entries: Seq<document::Value>,
    at: int,
    found: Seq<NamespaceView>,
    replies: Seq<Result<bson::Document, Error>>,
) -> (directory: Seq<DatabaseEntries>)
    requires
        0 <= at <= entries.len(),
        run_on(turned_to(entries, at, found), replies) is Some,
        run_on(turned_to(entries, at, found), replies)->0 is Done,
    ensures
        entries.len() == at + directory.len(),
        forall|i: int|
            0 <= i < directory.len() ==> database_name(entries[at + i]) == Some(
                (#[trigger] directory[i]).name,
            ),
        are_answers(replies, directory),
    decreases entries.len() - at,
{
    if at == entries.len() {
        Seq::empty()
    } else {
        let database = database_name(entries[at])->0;
        let listing = ListingView {
            stage: StageView::Collections,
            entries,
            at,
            database,
            found,
        };
        assert(run_on(turned_to(entries, at, found), replies) == run_listing(listing, replies));
        let first = find::read_batch(
            document::fields(replies[0]->Ok_0),
            "firstBatch"@,
        )->Ok_0;
        assert(is_batch(replies[0], "firstBatch"@, first));
        let cursor = CursorView {
            database,
            collection: LIST_COLLECTIONS@,
            id: first.0,
            documents: first.1,
            finished: false,
        };
        let rest = replies.drop_first();
        assert(listing.answered(replies[0]) == listing.reading(cursor));
        assert(run_listing(listing, replies) == run_on(listing.reading(cursor), rest));
        let more = lemma_read_every_batch(listing, cursor, rest);
        lemma_batches(listing, cursor, more, rest);
        let here = DatabaseEntries { name: database, batches: seq![first] + more };
        assert(here.batches.drop_first() =~= more);
        assert(find::joined(here.batches) =~= cursor.documents + find::joined(more));
        let beyond = replies.skip(here.batches.len() as int);
        assert(rest.skip(more.len() as int) =~= beyond);
        assert forall|i: int| 0 < i < here.batches.len() implies is_batch(
            #[trigger] replies[i],
            "nextBatch"@,
            here.batches[i],
        ) by {
            assert(is_batch(rest[i - 1], "nextBatch"@, more[i - 1]));
        }
        let all = listing.found + selected(database, cursor.documents + find::joined(more));
        let later = lemma_went_through(entries, at + 1, all, beyond);
        let directory = seq![here] + later;
        assert(directory.drop_first() =~= later);
        assert forall|i: int| 0 <= i < directory.len() implies database_name(entries[at + i])
            == Some((#[trigger] directory[i]).name) by {
            if i > 0 {
                assert(directory[i] == later[i - 1]);
                assert(database_name(entries[at + 1 + (i - 1)]) == Some(later[i - 1].name));
            }
        }
        directory
    }
}

/// A listing that finishes has read everything: every database the engine listed, every batch of
/// each of them to the end, and what it found is every collection among them.
pub proof fn a_finished_listing_has_read_everything(
    replies: Seq<Result<bson::Document, Error>>,
    databases: nat,
    found: Seq<NamespaceView>,
) -> (directory: Seq<DatabaseEntries>)
    requires
        run_listing(ListingView::start(), replies) == Some(ListingNext::Done(databases, found)),
    ensures
        replies.len() > 0,
        replies[0] is Ok,
        document::field(document::fields(replies[0]->Ok_0), "databases"@) is Some,
        ({
            let listed = document::field(document::fields(replies[0]->Ok_0), "databases"@)->0;
            &&& listed is Array
            &&& listed->Array_0.len() == directory.len()
            &&& forall|i: int|
                0 <= i < directory.len() ==> database_name(listed->Array_0[i]) == Some(
                    (#[trigger] directory[i]).name,
                )
        }),
        are_answers(replies.drop_first(), directory),
        databases == directory.len(),
        found == all_selected(directory),
{
    let entries = document::field(
        document::fields(replies[0]->Ok_0),
        "databases"@,
    )->0->Array_0;
    let rest = replies.drop_first();
    assert(run_listing(ListingView::start(), replies) == run_on(
        turned_to(entries, 0, seq![]),
        rest,
    ));
    let directory = lemma_went_through(entries, 0, seq![], rest);
    assert forall|i: int| 0 <= i < directory.len() implies database_name(entries[i]) == Some(
        (#[trigger] directory[i]).name,
    ) by {
        assert(database_name(entries[0 + i]) == Some(directory[i].name));
    }
    every_collection_is_listed(entries, directory, replies);
    directory
}

} // verus!
