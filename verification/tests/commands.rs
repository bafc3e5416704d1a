use bson::{Bson, Document};
use embedded_mongodb::collection::{inserted_many, inserted_one, Collection, Database};
use embedded_mongodb::command::{decode_response, encode_command};
use embedded_mongodb::error::{validate_response, Error, NativeError};
use embedded_mongodb::find::{take_cursor_batch, Cursor, Next};
use embedded_mongodb::insert::{ensure_id, expect_inserted_count};

fn document(fields: &[(&str, Bson)]) -> Document {
    let mut document = Document::new();
    for (key, value) in fields {
        document.insert(*key, value.clone());
    }
    document
}

fn text(text: &str) -> Bson {
    Bson::String(text.to_owned())
}

fn numbered(number: i32) -> Document {
    document(&[("_id", Bson::Int32(number))])
}

fn orders() -> Collection {
    Database::new("shop").collection("orders")
}

#[test]
fn a_collection_keeps_its_names_apart() {
    let database = Database::new("shop");
    let collection = database.collection("orders");

    assert_eq!(database.name(), "shop");
    assert_eq!(collection.database_name(), "shop");
    assert_eq!(collection.name(), "orders");
}

#[test]
fn a_command_goes_to_its_database_as_it_is() {
    let request = Database::new("shop").run_command(document(&[("ping", Bson::Int32(1))]));

    assert_eq!(request.database, "shop");
    assert_eq!(request.command, document(&[("ping", Bson::Int32(1))]));
}

#[test]
fn queries_are_spelled_as_the_server_reads_them() {
    let request = orders().find(numbered(1));
    assert_eq!(request.database, "shop");
    assert_eq!(
        request.command,
        document(&[
            ("find", text("orders")),
            ("filter", Bson::Document(numbered(1))),
        ])
    );

    assert_eq!(
        orders().find_one(numbered(1)).command,
        document(&[
            ("find", text("orders")),
            ("filter", Bson::Document(numbered(1))),
            ("limit", Bson::Int64(1)),
            ("singleBatch", Bson::Boolean(true)),
        ])
    );

    assert_eq!(
        orders().aggregate(vec![numbered(1), numbered(2)]).command,
        document(&[
            ("aggregate", text("orders")),
            (
                "pipeline",
                Bson::Array(vec![
                    Bson::Document(numbered(1)),
                    Bson::Document(numbered(2)),
                ])
            ),
            ("cursor", Bson::Document(Document::new())),
        ])
    );
}

#[test]
fn a_document_without_an_id_is_given_one() {
    let mut given = document(&[("name", text("embedded"))]);

    let id = ensure_id(&mut given);

    assert!(matches!(id, Bson::ObjectId(_)));
    assert_eq!(given.get("_id"), Some(&id));
    assert_eq!(given.keys().collect::<Vec<_>>(), ["name", "_id"]);
}

#[test]
fn a_document_with_an_id_keeps_it() {
    let mut given = numbered(7);

    assert_eq!(ensure_id(&mut given), Bson::Int32(7));
    assert_eq!(given, numbered(7));
}

#[test]
fn an_insertion_sends_the_document_under_the_id_it_answers() {
    let (request, id) = orders().insert_one(Document::new());

    let sent = request
        .command
        .get_array("documents")
        .expect("an array of documents");
    assert_eq!(sent, &vec![Bson::Document(document(&[("_id", id.clone())]))]);
    assert_eq!(request.command.get_str("insert").ok(), Some("orders"));

    let result = inserted_one(&document(&[("n", Bson::Int32(1))]), id.clone());
    assert_eq!(result.expect("one document was inserted").inserted_id, id);
}

#[test]
fn an_insertion_of_many_answers_one_id_per_document() {
    let (request, ids) = orders()
        .insert_many(vec![numbered(1), Document::new(), numbered(3)])
        .expect("there is something to insert");

    assert_eq!(ids.len(), 3);
    assert_eq!(ids[&0], Bson::Int32(1));
    assert!(matches!(ids[&1], Bson::ObjectId(_)));
    assert_eq!(ids[&2], Bson::Int32(3));
    let sent = request
        .command
        .get_array("documents")
        .expect("an array of documents");
    assert_eq!(sent.len(), 3);
    assert_eq!(
        sent[1],
        Bson::Document(document(&[("_id", ids[&1].clone())]))
    );

    let short = inserted_many(&document(&[("n", Bson::Int32(2))]), ids.clone());
    assert_eq!(
        short.expect_err("one is missing").message(),
        "invalid embedded MongoDB response: inserted 2 documents, expected 3"
    );
    let all = inserted_many(&document(&[("n", Bson::Int64(3))]), ids.clone());
    assert_eq!(all.expect("all were inserted").inserted_ids, ids);
}

#[test]
fn an_insertion_of_none_is_refused() {
    let refused = orders().insert_many(Vec::new());

    assert!(matches!(
        refused,
        Err(Error::InvalidArgument(
            "insert_many requires at least one document"
        ))
    ));
}

#[test]
fn a_count_that_is_none_is_no_count() {
    for reply in [
        Document::new(),
        document(&[("n", Bson::Int32(-1))]),
        document(&[("n", Bson::Int64(i64::MIN))]),
        document(&[("n", Bson::Double(1.0))]),
    ] {
        assert_eq!(
            expect_inserted_count(&reply, 1)
                .expect_err("no count")
                .message(),
            "invalid embedded MongoDB response: insert response has no valid n field"
        );
    }
    assert!(expect_inserted_count(&document(&[("n", Bson::Int64(0))]), 0).is_ok());
}

fn cursor_reply(id: Bson, name: &str, batch: Vec<Bson>) -> Document {
    document(&[(
        "cursor",
        Bson::Document(document(&[("id", id), (name, Bson::Array(batch))])),
    )])
}

fn all_of(numbers: &[i32]) -> Vec<Bson> {
    numbers
        .iter()
        .map(|number| Bson::Document(numbered(*number)))
        .collect()
}

#[test]
fn a_cursor_hands_out_every_batch_in_order() {
    let mut cursor = orders()
        .cursor(cursor_reply(Bson::Int32(9), "firstBatch", all_of(&[1, 2])))
        .expect("a cursor reply");
    let mut later = vec![
        cursor_reply(Bson::Int64(9), "nextBatch", Vec::new()),
        cursor_reply(Bson::Int64(0), "nextBatch", all_of(&[3])),
    ]
    .into_iter();
    let mut seen = Vec::new();
    loop {
        match cursor.next() {
            Next::Document(each) => seen.push(each),
            Next::Exhausted => break,
            Next::Fetch(command) => {
                assert_eq!(
                    command,
                    document(&[("getMore", Bson::Int64(9)), ("collection", text("orders"))])
                );
                let reply = later.next().expect("another batch");
                assert!(cursor.fetched(Ok(reply)).is_none());
            }
        }
    }

    assert_eq!(seen, vec![numbered(1), numbered(2), numbered(3)]);
    assert!(matches!(cursor.next(), Next::Exhausted));
    assert!(cursor.kill().is_none(), "there is nothing left to give up");
    assert_eq!(cursor.database(), "shop");
}

#[test]
fn a_cursor_whose_fetch_fails_is_over_and_still_given_up() {
    let mut cursor = Cursor::from_response(
        "shop",
        "orders",
        cursor_reply(Bson::Int64(9), "firstBatch", Vec::new()),
        "firstBatch",
    )
    .expect("a cursor reply");

    assert!(matches!(cursor.next(), Next::Fetch(_)));
    assert!(matches!(
        cursor.fetched(Err(Error::Closed)),
        Some(Error::Closed)
    ));
    assert!(matches!(cursor.next(), Next::Exhausted));
    assert_eq!(
        cursor.kill(),
        Some(document(&[
            ("killCursors", text("orders")),
            ("cursors", Bson::Array(vec![Bson::Int64(9)])),
        ]))
    );
    assert!(cursor.kill().is_none(), "a cursor is given up once");
}

#[test]
fn a_reply_that_is_no_batch_is_refused() {
    let refusal = |reply: Document| {
        take_cursor_batch(reply, "firstBatch")
            .map(|_| ())
            .expect_err("no batch")
            .message()
    };
    let because = |reason: &str| format!("invalid embedded MongoDB response: {reason}");

    assert_eq!(
        refusal(Document::new()),
        because("command response has no cursor document")
    );
    assert_eq!(
        refusal(cursor_reply(text("9"), "firstBatch", Vec::new())),
        because("cursor response has no valid id")
    );
    assert_eq!(
        refusal(cursor_reply(Bson::Int64(9), "nextBatch", Vec::new())),
        because("cursor response has no firstBatch array")
    );
    assert_eq!(
        refusal(cursor_reply(
            Bson::Int64(9),
            "firstBatch",
            vec![Bson::Int32(1)]
        )),
        because("cursor firstBatch contains a non-document value")
    );
}

#[test]
fn a_command_and_its_reply_travel_as_bytes() {
    let command = document(&[("ping", Bson::Int32(1)), ("ok", Bson::Double(1.0))]);

    let bytes = encode_command(&command).expect("a plain document");
    assert_eq!(bytes, command.to_vec().expect("a plain document"));
    assert_eq!(decode_response(&bytes).expect("an answer"), command);
}

#[test]
fn every_kind_of_counted_value_is_encoded() {
    let command = document(&[
        ("text", text("embedded")),
        ("code", Bson::JavaScriptCode("1".to_owned())),
        (
            "scoped",
            Bson::JavaScriptCodeWithScope(bson::JavaScriptCodeWithScope {
                code: "x".to_owned(),
                scope: numbered(1),
            }),
        ),
        ("symbol", Bson::Symbol("s".to_owned())),
        (
            "old",
            Bson::Binary(bson::Binary {
                subtype: bson::spec::BinarySubtype::BinaryOld,
                bytes: vec![1, 2, 3],
            }),
        ),
        ("nested", Bson::Array(vec![Bson::Document(numbered(2))])),
        ("ok", Bson::Int32(1)),
    ]);

    let bytes = encode_command(&command).expect("a plain document");

    assert_eq!(decode_response(&bytes).expect("an answer"), command);
}

#[test]
fn what_cannot_be_encoded_or_decoded_is_an_error() {
    let command = document(&[("a\0b", Bson::Int32(1))]);

    let failure = encode_command(&command).expect_err("a key with a NUL in it");
    assert!(matches!(failure, Error::Bson(_)));
    assert!(failure.message().starts_with("BSON error: "));
    assert!(failure.message().len() > "BSON error: ".len());
    assert!(matches!(decode_response(&[1, 2, 3]), Err(Error::Bson(_))));
}

#[test]
fn a_reply_is_an_answer_only_if_it_says_ok() {
    for ok in [Bson::Double(1.0), Bson::Int32(1), Bson::Int64(1)] {
        assert!(validate_response(document(&[("ok", ok)])).is_ok());
    }
    for ok in [
        Bson::Double(0.0),
        Bson::Double(-0.0),
        Bson::Int32(0),
        Bson::Int64(0),
    ] {
        assert_eq!(
            validate_response(document(&[("ok", ok)]))
                .expect_err("a refusal")
                .message(),
            "MongoDB error: MongoDB command failed"
        );
    }
    for reply in [Document::new(), document(&[("ok", Bson::Boolean(true))])] {
        assert_eq!(
            validate_response(reply).expect_err("no answer").message(),
            "invalid embedded MongoDB response: command response has no valid ok field"
        );
    }
}

fn complaint(code: Bson, message: &str) -> Bson {
    Bson::Document(document(&[("code", code), ("errmsg", text(message))]))
}

#[test]
fn a_refusal_says_why_in_the_words_closest_to_the_cause() {
    let refusal = |fields: &[(&str, Bson)]| {
        validate_response(document(fields))
            .expect_err("a refusal")
            .message()
    };
    let ok = ("ok", Bson::Double(1.0));

    assert_eq!(
        refusal(&[
            ok.clone(),
            (
                "writeErrors",
                Bson::Array(vec![complaint(Bson::Int32(11000), "duplicate key")])
            ),
            (
                "writeConcernError",
                complaint(Bson::Int32(64), "not replicated")
            ),
        ]),
        "MongoDB error 11000: duplicate key"
    );
    assert_eq!(
        refusal(&[
            ok.clone(),
            (
                "writeConcernError",
                complaint(Bson::Int64(-64), "not replicated")
            ),
        ]),
        "MongoDB error -64: not replicated"
    );
    assert_eq!(
        refusal(&[
            ("ok", Bson::Double(0.0)),
            ("code", Bson::Int32(26)),
            ("errmsg", text("no such collection")),
        ]),
        "MongoDB error 26: no such collection"
    );
    assert!(validate_response(document(&[ok, ("writeErrors", Bson::Array(Vec::new()))])).is_ok());
}

#[test]
fn a_closed_engine_is_a_closed_client() {
    assert!(matches!(Error::from(NativeError::Closed), Error::Closed));
    assert_eq!(
        Error::from(NativeError::Failed("no such directory".to_owned())).message(),
        "no such directory"
    );
}

#[test]
fn every_other_error_says_what_it_is() {
    assert_eq!(
        Error::NonUtf8Path.message(),
        "database path is not valid UTF-8"
    );
    assert_eq!(Error::InvalidArgument("no").message(), "no");
    assert_eq!(
        Error::EngineThread("out of threads".to_owned()).message(),
        "out of threads"
    );
    assert_eq!(
        Error::Closed.message(),
        "embedded MongoDB client is closed"
    );
}
