use bson::{Bson, Document};
use embedded_mongodb::error::Error;
use embedded_mongodb::repair::commands::{is_collection, Catalog, Listing, ListingStep};
use embedded_mongodb::repair::marker::{
    marker_contents, marker_state, FileAction, MarkerState, Recording, RecordingStep, RECORD,
};
use embedded_mongodb::repair::namespace::Namespace;
use embedded_mongodb::repair::pass::{
    is_credible, marks, origin, pass, plan, skip_requested, sweep, Origin, Outcome, Plan, SKIP_VARIABLE,
};
use embedded_mongodb::repair::report::{Damage, Health, Repaired};
use embedded_mongodb::repair::visit::{Notice, Visit, VisitStep};

fn document(fields: &[(&str, Bson)]) -> Document {
    let mut document = Document::new();
    for (key, value) in fields {
        document.insert(*key, value.clone());
    }
    document
}

fn text(text: &str) -> Bson {
    Bson::String(text.to_owned())
}

fn texts(all: &[&str]) -> Bson {
    Bson::Array(all.iter().map(|each| text(each)).collect())
}

fn none() -> Bson {
    Bson::Array(Vec::new())
}

#[test]
fn displays_as_a_dotted_namespace() {
    let namespace = Namespace::new("shop", "orders");

    assert_eq!(namespace.dotted(), "shop.orders");
}

#[test]
fn keeps_the_database_and_the_collection_apart() {
    let namespace = Namespace::new("local", "lost_and_found.abc");

    assert_eq!(namespace.database(), "local");
    assert_eq!(namespace.collection(), "lost_and_found.abc");
}

/// The reply the engine gives for a collection nothing is wrong with.
fn sound() -> Document {
    document(&[
        ("valid", Bson::Boolean(true)),
        ("repaired", Bson::Boolean(false)),
        ("warnings", none()),
        ("errors", none()),
        ("extraIndexEntries", none()),
        ("missingIndexEntries", none()),
        ("nrecords", Bson::Int32(4)),
        ("nIndexes", Bson::Int32(1)),
        ("ok", Bson::Double(1.0)),
    ])
}

fn damaged() -> Document {
    let mut reply = sound();
    reply.insert("valid", false);
    reply.insert("errors", texts(&["Found errors in _id_"]));
    reply
}

fn missing_entry(index: &str) -> Bson {
    Bson::Document(document(&[
        ("indexName", text(index)),
        ("recordId", Bson::Int64(5)),
    ]))
}

#[test]
fn a_clean_validate_reply_is_sound() {
    assert_eq!(Health::parse(&sound()), Health::Sound);
}

#[test]
fn errors_alone_are_damage() {
    assert_eq!(
        Health::parse(&damaged()),
        Health::Damaged(Damage {
            errors: vec!["Found errors in _id_".to_owned()],
            missing_index_entries: 0,
        })
    );
}

#[test]
fn missing_index_entries_are_counted() {
    let mut reply = damaged();
    reply.insert(
        "missingIndexEntries",
        vec![missing_entry("_id_"), missing_entry("customer_1")],
    );

    let Health::Damaged(damage) = Health::parse(&reply) else {
        panic!("a reply with missing index entries is damage");
    };
    assert_eq!(damage.missing_index_entries, 2);
}

#[test]
fn missing_index_entries_outweigh_a_valid_flag() {
    let mut reply = sound();
    reply.insert("missingIndexEntries", vec![missing_entry("_id_")]);

    assert!(matches!(Health::parse(&reply), Health::Damaged(_)));
}

#[test]
fn a_validation_that_threw_is_inconclusive_rather_than_sound() {
    let mut reply = sound();
    reply.insert(
        "warnings",
        texts(&["exception during collection validation: WriteConflict"]),
    );

    assert_eq!(
        Health::parse(&reply),
        Health::Inconclusive("exception during collection validation: WriteConflict".to_owned())
    );
}

#[test]
fn a_validation_that_threw_outranks_the_errors_it_managed_to_record() {
    let mut reply = damaged();
    reply.insert(
        "warnings",
        texts(&["exception during collection validation: Interrupted"]),
    );

    assert!(matches!(Health::parse(&reply), Health::Inconclusive(_)));
}

#[test]
fn ordinary_warnings_do_not_make_a_reply_inconclusive() {
    let mut reply = sound();
    reply.insert(
        "warnings",
        texts(&[
            "Inserted 5 missing index entries.",
            "Updated index multikey metadata",
        ]),
    );

    assert_eq!(Health::parse(&reply), Health::Sound);
}

#[test]
fn a_reply_without_a_valid_field_is_treated_as_damaged() {
    let mut reply = sound();
    reply.remove("valid");

    assert!(matches!(Health::parse(&reply), Health::Damaged(_)));
}

fn uuid() -> Bson {
    Bson::from(bson::Uuid::parse_str("a3547e5b-3fd3-4e75-988e-fc4aa2a15cb3").unwrap())
}

fn repair_reply() -> Document {
    document(&[
        ("valid", Bson::Boolean(false)),
        ("repaired", Bson::Boolean(true)),
        ("uuid", uuid()),
        (
            "warnings",
            texts(&[
                "Inserted 5 missing index entries.",
                "Removed 1 duplicate documents to resolve 1 missing index entries.",
            ]),
        ),
        ("errors", none()),
        ("numRemovedCorruptRecords", Bson::Int32(0)),
        ("numRemovedExtraIndexEntries", Bson::Int32(0)),
        ("numInsertedMissingIndexEntries", Bson::Int32(5)),
        ("numDocumentsMovedToLostAndFound", Bson::Int32(1)),
        ("numOutdatedMissingIndexEntry", Bson::Int32(0)),
        ("ok", Bson::Double(1.0)),
    ])
}

#[test]
fn a_repair_reply_reports_what_it_inserted_and_moved() {
    let repaired = Repaired::parse(&repair_reply());

    assert_eq!(repaired.inserted_index_entries, 5);
    assert_eq!(repaired.moved_documents, 1);
    assert_eq!(
        repaired.lost_and_found,
        Some(Namespace::new(
            "local",
            "lost_and_found.a3547e5b-3fd3-4e75-988e-fc4aa2a15cb3"
        ))
    );
    assert_eq!(repaired.warnings.len(), 2);
    assert!(repaired.changed_anything());
}

#[test]
fn a_repair_that_moved_nothing_names_no_lost_and_found() {
    let reply = document(&[
        ("valid", Bson::Boolean(true)),
        ("repaired", Bson::Boolean(true)),
        ("uuid", uuid()),
        ("warnings", texts(&["Inserted 1 missing index entries."])),
        ("numInsertedMissingIndexEntries", Bson::Int32(1)),
        ("numDocumentsMovedToLostAndFound", Bson::Int32(0)),
        ("ok", Bson::Double(1.0)),
    ]);

    let repaired = Repaired::parse(&reply);

    assert_eq!(repaired.lost_and_found, None);
    assert!(repaired.changed_anything());
}

#[test]
fn a_repair_that_changed_nothing_says_so() {
    let repaired = Repaired::parse(&document(&[
        ("valid", Bson::Boolean(true)),
        ("repaired", Bson::Boolean(false)),
        ("ok", Bson::Double(1.0)),
    ]));

    assert!(!repaired.changed_anything());
    assert_eq!(repaired, Repaired::default());
}

#[test]
fn counters_are_read_whether_they_arrive_as_int32_or_int64() {
    let reply = document(&[
        ("numInsertedMissingIndexEntries", Bson::Int64(7)),
        ("numDocumentsMovedToLostAndFound", Bson::Int64(2)),
        ("numRemovedCorruptRecords", Bson::Int64(3)),
        ("numRemovedExtraIndexEntries", Bson::Int32(4)),
    ]);

    let repaired = Repaired::parse(&reply);

    assert_eq!(repaired.inserted_index_entries, 7);
    assert_eq!(repaired.moved_documents, 2);
    assert_eq!(repaired.removed_corrupt_records, 3);
    assert_eq!(repaired.removed_extra_index_entries, 4);
}

#[test]
fn corrupt_records_alone_count_as_a_change() {
    let repaired = Repaired::parse(&document(&[("numRemovedCorruptRecords", Bson::Int32(1))]));

    assert!(repaired.changed_anything());
}

#[test]
fn extra_index_entries_alone_count_as_a_change() {
    let repaired = Repaired::parse(&document(&[(
        "numRemovedExtraIndexEntries",
        Bson::Int32(1),
    )]));

    assert!(repaired.changed_anything());
}

#[test]
fn a_non_string_in_the_errors_array_is_dropped_rather_than_stringified() {
    let mut reply = sound();
    reply.insert("valid", false);
    reply.insert("errors", vec![Bson::Int32(7)]);

    assert_eq!(
        Health::parse(&reply),
        Health::Damaged(Damage {
            errors: Vec::new(),
            missing_index_entries: 0,
        })
    );
}

#[test]
fn a_uuid_that_is_no_uuid_names_no_lost_and_found() {
    let mut reply = repair_reply();
    for other in [
        Bson::Binary(bson::Binary {
            subtype: bson::spec::BinarySubtype::Generic,
            bytes: vec![0; 16],
        }),
        Bson::Binary(bson::Binary {
            subtype: bson::spec::BinarySubtype::Uuid,
            bytes: vec![0; 15],
        }),
        text("a3547e5b-3fd3-4e75-988e-fc4aa2a15cb3"),
    ] {
        reply.insert("uuid", other);
        assert_eq!(Repaired::parse(&reply).lost_and_found, None);
    }
}

#[test]
fn a_plain_collection_is_checked() {
    assert!(is_collection(&document(&[
        ("name", text("orders")),
        ("type", text("collection")),
    ])));
}

#[test]
fn a_view_is_not_checked() {
    assert!(!is_collection(&document(&[
        ("name", text("big_orders")),
        ("type", text("view")),
    ])));
}

#[test]
fn a_timeseries_collection_is_checked() {
    assert!(is_collection(&document(&[
        ("name", text("readings")),
        ("type", text("timeseries")),
    ])));
}

#[test]
fn an_entry_with_an_unknown_or_absent_type_is_checked() {
    assert!(is_collection(&document(&[
        ("name", text("orders")),
        ("type", text("something new")),
    ])));
    assert!(is_collection(&document(&[("name", text("orders"))])));
}

#[test]
fn a_directory_that_was_never_checked_reports_missing() {
    assert_eq!(marker_state(None), MarkerState::Missing);
}

#[test]
fn a_recorded_marker_is_read_back() {
    assert_eq!(
        marker_state(Some(&marker_contents())),
        MarkerState::Recorded
    );
}

#[test]
fn a_marker_from_another_version_does_not_count() {
    assert_eq!(
        marker_state(Some("embedded-mongodb index repair v0\n")),
        MarkerState::Missing
    );
}

#[test]
fn an_empty_marker_does_not_count() {
    assert_eq!(marker_state(Some("")), MarkerState::Missing);
}

#[test]
fn the_first_line_is_what_identifies_a_marker() {
    assert_eq!(
        marker_state(Some(&format!("{RECORD}\n"))),
        MarkerState::Recorded
    );
}

#[test]
fn a_marker_is_read_as_lines_are() {
    assert_eq!(marker_state(Some(RECORD)), MarkerState::Recorded);
    assert_eq!(
        marker_state(Some(&format!("{RECORD}\r\nmore"))),
        MarkerState::Recorded
    );
    for contents in [
        format!("{RECORD}\r"),
        format!("\n{RECORD}\n"),
        format!("{RECORD} \n"),
        RECORD[1..].to_owned(),
        RECORD[..RECORD.len() - 1].to_owned(),
    ] {
        assert_eq!(marker_state(Some(&contents)), MarkerState::Missing);
        assert_eq!(
            contents.lines().next() == Some(RECORD),
            false,
            "std reads {contents:?} otherwise"
        );
    }
}

#[test]
fn a_directory_is_fresh_unless_the_engine_has_been_there() {
    assert_eq!(origin(false), Origin::Fresh);
    assert_eq!(origin(true), Origin::PreExisting);
}

#[test]
fn the_skip_variable_is_off_when_it_is_not_set() {
    assert!(!skip_requested(None));
}

#[test]
fn the_skip_variable_is_off_for_every_value_that_is_not_an_affirmative() {
    for value in [
        "", "   ", "0", "false", "False", "FALSE", "no", "off", "disabled", "2", "maybe",
    ] {
        assert!(
            !skip_requested(Some(value)),
            "{SKIP_VARIABLE}={value:?} should not skip the pass"
        );
    }
}

#[test]
fn the_skip_variable_is_on_for_anything_that_reads_as_yes() {
    for value in [
        "1", "true", "TRUE", "yes", "Yes", "on", "ON", " 1 ", "\ttrue\n",
    ] {
        assert!(
            skip_requested(Some(value)),
            "{SKIP_VARIABLE}={value:?} should skip the pass"
        );
    }
}

#[test]
fn a_pass_runs_only_where_one_is_needed() {
    let (missing, recorded) = (MarkerState::Missing, MarkerState::Recorded);
    let (fresh, old) = (Origin::Fresh, Origin::PreExisting);

    assert_eq!(plan(true, missing, old), Plan::Skip);
    assert_eq!(plan(false, recorded, old), Plan::AlreadyDone);
    assert_eq!(plan(false, recorded, fresh), Plan::AlreadyDone);
    assert_eq!(plan(false, missing, fresh), Plan::MarkAtBirth);
    assert_eq!(plan(false, missing, old), Plan::Check);
}

#[test]
fn only_a_new_directory_or_a_complete_pass_is_marked() {
    assert!(!marks(Plan::Skip, None));
    assert!(!marks(Plan::AlreadyDone, None));
    assert!(marks(Plan::MarkAtBirth, None));
    assert!(marks(Plan::Check, Some(Outcome::Complete)));
    assert!(!marks(Plan::Check, Some(Outcome::Incomplete)));
}

#[test]
fn databases_without_a_collection_are_not_credible() {
    let catalog = |databases, namespaces| Catalog {
        databases,
        namespaces,
    };

    assert!(is_credible(&catalog(0, Vec::new())));
    assert!(!is_credible(&catalog(2, Vec::new())));
    assert!(is_credible(&catalog(2, namespaces())));
}

fn namespaces() -> Vec<Namespace> {
    vec![
        Namespace::new("shop", "orders"),
        Namespace::new("shop", "untouched"),
        Namespace::new("catalog", "items"),
    ]
}

#[test]
fn a_sweep_that_reached_every_collection_is_complete() {
    let (visited, outcome) = sweep(
        &namespaces(),
        Vec::new(),
        |mut visited: Vec<String>, namespace: &Namespace| {
            visited.push(namespace.dotted());
            (visited, Ok(()))
        },
    );

    assert_eq!(outcome, Outcome::Complete);
    assert_eq!(visited, ["shop.orders", "shop.untouched", "catalog.items"]);
}

#[test]
fn one_collection_that_fails_leaves_the_sweep_incomplete() {
    let (_, outcome) = sweep(&namespaces(), (), |world: (), namespace: &Namespace| {
        if namespace.collection() == "untouched" {
            return (world, Err(Error::InvalidArgument("no")));
        }
        (world, Ok(()))
    });

    assert_eq!(outcome, Outcome::Incomplete);
}

#[test]
fn a_failure_does_not_end_the_sweep() {
    let (visited, _) = sweep(
        &namespaces(),
        Vec::new(),
        |mut visited: Vec<String>, namespace: &Namespace| {
            visited.push(namespace.dotted());
            (visited, Err(Error::InvalidArgument("no")))
        },
    );

    assert_eq!(visited.len(), 3);
}

#[test]
fn a_sweep_over_no_collections_is_complete() {
    let (_, outcome) = sweep(&[], (), |world: (), _: &Namespace| (world, Ok(())));

    assert_eq!(outcome, Outcome::Complete);
}

/// How many collections a pass over this listing visits, and what it comes to, where every visit
/// succeeds.
fn passed(listed: Result<Catalog, Error>) -> (usize, Outcome) {
    pass(&listed, 0, |visits: usize, _: &Namespace| {
        (visits + 1, Ok(()))
    })
}

#[test]
fn a_pass_is_complete_only_over_a_listing_that_can_be_believed() {
    let catalog = |databases, namespaces| {
        Ok(Catalog {
            databases,
            namespaces,
        })
    };

    assert_eq!(passed(catalog(2, namespaces())), (3, Outcome::Complete));
    assert_eq!(passed(catalog(0, Vec::new())), (0, Outcome::Complete));
    assert_eq!(passed(catalog(2, Vec::new())), (0, Outcome::Incomplete));
    assert_eq!(passed(Err(Error::Closed)), (0, Outcome::Incomplete));

    let (_, outcome) = pass(&catalog(2, namespaces()), (), |world: (), _: &Namespace| {
        (world, Err(Error::Closed))
    });
    assert_eq!(outcome, Outcome::Incomplete);
}

/// The two files of a directory, and whether each kind of action succeeds on them.
struct Directory {
    marker: Option<String>,
    partial: Option<String>,
    writes: bool,
    publishes: bool,
}

impl Directory {
    fn act(&mut self, action: FileAction) -> Result<(), &'static str> {
        match action {
            FileAction::WritePartial(contents) if self.writes => {
                self.partial = Some(contents);
                Ok(())
            }
            FileAction::WritePartial(contents) => {
                self.partial = Some(contents[..5].to_owned());
                Err("disk full")
            }
            FileAction::Publish if self.publishes => {
                self.marker = self.partial.take();
                Ok(())
            }
            FileAction::Publish => Err("no such name"),
            FileAction::RemovePartial => {
                self.partial = None;
                Ok(())
            }
        }
    }

    fn record(&mut self) -> Result<(), &'static str> {
        let (mut recording, mut action) = Recording::new();
        loop {
            match recording.answered(self.act(action)) {
                RecordingStep::Act(next, following) => {
                    recording = next;
                    action = following;
                }
                RecordingStep::Done(result) => return result,
            }
        }
    }
}

#[test]
fn a_marker_is_written_as_a_whole_or_not_at_all() {
    for earlier in [None, Some("embedded-mongodb index repair v0\n".to_owned())] {
        let directory = |writes, publishes| Directory {
            marker: earlier.clone(),
            partial: None,
            writes,
            publishes,
        };

        let mut sound = directory(true, true);
        assert_eq!(sound.record(), Ok(()));
        assert_eq!(marker_state(sound.marker.as_deref()), MarkerState::Recorded);
        assert_eq!(sound.partial, None);
        assert_eq!(sound.record(), Ok(()), "over a marker that is already there");

        let mut full = directory(false, true);
        assert_eq!(full.record(), Err("disk full"));
        assert_eq!(full.marker, earlier);
        assert_eq!(full.partial, None, "a partial file is litter with no owner");

        let mut stuck = directory(true, false);
        assert_eq!(stuck.record(), Err("no such name"));
        assert_eq!(stuck.marker, earlier);
    }
}

fn entry(name: &str, kind: &str) -> Bson {
    Bson::Document(document(&[("name", text(name)), ("type", text(kind))]))
}

fn batch(id: i64, name: &str, entries: Vec<Bson>) -> Document {
    document(&[
        (
            "cursor",
            Bson::Document(document(&[
                ("id", Bson::Int64(id)),
                (name, Bson::Array(entries)),
            ])),
        ),
        ("ok", Bson::Double(1.0)),
    ])
}

fn databases(names: &[&str]) -> Document {
    let entries = names
        .iter()
        .map(|name| Bson::Document(document(&[("name", text(name))])))
        .collect();
    document(&[("databases", Bson::Array(entries))])
}

/// Runs a listing against these replies, and answers what it came to and what it sent where.
fn list(
    replies: Vec<Result<Document, Error>>,
) -> (
    Result<Catalog, (Error, Option<(String, Document)>)>,
    Vec<(String, Document)>,
) {
    let mut sent = Vec::new();
    let (mut listing, mut request) = Listing::new();
    for reply in replies {
        sent.push((request.database, request.command));
        match listing.answered(reply) {
            ListingStep::Send(next, following) => {
                listing = next;
                request = following;
            }
            ListingStep::Done(catalog) => return (Ok(catalog), sent),
            ListingStep::Failed(error, kill) => {
                let kill = kill.map(|request| (request.database, request.command));
                return (Err((error, kill)), sent);
            }
        }
    }
    panic!("the listing asked for more than {sent:?}");
}

#[test]
fn a_listing_reads_every_batch_of_every_database() {
    let (catalog, sent) = list(vec![
        Ok(databases(&["shop", "catalog"])),
        Ok(batch(
            7,
            "firstBatch",
            vec![entry("orders", "collection"), entry("big_orders", "view")],
        )),
        Ok(batch(0, "nextBatch", vec![entry("readings", "timeseries")])),
        Ok(batch(0, "firstBatch", vec![entry("items", "collection")])),
    ]);

    let Ok(catalog) = catalog else {
        panic!("every reply is a good one");
    };
    assert_eq!(catalog.databases, 2);
    assert_eq!(
        catalog.namespaces,
        vec![
            Namespace::new("shop", "orders"),
            Namespace::new("shop", "readings"),
            Namespace::new("catalog", "items"),
        ]
    );
    let list_collections = document(&[
        ("listCollections", Bson::Int32(1)),
        ("nameOnly", Bson::Boolean(true)),
    ]);
    assert_eq!(
        sent,
        vec![
            (
                "admin".to_owned(),
                document(&[
                    ("listDatabases", Bson::Int32(1)),
                    ("nameOnly", Bson::Boolean(true)),
                ])
            ),
            ("shop".to_owned(), list_collections.clone()),
            (
                "shop".to_owned(),
                document(&[
                    ("getMore", Bson::Int64(7)),
                    ("collection", text("$cmd.listCollections")),
                ])
            ),
            ("catalog".to_owned(), list_collections),
        ]
    );
}

fn failure(replies: Vec<Result<Document, Error>>) -> (String, Option<(String, Document)>) {
    match list(replies).0 {
        Ok(_) => panic!("a listing that cannot be finished fails"),
        Err((error, kill)) => (error.message(), kill),
    }
}

fn kill_seven() -> Option<(String, Document)> {
    Some((
        "shop".to_owned(),
        document(&[
            ("killCursors", text("$cmd.listCollections")),
            ("cursors", Bson::Array(vec![Bson::Int64(7)])),
        ]),
    ))
}

#[test]
fn a_listing_that_cannot_be_finished_fails() {
    assert_eq!(
        failure(vec![Err(Error::Closed)]),
        ("embedded MongoDB client is closed".to_owned(), None)
    );
    assert_eq!(
        failure(vec![Ok(Document::new())]),
        (
            "invalid embedded MongoDB response: listDatabases response has no databases array"
                .to_owned(),
            None
        )
    );
    assert_eq!(
        failure(vec![Ok(document(&[(
            "databases",
            Bson::Array(vec![Bson::Int32(1)])
        )]))]),
        (
            "invalid embedded MongoDB response: listDatabases response has an entry without a name"
                .to_owned(),
            None
        )
    );
    assert_eq!(
        failure(vec![
            Ok(databases(&["shop"])),
            Ok(batch(7, "firstBatch", vec![Bson::Document(Document::new())])),
        ]),
        (
            "invalid embedded MongoDB response: listCollections response has an entry without a \
             name"
                .to_owned(),
            kill_seven()
        )
    );
    assert_eq!(
        failure(vec![
            Ok(databases(&["shop"])),
            Ok(batch(7, "firstBatch", Vec::new())),
            Err(Error::Closed),
        ]),
        (
            "embedded MongoDB client is closed".to_owned(),
            kill_seven()
        )
    );
    assert_eq!(
        failure(vec![
            Ok(databases(&["shop"])),
            Ok(batch(7, "firstBatch", Vec::new())),
            Ok(batch(7, "firstBatch", Vec::new())),
        ]),
        (
            "invalid embedded MongoDB response: cursor response has no nextBatch array".to_owned(),
            kill_seven()
        )
    );
}

/// Runs a visit against these replies, and answers what it came to, what it said, and whether
/// each command it sent was a repair.
fn visit(
    replies: Vec<Result<Document, Error>>,
) -> (Result<(), Error>, Vec<Notice>, Vec<bool>) {
    let mut notices = Vec::new();
    let mut repairs = Vec::new();
    let (mut visit, mut request) = Visit::new(Namespace::new("shop", "orders"));
    for reply in replies {
        assert_eq!(request.database, "shop");
        assert_eq!(request.command.get_str("validate").ok(), Some("orders"));
        repairs.push(request.command.get_bool("repair").unwrap_or(false));
        let (notice, step) = visit.answered(reply);
        notices.extend(notice);
        match step {
            VisitStep::Send(next, following) => {
                visit = next;
                request = following;
            }
            VisitStep::Done(result) => return (result, notices, repairs),
        }
    }
    panic!("the visit asked for more");
}

#[test]
fn a_sound_collection_is_only_checked() {
    let (result, notices, repairs) = visit(vec![Ok(sound())]);

    assert!(result.is_ok());
    assert!(notices.is_empty());
    assert_eq!(repairs, [false]);
}

#[test]
fn a_damaged_collection_is_repaired_and_checked_again() {
    let (result, notices, repairs) = visit(vec![Ok(damaged()), Ok(repair_reply()), Ok(sound())]);

    assert!(result.is_ok());
    assert_eq!(repairs, [false, true, false]);
    assert!(matches!(&notices[0], Notice::Damaged(damage) if damage.errors.len() == 1));
    assert!(matches!(
        &notices[1],
        Notice::Repaired {
            repaired,
            deleted: false,
            destination_unknown: false,
        } if repaired.moved_documents == 1
    ));
    assert_eq!(notices.len(), 2);
}

#[test]
fn a_collection_still_damaged_after_a_repair_is_reported_and_left() {
    let (result, notices, _) = visit(vec![Ok(damaged()), Ok(sound()), Ok(damaged())]);

    assert!(result.is_ok(), "a repair that did not work is not repeated");
    assert_eq!(notices.len(), 2, "a repair that changed nothing is not announced");
    assert!(matches!(&notices[1], Notice::StillDamaged(_)));
}

#[test]
fn a_repair_is_announced_even_where_its_confirmation_fails() {
    let mut reply = repair_reply();
    reply.insert("numRemovedCorruptRecords", 2);
    reply.remove("uuid");

    let (result, notices, _) = visit(vec![Ok(damaged()), Ok(reply), Err(Error::Closed)]);

    assert!(matches!(result, Err(Error::Closed)));
    assert!(matches!(
        &notices[1],
        Notice::Repaired {
            deleted: true,
            destination_unknown: true,
            ..
        }
    ));
}

#[test]
fn a_scan_that_did_not_finish_does_not_count_as_a_visit() {
    let mut threw = sound();
    threw.insert(
        "warnings",
        texts(&["exception during collection validation: Interrupted"]),
    );
    let reason = "invalid embedded MongoDB response: validate on shop.orders did not finish: \
                  exception during collection validation: Interrupted";

    let (result, notices, repairs) = visit(vec![Ok(threw.clone())]);
    assert_eq!(result.map_err(|error| error.message()), Err(reason.to_owned()));
    assert!(notices.is_empty());
    assert_eq!(repairs, [false]);

    let (result, _, _) = visit(vec![Ok(damaged()), Ok(repair_reply()), Ok(threw)]);
    assert_eq!(result.map_err(|error| error.message()), Err(reason.to_owned()));

    assert!(matches!(visit(vec![Err(Error::Closed)]).0, Err(Error::Closed)));
}
