//! Everything the pass believes about a collection, read out of a `validate` reply once.
//!
//! The boundary is here on purpose: nothing else in this module reaches into a reply to ask
//! whether a collection is damaged or what a repair did.

use crate::document;
use crate::document::ValueRef;
use crate::repair::namespace::{Namespace, NamespaceView};
use crate::text;
use vstd::prelude::*;

verus! {

/// What a plain `validate` said about one collection.
#[derive(Clone, Debug, PartialEq, Eq)]
pub enum Health {
    Sound,
    Damaged(Damage),
    /// The scan did not finish, and said so only in passing.
    ///
    /// `validate` records an exception as a *warning* and still answers `ok: 1` and `valid:
    /// true`, so a collection whose scan threw is indistinguishable from a sound one except by
    /// that one warning. Reading it as sound would record the directory as checked and never
    /// look at it again, which is the single outcome this pass must not produce.
    Inconclusive(String),
}

/// Why a collection needs repairing, in the terms `validate` reported it.
#[derive(Clone, Debug, Default, PartialEq, Eq)]
pub struct Damage {
    pub errors: Vec<String>,
    /// A floor, not a total: the reply's list is capped, and a collection past the cap says so
    /// in an error rather than listing the rest.
    pub missing_index_entries: usize,
}

/// What `validate {repair: true}` did to one collection.
#[derive(Clone, Debug, Default, PartialEq, Eq)]
pub struct Repaired {
    pub inserted_index_entries: i64,
    pub moved_documents: i64,
    pub removed_corrupt_records: i64,
    pub removed_extra_index_entries: i64,
    /// Where the evicted duplicates went, present only when there were any.
    pub lost_and_found: Option<Namespace>,
    /// The engine's own prose, carried through untouched.
    pub warnings: Vec<String>,
}

/// [`Health`] by what it says.
pub enum HealthView {
    Sound,
    Damaged(DamageView),
    Inconclusive(Seq<char>),
}

/// [`Damage`] by what it says.
#[verifier::ext_equal]
pub struct DamageView {
    pub errors: Seq<Seq<char>>,
    pub missing_index_entries: nat,
}

/// [`Repaired`] by what it says.
#[verifier::ext_equal]
pub struct RepairedView {
    pub inserted_index_entries: i64,
    pub moved_documents: i64,
    pub removed_corrupt_records: i64,
    pub removed_extra_index_entries: i64,
    pub lost_and_found: Option<NamespaceView>,
    pub warnings: Seq<Seq<char>>,
}

impl View for Damage {
    type V = DamageView;

    open spec fn view(&self) -> DamageView {
        DamageView {
            errors: shown(self.errors@),
            missing_index_entries: self.missing_index_entries as nat,
        }
    }
}

impl View for Health {
    type V = HealthView;

    open spec fn view(&self) -> HealthView {
        match self {
            Health::Sound => HealthView::Sound,
            Health::Damaged(damage) => HealthView::Damaged(damage@),
            Health::Inconclusive(reason) => HealthView::Inconclusive(reason@),
        }
    }
}

impl View for Repaired {
    type V = RepairedView;

    open spec fn view(&self) -> RepairedView {
        RepairedView {
            inserted_index_entries: self.inserted_index_entries,
            moved_documents: self.moved_documents,
            removed_corrupt_records: self.removed_corrupt_records,
            removed_extra_index_entries: self.removed_extra_index_entries,
            lost_and_found: match self.lost_and_found {
                Some(namespace) => Some(namespace@),
                None => None,
            },
            warnings: shown(self.warnings@),
        }
    }
}

/// How the engine words a validation that threw. Prose, because the reply carries the fact
/// nowhere else -- no field, no `ok: 0`, not even `valid: false`. Matching it is the only way to
/// tell that answer apart from a clean one.
pub const VALIDATION_THREW: &'static str = "exception during collection validation";

/// What a run of strings says.
pub open spec fn shown(strings: Seq<String>) -> Seq<Seq<char>> {
    strings.map_values(|each: String| each@)
}

/// The texts among `values`, in order.
pub open spec fn texts(values: Seq<document::Value>) -> Seq<Seq<char>>
    decreases values.len(),
{
    if values.len() == 0 {
        seq![]
    } else {
        match values.last() {
            document::Value::Text(text) => texts(values.drop_last()).push(text),
            _ => texts(values.drop_last()),
        }
    }
}

/// The texts in the array stored under `key`: none where there is no array.
pub open spec fn texts_under(reply: document::Fields, key: Seq<char>) -> Seq<Seq<char>> {
    match document::field(reply, key) {
        Some(document::Value::Array(values)) => texts(values),
        _ => seq![],
    }
}

/// The whole number stored under `key`: zero where there is none.
pub open spec fn integer_under(reply: document::Fields, key: Seq<char>) -> i64 {
    match document::field(reply, key) {
        Some(document::Value::Int32(number)) => number as i64,
        Some(document::Value::Int64(number)) => number,
        _ => 0,
    }
}

/// The first of `texts` that `part` stands in.
pub open spec fn first_with(texts: Seq<Seq<char>>, part: Seq<char>) -> Option<Seq<char>>
    decreases texts.len(),
{
    if texts.len() == 0 {
        None
    } else if text::contains(texts[0], part) {
        Some(texts[0])
    } else {
        first_with(texts.drop_first(), part)
    }
}

/// How many missing index entries a reply lists.
pub open spec fn missing_entries(reply: document::Fields) -> nat {
    match document::field(reply, "missingIndexEntries"@) {
        Some(document::Value::Array(entries)) => entries.len(),
        _ => 0,
    }
}

/// What a reply says of a collection's health.
///
/// A scan that did not finish has no opinion worth having, whatever else the reply says. A
/// missing or unreadable `valid` field counts as damage.
pub open spec fn health(reply: document::Fields) -> HealthView {
    match first_with(texts_under(reply, "warnings"@), VALIDATION_THREW@) {
        Some(reason) => HealthView::Inconclusive(reason),
        None => {
            let errors = texts_under(reply, "errors"@);
            let missing_index_entries = missing_entries(reply);
            if document::field(reply, "valid"@) == Some(document::Value::Boolean(true))
                && errors.len() == 0 && missing_index_entries == 0 {
                HealthView::Sound
            } else {
                HealthView::Damaged(DamageView { errors, missing_index_entries })
            }
        },
    }
}

/// Where a reply says that evicted duplicates went: nowhere unless some were moved, and nowhere
/// that could be named unless the reply carries the collection's UUID.
pub open spec fn moved_to(reply: document::Fields, moved_documents: i64) -> Option<NamespaceView> {
    match document::field(reply, "uuid"@) {
        Some(document::Value::Uuid(bytes)) if moved_documents != 0 && bytes.len() == 16 => Some(
            NamespaceView {
                database: "local"@,
                collection: "lost_and_found."@ + document::uuid_text(bytes),
            },
        ),
        _ => None,
    }
}

/// What a reply says that a repair did.
pub open spec fn repaired(reply: document::Fields) -> RepairedView {
    let moved_documents = integer_under(reply, "numDocumentsMovedToLostAndFound"@);
    RepairedView {
        inserted_index_entries: integer_under(reply, "numInsertedMissingIndexEntries"@),
        moved_documents,
        removed_corrupt_records: integer_under(reply, "numRemovedCorruptRecords"@),
        removed_extra_index_entries: integer_under(reply, "numRemovedExtraIndexEntries"@),
        lost_and_found: moved_to(reply, moved_documents),
        warnings: texts_under(reply, "warnings"@),
    }
}

impl RepairedView {
    /// Whether the repair touched anything.
    pub open spec fn changed_anything(self) -> bool {
        ||| self.inserted_index_entries > 0
        ||| self.moved_documents > 0
        ||| self.removed_corrupt_records > 0
        ||| self.removed_extra_index_entries > 0
    }
}

impl Health {
    /// A missing or unreadable `valid` field counts as damage. The reply is then not the one
    /// this reading was written against, and of the two ways to be wrong -- repairing a sound
    /// collection, which costs a scan and changes nothing, or passing over a damaged one, which
    /// leaves it damaged for good -- only the first is recoverable.
    pub fn parse(reply: &bson::Document) -> (parsed: Self)
        ensures
            parsed@ == health(document::fields(*reply)),
    {
        // Before anything else: a scan that did not finish has no opinion worth having, and its
        // `valid: true` is an artefact of there being no errors rather than a verdict.
        if let Some(reason) = find_with(strings(reply, "warnings"), VALIDATION_THREW) {
            return Health::Inconclusive(reason);
        }
        let errors: Vec<String> = strings(reply, "errors");
        let missing_index_entries: usize = match document::get(reply, "missingIndexEntries") {
            Some(found) => match document::open(found) {
                ValueRef::Array(entries) => entries.len(),
                _ => 0,
            },
            None => 0,
        };
        let valid: bool = match document::get(reply, "valid") {
            Some(found) => match document::open(found) {
                ValueRef::Boolean(valid) => valid,
                _ => false,
            },
            None => false,
        };
        assert(shown(errors@).len() == errors@.len());
        if valid && errors.len() == 0 && missing_index_entries == 0 {
            return Health::Sound;
        }
        Health::Damaged(Damage { errors, missing_index_entries })
    }
}

impl Repaired {
    pub fn parse(reply: &bson::Document) -> (parsed: Self)
        ensures
            parsed@ == repaired(document::fields(*reply)),
    {
        let moved_documents: i64 = integer(reply, "numDocumentsMovedToLostAndFound");
        Self {
            inserted_index_entries: integer(reply, "numInsertedMissingIndexEntries"),
            moved_documents,
            removed_corrupt_records: integer(reply, "numRemovedCorruptRecords"),
            removed_extra_index_entries: integer(reply, "numRemovedExtraIndexEntries"),
            lost_and_found: lost_and_found(reply, moved_documents),
            warnings: strings(reply, "warnings"),
        }
    }

    /// Whether the repair touched anything, which is what decides between a warning naming what
    /// moved and silence. Computed rather than stored: it is a question about the four counters
    /// and cannot be allowed to disagree with them.
    pub fn changed_anything(&self) -> (changed: bool)
        ensures
            changed == self@.changed_anything(),
            self.inserted_index_entries > 0 ==> changed,
            self.moved_documents > 0 ==> changed,
            self.removed_corrupt_records > 0 ==> changed,
            self.removed_extra_index_entries > 0 ==> changed,
            changed ==> self.inserted_index_entries > 0 || self.moved_documents > 0
                || self.removed_corrupt_records > 0 || self.removed_extra_index_entries > 0,
    {
        self.inserted_index_entries > 0 || self.moved_documents > 0 || self.removed_corrupt_records
            > 0 || self.removed_extra_index_entries > 0
    }
}

/// The namespace the engine moves evicted duplicates into.
///
/// Composed here from the collection's UUID rather than read out of the reply, because the reply
/// carries it only inside a prose warning. The UUID itself is a typed field, so this is the one
/// route to the name that does not depend on the wording.
fn lost_and_found(reply: &bson::Document, moved_documents: i64) -> (namespace: Option<Namespace>)
    ensures
        match namespace {
            Some(namespace) => moved_to(document::fields(*reply), moved_documents) == Some(
                namespace@,
            ),
            None => moved_to(document::fields(*reply), moved_documents) is None,
        },
{
    if moved_documents == 0 {
        return None;
    }
    match document::get(reply, "uuid") {
        Some(found) => match document::to_uuid_text(found) {
            Some(uuid) => {
                let mut collection: String = "lost_and_found.".to_owned();
                collection.append(uuid.as_str());
                Some(Namespace::new("local", collection.as_str()))
            },
            None => None,
        },
        None => None,
    }
}

/// The strings in the array stored under `key`: none where there is no array.
fn strings(reply: &bson::Document, key: &str) -> (strings: Vec<String>)
    ensures
        shown(strings@) == texts_under(document::fields(*reply), key@),
{
    let mut strings: Vec<String> = Vec::new();
    if let Some(found) = document::get(reply, key) {
        if let ValueRef::Array(entries) = document::open(found) {
            let mut i: usize = 0;
            let ghost all = document::values(entries@);
            while i < entries.len()
                invariant
                    i <= entries@.len(),
                    all == document::values(entries@),
                    shown(strings@) == texts(all.take(i as int)),
                decreases entries@.len() - i,
            {
                let ghost before = strings@;
                assert(all.take(i + 1).drop_last() =~= all.take(i as int));
                assert(all.take(i + 1).last() == all[i as int]);
                if let ValueRef::Text(each) = document::open(&entries[i]) {
                    strings.push(each.to_owned());
                    assert(shown(strings@) =~= shown(before).push(each@));
                }
                i += 1;
            }
            assert(all.take(i as int) =~= all);
            return strings;
        }
    }
    assert(shown(strings@) =~= seq![]);
    strings
}

/// The first of `strings` that `part` stands in.
fn find_with(strings: Vec<String>, part: &str) -> (found: Option<String>)
    ensures
        match found {
            Some(found) => first_with(shown(strings@), part@) == Some(found@),
            None => first_with(shown(strings@), part@) is None,
        },
{
    let ghost all = shown(strings@);
    let mut i: usize = 0;
    assert(all.skip(0) =~= all);
    while i < strings.len()
        invariant
            i <= strings@.len(),
            all == shown(strings@),
            first_with(all, part@) == first_with(all.skip(i as int), part@),
        decreases strings@.len() - i,
    {
        assert(all.skip(i as int)[0] == strings@[i as int]@);
        if text::has(strings[i].as_str(), part) {
            return Some(strings[i].clone());
        }
        assert(all.skip(i as int).drop_first() =~= all.skip(i + 1));
        i += 1;
    }
    None
}

/// The whole number stored under `key`: zero where there is none.
fn integer(reply: &bson::Document, key: &str) -> (number: i64)
    ensures
        number == integer_under(document::fields(*reply), key@),
{
    match document::get(reply, key) {
        Some(found) => match document::open(found) {
            ValueRef::Int32(number) => number as i64,
            ValueRef::Int64(number) => number,
            _ => 0,
        },
        None => 0,
    }
}

/// A reply is read as sound only where nothing in it speaks against it: no error, no missing
/// entry, a `valid` that says so, and no word of a scan that threw.
pub proof fn sound_means_nothing_against(reply: document::Fields)
    ensures
        health(reply) is Sound <==> {
            &&& document::field(reply, "valid"@) == Some(document::Value::Boolean(true))
            &&& texts_under(reply, "errors"@).len() == 0
            &&& missing_entries(reply) == 0
            &&& forall|i: int|
                0 <= i < texts_under(reply, "warnings"@).len() ==> !text::contains(
                    #[trigger] texts_under(reply, "warnings"@)[i],
                    VALIDATION_THREW@,
                )
        },
{
    lemma_first_with(texts_under(reply, "warnings"@), VALIDATION_THREW@);
}

/// There is a first text that `part` stands in unless it stands in none of them.
proof fn lemma_first_with(all: Seq<Seq<char>>, part: Seq<char>)
    ensures
        first_with(all, part) is None <==> forall|i: int|
            0 <= i < all.len() ==> !text::contains(#[trigger] all[i], part),
    decreases all.len(),
{
    if all.len() > 0 {
        let rest = all.drop_first();
        lemma_first_with(rest, part);
        if first_with(all, part) is None {
            assert forall|i: int| 0 <= i < all.len() implies !text::contains(
                #[trigger] all[i],
                part,
            ) by {
                if i > 0 {
                    assert(all[i] == rest[i - 1]);
                }
            }
        } else if !text::contains(all[0], part) {
            let i = choose|i: int| 0 <= i < rest.len() && text::contains(#[trigger] rest[i], part);
            assert(all[i + 1] == rest[i]);
        }
    }
}

} // verus!
