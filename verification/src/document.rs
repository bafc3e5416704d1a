//! BSON documents, as the rest of the library reads and builds them.
//!
//! The documents themselves are the `bson` crate's. What one holds is written down here as a
//! mathematical value, [`Value`], and every operation the library performs on a document is a
//! function of this module whose contract says what it does to that value.

use bson::error::Error as BsonError;
use vstd::prelude::*;

verus! {

/// A `bson::Document`: an insertion-ordered map from keys to values.
#[verifier::external_type_specification]
#[verifier::external_body]
pub struct ExDocument(bson::Document);

/// A `bson::Bson`: one value of a document.
#[verifier::external_type_specification]
#[verifier::external_body]
pub struct ExBson(bson::Bson);

/// A `bson::error::Error`: why a document could not be encoded or decoded.
#[verifier::external_type_specification]
#[verifier::external_body]
pub struct ExBsonError(BsonError);

/// What one BSON value holds.
///
/// The kinds of value that the library tells apart are spelled out. Every other kind is carried
/// whole by `Other`.
pub enum Value {
    /// A double, by its IEEE 754 bit pattern.
    Double(u64),
    Text(Seq<char>),
    Array(Seq<Value>),
    Document(Seq<(Seq<char>, Value)>),
    Boolean(bool),
    Int32(i32),
    Int64(i64),
    /// An object id, by its twelve bytes.
    ObjectId(Seq<u8>),
    /// The bytes of a binary value whose subtype is the UUID one.
    Uuid(Seq<u8>),
    /// The bytes of a binary value whose subtype is the old generic one.
    OldBinary(Seq<u8>),
    /// JavaScript code.
    Code(Seq<char>),
    /// JavaScript code, and the fields of the scope it runs in.
    CodeWithScope(Seq<char>, Seq<(Seq<char>, Value)>),
    Symbol(Seq<char>),
    /// A pointer into a collection: its namespace, and the twelve bytes of the object id.
    Pointer(Seq<char>, Seq<u8>),
    Other(bson::Bson),
}

/// The fields of a document, in insertion order: each a key and what is stored under it.
pub type Fields = Seq<(Seq<char>, Value)>;

/// The fields of a document, in insertion order.
pub uninterp spec fn fields(document: bson::Document) -> Fields;

/// What a BSON value holds.
pub uninterp spec fn value(bson: bson::Bson) -> Value;

/// The value stored under `key`, if there is one.
pub open spec fn field(fields: Fields, key: Seq<char>) -> Option<Value>
    decreases fields.len(),
{
    if fields.len() == 0 {
        None
    } else if fields.last().0 == key {
        Some(fields.last().1)
    } else {
        field(fields.drop_last(), key)
    }
}

/// The fields after `key` is set to `value`: in place where the key is already there, at the
/// end where it is not.
pub open spec fn with_field(
    fields: Fields,
    key: Seq<char>,
    value: Value,
) -> Fields
    decreases fields.len(),
{
    if field(fields, key) is None {
        fields.push((key, value))
    } else if fields.last().0 == key {
        fields.drop_last().push((key, value))
    } else {
        with_field(fields.drop_last(), key, value).push(fields.last())
    }
}

/// The fields without the one stored under `key`.
pub open spec fn without_field(fields: Fields, key: Seq<char>) -> Fields
    decreases fields.len(),
{
    if fields.len() == 0 {
        fields
    } else if fields.last().0 == key {
        without_field(fields.drop_last(), key)
    } else {
        without_field(fields.drop_last(), key).push(fields.last())
    }
}

/// Looking a key up past a field at the end.
pub broadcast proof fn lemma_field_of_push(
    fields: Fields,
    last: (Seq<char>, Value),
    key: Seq<char>,
)
    ensures
        #[trigger] field(fields.push(last), key) == if last.0 == key {
            Some(last.1)
        } else {
            field(fields, key)
        },
{
    assert(fields.push(last).drop_last() =~= fields);
}

/// A field that was set reads back as it was set, and every other field as it was.
pub proof fn set_field_reads_back(fields: Fields, key: Seq<char>, value: Value, other: Seq<char>)
    ensures
        field(with_field(fields, key, value), other) == if other == key {
            Some(value)
        } else {
            field(fields, other)
        },
    decreases fields.len(),
{
    broadcast use lemma_field_of_push;

    if field(fields, key) is Some && fields.last().0 != key {
        set_field_reads_back(fields.drop_last(), key, value, other);
    }
}

/// A field that was removed is gone, and every other field reads as it did.
pub proof fn removed_field_is_gone(fields: Fields, key: Seq<char>, other: Seq<char>)
    ensures
        field(without_field(fields, key), other) == if other == key {
            None
        } else {
            field(fields, other)
        },
    decreases fields.len(),
{
    broadcast use lemma_field_of_push;

    if fields.len() > 0 {
        removed_field_is_gone(fields.drop_last(), key, other);
    }
}

/// The values held by a vector of BSON values.
pub open spec fn values(array: Seq<bson::Bson>) -> Seq<Value> {
    array.map_values(|bson: bson::Bson| value(bson))
}

/// A BSON value opened up by one level, still owned by whoever owns the value.
pub enum ValueRef<'a> {
    Double(u64),
    Text(&'a str),
    Array(&'a Vec<bson::Bson>),
    Document(&'a bson::Document),
    Boolean(bool),
    Int32(i32),
    Int64(i64),
    Other(&'a bson::Bson),
}

/// A BSON value taken apart by one level, or about to be put together.
pub enum Node {
    Text(String),
    Array(Vec<bson::Bson>),
    Document(bson::Document),
    Boolean(bool),
    Int32(i32),
    Int64(i64),
    Other(bson::Bson),
}

impl Node {
    /// The value that the node takes apart or puts together.
    pub open spec fn value(self) -> Value {
        match self {
            Node::Text(text) => Value::Text(text@),
            Node::Array(array) => Value::Array(values(array@)),
            Node::Document(document) => Value::Document(fields(document)),
            Node::Boolean(boolean) => Value::Boolean(boolean),
            Node::Int32(number) => Value::Int32(number),
            Node::Int64(number) => Value::Int64(number),
            Node::Other(bson) => value(bson),
        }
    }
}

/// The kinds of value that [`ValueRef`] has a variant of its own for.
pub open spec fn is_opened(value: Value) -> bool {
    value is Double || is_taken_apart(value)
}

/// The kinds of value that [`Node`] has a variant of its own for.
pub open spec fn is_taken_apart(value: Value) -> bool {
    match value {
        Value::Text(_) => true,
        Value::Array(_) => true,
        Value::Document(_) => true,
        Value::Boolean(_) => true,
        Value::Int32(_) => true,
        Value::Int64(_) => true,
        _ => false,
    }
}

/// `bson::Document::new`: a document without fields.
pub assume_specification[ bson::Document::new ]() -> (empty: bson::Document)
    ensures
        fields(empty) == Fields::empty(),
;

/// `bson::Document::get`: the value stored under `key`, if there is one.
#[verifier::external_body]
pub(crate) fn get<'a>(document: &'a bson::Document, key: &str) -> (found: Option<&'a bson::Bson>)
    ensures
        match found {
            Some(bson) => field(fields(*document), key@) == Some(value(*bson)),
            None => field(fields(*document), key@) is None,
        },
{
    document.get(key)
}

/// `bson::Document::insert`: sets `key` to `bson`, in place where the key is already there and
/// at the end where it is not.
#[verifier::external_body]
pub(crate) fn insert(document: &mut bson::Document, key: &str, bson: bson::Bson)
    ensures
        fields(*final(document)) == with_field(fields(*old(document)), key@, value(bson)),
{
    document.insert(key, bson);
}

/// Adds a field at the end of a document that has none of that key yet.
pub(crate) fn append(document: &mut bson::Document, key: &str, node: Node)
    requires
        field(fields(*old(document)), key@) is None,
    ensures
        fields(*final(document)) == fields(*old(document)).push((key@, node.value())),
{
    insert(document, key, put_together(node));
}

/// `bson::Document::remove`: takes the value stored under `key` out of the document, leaving
/// the other fields as they are and in the order they were in.
#[verifier::external_body]
pub(crate) fn remove(document: &mut bson::Document, key: &str) -> (removed: Option<bson::Bson>)
    ensures
        match removed {
            Some(bson) => field(fields(*old(document)), key@) == Some(value(bson)),
            None => field(fields(*old(document)), key@) is None,
        },
        fields(*final(document)) == without_field(fields(*old(document)), key@),
{
    document.remove(key)
}

/// The variants of `bson::Bson`, told apart without taking the value out of where it is. A
/// double is handed out by its bit pattern.
#[verifier::external_body]
pub(crate) fn open<'a>(bson: &'a bson::Bson) -> (opened: ValueRef<'a>)
    ensures
        match opened {
            ValueRef::Double(bits) => value(*bson) == Value::Double(bits),
            ValueRef::Text(text) => value(*bson) == Value::Text(text@),
            ValueRef::Array(array) => value(*bson) == Value::Array(values(array@)),
            ValueRef::Document(document) => value(*bson) == Value::Document(fields(*document)),
            ValueRef::Boolean(boolean) => value(*bson) == Value::Boolean(boolean),
            ValueRef::Int32(number) => value(*bson) == Value::Int32(number),
            ValueRef::Int64(number) => value(*bson) == Value::Int64(number),
            ValueRef::Other(other) => *other == *bson && !is_opened(value(*bson)),
        },
{
    match bson {
        bson::Bson::Double(double) => ValueRef::Double(double.to_bits()),
        bson::Bson::String(text) => ValueRef::Text(text),
        bson::Bson::Array(array) => ValueRef::Array(array),
        bson::Bson::Document(document) => ValueRef::Document(document),
        bson::Bson::Boolean(boolean) => ValueRef::Boolean(*boolean),
        bson::Bson::Int32(number) => ValueRef::Int32(*number),
        bson::Bson::Int64(number) => ValueRef::Int64(*number),
        other => ValueRef::Other(other),
    }
}

/// The variants of `bson::Bson`, told apart by taking the value apart.
#[verifier::external_body]
pub(crate) fn take_apart(bson: bson::Bson) -> (node: Node)
    ensures
        node.value() == value(bson),
        node is Other ==> node->Other_0 == bson && !is_taken_apart(value(bson)),
{
    match bson {
        bson::Bson::String(text) => Node::Text(text),
        bson::Bson::Array(array) => Node::Array(array),
        bson::Bson::Document(document) => Node::Document(document),
        bson::Bson::Boolean(boolean) => Node::Boolean(boolean),
        bson::Bson::Int32(number) => Node::Int32(number),
        bson::Bson::Int64(number) => Node::Int64(number),
        other => Node::Other(other),
    }
}

/// The variants of `bson::Bson`, built from what they hold.
#[verifier::external_body]
pub(crate) fn put_together(node: Node) -> (bson: bson::Bson)
    ensures
        value(bson) == node.value(),
{
    match node {
        Node::Text(text) => bson::Bson::String(text),
        Node::Array(array) => bson::Bson::Array(array),
        Node::Document(document) => bson::Bson::Document(document),
        Node::Boolean(boolean) => bson::Bson::Boolean(boolean),
        Node::Int32(number) => bson::Bson::Int32(number),
        Node::Int64(number) => bson::Bson::Int64(number),
        Node::Other(other) => other,
    }
}

/// `bson::Bson`'s `Clone`: a value that holds the same.
pub assume_specification[ <bson::Bson as Clone>::clone ](held: &bson::Bson) -> (copy: bson::Bson)
    ensures
        value(copy) == value(*held),
;

/// `bson::oid::ObjectId::new`: an object id made from the clock, the process and a counter.
///
/// Which id comes out is left unsaid, because it differs from call to call; that two calls give
/// two different ids is left unsaid too. The clock has to stand between 1970 and 2106.
#[verifier::external_body]
pub(crate) fn new_object_id() -> (bson: bson::Bson)
    ensures
        value(bson) is ObjectId,
        value(bson)->ObjectId_0.len() == 12,
{
    bson::Bson::ObjectId(bson::oid::ObjectId::new())
}

/// What `bson`'s `Debug` writes for a value.
pub uninterp spec fn debug_text(value: Value) -> Seq<char>;

/// `bson::Bson`'s `Debug`: the text it writes depends on nothing but what the value holds.
#[verifier::external_body]
pub(crate) fn debug(bson: &bson::Bson) -> (text: String)
    ensures
        text@ == debug_text(value(*bson)),
{
    format!("{bson:?}")
}

/// The lower-case hexadecimal digit for a number below sixteen.
pub open spec fn hex_digit(number: int) -> char {
    if number < 10 {
        ('0' as int + number) as char
    } else {
        ('a' as int + number - 10) as char
    }
}

/// The bytes from `start` up to `end`, two hexadecimal digits each.
pub open spec fn hex(bytes: Seq<u8>, start: int, end: int) -> Seq<char> {
    Seq::new(
        (2 * (end - start)) as nat,
        |i: int| {
            let byte = bytes[start + i / 2] as int;
            hex_digit(if i % 2 == 0 { byte / 16 } else { byte % 16 })
        },
    )
}

/// The sixteen bytes of a UUID in the usual grouping of their hexadecimal digits.
pub open spec fn uuid_text(bytes: Seq<u8>) -> Seq<char> {
    hex(bytes, 0, 4) + seq!['-'] + hex(bytes, 4, 6) + seq!['-'] + hex(bytes, 6, 8) + seq!['-']
        + hex(bytes, 8, 10) + seq!['-'] + hex(bytes, 10, 16)
}

/// `bson::Binary::to_uuid` and the `Display` of what it answers: the text of a UUID, where the
/// value is binary, has the UUID subtype and is sixteen bytes long.
#[verifier::external_body]
pub(crate) fn to_uuid_text(bson: &bson::Bson) -> (text: Option<String>)
    ensures
        match value(*bson) {
            Value::Uuid(bytes) => if bytes.len() == 16 {
                text is Some && text->0@ == uuid_text(bytes)
            } else {
                text is None
            },
            _ => text is None,
        },
{
    match bson {
        bson::Bson::Binary(binary) => binary.to_uuid().ok().map(|uuid| uuid.to_string()),
        _ => None,
    }
}

/// What `bson`'s `Display` writes for an error.
pub uninterp spec fn error_text(error: BsonError) -> Seq<char>;

/// `bson::error::Error`'s `Display`: the text it writes depends on nothing but the error.
#[verifier::external_body]
pub(crate) fn error_display(error: &BsonError) -> (text: String)
    ensures
        text@ == error_text(*error),
{
    format!("{error}")
}

/// What `bson` encodes a document to, or why it cannot.
pub uninterp spec fn encoded(fields: Fields) -> Result<
    Seq<u8>,
    BsonError,
>;

/// What `bson` decodes from bytes, or why it cannot.
pub uninterp spec fn decoded(bytes: Seq<u8>) -> Result<
    Fields,
    BsonError,
>;

/// A text has to be shorter than this many bytes: the BSON format counts them, and the one that
/// ends them, in a signed number of 32 bits.
pub const TEXT_LIMIT: u32 = 0x7fff_ffff;

/// A binary value of the old subtype has to be shorter than this many bytes: they are counted with
/// four more.
pub const OLD_BINARY_LIMIT: u32 = 0x7fff_fffc;

/// Whether the bytes of a text can be counted.
pub open spec fn is_countable_text(text: Seq<char>) -> bool {
    vstd::utf8::encode_utf8(text).len() < TEXT_LIMIT
}

/// Whether everything in a value that the BSON format writes the length of can be counted in the
/// 32 bits it has for that: every text, and every binary value of the old subtype, whose length is
/// written with four bytes more.
pub open spec fn is_countable(value: Value) -> bool
    decreases value,
{
    match value {
        Value::Text(text) => is_countable_text(text),
        Value::Array(items) => forall|i: int|
            0 <= i < items.len() ==> is_countable(#[trigger] items[i]),
        Value::Document(fields) => forall|i: int|
            0 <= i < fields.len() ==> is_countable((#[trigger] fields[i]).1),
        Value::OldBinary(bytes) => bytes.len() < OLD_BINARY_LIMIT,
        Value::Code(code) => is_countable_text(code),
        Value::CodeWithScope(code, scope) => {
            &&& is_countable_text(code)
            &&& forall|i: int| 0 <= i < scope.len() ==> is_countable((#[trigger] scope[i]).1)
        },
        Value::Symbol(symbol) => is_countable_text(symbol),
        Value::Pointer(namespace, _) => is_countable_text(namespace),
        _ => true,
    }
}

/// `bson::Document::to_vec`: the document in the BSON format.
///
/// It computes the lengths it writes in 32 bits and overflows where one does not fit, so a document
/// that holds such a value is left out.
#[verifier::external_body]
pub(crate) fn encode(document: &bson::Document) -> (bytes: Result<Vec<u8>, BsonError>)
    requires
        is_countable(Value::Document(fields(*document))),
    ensures
        match bytes {
            Ok(bytes) => encoded(fields(*document)) == Ok::<Seq<u8>, BsonError>(bytes@),
            Err(error) => encoded(fields(*document)) == Err::<Seq<u8>, BsonError>(error),
        },
{
    document.to_vec()
}

/// `bson::Document::from_reader`, reading from a slice: the document at the front of the bytes.
#[verifier::external_body]
pub(crate) fn decode(bytes: &[u8]) -> (document: Result<bson::Document, BsonError>)
    ensures
        match document {
            Ok(document) => decoded(bytes@) == Ok::<Fields, BsonError>(
                fields(document),
            ),
            Err(error) => decoded(bytes@) == Err::<Fields, BsonError>(
                error,
            ),
        },
{
    bson::Document::from_reader(bytes)
}

} // verus!
