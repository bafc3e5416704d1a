//! Aggregations.

use crate::document;
use crate::document::Node;
use crate::find;
use vstd::prelude::*;

verus! {

/// What the documents of a run hold, as values.
pub open spec fn as_values(documents: Seq<document::Fields>) -> Seq<document::Value> {
    documents.map_values(|each: document::Fields| document::Value::Document(each))
}

/// The fields of the command that runs an aggregation.
pub open spec fn aggregate_fields(
    collection: Seq<char>,
    pipeline: Seq<document::Fields>,
) -> document::Fields {
    seq![
        ("aggregate"@, document::Value::Text(collection)),
        ("pipeline"@, document::Value::Array(as_values(pipeline))),
        ("cursor"@, document::Value::Document(seq![])),
    ]
}

/// The documents as the values of an array.
pub(crate) fn to_array(documents: Vec<bson::Document>) -> (array: Vec<bson::Bson>)
    ensures
        document::values(array@) == as_values(find::contents(documents@)),
{
    let mut array: Vec<bson::Bson> = Vec::new();
    for each in iter: documents
        invariant
            iter.seq() == documents@,
            array@.len() == iter.index(),
            forall|i: int|
                0 <= i < iter.index() ==> document::value(#[trigger] array@[i])
                    == document::Value::Document(document::fields(documents@[i])),
    {
        assert(each == documents@[iter.index()]);
        array.push(document::put_together(Node::Document(each)));
    }
    assert(document::values(array@) =~= as_values(find::contents(documents@)));
    array
}

/// The command that runs an aggregation.
pub fn aggregate_command(collection: &str, pipeline: Vec<bson::Document>) -> (command:
    bson::Document)
    ensures
        document::fields(command) == aggregate_fields(collection@, find::contents(pipeline@)),
{
    broadcast use document::lemma_field_of_push;

    proof {
        reveal_strlit("aggregate");
        reveal_strlit("pipeline");
        reveal_strlit("cursor");
        assert("aggregate"@.len() == 9 && "pipeline"@.len() == 8 && "cursor"@.len() == 6);
    }
    let mut command = bson::Document::new();
    document::append(&mut command, "aggregate", Node::Text(collection.to_owned()));
    document::append(&mut command, "pipeline", Node::Array(to_array(pipeline)));
    document::append(&mut command, "cursor", Node::Document(bson::Document::new()));
    command
}

} // verus!
