//! Documents: what is found in one, and what setting or removing a field leaves.

use crate::document;
use vstd::prelude::*;

verus! {

/// Whether no key stands twice.
pub open spec fn are_distinct(fields: document::Fields) -> bool {
    forall|i: int, j: int|
        0 <= i < fields.len() && 0 <= j < fields.len() && i != j ==> (#[trigger] fields[i]).0 != (
        #[trigger] fields[j]).0
}

/// A field is found under its key wherever in the document it stands, and nothing is found under
/// a key that stands nowhere.
pub proof fn a_field_is_found_where_it_stands(fields: document::Fields, key: Seq<char>)
    requires
        are_distinct(fields),
    ensures
        forall|i: int|
            0 <= i < fields.len() && (#[trigger] fields[i]).0 == key ==> document::field(
                fields,
                key,
            ) == Some(fields[i].1),
        document::field(fields, key) is None <==> forall|i: int|
            0 <= i < fields.len() ==> (#[trigger] fields[i]).0 != key,
    decreases fields.len(),
{
    if fields.len() > 0 {
        let rest = fields.drop_last();
        a_field_is_found_where_it_stands(rest, key);
        assert(forall|i: int| 0 <= i < rest.len() ==> rest[i] == #[trigger] fields[i]);
        if fields.last().0 == key {
            assert(fields[fields.len() - 1].0 == key);
        } else if document::field(fields, key) is None {
            assert forall|i: int| 0 <= i < fields.len() implies (#[trigger] fields[i]).0 != key by {
                if i < rest.len() {
                    assert(rest[i] == fields[i]);
                }
            }
        } else {
            let i = choose|i: int| 0 <= i < rest.len() && (#[trigger] rest[i]).0 == key;
            assert(fields[i].0 == key);
        }
    }
}

/// Setting a field changes what stands under its key and nothing else: where the key is there
/// already every field stays in its place, and where it is not the field is added at the end.
pub proof fn setting_a_field_leaves_the_others_in_place(
    fields: document::Fields,
    key: Seq<char>,
    value: document::Value,
)
    requires
        are_distinct(fields),
    ensures
        (forall|i: int| 0 <= i < fields.len() ==> (#[trigger] fields[i]).0 != key)
            ==> document::with_field(fields, key, value) == fields.push((key, value)),
        (exists|i: int| 0 <= i < fields.len() && (#[trigger] fields[i]).0 == key) ==> {
            &&& document::with_field(fields, key, value).len() == fields.len()
            &&& forall|i: int|
                0 <= i < fields.len() ==> #[trigger] document::with_field(fields, key, value)[i]
                    == if fields[i].0 == key {
                    (key, value)
                } else {
                    fields[i]
                }
        },
    decreases fields.len(),
{
    a_field_is_found_where_it_stands(fields, key);
    if exists|i: int| 0 <= i < fields.len() && (#[trigger] fields[i]).0 == key {
        let rest = fields.drop_last();
        let last = fields.len() - 1;
        let set = document::with_field(fields, key, value);
        if fields.last().0 == key {
            assert forall|i: int| 0 <= i < fields.len() implies #[trigger] set[i] == if fields[i].0
                == key {
                (key, value)
            } else {
                fields[i]
            } by {
                if i < last {
                    assert(fields[i].0 != fields[last].0);
                }
            }
        } else {
            let i = choose|i: int| 0 <= i < fields.len() && (#[trigger] fields[i]).0 == key;
            assert(rest[i] == fields[i]);
            setting_a_field_leaves_the_others_in_place(rest, key, value);
            assert forall|i: int| 0 <= i < fields.len() implies #[trigger] set[i] == if fields[i].0
                == key {
                (key, value)
            } else {
                fields[i]
            } by {
                if i < last {
                    assert(set[i] == document::with_field(rest, key, value)[i]);
                }
            }
        }
    }
}

/// Removing a field leaves all the others, in their order.
pub proof fn removing_a_field_leaves_the_others_in_order(fields: document::Fields, key: Seq<char>)
    ensures
        document::without_field(fields, key) == fields.filter(
            |entry: (Seq<char>, document::Value)| entry.0 != key,
        ),
    decreases fields.len(),
{
    reveal(Seq::filter);
    if fields.len() > 0 {
        removing_a_field_leaves_the_others_in_order(fields.drop_last(), key);
    }
}

} // verus!
