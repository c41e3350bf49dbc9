//! A small JSON-like value model.
//!
//! Canonical records carry their payload as one of these values; the
//! boundary code turns it into real JSON text. An object keeps its fields
//! in insertion order.

use vstd::prelude::*;
use vstd::pervasive::VecAdditionalExecFns;
use vstd::string::StringExecFns;

verus! {

/// A JSON-like value. Numbers are split into unsigned and signed integers;
/// the records this library produces use no other number kind.
#[derive(Debug, PartialEq)]
pub enum JsonValue {
    Null,
    Bool(bool),
    UInt(u64),
    Int(i64),
    Text(String),
    Array(Vec<JsonValue>),
    Object(Vec<(String, JsonValue)>),
}

/// An object value with no fields.
pub fn empty_object() -> (r: JsonValue)
    ensures
        (r matches JsonValue::Object(f) && f@.len() == 0),
{
    JsonValue::Object(Vec::new())
}

/// Some field of the object is named `key`.
pub open spec fn has_key(fields: Seq<(String, JsonValue)>, key: Seq<char>) -> bool {
    exists|i: int| 0 <= i < fields.len() && (#[trigger] fields[i]).0@ == key
}

/// `i` is the first field named `key`.
pub open spec fn first_key_at(fields: Seq<(String, JsonValue)>, key: Seq<char>, i: int) -> bool {
    &&& 0 <= i < fields.len()
    &&& fields[i].0@ == key
    &&& forall|j: int| 0 <= j < i ==> (#[trigger] fields[j]).0@ != key
}

/// `after` is `before` with the field `key` set to `v`: the first field of
/// that name is replaced in place, or a new field is appended when none
/// exists.
pub open spec fn set_field_rel(
    before: Seq<(String, JsonValue)>,
    key: Seq<char>,
    v: JsonValue,
    after: Seq<(String, JsonValue)>,
) -> bool {
    if has_key(before, key) {
        &&& after.len() == before.len()
        &&& forall|i: int| first_key_at(before, key, i)
            ==> (#[trigger] after[i]).0 == before[i].0 && after[i].1 == v
                && (forall|j: int| 0 <= j < before.len() && j != i
                    ==> (#[trigger] after[j]) == before[j])
    } else {
        &&& after.len() == before.len() + 1
        &&& (forall|j: int| 0 <= j < before.len() ==> (#[trigger] after[j]) == before[j])
        &&& after.last().0@ == key
        &&& after.last().1 == v
    }
}

/// Set the field `key` of an object's field list to `v`, replacing the
/// first field of that name or appending a new one.
pub fn set_field(fields: &mut Vec<(String, JsonValue)>, key: &str, v: JsonValue)
    ensures
        set_field_rel(old(fields)@, key@, v, final(fields)@),
{
    let k = String::from_str(key);
    let mut i: usize = 0;
    while i < fields.len()
        invariant
            i <= fields@.len(),
            fields@ == old(fields)@,
            k@ == key@,
            forall|j: int| 0 <= j < i ==> (#[trigger] fields@[j]).0@ != key@,
        decreases fields@.len() - i,
    {
        if fields[i].0 == k {
            proof {
                assert(first_key_at(fields@, key@, i as int));
                assert(forall|m: int| first_key_at(fields@, key@, m) ==> m == i);
            }
            let name = fields[i].0.clone();
            fields.set(i, (name, v));
            return;
        }
        i = i + 1;
    }
    fields.push((k, v));
    proof {
        assert(!has_key(old(fields)@, key@));
    }
}

} // verus!
