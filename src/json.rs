//! A structured JSON value as the library reads and builds it.
use vstd::prelude::*;

verus! {

/// One JSON value. Numbers that fit an `i64` are held as integers; any other
/// number keeps its JSON text, so no value is ever rounded.
#[derive(Debug)]
pub enum JsonValue {
    Null,
    Bool(bool),
    Int(i64),
    Decimal(String),
    Str(String),
    Array(Vec<JsonValue>),
    Object(Vec<(String, JsonValue)>),
}

/// Whether some entry of `fields` is named `key`.
pub open spec fn has_key(fields: Seq<(String, JsonValue)>, key: Seq<char>) -> bool {
    exists|i: int| 0 <= i < fields.len() && (#[trigger] fields[i]).0@ == key
}

/// `i` is the first entry of `fields` named `key`.
pub open spec fn is_first_key(fields: Seq<(String, JsonValue)>, key: Seq<char>, i: int) -> bool {
    &&& 0 <= i < fields.len()
    &&& fields[i].0@ == key
    &&& forall|j: int| 0 <= j < i ==> (#[trigger] fields[j]).0@ != key
}

/// The position of the first entry named `key`, or -1 where there is none.
/// Like a JSON object read with duplicate names, the first one wins.
pub open spec fn key_index(fields: Seq<(String, JsonValue)>, key: Seq<char>) -> int {
    if has_key(fields, key) {
        choose|i: int| is_first_key(fields, key, i)
    } else {
        -1
    }
}

/// The value of the first entry named `key`.
pub open spec fn field(fields: Seq<(String, JsonValue)>, key: Seq<char>) -> Option<JsonValue> {
    if has_key(fields, key) {
        Some(fields[key_index(fields, key)].1)
    } else {
        None
    }
}

/// Finds the first entry of `fields` named `key`.
pub fn find_key(fields: &Vec<(String, JsonValue)>, key: &String) -> (r: Option<usize>)
    ensures
        match r {
            Some(i) => is_first_key(fields@, key@, i as int) && key_index(fields@, key@) == i,
            None => !has_key(fields@, key@) && key_index(fields@, key@) == -1,
        },
{
    let mut i: usize = 0;
    while i < fields.len()
        invariant
            i <= fields.len(),
            forall|j: int| 0 <= j < i ==> (#[trigger] fields@[j]).0@ != key@,
        decreases fields.len() - i,
    {
        if fields[i].0 == *key {
            assert(is_first_key(fields@, key@, i as int));
            let ghost k = key_index(fields@, key@);
            assert(is_first_key(fields@, key@, k));
            assert(k == i) by {
                if k < i {
                    assert(fields@[k].0@ != key@);
                } else if k > i {
                    assert(fields@[i as int].0@ != key@);
                }
            }
            return Some(i);
        }
        i = i + 1;
    }
    None
}

/// The value of the first entry of `fields` named `key`.
pub fn lookup<'a>(fields: &'a Vec<(String, JsonValue)>, key: &String) -> (r: Option<&'a JsonValue>)
    ensures
        match r {
            Some(v) => field(fields@, key@) == Some(*v),
            None => field(fields@, key@) is None,
        },
{
    match find_key(fields, key) {
        Some(i) => Some(&fields[i].1),
        None => None,
    }
}

} // verus!
