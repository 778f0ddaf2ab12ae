use vstd::prelude::*;
use vstd::string::StrSliceExecFns;

verus! {

/// An untyped request or response payload at the transport boundary.
/// A number carries the bit pattern of the binary64 value the transport
/// delivered, so that no precision is invented or lost on the way in.
pub enum JsonValue {
    Null,
    Bool(bool),
    Num(u64),
    Str(String),
    Arr(Vec<JsonValue>),
    Obj(Vec<(String, JsonValue)>),
}

/// The first field under the key, if any.
pub open spec fn obj_field(fields: Seq<(String, JsonValue)>, key: Seq<char>) -> Option<JsonValue>
    decreases fields.len(),
{
    if fields.len() == 0 {
        None
    } else if fields[0].0@ == key {
        Some(fields[0].1)
    } else {
        obj_field(fields.drop_first(), key)
    }
}

/// A required string field: what it holds, or nothing if it is missing
/// or not a string.
pub open spec fn str_field(fields: Seq<(String, JsonValue)>, key: Seq<char>) -> Option<Seq<char>> {
    match obj_field(fields, key) {
        Some(JsonValue::Str(s)) => Some(s@),
        _ => None,
    }
}

/// An optional string field: `None` if the decode must fail, otherwise
/// the field's content, where a missing field and an explicit null both
/// stand for no value.
pub open spec fn opt_field(fields: Seq<(String, JsonValue)>, key: Seq<char>) -> Option<
    Option<Seq<char>>,
> {
    match obj_field(fields, key) {
        None => Some(None),
        Some(JsonValue::Null) => Some(None),
        Some(JsonValue::Str(s)) => Some(Some(s@)),
        _ => None,
    }
}

/// A required number field: the bit pattern it carries, if present.
pub open spec fn num_field(fields: Seq<(String, JsonValue)>, key: Seq<char>) -> Option<u64> {
    match obj_field(fields, key) {
        Some(JsonValue::Num(b)) => Some(b),
        _ => None,
    }
}

/// Compares two strings by content.
pub fn str_eq(a: &str, b: &str) -> (r: bool)
    ensures
        r == (a@ == b@),
{
    let n = a.unicode_len();
    if n != b.unicode_len() {
        return false;
    }
    let mut i: usize = 0;
    while i < n
        invariant
            n == a@.len() == b@.len(),
            i <= n,
            forall|k: int| 0 <= k < i ==> a@[k] == b@[k],
        decreases n - i,
    {
        if a.get_char(i) != b.get_char(i) {
            return false;
        }
        i += 1;
    }
    proof {
        assert(a@ =~= b@);
    }
    true
}

/// Finds the first field under the key.
pub fn find_field<'a>(fields: &'a Vec<(String, JsonValue)>, key: &str) -> (r: Option<
    &'a JsonValue,
>)
    ensures
        r matches Some(v) ==> obj_field(fields@, key@) == Some(*v),
        r is None ==> obj_field(fields@, key@) is None,
{
    let mut i: usize = 0;
    while i < fields.len()
        invariant
            i <= fields@.len(),
            forall|j: int| 0 <= j < i ==> (#[trigger] fields@[j].0)@ != key@,
        decreases fields.len() - i,
    {
        if str_eq(fields[i].0.as_str(), key) {
            proof {
                lemma_obj_field_at(fields@, key@, i as int);
            }
            return Some(&fields[i].1);
        }
        i += 1;
    }
    proof {
        lemma_obj_field_absent(fields@, key@);
    }
    None
}

proof fn lemma_obj_field_at(fields: Seq<(String, JsonValue)>, key: Seq<char>, i: int)
    requires
        0 <= i < fields.len(),
        fields[i].0@ == key,
        forall|j: int| 0 <= j < i ==> (#[trigger] fields[j].0)@ != key,
    ensures
        obj_field(fields, key) == Some(fields[i].1),
    decreases fields.len(),
{
    if i > 0 {
        lemma_obj_field_at(fields.drop_first(), key, i - 1);
    }
}

proof fn lemma_obj_field_absent(fields: Seq<(String, JsonValue)>, key: Seq<char>)
    requires
        forall|j: int| 0 <= j < fields.len() ==> (#[trigger] fields[j].0)@ != key,
    ensures
        obj_field(fields, key) is None,
    decreases fields.len(),
{
    if fields.len() > 0 {
        lemma_obj_field_absent(fields.drop_first(), key);
    }
}

/// Reads a required string field.
pub fn read_str_field(fields: &Vec<(String, JsonValue)>, key: &str) -> (r: Option<String>)
    ensures
        r matches Some(s) ==> str_field(fields@, key@) == Some(s@),
        r is None ==> str_field(fields@, key@) is None,
{
    match find_field(fields, key) {
        Some(JsonValue::Str(s)) => Some(s.clone()),
        _ => None,
    }
}

/// Reads an optional string field; the outer `None` means the field was
/// present but of the wrong type.
pub fn read_opt_field(fields: &Vec<(String, JsonValue)>, key: &str) -> (r: Option<Option<String>>)
    ensures
        r matches Some(o) ==> opt_field(fields@, key@) == Some(
            crate::config::opt_str_view(o),
        ),
        r is None ==> opt_field(fields@, key@) is None,
{
    match find_field(fields, key) {
        None => Some(None),
        Some(JsonValue::Null) => Some(None),
        Some(JsonValue::Str(s)) => Some(Some(s.clone())),
        Some(_) => None,
    }
}

/// Reads a required number field.
pub fn read_num_field(fields: &Vec<(String, JsonValue)>, key: &str) -> (r: Option<u64>)
    ensures
        r matches Some(b) ==> num_field(fields@, key@) == Some(b),
        r is None ==> num_field(fields@, key@) is None,
{
    match find_field(fields, key) {
        Some(JsonValue::Num(b)) => Some(*b),
        _ => None,
    }
}

} // verus!
