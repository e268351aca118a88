//! The JSON documents that scanners and model services return, held as
//! plain values, with the accessors the report readers use.
use vstd::prelude::*;

verus! {

/// A JSON value. A number keeps what the readers ask of it: its value when
/// it is a non-negative integer that fits in `u64`, and `None` otherwise.
/// An object keeps its members in order.
#[derive(Debug)]
pub enum Json {
    Null,
    Bool(bool),
    Num(Option<u64>),
    Str(String),
    Array(Vec<Json>),
    Object(Vec<(String, Json)>),
}

/// The value of the first member of `members` named `key`.
pub open spec fn lookup(members: Seq<(String, Json)>, key: Seq<char>) -> Option<Json>
    decreases members.len(),
{
    if members.len() == 0 {
        None
    } else if members[0].0@ == key {
        Some(members[0].1)
    } else {
        lookup(members.drop_first(), key)
    }
}

/// The member `key` of an object; `None` for a missing member or a value
/// that is no object.
pub open spec fn json_get(j: Json, key: Seq<char>) -> Option<Json> {
    match j {
        Json::Object(members) => lookup(members@, key),
        _ => None,
    }
}

/// `j[key]`: the member `key`, or `null` when there is none.
pub open spec fn json_at(j: Json, key: Seq<char>) -> Json {
    match json_get(j, key) {
        Some(v) => v,
        None => Json::Null,
    }
}

/// The element at `i` of an array.
pub open spec fn json_nth(j: Json, i: int) -> Option<Json> {
    match j {
        Json::Array(items) => if 0 <= i < items.len() {
            Some(items@[i])
        } else {
            None
        },
        _ => None,
    }
}

/// `j[i]`: the element at `i` of an array, or `null` when there is none.
pub open spec fn json_idx(j: Json, i: int) -> Json {
    match json_nth(j, i) {
        Some(v) => v,
        None => Json::Null,
    }
}

/// The text of a string value.
pub open spec fn json_str(j: Json) -> Option<Seq<char>> {
    match j {
        Json::Str(s) => Some(s@),
        _ => None,
    }
}

/// The value of a number that is a non-negative integer fitting in `u64`.
pub open spec fn json_u64(j: Json) -> Option<u64> {
    match j {
        Json::Num(n) => n,
        _ => None,
    }
}

/// The elements of an array.
pub open spec fn json_items(j: Json) -> Option<Seq<Json>> {
    match j {
        Json::Array(items) => Some(items@),
        _ => None,
    }
}

/// The elements of an array, or none for any other value.
pub open spec fn items_or_empty(j: Option<Json>) -> Seq<Json> {
    match j {
        Some(v) => match json_items(v) {
            Some(s) => s,
            None => seq![],
        },
        None => seq![],
    }
}

/// The text of a string value, or `default` for any other value.
pub open spec fn str_or(j: Json, default: Seq<char>) -> Seq<char> {
    match json_str(j) {
        Some(s) => s,
        None => default,
    }
}

/// The view of an optional string slice.
pub open spec fn opt_str_view(o: Option<&str>) -> Option<Seq<char>> {
    match o {
        Some(s) => Some(s@),
        None => None,
    }
}

proof fn lemma_lookup_skip(members: Seq<(String, Json)>, key: Seq<char>, i: int)
    requires
        0 <= i < members.len(),
        members[i].0@ != key,
    ensures
        lookup(members.skip(i), key) == lookup(members.skip(i + 1), key),
{
    assert(members.skip(i).drop_first() =~= members.skip(i + 1));
}

impl Json {
    /// The member `key` of an object (`Value::get` with a string key).
    pub fn get(&self, key: &str) -> (r: Option<&Json>)
        ensures
            match r {
                Some(v) => json_get(*self, key@) == Some(*v),
                None => json_get(*self, key@) is None,
            },
    {
        match self {
            Json::Object(members) => {
                let k = String::from_str(key);
                let mut i: usize = 0;
                assert(members@.skip(0) =~= members@);
                while i < members.len()
                    invariant
                        i <= members.len(),
                        k@ == key@,
                        json_get(*self, key@) == lookup(members@, key@),
                        lookup(members@, key@) == lookup(members@.skip(i as int), key@),
                    decreases members.len() - i,
                {
                    if members[i].0.eq(&k) {
                        assert(members@.skip(i as int)[0] == members@[i as int]);
                        return Some(&members[i].1);
                    }
                    proof {
                        lemma_lookup_skip(members@, key@, i as int);
                    }
                    i = i + 1;
                }
                None
            },
            _ => None,
        }
    }

    /// `self[key]`: the member `key`, or `null` when there is none.
    pub fn at(&self, key: &str) -> (r: &Json)
        ensures
            *r == json_at(*self, key@),
    {
        match self.get(key) {
            Some(v) => v,
            None => &Json::Null,
        }
    }

    /// The element at `i` of an array (`Value::get` with an index).
    pub fn nth(&self, i: usize) -> (r: Option<&Json>)
        ensures
            match r {
                Some(v) => json_nth(*self, i as int) == Some(*v),
                None => json_nth(*self, i as int) is None,
            },
    {
        match self {
            Json::Array(items) => if i < items.len() {
                Some(&items[i])
            } else {
                None
            },
            _ => None,
        }
    }

    /// `self[i]`: the element at `i` of an array, or `null` when there is none.
    pub fn at_index(&self, i: usize) -> (r: &Json)
        ensures
            *r == json_idx(*self, i as int),
    {
        match self.nth(i) {
            Some(v) => v,
            None => &Json::Null,
        }
    }

    /// The text of a string value.
    pub fn as_str(&self) -> (r: Option<&str>)
        ensures
            opt_str_view(r) == json_str(*self),
    {
        match self {
            Json::Str(s) => Some(s.as_str()),
            _ => None,
        }
    }

    /// The value of a number that is a non-negative integer fitting in `u64`.
    pub fn as_u64(&self) -> (r: Option<u64>)
        ensures
            r == json_u64(*self),
    {
        match self {
            Json::Num(n) => *n,
            _ => None,
        }
    }

    /// The elements of an array.
    pub fn as_array(&self) -> (r: Option<&Vec<Json>>)
        ensures
            match r {
                Some(v) => json_items(*self) == Some(v@),
                None => json_items(*self) is None,
            },
    {
        match self {
            Json::Array(items) => Some(items),
            _ => None,
        }
    }

    /// Whether this is a string value.
    pub fn is_string(&self) -> (r: bool)
        ensures
            r == (json_str(*self) is Some),
    {
        match self {
            Json::Str(_) => true,
            _ => false,
        }
    }

    /// Whether this is an array.
    pub fn is_array(&self) -> (r: bool)
        ensures
            r == (json_items(*self) is Some),
    {
        match self {
            Json::Array(_) => true,
            _ => false,
        }
    }
}

/// A scanner's machine-readable output as it reaches the library: the tool
/// did not run or left no report, its output was no JSON, or the document.
#[derive(Debug)]
pub enum Report {
    Absent,
    Invalid,
    Parsed(Json),
}

/// The bytes of an optional output, by view.
pub open spec fn bytes_of(out: Option<&[u8]>) -> Option<Seq<u8>> {
    match out {
        Some(b) => Some(b@),
        None => None,
    }
}

/// The bytes of an optional collected output, by view.
pub open spec fn vec_bytes(out: Option<Vec<u8>>) -> Option<Seq<u8>> {
    match out {
        Some(b) => Some(b@),
        None => None,
    }
}

/// The JSON document that serde_json reads from `bytes`, or `None` when
/// `bytes` hold no JSON document.
pub uninterp spec fn parsed_json(bytes: Seq<u8>) -> Option<Json>;

/// serde_json's dynamic value type.
#[verifier::external_type_specification]
#[verifier::external_body]
pub struct ExJsonValue(serde_json::Value);

/// The library's value for a serde_json value: each variant moved to its
/// counterpart; a number keeps `Number::as_u64`, an object its members in
/// the order serde_json's map yields them.
#[verifier::external_body]
fn json_of_value(v: serde_json::Value) -> Json {
    match v {
        serde_json::Value::Null => Json::Null,
        serde_json::Value::Bool(b) => Json::Bool(b),
        serde_json::Value::Number(n) => Json::Num(n.as_u64()),
        serde_json::Value::String(s) => Json::Str(s),
        serde_json::Value::Array(a) => Json::Array(a.into_iter().map(json_of_value).collect()),
        serde_json::Value::Object(m) => Json::Object(
            m.into_iter().map(|(k, x)| (k, json_of_value(x))).collect(),
        ),
    }
}

/// `serde_json::from_slice::<serde_json::Value>`, read into the library's
/// `Json`. The claim is only that the result is a function of the bytes
/// alone, named `parsed_json`: serde_json's grammar is not spelled out
/// here. The parse does not panic: nesting deeper than serde_json's
/// recursion limit is an error, not a crash.
#[verifier::external_body]
pub(crate) fn parse_json(bytes: &[u8]) -> (r: Option<Json>)
    ensures
        r == parsed_json(bytes@),
{
    match serde_json::from_slice::<serde_json::Value>(bytes) {
        Ok(v) => Some(json_of_value(v)),
        Err(_) => None,
    }
}

/// The report a tool's output makes: absent when the tool left no output,
/// the document when the output is JSON, invalid otherwise.
pub open spec fn report_of(out: Option<Seq<u8>>) -> Report {
    match out {
        None => Report::Absent,
        Some(b) => match parsed_json(b) {
            Some(j) => Report::Parsed(j),
            None => Report::Invalid,
        },
    }
}

/// The report that the output `out` of a tool makes.
pub fn report_of_output(out: Option<&[u8]>) -> (r: Report)
    ensures
        r == report_of(bytes_of(out)),
{
    match out {
        None => Report::Absent,
        Some(b) => match parse_json(b) {
            Some(j) => Report::Parsed(j),
            None => Report::Invalid,
        },
    }
}

/// The bytes of a collected output, borrowed.
pub fn output_bytes(out: &Option<Vec<u8>>) -> (r: Option<&[u8]>)
    ensures
        bytes_of(r) == vec_bytes(*out),
{
    match out {
        Some(b) => Some(b.as_slice()),
        None => None,
    }
}

} // verus!
