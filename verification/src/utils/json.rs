use crate::utils::text::str_eq;
use vstd::prelude::*;

verus! {

/// A number of `serde_json`, kept as that crate holds it.
#[verifier::external_type_specification]
#[verifier::external_body]
pub struct ExNumber(serde_json::Number);

/// A value of `serde_json`, which only the two conversions below take apart.
#[verifier::external_type_specification]
#[verifier::external_body]
pub struct ExValue(serde_json::Value);

/// The error that `serde_json` reports.
#[verifier::external_type_specification]
#[verifier::external_body]
pub struct ExJsonError(serde_json::Error);

/// A JSON value.
#[derive(Debug, PartialEq)]
pub enum JsonValue {
    Null,
    Bool(bool),
    /// A number that is an integer and fits an `i64`.
    Integer(i64),
    /// Any other number, a fraction or an integer above `i64::MAX`, carried
    /// as `serde_json` holds it.
    Number(serde_json::Number),
    Text(String),
    Array(Vec<JsonValue>),
    /// The members of an object, each a key with its value. In an object
    /// that was read from JSON the keys are in their order and none occurs
    /// twice. Where one does, `get` finds its first member, and its last
    /// member is the one that is written.
    Object(Vec<(String, JsonValue)>),
}

/// What a `JsonValue` holds, as mathematics: texts as sequences of
/// characters, arrays and objects as sequences.
pub ghost enum JsonView {
    Null,
    Bool(bool),
    Integer(i64),
    Number(serde_json::Number),
    Text(Seq<char>),
    Array(Seq<JsonView>),
    Object(Seq<(Seq<char>, JsonView)>),
}

impl View for JsonValue {
    type V = JsonView;

    open spec fn view(&self) -> JsonView {
        value_view(*self)
    }
}

/// The view of a value: that of its text, of its items or of its members.
pub open spec fn value_view(value: JsonValue) -> JsonView
    decreases value,
{
    match value {
        JsonValue::Null => JsonView::Null,
        JsonValue::Bool(b) => JsonView::Bool(b),
        JsonValue::Integer(i) => JsonView::Integer(i),
        JsonValue::Number(n) => JsonView::Number(n),
        JsonValue::Text(s) => JsonView::Text(s@),
        JsonValue::Array(items) => JsonView::Array(values_view(items@)),
        JsonValue::Object(members) => JsonView::Object(members_view(members@)),
    }
}

/// The views of the items of an array.
pub open spec fn values_view(values: Seq<JsonValue>) -> Seq<JsonView>
    decreases values,
{
    Seq::new(
        values.len(),
        |i: int|
            if 0 <= i < values.len() {
                value_view(values[i])
            } else {
                JsonView::Null
            },
    )
}

/// The views of the members of an object.
pub open spec fn members_view(members: Seq<(String, JsonValue)>) -> Seq<(Seq<char>, JsonView)>
    decreases members,
{
    Seq::new(
        members.len(),
        |i: int|
            if 0 <= i < members.len() {
                (members[i].0@, value_view(members[i].1))
            } else {
                (Seq::empty(), JsonView::Null)
            },
    )
}

/// The place of the first member from `start` on that has the key, or the
/// number of members where none has it.
pub open spec fn key_index_from(
    members: Seq<(Seq<char>, JsonView)>,
    key: Seq<char>,
    start: int,
) -> int
    decreases members.len() - start,
{
    if start < 0 || start >= members.len() {
        members.len() as int
    } else if members[start].0 == key {
        start
    } else {
        key_index_from(members, key, start + 1)
    }
}

/// The place of the first member that has the key, or the number of members
/// where none has it.
pub open spec fn key_index(members: Seq<(Seq<char>, JsonView)>, key: Seq<char>) -> int {
    key_index_from(members, key, 0)
}

/// The value of the first member that has the key.
pub open spec fn lookup(members: Seq<(Seq<char>, JsonView)>, key: Seq<char>) -> Option<JsonView> {
    let i = key_index(members, key);
    if 0 <= i < members.len() {
        Some(members[i].1)
    } else {
        None
    }
}

pub proof fn lemma_key_index_from(members: Seq<(Seq<char>, JsonView)>, key: Seq<char>, start: int)
    requires
        0 <= start <= members.len(),
    ensures
        start <= key_index_from(members, key, start) <= members.len(),
        forall|k: int|
            start <= k < key_index_from(members, key, start) ==> (#[trigger] members[k]).0 != key,
        key_index_from(members, key, start) < members.len() ==> members[key_index_from(
            members,
            key,
            start,
        )].0 == key,
    decreases members.len() - start,
{
    if start < members.len() && members[start].0 != key {
        lemma_key_index_from(members, key, start + 1);
    }
}

impl JsonView {
    /// The value that an object holds under a key. A value that is no object
    /// holds none.
    pub open spec fn member(self, key: Seq<char>) -> Option<JsonView> {
        match self {
            JsonView::Object(members) => lookup(members, key),
            _ => None,
        }
    }
}

/// Finds the first member that has the key.
pub fn find_member(members: &Vec<(String, JsonValue)>, key: &str) -> (r: usize)
    ensures
        r == key_index(members_view(members@), key@),
        r <= members.len(),
{
    let mut i: usize = 0;
    while i < members.len()
        invariant
            i <= members.len(),
            key_index(members_view(members@), key@) == key_index_from(
                members_view(members@),
                key@,
                i as int,
            ),
        decreases members.len() - i,
    {
        if str_eq(members[i].0.as_str(), key) {
            return i;
        }
        i += 1;
    }
    i
}

impl JsonValue {
    /// The value that an object holds under a key.
    pub fn get(&self, key: &str) -> (r: Option<&JsonValue>)
        ensures
            r is Some <==> self@.member(key@) is Some,
            r is Some ==> self@.member(key@) == Some(r->Some_0@),
    {
        match self {
            JsonValue::Object(members) => {
                let i = find_member(members, key);
                if i < members.len() {
                    Some(&members[i].1)
                } else {
                    None
                }
            },
            _ => None,
        }
    }

    /// The text, where the value is one.
    pub fn as_str(&self) -> (r: Option<&str>)
        ensures
            r is Some <==> self@ is Text,
            r is Some ==> self@ == JsonView::Text(r->Some_0@),
    {
        match self {
            JsonValue::Text(s) => Some(s.as_str()),
            _ => None,
        }
    }

    /// The integer, where the value is one that fits an `i64`.
    pub fn as_i64(&self) -> (r: Option<i64>)
        ensures
            r is Some <==> self@ is Integer,
            r is Some ==> self@ == JsonView::Integer(r->Some_0),
    {
        match self {
            JsonValue::Integer(i) => Some(*i),
            _ => None,
        }
    }
}

/// What `serde_json::from_slice` makes of the bytes: the value, or nothing
/// where it reports an error.
pub uninterp spec fn json_parsed(bytes: Seq<u8>) -> Option<JsonView>;

/// The text that `serde_json::to_string` writes for a value, or nothing where
/// it reports an error.
pub uninterp spec fn json_text(value: JsonView) -> Option<Seq<char>>;

/// Turns a value of `serde_json` into a `JsonValue`, variant by variant. A
/// number that `Number::as_i64` reads becomes an `Integer`.
#[verifier::external_body]
fn from_serde(value: serde_json::Value) -> JsonValue {
    match value {
        serde_json::Value::Null => JsonValue::Null,
        serde_json::Value::Bool(b) => JsonValue::Bool(b),
        serde_json::Value::Number(n) => match n.as_i64() {
            Some(i) => JsonValue::Integer(i),
            None => JsonValue::Number(n),
        },
        serde_json::Value::String(s) => JsonValue::Text(s),
        serde_json::Value::Array(a) => JsonValue::Array(a.into_iter().map(from_serde).collect()),
        serde_json::Value::Object(m) => JsonValue::Object(
            m.into_iter().map(|(k, v)| (k, from_serde(v))).collect(),
        ),
    }
}

/// Turns a `JsonValue` into a value of `serde_json`, variant by variant.
#[verifier::external_body]
fn to_serde(value: &JsonValue) -> serde_json::Value {
    match value {
        JsonValue::Null => serde_json::Value::Null,
        JsonValue::Bool(b) => serde_json::Value::Bool(*b),
        JsonValue::Integer(i) => serde_json::Value::Number((*i).into()),
        JsonValue::Number(n) => serde_json::Value::Number(n.clone()),
        JsonValue::Text(s) => serde_json::Value::String(s.clone()),
        JsonValue::Array(a) => serde_json::Value::Array(a.iter().map(to_serde).collect()),
        JsonValue::Object(m) => serde_json::Value::Object(
            m.iter().map(|(k, v)| (k.clone(), to_serde(v))).collect(),
        ),
    }
}

/// Calls `serde_json::from_slice`. The contract claims that the outcome is a
/// function of the bytes alone, and gives it its name.
#[verifier::external_body]
pub(crate) fn parse_value(bytes: &[u8]) -> (r: Result<JsonValue, serde_json::Error>)
    ensures
        r is Ok <==> json_parsed(bytes@) is Some,
        r is Ok ==> json_parsed(bytes@) == Some(r->Ok_0@),
{
    serde_json::from_slice::<serde_json::Value>(bytes).map(from_serde)
}

/// Calls `serde_json::to_string`. The contract claims that the outcome is a
/// function of the value alone, and gives it its name.
#[verifier::external_body]
pub(crate) fn write_value(value: &JsonValue) -> (r: Result<String, serde_json::Error>)
    ensures
        r is Ok <==> json_text(value@) is Some,
        r is Ok ==> json_text(value@) == Some(r->Ok_0@),
{
    serde_json::to_string(&to_serde(value))
}

/// Gives the message of an error of `serde_json`, as its `Display` writes
/// it. Nothing is claimed of the text.
#[verifier::external_body]
pub(crate) fn error_text(error: &serde_json::Error) -> (r: String) {
    error.to_string()
}

} // verus!
