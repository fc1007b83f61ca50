//! The JSON boundary: a mathematical model of JSON documents, and trusted
//! wrappers around `serde_json` that relate its `Value` type to that model.
//!
//! All wire-schema logic of the crate is written and verified against
//! [`Json`]; only the text encoding and decoding itself is delegated to
//! `serde_json`.

use vstd::prelude::*;

verus! {

/// Mathematical model of a JSON document.
///
/// A number that is not an integer is modelled as [`Json::Float`] with its
/// value left out: the wire schema of this crate never reads or writes one.
pub enum Json {
    Null,
    Bool(bool),
    Int(int),
    Float,
    Str(Seq<char>),
    Arr(Seq<Json>),
    Obj(Map<Seq<char>, Json>),
}

impl Json {
    /// The members of an object, the empty map for anything else.
    pub open spec fn fields(self) -> Map<Seq<char>, Json> {
        match self {
            Json::Obj(m) => m,
            _ => Map::empty(),
        }
    }

    /// The member of an object under `key`, if the document is an object
    /// and has that member.
    pub open spec fn field(self, key: Seq<char>) -> Option<Json> {
        match self {
            Json::Obj(m) => if m.contains_key(key) {
                Some(m[key])
            } else {
                None
            },
            _ => None,
        }
    }

    /// The characters of a string document.
    pub open spec fn chars(self) -> Seq<char>
        recommends
            self is Str,
    {
        match self {
            Json::Str(s) => s,
            _ => Seq::empty(),
        }
    }

    /// The elements of an array document.
    pub open spec fn items(self) -> Seq<Json>
        recommends
            self is Arr,
    {
        match self {
            Json::Arr(s) => s,
            _ => Seq::empty(),
        }
    }
}

/// True when the document nests containers (arrays and objects) at most
/// `d` levels deep. Leaves nest zero levels, whatever `d` is.
pub open spec fn depth_below(j: Json, d: nat) -> bool
    decreases d,
{
    match j {
        Json::Arr(items) => d > 0 && (forall|i: int|
            0 <= i < items.len() ==> depth_below(items[i], (d - 1) as nat)),
        Json::Obj(m) => d > 0 && (forall|k: Seq<char>|
            m.contains_key(k) ==> depth_below(#[trigger] m[k], (d - 1) as nat)),
        _ => true,
    }
}

/// The deepest container nesting that `serde_json`'s parser accepts: its
/// recursion counter starts at 128 and fails on entering the 128th nested
/// container, so 127 levels parse and 128 do not.
pub open spec fn parse_depth_limit() -> nat {
    127
}

#[verifier::external_type_specification]
#[verifier::external_body]
pub struct ExValue(serde_json::Value);

/// The document a `serde_json::Value` holds, in the model above.
pub uninterp spec fn value_model(v: serde_json::Value) -> Json;

/// What `serde_json::from_str::<Value>` yields on a text: `None` where the
/// text is not valid JSON. Parsing depends on the text alone.
pub uninterp spec fn json_of(s: Seq<char>) -> Option<Json>;

/// The diagnostic text of `serde_json::from_str::<Value>`'s error on a
/// text that is not valid JSON; like the parse itself, a function of the
/// text alone.
pub uninterp spec fn json_error_text(s: Seq<char>) -> Seq<char>;

/// Relies on `serde_json::from_str::<Value>`: parses a JSON text, a pure
/// function of the text; on failure, hands back the parser's diagnostic.
#[verifier::external_body]
pub(crate) fn parse_json(s: &str) -> (r: Result<serde_json::Value, String>)
    ensures
        r is Ok <==> json_of(s@) is Some,
        r matches Ok(v) ==> json_of(s@) == Some(value_model(v)),
        r matches Err(m) ==> m@ == json_error_text(s@),
{
    serde_json::from_str::<serde_json::Value>(s).map_err(|e| e.to_string())
}

/// Relies on `serde_json::to_string`: the rendering of a `Value` is valid
/// JSON and, for a value nested within the parser's depth limit, parses
/// back to an equal `Value`; a deeper value would serialize but not
/// reparse, so the round trip is claimed only below the limit.
/// Serializing a `Value` to a `String` cannot fail, so the unwrap never
/// fires.
#[verifier::external_body]
pub(crate) fn write_json(v: &serde_json::Value) -> (r: String)
    ensures
        depth_below(value_model(*v), parse_depth_limit()) ==> json_of(r@) == Some(value_model(*v)),
{
    serde_json::to_string(v).unwrap()
}

/// Relies on `serde_json::Value::get` with a string index: member lookup on
/// an object, `None` on anything else.
#[verifier::external_body]
pub(crate) fn obj_get<'a>(v: &'a serde_json::Value, key: &str) -> (r: Option<
    &'a serde_json::Value,
>)
    ensures
        match value_model(*v) {
            Json::Obj(m) => (r is Some <==> m.contains_key(key@)) && (r matches Some(x)
                ==> m.contains_key(key@) && value_model(*x) == m[key@]),
            _ => r is None,
        },
{
    v.get(key)
}

/// Relies on `serde_json::Value::as_str`: the characters of a string value,
/// `None` on anything else.
#[verifier::external_body]
pub(crate) fn str_of<'a>(v: &'a serde_json::Value) -> (r: Option<&'a str>)
    ensures
        match value_model(*v) {
            Json::Str(s) => r matches Some(x) && x@ == s,
            _ => r is None,
        },
{
    v.as_str()
}

/// Relies on `serde_json::Value::is_null`.
#[verifier::external_body]
pub(crate) fn is_null(v: &serde_json::Value) -> (r: bool)
    ensures
        r <==> value_model(*v) is Null,
{
    v.is_null()
}

/// Relies on `serde_json::Value::as_array`: the elements of an array value,
/// `None` on anything else.
#[verifier::external_body]
pub(crate) fn arr_of<'a>(v: &'a serde_json::Value) -> (r: Option<&'a Vec<serde_json::Value>>)
    ensures
        match value_model(*v) {
            Json::Arr(s) => r matches Some(a) && a@.len() == s.len() && (forall|i: int|
                0 <= i < s.len() ==> value_model(a@[i]) == s[i]),
            _ => r is None,
        },
{
    v.as_array()
}

/// Relies on `serde_json::Value::as_u64`: the value of a nonnegative integer
/// number that fits in a `u64`, `None` on anything else.
#[verifier::external_body]
pub(crate) fn u64_of(v: &serde_json::Value) -> (r: Option<u64>)
    ensures
        match value_model(*v) {
            Json::Int(i) => r == if 0 <= i <= u64::MAX as int {
                Some(i as u64)
            } else {
                None::<u64>
            },
            _ => r is None,
        },
{
    v.as_u64()
}

/// Relies on `serde_json::Map::new`: an object value with no members.
#[verifier::external_body]
pub(crate) fn new_obj() -> (r: serde_json::Value)
    ensures
        value_model(r) == Json::Obj(Map::empty()),
{
    serde_json::Value::Object(serde_json::Map::new())
}

/// Relies on `serde_json::Map::insert`: adds or replaces one member of an
/// object value.
#[verifier::external_body]
pub(crate) fn obj_insert(v: &mut serde_json::Value, key: &str, x: serde_json::Value)
    requires
        value_model(*old(v)) is Obj,
    ensures
        value_model(*final(v)) == Json::Obj(
            value_model(*old(v)).fields().insert(key@, value_model(x)),
        ),
{
    if let serde_json::Value::Object(m) = v {
        m.insert(key.to_owned(), x);
    }
}

/// Relies on `serde_json::Value::String`: a string value.
#[verifier::external_body]
pub(crate) fn str_val(s: &str) -> (r: serde_json::Value)
    ensures
        value_model(r) == Json::Str(s@),
{
    serde_json::Value::String(s.to_owned())
}

/// Relies on `serde_json::Value::from::<u64>`: an integer number value.
#[verifier::external_body]
pub(crate) fn int_val(n: u64) -> (r: serde_json::Value)
    ensures
        value_model(r) == Json::Int(n as int),
{
    serde_json::Value::from(n)
}

/// Relies on `serde_json::Value::Array`: an array value of the given
/// elements, in order.
#[verifier::external_body]
pub(crate) fn arr_val(xs: Vec<serde_json::Value>) -> (r: serde_json::Value)
    ensures
        value_model(r) == Json::Arr(Seq::new(xs@.len(), |i: int| value_model(xs@[i]))),
{
    serde_json::Value::Array(xs)
}

} // verus!
