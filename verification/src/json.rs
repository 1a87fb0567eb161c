//! Structured values.
//!
//! State, messages and event payloads are structured values in the JSON data
//! model. At run time they are `serde_json::Value`s, produced and printed by
//! `serde_json`. To the verifier such a value is opaque, so contracts speak of
//! its mathematical model, [`Json`], obtained with [`json_model`].
//!
//! Everything in this file whose body is not verified is a thin call into
//! `serde_json`; its doc comment says which function it calls and what is
//! assumed of it.
use vstd::prelude::*;
use crate::error::ActorError;

verus! {

/// Model of a JSON number. A non-negative integer that fits in 64 bits is
/// `PosInt`, a negative one is `NegInt`, and every other number is the bit
/// pattern of the double that stands for it.
pub enum JsonNumber {
    PosInt(u64),
    NegInt(i64),
    Float(u64),
}

/// Model of a structured value.
pub enum Json {
    Null,
    Bool(bool),
    Number(JsonNumber),
    String(Seq<char>),
    Array(Seq<Json>),
    Object(Map<Seq<char>, Json>),
}

#[verifier::external_type_specification]
#[verifier::external_body]
pub struct ExValue(serde_json::Value);

#[verifier::external_type_specification]
#[verifier::external_body]
pub struct ExJsonError(serde_json::Error);

/// The structured value that a `serde_json::Value` holds.
pub uninterp spec fn json_model(v: serde_json::Value) -> Json;

/// What `serde_json::from_slice` makes of a byte string: the value it decodes
/// to, or `None` where it reports an error.
pub uninterp spec fn json_parse(bytes: Seq<u8>) -> Option<Json>;

/// The bytes that `serde_json::to_vec` prints for a value.
pub uninterp spec fn json_text(j: Json) -> Seq<u8>;

impl Json {
    /// The member `key` of an object; `Null` if `self` is no object or has no
    /// such member.
    pub open spec fn member(self, key: Seq<char>) -> Json {
        match self {
            Json::Object(fields) => if fields.contains_key(key) {
                fields[key]
            } else {
                Json::Null
            },
            _ => Json::Null,
        }
    }

    /// The number as an unsigned 64-bit integer, if it is one.
    pub open spec fn as_u64(self) -> Option<u64> {
        match self {
            Json::Number(JsonNumber::PosInt(n)) => Some(n),
            _ => None,
        }
    }

    /// The items of an array.
    pub open spec fn as_array(self) -> Option<Seq<Json>> {
        match self {
            Json::Array(items) => Some(items),
            _ => None,
        }
    }

    /// The characters of a string.
    pub open spec fn as_str(self) -> Option<Seq<char>> {
        match self {
            Json::String(s) => Some(s),
            _ => None,
        }
    }
}

/// How deep arrays and objects may nest in a text that is decoded.
pub const MAX_NESTING: usize = 127;

/// Whether a value holds no fractional number and nests arrays and objects
/// at most `depth` deep.
pub open spec fn plain_within(j: Json, depth: nat) -> bool
    decreases depth,
{
    match j {
        Json::Number(JsonNumber::Float(_)) => false,
        Json::Array(items) => if depth == 0 {
            false
        } else {
            forall|i: int|
                0 <= i < items.len() ==> plain_within(#[trigger] items[i], (depth - 1) as nat)
        },
        Json::Object(fields) => if depth == 0 {
            false
        } else {
            forall|key: Seq<char>|
                fields.contains_key(key) ==> plain_within(
                    #[trigger] fields[key],
                    (depth - 1) as nat,
                )
        },
        _ => true,
    }
}

/// The values that come back unchanged when they are encoded and decoded:
/// those without a fractional number that nest no deeper than a text may.
pub open spec fn lossless(j: Json) -> bool {
    plain_within(j, MAX_NESTING as nat)
}

/// The models of a sequence of values, item by item.
pub open spec fn json_models(values: Seq<serde_json::Value>) -> Seq<Json> {
    values.map_values(|v: serde_json::Value| json_model(v))
}

/// No two fields of a list have the same name.
pub open spec fn distinct_names(fields: Seq<(String, serde_json::Value)>) -> bool {
    forall|i: int, j: int|
        0 <= i < j < fields.len() ==> (#[trigger] fields[i]).0@ != (#[trigger] fields[j]).0@
}

/// The object that a list of named fields builds.
pub open spec fn fields_model(fields: Seq<(String, serde_json::Value)>) -> Map<Seq<char>, Json>
    decreases fields.len(),
{
    if fields.len() == 0 {
        Map::empty()
    } else {
        fields_model(fields.drop_last()).insert(fields.last().0@, json_model(fields.last().1))
    }
}

/// `serde_json::from_slice`, at type `serde_json::Value`. Assumed: the outcome
/// is a function of the bytes alone, named by [`json_parse`].
#[verifier::external_body]
pub(crate) fn parse_json(bytes: &[u8]) -> (r: Result<serde_json::Value, serde_json::Error>)
    ensures
        r matches Ok(v) ==> json_parse(bytes@) == Some(json_model(v)),
        r is Err ==> json_parse(bytes@) is None,
{
    serde_json::from_slice(bytes)
}

/// `serde_json::to_vec`, on a `serde_json::Value`. Assumed, as the source of
/// the value's serializer shows: printing a value into a vector does not
/// fail, and what is printed is a function of the value alone, named by
/// [`json_text`]. Assumed further: the text of a value without a fractional
/// number, nested no deeper than the parser's limit of 127, parses back to
/// that value. Integers, strings and names are printed exactly; a fractional
/// number may come back as its neighbour, and a deeper text is refused.
#[verifier::external_body]
pub(crate) fn print_json(v: &serde_json::Value) -> (r: Result<Vec<u8>, serde_json::Error>)
    ensures
        r is Ok,
        r matches Ok(bytes) ==> bytes@ == json_text(json_model(*v)),
        r matches Ok(bytes) ==> (lossless(json_model(*v)) ==> json_parse(bytes@) == Some(
            json_model(*v),
        )),
{
    serde_json::to_vec(v)
}

/// Indexing a `serde_json::Value` by a string key (`value[key]`). Assumed, as
/// its documentation says: the member of that name, or `Null` where the value
/// is no object or has no such member.
#[verifier::external_body]
pub(crate) fn json_index<'a>(v: &'a serde_json::Value, key: &str) -> (r: &'a serde_json::Value)
    ensures
        json_model(*r) == json_model(*v).member(key@),
{
    &v[key]
}

/// `serde_json::Value::as_u64`. Assumed, as documented: `Some` exactly for an
/// integer that fits in `u64`.
#[verifier::external_body]
pub(crate) fn json_as_u64(v: &serde_json::Value) -> (r: Option<u64>)
    ensures
        r == json_model(*v).as_u64(),
{
    v.as_u64()
}

/// `serde_json::Value::as_array`. Assumed, as documented: the items, exactly
/// where the value is an array.
#[verifier::external_body]
pub(crate) fn json_as_array<'a>(v: &'a serde_json::Value) -> (r: Option<&'a Vec<serde_json::Value>>)
    ensures
        match json_model(*v).as_array() {
            Some(items) => r matches Some(a) && json_models(a@) == items,
            None => r is None,
        },
{
    v.as_array()
}

/// `serde_json::Value::as_str`. Assumed, as documented: the text, exactly
/// where the value is a string.
#[verifier::external_body]
pub(crate) fn json_as_str<'a>(v: &'a serde_json::Value) -> (r: Option<&'a str>)
    ensures
        match json_model(*v).as_str() {
            Some(s) => r matches Some(t) && t@ == s,
            None => r is None,
        },
{
    v.as_str()
}

/// `Clone::clone` of a `serde_json::Value`. Assumed: the copy holds the same
/// structured value.
#[verifier::external_body]
pub(crate) fn json_clone(v: &serde_json::Value) -> (r: serde_json::Value)
    ensures
        json_model(r) == json_model(*v),
{
    v.clone()
}

/// The variant `serde_json::Value::Null`.
#[verifier::external_body]
pub(crate) fn json_null() -> (r: serde_json::Value)
    ensures
        json_model(r) == Json::Null,
{
    serde_json::Value::Null
}

/// The variant `serde_json::Value::String`.
#[verifier::external_body]
pub(crate) fn json_string(s: String) -> (r: serde_json::Value)
    ensures
        json_model(r) == Json::String(s@),
{
    serde_json::Value::String(s)
}

/// `serde_json::Value::from`, on a `u64`. Assumed, as the crate's `From` impl
/// for unsigned integers shows: the number is kept as a non-negative integer.
#[verifier::external_body]
pub(crate) fn json_number(n: u64) -> (r: serde_json::Value)
    ensures
        json_model(r) == Json::Number(JsonNumber::PosInt(n)),
{
    serde_json::Value::from(n)
}

/// The variant `serde_json::Value::Array`.
#[verifier::external_body]
pub(crate) fn json_array(items: Vec<serde_json::Value>) -> (r: serde_json::Value)
    ensures
        json_model(r) == Json::Array(json_models(items@)),
{
    serde_json::Value::Array(items)
}

/// `serde_json::Map::from_iter` under the variant `serde_json::Value::Object`.
/// Assumed: the object has the given fields. Which of two fields with one
/// name would stay is left open, so the names must differ.
#[verifier::external_body]
pub(crate) fn json_object(fields: Vec<(String, serde_json::Value)>) -> (r: serde_json::Value)
    requires
        distinct_names(fields@),
    ensures
        json_model(r) == Json::Object(fields_model(fields@)),
{
    serde_json::Value::Object(serde_json::Map::from_iter(fields))
}

/// The value that a byte string stands for, as far as decoding goes.
pub open spec fn decoding(bytes: Seq<u8>) -> Result<Json, ActorError> {
    match json_parse(bytes) {
        Some(value) => Ok(value),
        None => Err(ActorError::DecodeError),
    }
}

/// Decodes a byte string as a structured value. Bytes that are none give
/// `DecodeError`.
pub fn decode(bytes: &[u8]) -> (r: Result<serde_json::Value, ActorError>)
    ensures
        match decoding(bytes@) {
            Ok(value) => r matches Ok(v) && json_model(v) == value,
            Err(e) => r == Err::<serde_json::Value, ActorError>(e),
        },
{
    match parse_json(bytes) {
        Ok(value) => Ok(value),
        Err(_) => Err(ActorError::DecodeError),
    }
}

/// Encodes a structured value as bytes. Every structured value has an
/// encoding, so this succeeds. The bytes of a lossless value decode to it.
pub fn encode(value: &serde_json::Value) -> (r: Result<Vec<u8>, ActorError>)
    ensures
        r matches Ok(bytes) && bytes@ == json_text(json_model(*value)) && (lossless(
            json_model(*value),
        ) ==> decoding(bytes@) == Ok::<Json, ActorError>(json_model(*value))),
{
    match print_json(value) {
        Ok(bytes) => Ok(bytes),
        Err(_) => Err(ActorError::EncodeError),
    }
}

} // verus!
