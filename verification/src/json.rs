//! The JSON view of an inbound command body. Parsing is done by the
//! JSON library; the field accessors below are the only reads the
//! schema validation makes, and each is named by what the parsed
//! object holds under a key.

use vstd::prelude::*;

verus! {

#[verifier::external_type_specification]
#[verifier::external_body]
pub struct ExValue(serde_json::Value);

/// The string under key `k` of a parsed object, when there is one.
pub uninterp spec fn json_str_field(v: serde_json::Value, k: Seq<char>) -> Option<Seq<char>>;

/// The unsigned integer under key `k` of a parsed object, when there
/// is one.
pub uninterp spec fn json_u64_field(v: serde_json::Value, k: Seq<char>) -> Option<u64>;

/// The boolean under key `k` of a parsed object, when there is one.
pub uninterp spec fn json_bool_field(v: serde_json::Value, k: Seq<char>) -> Option<bool>;

/// The array of strings under key `k` of a parsed object, when there
/// is one.
pub uninterp spec fn json_str_array_field(v: serde_json::Value, k: Seq<char>) -> Option<Seq<Seq<
    char>>>;

/// Whether the text is well-formed JSON, i.e. parses to a value.
pub uninterp spec fn json_wf(s: Seq<char>) -> bool;

/// The string under key `k` of the object the text parses to.
pub uninterp spec fn json_text_str_field(s: Seq<char>, k: Seq<char>) -> Option<Seq<char>>;

/// The unsigned integer under key `k` of the object the text parses
/// to.
pub uninterp spec fn json_text_u64_field(s: Seq<char>, k: Seq<char>) -> Option<u64>;

/// The boolean under key `k` of the object the text parses to.
pub uninterp spec fn json_text_bool_field(s: Seq<char>, k: Seq<char>) -> Option<bool>;

/// The array of strings under key `k` of the object the text parses
/// to.
pub uninterp spec fn json_text_str_array_field(s: Seq<char>, k: Seq<char>) -> Option<Seq<Seq<
    char>>>;

/// Relies on `serde_json::from_str::<Value>`: the body parsed as a
/// JSON value, or nothing when the text is not JSON. Parsing is a
/// function of the text alone, and the field accessors are pure, so a
/// parsed value's fields are the text's fields.
#[verifier::external_body]
pub(crate) fn parse_json(s: &str) -> (r: Option<serde_json::Value>)
    ensures
        r is Some <==> json_wf(s@),
        r matches Some(v) ==> (forall|k: Seq<char>|
            #[trigger] json_str_field(v, k) == json_text_str_field(s@, k)),
        r matches Some(v) ==> (forall|k: Seq<char>|
            #[trigger] json_u64_field(v, k) == json_text_u64_field(s@, k)),
        r matches Some(v) ==> (forall|k: Seq<char>|
            #[trigger] json_bool_field(v, k) == json_text_bool_field(s@, k)),
        r matches Some(v) ==> (forall|k: Seq<char>|
            #[trigger] json_str_array_field(v, k) == json_text_str_array_field(s@, k)),
{
    serde_json::from_str(s).ok()
}

/// Relies on `serde_json::Value::get` and `Value::as_str`: the string
/// stored under the key, when the value is an object holding a string
/// there.
#[verifier::external_body]
pub(crate) fn get_str_field(v: &serde_json::Value, k: &str) -> (r: Option<String>)
    ensures
        match r {
            Some(s) => json_str_field(*v, k@) == Some(s@),
            None => json_str_field(*v, k@) is None,
        },
{
    v.get(k).and_then(|x| x.as_str()).map(|s| s.to_string())
}

/// Relies on `serde_json::Value::get` and `Value::as_u64`: the
/// unsigned integer stored under the key, when the value is an object
/// holding one there.
#[verifier::external_body]
pub(crate) fn get_u64_field(v: &serde_json::Value, k: &str) -> (r: Option<u64>)
    ensures
        match r {
            Some(n) => json_u64_field(*v, k@) == Some(n),
            None => json_u64_field(*v, k@) is None,
        },
{
    v.get(k).and_then(|x| x.as_u64())
}

/// Relies on `serde_json::Value::get` and `Value::as_bool`: the
/// boolean stored under the key, when the value is an object holding
/// one there.
#[verifier::external_body]
pub(crate) fn get_bool_field(v: &serde_json::Value, k: &str) -> (r: Option<bool>)
    ensures
        match r {
            Some(b) => json_bool_field(*v, k@) == Some(b),
            None => json_bool_field(*v, k@) is None,
        },
{
    v.get(k).and_then(|x| x.as_bool())
}

/// Relies on `serde_json::Value::get`, `Value::as_array` and
/// `Value::as_str`: the strings stored under the key, when the value
/// is an object holding an array of strings there; an array with any
/// non-string element counts as absent.
#[verifier::external_body]
pub(crate) fn get_str_array_field(v: &serde_json::Value, k: &str) -> (r: Option<Vec<String>>)
    ensures
        match r {
            Some(a) => json_str_array_field(*v, k@) == Some(
                a@.map_values(|s: String| s@),
            ),
            None => json_str_array_field(*v, k@) is None,
        },
{
    let arr = v.get(k)?.as_array()?;
    arr.iter().map(|x| x.as_str().map(|s| s.to_string())).collect()
}

} // verus!
