//! The JSON values of the service, held as `serde_json::Value`.
//!
//! A value is opaque here: what the library reads of one is named by the
//! spec functions below, each the result of one `serde_json` function.

use vstd::prelude::*;

verus! {

#[verifier::external_type_specification]
#[verifier::external_body]
pub struct ExValue(serde_json::Value);

#[verifier::external_type_specification]
#[verifier::external_body]
pub struct ExJsonError(serde_json::Error);

/// What `serde_json::from_str::<Value>` makes of a text: `None` when it fails.
pub uninterp spec fn json_parse(text: Seq<char>) -> Option<serde_json::Value>;

/// `v[key]`: the member `key` of an object, `Null` otherwise.
pub uninterp spec fn json_at(v: serde_json::Value, key: Seq<char>) -> serde_json::Value;

/// `v.as_array()`: the elements of an array, `None` for any other value.
pub uninterp spec fn json_array(v: serde_json::Value) -> Option<Seq<serde_json::Value>>;

/// `v.as_str()`: the text of a string, `None` for any other value.
pub uninterp spec fn json_str(v: serde_json::Value) -> Option<Seq<char>>;

/// `v.as_i64()`: the integer of a number that fits in `i64`, `None` otherwise.
pub uninterp spec fn json_i64(v: serde_json::Value) -> Option<i64>;

/// The compact JSON text of a value, as its `Display` writes it.
pub uninterp spec fn json_text(v: serde_json::Value) -> Seq<char>;

/// The JSON text of a string value holding `s` (quoted and escaped).
pub uninterp spec fn json_quoted(s: Seq<char>) -> Seq<char>;

/// Relies on `serde_json::from_str::<Value>`, which depends on the text alone.
#[verifier::external_body]
pub(crate) fn parse_value(text: &str) -> (r: Result<serde_json::Value, serde_json::Error>)
    ensures
        r is Ok <==> json_parse(text@) is Some,
        r is Ok ==> json_parse(text@) == Some(r->Ok_0),
{
    serde_json::from_str(text)
}

/// Relies on serde_json's `Index<&str>` for `Value`, which never panics: the
/// member `key` of an object, `Value::Null` when there is none or `v` is no object.
#[verifier::external_body]
pub(crate) fn member<'a>(v: &'a serde_json::Value, key: &str) -> (r: &'a serde_json::Value)
    ensures
        *r == json_at(*v, key@),
{
    &v[key]
}

/// Relies on `Value::as_array`.
pub assume_specification[ serde_json::Value::as_array ](v: &serde_json::Value) -> (r: Option<&Vec<serde_json::Value>>)
    ensures
        json_array(*v) == (match r {
            Some(items) => Some(items@),
            None => None,
        }),
;

/// Relies on `Value::as_str`.
pub assume_specification[ serde_json::Value::as_str ](v: &serde_json::Value) -> (r: Option<&str>)
    ensures
        json_str(*v) == (match r {
            Some(s) => Some(s@),
            None => None,
        }),
;

/// Relies on `Value::as_i64`.
pub assume_specification[ serde_json::Value::as_i64 ](v: &serde_json::Value) -> (r: Option<i64>)
    ensures
        r == json_i64(*v),
;

/// Relies on the derived `Clone` of `Value`: a deep copy.
pub assume_specification[ <serde_json::Value as Clone>::clone ](v: &serde_json::Value) -> (r: serde_json::Value)
    ensures
        r == *v,
;

/// Relies on `Display` for `Value` (compact form) through `ToString`.
#[verifier::external_body]
pub(crate) fn render(v: &serde_json::Value) -> (r: String)
    ensures
        r@ == json_text(*v),
{
    v.to_string()
}

/// Relies on `Display` for a `Value::String` made from `s` (compact form).
#[verifier::external_body]
pub(crate) fn quote(s: &str) -> (r: String)
    ensures
        r@ == json_quoted(s@),
{
    serde_json::Value::from(s).to_string()
}

/// Relies on `Display` for `serde_json::Error` through `ToString`.
#[verifier::external_body]
pub(crate) fn describe(e: &serde_json::Error) -> String {
    e.to_string()
}

/// The character of a decimal digit `d < 10`.
pub open spec fn decimal_digit(d: nat) -> char {
    seq!['0', '1', '2', '3', '4', '5', '6', '7', '8', '9'][d as int]
}

/// The decimal digits of `n`, most significant first, without leading zeros.
pub open spec fn digits(n: nat) -> Seq<char>
    decreases n,
{
    if n < 10 {
        seq![decimal_digit(n)]
    } else {
        digits(n / 10) + seq![decimal_digit(n % 10)]
    }
}

/// The decimal text of an integer, with a leading `-` when it is negative.
pub open spec fn decimal(n: int) -> Seq<char> {
    if n < 0 {
        seq!['-'] + digits((-n) as nat)
    } else {
        digits(n as nat)
    }
}

/// Relies on `Display` for a `Value::Number` made from `n`: serde_json writes
/// an `i64` in plain decimal.
#[verifier::external_body]
pub(crate) fn number_text(n: i64) -> (r: String)
    ensures
        r@ == decimal(n as int),
{
    serde_json::Value::from(n).to_string()
}

} // verus!
