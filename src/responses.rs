//! Reading the service's answers: single objects, custom fields, and the
//! failures that an answer of a create or update may report.

use vstd::prelude::*;
use vstd::string::StringExecFns;

use crate::error::CwError;
use crate::json::{describe, json_array, json_at, json_i64, json_parse, json_str, json_text, member, parse_value, render};

verus! {

/// The caption of a custom field, when it is a string.
pub open spec fn caption_of(f: serde_json::Value) -> Option<Seq<char>> {
    json_str(json_at(f, "caption"@))
}

/// The id of a custom field, when it is an integer that fits in `i64`.
pub open spec fn id_of(f: serde_json::Value) -> Option<i64> {
    json_i64(json_at(f, "id"@))
}

/// The custom fields of an object, when it has an array of them.
pub open spec fn custom_fields_of(obj: serde_json::Value) -> Option<Seq<serde_json::Value>> {
    json_array(json_at(obj, "customFields"@))
}

/// Every custom field has a string caption.
pub open spec fn captions_are_text(items: Seq<serde_json::Value>) -> bool {
    forall|i: int| 0 <= i < items.len() ==> (#[trigger] caption_of(items[i])) is Some
}

/// Some custom field has the caption `field`.
pub open spec fn has_caption(items: Seq<serde_json::Value>, field: Seq<char>) -> bool {
    exists|k: int| 0 <= k < items.len() && caption_of(items[k]) == Some(field)
}

/// Position `k` holds the last custom field with the caption `field`.
pub open spec fn is_last_with_caption(items: Seq<serde_json::Value>, field: Seq<char>, k: int) -> bool {
    &&& 0 <= k < items.len()
    &&& caption_of(items[k]) == Some(field)
    &&& forall|j: int| k < j < items.len() ==> caption_of(items[j]) != Some(field)
}

/// Every custom field with the caption `field` has an integer id.
pub open spec fn matching_ids_are_integers(items: Seq<serde_json::Value>, field: Seq<char>) -> bool {
    forall|i: int|
        0 <= i < items.len() && caption_of(items[i]) == Some(field) ==> (#[trigger] id_of(items[i])) is Some
}

/// The answer reports failures in an `errors` array.
pub open spec fn reports_errors(v: serde_json::Value) -> bool {
    json_array(json_at(v, "errors"@)) is Some
}

/// The failure message of an answer, when it has a string `message`.
pub open spec fn message_of(v: serde_json::Value) -> Option<Seq<char>> {
    json_str(json_at(v, "message"@))
}

/// The error carries the message `m`.
pub open spec fn is_application_error(e: CwError, m: Seq<char>) -> bool {
    e matches CwError::Application(t) && t@ == m
}

fn parse_error(e: &serde_json::Error) -> (r: CwError)
    ensures
        r is Parse,
{
    CwError::Parse(describe(e))
}

/// Reads a body that holds a single JSON value.
pub fn parse_single(body: &str) -> (r: Result<serde_json::Value, CwError>)
    ensures
        match json_parse(body@) {
            Some(v) => r is Ok && r->Ok_0 == v,
            None => r is Err && r->Err_0 is Parse,
        },
{
    match parse_value(body) {
        Ok(v) => Ok(v),
        Err(e) => Err(parse_error(&e)),
    }
}

/// The custom fields of `object`, when every one has a string caption.
fn custom_fields<'a>(object: &'a serde_json::Value) -> (r: Result<&'a Vec<serde_json::Value>, CwError>)
    ensures
        match custom_fields_of(*object) {
            None => r is Err && r->Err_0 is Parse,
            Some(items) => if captions_are_text(items) {
                r is Ok && r->Ok_0@ == items
            } else {
                r is Err && r->Err_0 is Parse
            },
        },
{
    let items = match member(object, "customFields").as_array() {
        Some(items) => items,
        None => {
            return Err(CwError::Parse(String::from_str("the object has no array of custom fields")));
        },
    };
    let mut i: usize = 0;
    while i < items.len()
        invariant
            i <= items.len(),
            custom_fields_of(*object) == Some(items@),
            forall|j: int| 0 <= j < i ==> (#[trigger] caption_of(items@[j])) is Some,
        decreases items.len() - i,
    {
        if member(&items[i], "caption").as_str().is_none() {
            assert(caption_of(items@[i as int]) is None);
            return Err(CwError::Parse(String::from_str("a custom field has no string caption")));
        }
        i = i + 1;
    }
    Ok(items)
}

/// The position of the last field captioned `field`, in fields whose
/// captions are all strings.
fn last_with_caption(items: &Vec<serde_json::Value>, field: &str) -> (r: Option<usize>)
    requires
        captions_are_text(items@),
    ensures
        match r {
            Some(k) => is_last_with_caption(items@, field@, k as int),
            None => !has_caption(items@, field@),
        },
{
    let wanted = String::from_str(field);
    let mut found: Option<usize> = None;
    let mut i: usize = 0;
    while i < items.len()
        invariant
            i <= items.len(),
            captions_are_text(items@),
            wanted@ == field@,
            match found {
                Some(k) => k < i && caption_of(items@[k as int]) == Some(field@) && forall|j: int|
                    k < j < i ==> caption_of(items@[j]) != Some(field@),
                None => forall|j: int| 0 <= j < i ==> caption_of(items@[j]) != Some(field@),
            },
        decreases items.len() - i,
    {
        match member(&items[i], "caption").as_str() {
            Some(c) => {
                if String::from_str(c) == wanted {
                    found = Some(i);
                }
            },
            None => {},
        }
        i = i + 1;
    }
    found
}

/// The value of the custom field captioned `field` in `object` (an object
/// fetched with only its custom fields); `None` when no field has that
/// caption. When several have it, the last one counts; a field without a
/// `value` gives `Null`. An object without an array of custom fields, or with
/// a field whose caption is not a string, is malformed (`Parse`).
pub fn lookup_custom_field(object: &serde_json::Value, field: &str) -> (r: Result<Option<serde_json::Value>, CwError>)
    ensures
        match custom_fields_of(*object) {
            None => r is Err && r->Err_0 is Parse,
            Some(items) => if !captions_are_text(items) {
                r is Err && r->Err_0 is Parse
            } else if !has_caption(items, field@) {
                r is Ok && r->Ok_0 is None
            } else {
                r is Ok && r->Ok_0 is Some && exists|k: int|
                    is_last_with_caption(items, field@, k) && r->Ok_0->0 == json_at(items[k], "value"@)
            },
        },
{
    let items = custom_fields(object)?;
    match last_with_caption(items, field) {
        None => Ok(None),
        Some(k) => Ok(Some(member(&items[k], "value").clone())),
    }
}

/// The id of the custom field captioned `field` in `object` (an object
/// fetched with only its custom fields). When several have that caption,
/// the last one counts. A missing caption is reported as `NotFound`; an id
/// of zero is an id like any other. An object without an array of custom
/// fields, a field whose caption is not a string, or a matching field whose id
/// is not an integer, is malformed (`Parse`).
pub fn lookup_custom_field_id(object: &serde_json::Value, field: &str) -> (r: Result<i64, CwError>)
    ensures
        match custom_fields_of(*object) {
            None => r is Err && r->Err_0 is Parse,
            Some(items) => if !captions_are_text(items) || !matching_ids_are_integers(items, field@) {
                r is Err && r->Err_0 is Parse
            } else if !has_caption(items, field@) {
                r is Err && r->Err_0 is NotFound
            } else {
                r is Ok && exists|k: int|
                    is_last_with_caption(items, field@, k) && id_of(items[k]) == Some(r->Ok_0)
            },
        },
{
    let items = custom_fields(object)?;
    let wanted = String::from_str(field);
    let mut i: usize = 0;
    while i < items.len()
        invariant
            i <= items.len(),
            custom_fields_of(*object) == Some(items@),
            captions_are_text(items@),
            wanted@ == field@,
            forall|j: int|
                0 <= j < i && caption_of(items@[j]) == Some(field@) ==> (#[trigger] id_of(items@[j])) is Some,
        decreases items.len() - i,
    {
        match member(&items[i], "caption").as_str() {
            Some(c) => {
                if String::from_str(c) == wanted && member(&items[i], "id").as_i64().is_none() {
                    assert(caption_of(items@[i as int]) == Some(field@) && id_of(items@[i as int]) is None);
                    return Err(CwError::Parse(String::from_str("a custom field has no integer id")));
                }
            },
            None => {},
        }
        i = i + 1;
    }
    assert(matching_ids_are_integers(items@, field@));
    match last_with_caption(items, field) {
        None => Err(CwError::NotFound(String::from_str(field))),
        Some(k) => {
            assert(id_of(items@[k as int]) is Some);
            match member(&items[k], "id").as_i64() {
                Some(n) => Ok(n),
                None => Err(CwError::Parse(String::from_str("a custom field has no integer id"))),
            }
        },
    }
}

/// Reads the answer to a create: the created object, or the failure that the
/// answer reports in an `errors` array or, failing that, a string `message`.
pub fn post_outcome(body: &str) -> (r: Result<serde_json::Value, CwError>)
    ensures
        match json_parse(body@) {
            None => r is Err && r->Err_0 is Parse,
            Some(v) => if reports_errors(v) {
                r is Err && is_application_error(r->Err_0, json_text(json_at(v, "errors"@)))
            } else if message_of(v) is Some {
                r is Err && is_application_error(r->Err_0, message_of(v)->0)
            } else {
                r is Ok && r->Ok_0 == v
            },
        },
{
    let v = parse_single(body)?;
    let errors = member(&v, "errors");
    if errors.as_array().is_some() {
        return Err(CwError::Application(render(errors)));
    }
    match member(&v, "message").as_str() {
        Some(m) => Err(CwError::Application(String::from_str(m))),
        None => Ok(v),
    }
}

/// Reads the answer to an update: the updated object, or the failure that the
/// answer reports in a string `message`.
pub fn patch_outcome(body: &str) -> (r: Result<serde_json::Value, CwError>)
    ensures
        match json_parse(body@) {
            None => r is Err && r->Err_0 is Parse,
            Some(v) => if message_of(v) is Some {
                r is Err && is_application_error(r->Err_0, message_of(v)->0)
            } else {
                r is Ok && r->Ok_0 == v
            },
        },
{
    let v = parse_single(body)?;
    match member(&v, "message").as_str() {
        Some(m) => Err(CwError::Application(String::from_str(m))),
        None => Ok(v),
    }
}

} // verus!
