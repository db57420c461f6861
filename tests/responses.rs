use cwmanage::{lookup_custom_field, lookup_custom_field_id, parse_single, patch_outcome, post_outcome, CwError};
use serde_json::Value;

fn json(text: &str) -> Value {
    serde_json::from_str(text).unwrap()
}

#[test]
fn custom_field_found_and_missing() {
    let object = json("{\"customFields\":[{\"caption\":\"EPL\",\"value\":false}]}");
    assert_eq!(lookup_custom_field(&object, "EPL").unwrap(), Some(Value::Bool(false)));
    assert_eq!(lookup_custom_field(&object, "Missing").unwrap(), None);
}

#[test]
fn custom_field_last_match_and_missing_value() {
    let object = json(
        "{\"customFields\":[{\"caption\":\"A\",\"value\":1},{\"caption\":\"B\"},{\"caption\":\"A\",\"value\":\"two\"}]}",
    );
    assert_eq!(lookup_custom_field(&object, "A").unwrap(), Some(json("\"two\"")));
    assert_eq!(lookup_custom_field(&object, "B").unwrap(), Some(Value::Null));
}

#[test]
fn custom_field_shape_errors() {
    let no_fields = json("{\"id\":4}");
    assert!(matches!(lookup_custom_field(&no_fields, "EPL"), Err(CwError::Parse(_))));
    let not_array = json("{\"customFields\":{}}");
    assert!(matches!(lookup_custom_field(&not_array, "EPL"), Err(CwError::Parse(_))));
    let bad_caption = json("{\"customFields\":[{\"caption\":3,\"value\":1}]}");
    assert!(matches!(lookup_custom_field(&bad_caption, "EPL"), Err(CwError::Parse(_))));
}

#[test]
fn custom_field_id_found_missing_and_zero() {
    let object = json(
        "{\"customFields\":[{\"id\":12,\"caption\":\"EPL\",\"value\":false},{\"id\":67,\"caption\":\"WaitReason\",\"value\":\"x\"},{\"id\":0,\"caption\":\"Zero\"}]}",
    );
    assert_eq!(lookup_custom_field_id(&object, "WaitReason").unwrap(), 67);
    assert_eq!(lookup_custom_field_id(&object, "Zero").unwrap(), 0);
    assert!(matches!(lookup_custom_field_id(&object, "A Fake Thing"), Err(CwError::NotFound(_))));
}

#[test]
fn custom_field_id_shape_errors() {
    let bad_id = json("{\"customFields\":[{\"id\":\"x\",\"caption\":\"EPL\"},{\"id\":5,\"caption\":\"EPL\"}]}");
    assert!(matches!(lookup_custom_field_id(&bad_id, "EPL"), Err(CwError::Parse(_))));
    assert!(matches!(lookup_custom_field_id(&bad_id, "Other"), Err(CwError::NotFound(_))));
    let bad_caption = json("{\"customFields\":[{\"id\":5,\"caption\":null}]}");
    assert!(matches!(lookup_custom_field_id(&bad_caption, "EPL"), Err(CwError::Parse(_))));
    assert!(matches!(lookup_custom_field_id(&json("[]"), "EPL"), Err(CwError::Parse(_))));
}

#[test]
fn post_with_errors_array_fails() {
    let r = post_outcome("{\"code\":\"InvalidObject\",\"errors\":[{\"code\":\"NullValue\",\"field\":\"assignTo\"}]}");
    assert_eq!(
        r,
        Err(CwError::Application("[{\"code\":\"NullValue\",\"field\":\"assignTo\"}]".to_string()))
    );
}

#[test]
fn post_with_message_fails() {
    let r = post_outcome("{\"errors\":null,\"message\":\"Project not found\"}");
    assert_eq!(r, Err(CwError::Application("Project not found".to_string())));
}

#[test]
fn post_success_returns_object() {
    let r = post_outcome("{\"id\":5,\"name\":\"n\"}");
    assert_eq!(r, Ok(json("{\"id\":5,\"name\":\"n\"}")));
    assert!(matches!(post_outcome("<html>"), Err(CwError::Parse(_))));
}

#[test]
fn patch_with_message_fails() {
    let r = patch_outcome("{\"code\":\"InvalidObject\",\"message\":\"Cannot add\"}");
    assert_eq!(r, Err(CwError::Application("Cannot add".to_string())));
    let r = patch_outcome("{\"id\":100,\"errors\":[]}");
    assert_eq!(r, Ok(json("{\"id\":100,\"errors\":[]}")));
    assert!(matches!(patch_outcome(""), Err(CwError::Parse(_))));
}

#[test]
fn single_object_parse() {
    assert_eq!(parse_single("{\"isCloud\":true}").unwrap(), json("{\"isCloud\":true}"));
    assert!(matches!(parse_single("{\"isCloud\":"), Err(CwError::Parse(_))));
}
