use pixi_pfx::json::{JsonNumber, JsonValue};
use pixi_pfx::json_text::to_json_string;
use pixi_pfx::response::{response_value, result_at};

fn s(text: &str) -> JsonValue {
    JsonValue::String(text.to_string())
}

fn obj(members: Vec<(&str, JsonValue)>) -> JsonValue {
    JsonValue::Object(members.into_iter().map(|(k, v)| (k.to_string(), v)).collect())
}

#[test]
fn names_become_snake_case_in_order() {
    let v = obj(vec![
        ("allowV3Uploads", JsonValue::Bool(true)),
        ("baseUrl", s("https://prefix.dev/c")),
        ("channelPath", s("c")),
        ("isPublic", JsonValue::Bool(false)),
        ("name", s("c")),
        ("totalCount", JsonValue::Number(JsonNumber::Int(3))),
    ]);
    assert_eq!(
        to_json_string(&response_value(&v)),
        r#"{"allow_v3_uploads":true,"base_url":"https://prefix.dev/c","channel_path":"c","is_public":false,"name":"c","total_count":3}"#
    );
}

#[test]
fn nested_values_and_arrays_are_shaped() {
    let v = obj(vec![(
        "page",
        JsonValue::Array(vec![obj(vec![("latestVersion", obj(vec![("totalCount", JsonValue::Null)]))])]),
    )]);
    assert_eq!(to_json_string(&response_value(&v)), r#"{"page":[{"latest_version":{"total_count":null}}]}"#);
}

#[test]
fn json_documents_are_kept_as_written() {
    let v = obj(vec![
        ("rawIndex", obj(vec![("buildNumber", JsonValue::Number(JsonNumber::Int(1)))])),
        ("payload", obj(vec![("someKey", s("x"))])),
        ("yankedReason", JsonValue::Null),
    ]);
    assert_eq!(
        to_json_string(&response_value(&v)),
        r#"{"payload":{"someKey":"x"},"raw_index":{"buildNumber":1},"yanked_reason":null}"#
    );
}

#[test]
fn publishers_are_tagged_by_type() {
    let gh = obj(vec![
        ("__typename", s("GithubPublisher")),
        ("id", s("1")),
        ("repositoryOwner", s("org")),
    ]);
    assert_eq!(
        to_json_string(&response_value(&gh)),
        r#"{"GithubPublisher":{"id":"1","repository_owner":"org"}}"#
    );
    let other = obj(vec![("__typename", s("SomethingElse")), ("id", s("2"))]);
    assert_eq!(to_json_string(&response_value(&other)), r#""Unknown""#);
}

#[test]
fn result_is_the_value_at_the_path() {
    let data = obj(vec![("channel", obj(vec![("isPublic", JsonValue::Bool(true))]))]);
    assert_eq!(to_json_string(&result_at(&data, &["channel"]).unwrap()), r#"{"is_public":true}"#);
    assert_eq!(to_json_string(&result_at(&data, &["channel", "isPublic"]).unwrap()), "true");
    assert_eq!(result_at(&data, &["missing"]).unwrap_err(), "missing");
    assert_eq!(result_at(&data, &["channel", "name"]).unwrap_err(), "name");
    let null_channel = obj(vec![("channel", JsonValue::Null)]);
    assert_eq!(to_json_string(&result_at(&null_channel, &["channel"]).unwrap()), "null");
    assert_eq!(result_at(&JsonValue::Null, &["channel"]).unwrap_err(), "channel");
}
