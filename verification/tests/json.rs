use pixi_pfx::json::{JsonNumber, JsonValue};
use pixi_pfx::json_text::{to_json_string, to_json_string_pretty};

fn s(text: &str) -> JsonValue {
    JsonValue::String(text.to_string())
}

/// The same value built with serde_json, members in the same order.
fn to_serde(v: &JsonValue) -> serde_json::Value {
    match v {
        JsonValue::Null => serde_json::Value::Null,
        JsonValue::Bool(b) => serde_json::Value::Bool(*b),
        JsonValue::Number(JsonNumber::Int(i)) => serde_json::Value::from(*i),
        JsonValue::Number(JsonNumber::UInt(u)) => serde_json::Value::from(*u),
        JsonValue::Number(JsonNumber::Float(f)) => serde_json::Value::from(f.parse::<f64>().unwrap()),
        JsonValue::String(t) => serde_json::Value::String(t.clone()),
        JsonValue::Array(items) => serde_json::Value::Array(items.iter().map(to_serde).collect()),
        JsonValue::Object(members) => {
            let mut m = serde_json::Map::new();
            for (k, v) in members {
                m.insert(k.clone(), to_serde(v));
            }
            serde_json::Value::Object(m)
        }
    }
}

fn sample() -> JsonValue {
    JsonValue::Object(vec![
        ("a_null".to_string(), JsonValue::Null),
        ("b_true".to_string(), JsonValue::Bool(true)),
        ("c_int".to_string(), JsonValue::Number(JsonNumber::Int(-9223372036854775808))),
        ("d_uint".to_string(), JsonValue::Number(JsonNumber::UInt(18446744073709551615))),
        ("e_float".to_string(), JsonValue::Number(JsonNumber::Float("1.5".to_string()))),
        ("f_text".to_string(), s("quote \" backslash \\ tab \t newline \n bell \u{7} del \u{7f} é 😀 /")),
        ("g_empty_array".to_string(), JsonValue::Array(vec![])),
        ("h_empty_object".to_string(), JsonValue::Object(vec![])),
        (
            "i_nested".to_string(),
            JsonValue::Array(vec![
                JsonValue::Object(vec![("k".to_string(), JsonValue::Array(vec![s("v"), JsonValue::Null]))]),
                JsonValue::Number(JsonNumber::Int(0)),
            ]),
        ),
    ])
}

#[test]
fn compact_text_matches_serde_json() {
    let v = sample();
    assert_eq!(to_json_string(&v), serde_json::to_string(&to_serde(&v)).unwrap());
}

#[test]
fn pretty_text_matches_serde_json() {
    let v = sample();
    assert_eq!(to_json_string_pretty(&v), serde_json::to_string_pretty(&to_serde(&v)).unwrap());
}

#[test]
fn control_characters_are_escaped() {
    assert_eq!(to_json_string(&s("\u{0}\u{1f}\u{8}\u{c}\r")), r#""\u0000\u001f\b\f\r""#);
}

#[test]
fn lookups() {
    let v = sample();
    assert_eq!(v.get("b_true").and_then(|x| x.as_bool()), Some(true));
    assert_eq!(v.get("c_int").and_then(|x| x.as_i64()), Some(i64::MIN));
    assert_eq!(v.get("d_uint").and_then(|x| x.as_i64()), None);
    assert!(v.get("a_null").unwrap().is_null());
    assert!(v.get("missing").is_none());
    assert_eq!(v.get("i_nested").and_then(|x| x.as_array()).map(|a| a.len()), Some(2));
    assert_eq!(s("x").get("a").is_none(), true);
    assert_eq!(s("x").as_str(), Some("x"));
}
