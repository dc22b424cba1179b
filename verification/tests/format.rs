use std::io::Write;

use pixi_pfx::error::PfxError;
use pixi_pfx::format::{
    channel_name, format_api_key, format_channel_list, format_channel_member, format_channel_result,
    format_human, format_human_error, format_json, format_json_error, format_oidc_deleted, format_publisher_row,
    format_size, format_user, kv, latest_version, page_footer, platforms_str, sv, table, truncate, yes_no,
    CommandOutput, OutputKind,
};
use pixi_pfx::json::{JsonNumber, JsonValue};

fn s(text: &str) -> JsonValue {
    JsonValue::String(text.to_string())
}

fn num(i: i64) -> JsonValue {
    JsonValue::Number(JsonNumber::Int(i))
}

fn obj(members: Vec<(&str, JsonValue)>) -> JsonValue {
    JsonValue::Object(members.into_iter().map(|(k, v)| (k.to_string(), v)).collect())
}

fn tab_table(header: &[&str], rows: &[Vec<String>], padding: usize) -> String {
    let mut tw = tabwriter::TabWriter::new(vec![]).padding(padding);
    tw.write_all(format!("{}\n", header.join("\t")).as_bytes()).unwrap();
    for row in rows {
        tw.write_all(format!("{}\n", row.join("\t")).as_bytes()).unwrap();
    }
    tw.flush().unwrap();
    String::from_utf8(tw.into_inner().unwrap()).unwrap()
}

#[test]
fn sizes_match_one_decimal_float_formatting() {
    let kb = 1024i64;
    let mb = kb * kb;
    let gb = mb * kb;
    let samples = [
        1024i64, 1536, 2304, 2355, 10239, 10240, 1048575, 1048576, 1572864, 3 * mb + 1, 5 * gb + 123456789,
        i64::MAX, 9007199254740993, 123456789012345678,
    ];
    for &b in samples.iter() {
        let expected = if b >= gb {
            format!("{:.1} GB", b as f64 / gb as f64)
        } else if b >= mb {
            format!("{:.1} MB", b as f64 / mb as f64)
        } else {
            format!("{:.1} KB", b as f64 / kb as f64)
        };
        assert_eq!(format_size(b), expected, "size {}", b);
    }
    assert_eq!(format_size(2304), "2.2 KB");
    assert_eq!(format_size(1536), "1.5 KB");
}

#[test]
fn small_sizes_are_in_bytes() {
    assert_eq!(format_size(0), "0 B");
    assert_eq!(format_size(1023), "1023 B");
    assert_eq!(format_size(-5), "-5 B");
    assert_eq!(format_size(i64::MIN), format!("{} B", i64::MIN));
}

#[test]
fn truncation_keeps_short_text() {
    assert_eq!(truncate("hello", 10), "hello");
    assert_eq!(truncate("hello", 5), "hello");
    assert_eq!(truncate("hello world", 5), "hell…");
    assert_eq!(truncate("héllo wörld", 6), "héllo…");
    assert_eq!(truncate("ab", 1), "…");
    assert_eq!(truncate("", 0), "");
}

#[test]
fn field_helpers_fall_back_to_dash() {
    let v = obj(vec![
        ("name", s("conda-forge")),
        ("count", num(3)),
        ("is_public", JsonValue::Bool(true)),
        ("hidden", JsonValue::Bool(false)),
        ("channel", obj(vec![("name", s("releases"))])),
        ("latest_version", obj(vec![("version", s("2.0"))])),
        ("platforms", JsonValue::Array(vec![s("linux-64"), num(1), s("noarch")])),
    ]);
    assert_eq!(sv(&v, "name"), "conda-forge");
    assert_eq!(sv(&v, "count"), "-");
    assert_eq!(sv(&v, "missing"), "-");
    assert_eq!(yes_no(&v, "is_public"), "yes");
    assert_eq!(yes_no(&v, "hidden"), "no");
    assert_eq!(yes_no(&v, "name"), "-");
    assert_eq!(channel_name(&v), "releases");
    assert_eq!(latest_version(&v), "2.0");
    assert_eq!(platforms_str(&v), "linux-64, noarch");
    assert_eq!(platforms_str(&obj(vec![])), "-");
    assert_eq!(channel_name(&JsonValue::Null), "-");
}

#[test]
fn page_footer_counts_from_one() {
    let v = obj(vec![("current", num(0)), ("pages", num(3)), ("total_count", num(42))]);
    assert_eq!(page_footer(&v), "Page 1/3 (42 total)\n");
    assert_eq!(page_footer(&JsonValue::Null), "Page 1/0 (0 total)\n");
    let big = obj(vec![("current", num(i64::MAX))]);
    assert_eq!(page_footer(&big), format!("Page {}/0 (0 total)\n", (i64::MAX as i128) + 1));
}

#[test]
fn tables_align_like_tabwriter() {
    let header = ["NAME", "OWNER", "DESCRIPTION"];
    let rows = vec![
        vec!["conda-forge".to_string(), "-".to_string(), "Community packages".to_string()],
        vec!["x".to_string(), "someone-long".to_string(), "".to_string()],
    ];
    assert_eq!(table(&header, &rows), tab_table(&header, &rows, 2));
    let pairs = [("Name", "x".to_string()), ("Description", "y".to_string())];
    let mut tw = tabwriter::TabWriter::new(vec![]).padding(1);
    for (k, v) in pairs.iter() {
        tw.write_all(format!("{}:\t{}\n", k, v).as_bytes()).unwrap();
    }
    tw.flush().unwrap();
    assert_eq!(kv(&pairs), String::from_utf8(tw.into_inner().unwrap()).unwrap());
    assert_eq!(kv(&pairs), "Name:        x\nDescription: y\n");
}

#[test]
fn user_lines() {
    assert_eq!(format_user(&JsonValue::Null), "Not authenticated.\n");
    assert_eq!(format_user(&obj(vec![("login", s("bob"))])), "Logged in as: bob\n");
}

#[test]
fn result_lines() {
    assert_eq!(format_channel_result(&obj(vec![("name", s("c"))]), "created"), "Channel 'c' created.\n");
    let member = obj(vec![("username", s("u")), ("channel", obj(vec![("name", s("c"))])), ("role", s("VIEWER"))]);
    assert_eq!(format_channel_member(&member, "added to"), "Member 'u' added to channel 'c' (role: VIEWER).\n");
    assert_eq!(format_oidc_deleted(&obj(vec![("id", s("42"))])), "OIDC publisher '42' deleted.\n");
}

#[test]
fn api_key_shows_secret_once() {
    let v = obj(vec![("name", s("ci")), ("key", s("pfx_secret"))]);
    let mut expected = kv(&[
        ("Name", "ci".to_string()),
        ("Description", "-".to_string()),
        ("Created", "-".to_string()),
        ("Expires", "-".to_string()),
        ("Access", "-".to_string()),
        ("Channel", "-".to_string()),
    ]);
    expected.push_str("\nAPI Key: pfx_secret\n(save this now — it won't be shown again)\n");
    assert_eq!(format_api_key(&v), expected);
}

#[test]
fn publisher_rows() {
    let gh = obj(vec![(
        "GithubPublisher",
        obj(vec![
            ("id", s("1")),
            ("repository_owner", s("org")),
            ("repository_name", s("repo")),
            ("workflow_filename", s("build.yml")),
        ]),
    )]);
    assert_eq!(format_publisher_row(&gh), vec!["GitHub", "1", "org/repo (build.yml)"]);
    let g = obj(vec![("GooglePublisher", obj(vec![("id", s("2")), ("email", s("a@b"))]))]);
    assert_eq!(format_publisher_row(&g), vec!["Google", "2", "a@b"]);
    assert_eq!(format_publisher_row(&obj(vec![])), vec!["Unknown", "-", "-"]);
}

#[test]
fn channel_list_with_footer() {
    assert_eq!(format_channel_list(&obj(vec![("page", JsonValue::Array(vec![]))])), "No channels found.\n");
    let v = obj(vec![
        (
            "page",
            JsonValue::Array(vec![obj(vec![
                ("name", s("conda-forge")),
                ("owner", obj(vec![("name", s("cf"))])),
                ("is_public", JsonValue::Bool(true)),
                ("description", s("A very long description that goes on and on and on forever")),
            ])]),
        ),
        ("current", num(1)),
        ("pages", num(2)),
        ("total_count", num(11)),
    ]);
    let rows = vec![vec![
        "conda-forge".to_string(),
        "cf".to_string(),
        "yes".to_string(),
        truncate("A very long description that goes on and on and on forever", 40),
    ]];
    let mut expected = tab_table(&["NAME", "OWNER", "PUBLIC", "DESCRIPTION"], &rows, 2);
    expected.push_str("Page 2/2 (11 total)\n");
    assert_eq!(format_channel_list(&v), expected);
}

#[test]
fn json_envelopes() {
    let out = CommandOutput::new(obj(vec![("name", s("c\"1\n"))]), OutputKind::ChannelDetail);
    assert_eq!(format_json(&out), r#"{"data":{"name":"c\"1\n"},"ok":true}"#);
    let err = PfxError::InvalidArgument("bad".to_string());
    assert_eq!(
        format_json_error(&err),
        r#"{"error":{"code":"INVALID_ARGUMENT","message":"Invalid argument: bad"},"ok":false}"#
    );
    let err = PfxError::Graphql {
        message: "oops".to_string(),
        details: Some(JsonValue::Array(vec![obj(vec![("message", s("oops"))])])),
    };
    assert_eq!(
        format_json_error(&err),
        r#"{"error":{"code":"GRAPHQL_ERROR","details":[{"message":"oops"}],"message":"GraphQL error: oops"},"ok":false}"#
    );
}

#[test]
fn human_errors() {
    assert_eq!(format_human_error(&PfxError::AuthRequired), "error [AUTH_REQUIRED]: Authentication required");
    let err = PfxError::Graphql {
        message: "oops".to_string(),
        details: Some(obj(vec![("a", num(1)), ("b", JsonValue::Array(vec![]))])),
    };
    assert_eq!(
        format_human_error(&err),
        "error [GRAPHQL_ERROR]: GraphQL error: oops\n{\n  \"a\": 1,\n  \"b\": []\n}"
    );
}

#[test]
fn human_results() {
    let out = CommandOutput::new(JsonValue::Bool(true), OutputKind::BoolResult { action: "API key revoked." });
    assert_eq!(format_human(&out), "API key revoked.\n");
    let raw = CommandOutput::raw(obj(vec![("x", JsonValue::Array(vec![num(1), JsonValue::Null]))]));
    assert_eq!(format_human(&raw), "{\n  \"x\": [\n    1,\n    null\n  ]\n}\n");
}

#[test]
fn json_output_is_one_line_and_parses_back() {
    let value = obj(vec![
        ("text", s("line one\nline two\ttabbed \"quoted\"")),
        ("items", JsonValue::Array(vec![num(1), JsonValue::Null, JsonValue::Number(JsonNumber::Float("2.5".to_string()))])),
    ]);
    let out = CommandOutput::new(value, OutputKind::Raw);
    let text = format_json(&out);
    assert!(!text.contains('\n'));
    let parsed: serde_json::Value = serde_json::from_str(&text).unwrap();
    assert_eq!(parsed["ok"], serde_json::Value::Bool(true));
    assert_eq!(parsed["data"]["text"], "line one\nline two\ttabbed \"quoted\"");
    assert_eq!(parsed["data"]["items"][0], 1);
    assert!(parsed["data"]["items"][1].is_null());
    assert_eq!(parsed["data"]["items"][2], 2.5);
    let err = PfxError::InvalidArgument("two\nlines".to_string());
    let text = format_json_error(&err);
    assert!(!text.contains('\n'));
    let parsed: serde_json::Value = serde_json::from_str(&text).unwrap();
    assert_eq!(parsed["ok"], serde_json::Value::Bool(false));
    assert_eq!(parsed["error"]["message"], "Invalid argument: two\nlines");
}

#[test]
fn json_texts_read_back_as_written() {
    let value = obj(vec![
        ("ctl", s("bell\u{7}, nul\u{0}, back\\slash, é")),
        ("empty", JsonValue::Array(vec![])),
        ("none", obj(vec![])),
        ("neg", num(-42)),
        ("big", JsonValue::Number(JsonNumber::UInt(18446744073709551615))),
        ("flag", JsonValue::Bool(false)),
    ]);
    let out = CommandOutput::new(value, OutputKind::Raw);
    let text = format_json(&out);
    let parsed: serde_json::Value = serde_json::from_str(&text).unwrap();
    assert_eq!(parsed["data"]["ctl"], "bell\u{7}, nul\u{0}, back\\slash, é");
    assert_eq!(parsed["data"]["empty"], serde_json::Value::Array(vec![]));
    assert_eq!(parsed["data"]["neg"], -42);
    assert_eq!(parsed["data"]["big"], 18446744073709551615u64);
    assert_eq!(parsed["data"]["flag"], false);
    assert_eq!(parsed["ok"], true);

    let err = PfxError::Graphql {
        message: "boom".to_string(),
        details: Some(JsonValue::Array(vec![obj(vec![("path", JsonValue::Array(vec![s("a"), num(0)]))])])),
    };
    let text = format_json_error(&err);
    let parsed: serde_json::Value = serde_json::from_str(&text).unwrap();
    assert_eq!(parsed["ok"], false);
    assert_eq!(parsed["error"]["code"], "GRAPHQL_ERROR");
    assert_eq!(parsed["error"]["message"], "GraphQL error: boom");
    assert_eq!(parsed["error"]["details"][0]["path"][1], 0);
    let keys: Vec<&String> = parsed["error"].as_object().unwrap().keys().collect();
    assert_eq!(keys, vec!["code", "details", "message"]);
}
