use pixi_pfx::client::{decode_error, request_auth, response_error, GraphqlErrorInfo, RequestAuth, StoredAuth, DEFAULT_ENDPOINT};
use pixi_pfx::error::PfxError;
use pixi_pfx::json_text::to_json_string;

#[test]
fn default_endpoint() {
    assert_eq!(DEFAULT_ENDPOINT, "https://prefix.dev/api/graphql");
}

#[test]
fn explicit_token_wins_over_storage() {
    let r = request_auth(&Some("tok".to_string()), Some(StoredAuth::BasicHttp { username: "u".to_string(), password: "p".to_string() }));
    assert!(matches!(r, RequestAuth::Bearer(t) if t == "tok"));
}

#[test]
fn stored_credentials_map_to_headers() {
    assert!(matches!(request_auth(&None, Some(StoredAuth::BearerToken("b".to_string()))), RequestAuth::Bearer(t) if t == "b"));
    assert!(matches!(request_auth(&None, Some(StoredAuth::OAuth { access_token: "o".to_string() })), RequestAuth::Bearer(t) if t == "o"));
    assert!(matches!(
        request_auth(&None, Some(StoredAuth::BasicHttp { username: "u".to_string(), password: "p".to_string() })),
        RequestAuth::Basic { username, password } if username == "u" && password == "p"
    ));
    assert!(matches!(request_auth(&None, Some(StoredAuth::CondaToken("c".to_string()))), RequestAuth::Anonymous));
    assert!(matches!(request_auth(&None, Some(StoredAuth::S3Credentials)), RequestAuth::Anonymous));
    assert!(matches!(request_auth(&None, None), RequestAuth::Anonymous));
}

#[test]
fn graphql_errors_are_joined() {
    let errors = vec![
        GraphqlErrorInfo { message: "first".to_string(), path: "Some([Field(\"channel\")])".to_string() },
        GraphqlErrorInfo { message: "second".to_string(), path: "None".to_string() },
    ];
    match response_error(&errors, true) {
        Some(PfxError::Graphql { message, details }) => {
            assert_eq!(message, "first; second");
            assert_eq!(
                to_json_string(&details.unwrap()),
                r#"[{"message":"first","path":"Some([Field(\"channel\")])"},{"message":"second","path":"None"}]"#
            );
        }
        other => panic!("unexpected {:?}", other),
    }
}

#[test]
fn missing_data_is_an_error() {
    match response_error(&vec![], false) {
        Some(PfxError::Graphql { message, details }) => {
            assert_eq!(message, "No data in response");
            assert!(details.is_none());
        }
        other => panic!("unexpected {:?}", other),
    }
    assert!(response_error(&vec![], true).is_none());
}

#[test]
fn undecodable_body_is_previewed() {
    let body = "x".repeat(600);
    match decode_error("expected value at line 1 column 1", &body) {
        PfxError::Graphql { message, details } => {
            assert_eq!(message, "Failed to decode response: expected value at line 1 column 1");
            let expected = format!(r#"{{"body_preview":"{}"}}"#, "x".repeat(500));
            assert_eq!(to_json_string(&details.unwrap()), expected);
        }
        other => panic!("unexpected {:?}", other),
    }
    let body = format!("{}é and more", "a".repeat(498));
    assert!(body.is_char_boundary(500));
    match decode_error("e", &body) {
        PfxError::Graphql { details, .. } => {
            let expected = format!(r#"{{"body_preview":"{}"}}"#, &body[..500]);
            assert_eq!(to_json_string(&details.unwrap()), expected);
        }
        other => panic!("unexpected {:?}", other),
    }
    match decode_error("e", "short 😀") {
        PfxError::Graphql { details, .. } => {
            assert_eq!(to_json_string(&details.unwrap()), r#"{"body_preview":"short 😀"}"#);
        }
        other => panic!("unexpected {:?}", other),
    }
}

#[test]
fn missing_result_is_a_decode_error() {
    match pixi_pfx::client::missing_field_error("channels", "{\"data\":{}}") {
        PfxError::Graphql { message, details } => {
            assert_eq!(message, "Failed to decode response: missing field `channels`");
            assert_eq!(to_json_string(&details.unwrap()), r#"{"body_preview":"{\"data\":{}}"}"#);
        }
        other => panic!("unexpected {:?}", other),
    }
}
