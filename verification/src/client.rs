//! The decisions around one request to the API: which credentials go
//! with it, and what its answer means (data, GraphQL errors, or a body
//! that is not a GraphQL answer).
use vstd::prelude::*;

use crate::error::PfxError;
use crate::json::{lemma_member_trees_ext, lemma_trees_push, tree, trees, JsonTree, JsonValue};
use crate::text::{chars_of, join, push_char};

verus! {

/// The endpoint used when none is given.
pub const DEFAULT_ENDPOINT: &'static str = "https://prefix.dev/api/graphql";

/// Credentials found in the authentication storage for the endpoint.
#[derive(Debug)]
pub enum StoredAuth {
    /// A token sent as a bearer token.
    BearerToken(String),
    /// A user name and password for HTTP basic authentication.
    BasicHttp { username: String, password: String },
    /// A conda token, which the storage puts into the URL itself.
    CondaToken(String),
    /// S3 credentials, which do not apply to the API.
    S3Credentials,
    /// OAuth credentials, of which the access token is sent.
    OAuth { access_token: String },
}

/// The credentials a request carries.
#[derive(Debug)]
pub enum RequestAuth {
    Anonymous,
    Bearer(String),
    Basic { username: String, password: String },
}

/// The credentials a request carries: the explicit token if there is one,
/// else those of the storage that HTTP can carry.
pub open spec fn request_auth_of(token: Option<String>, stored: Option<StoredAuth>) -> RequestAuth {
    match token {
        Some(t) => RequestAuth::Bearer(t),
        None => match stored {
            Some(StoredAuth::BearerToken(t)) => RequestAuth::Bearer(t),
            Some(StoredAuth::OAuth { access_token }) => RequestAuth::Bearer(access_token),
            Some(StoredAuth::BasicHttp { username, password }) => RequestAuth::Basic { username, password },
            _ => RequestAuth::Anonymous,
        },
    }
}

/// The credentials a request carries: an explicit token wins over the
/// storage; of stored credentials, bearer and OAuth tokens go as bearer
/// tokens and basic credentials as basic authentication, while conda
/// tokens (already in the URL) and S3 credentials add nothing.
pub fn request_auth(token: &Option<String>, stored: Option<StoredAuth>) -> (r: RequestAuth)
    ensures
        r == request_auth_of(*token, stored),
{
    match token {
        Some(t) => RequestAuth::Bearer(t.clone()),
        None => match stored {
            Some(StoredAuth::BearerToken(t)) => RequestAuth::Bearer(t),
            Some(StoredAuth::OAuth { access_token }) => RequestAuth::Bearer(access_token),
            Some(StoredAuth::BasicHttp { username, password }) => RequestAuth::Basic { username, password },
            _ => RequestAuth::Anonymous,
        },
    }
}

/// One error of a GraphQL answer: its message and the text of its path.
#[derive(Debug)]
pub struct GraphqlErrorInfo {
    pub message: String,
    pub path: String,
}

/// The messages of GraphQL errors.
pub open spec fn error_messages(es: Seq<GraphqlErrorInfo>) -> Seq<Seq<char>> {
    es.map_values(|e: GraphqlErrorInfo| e.message@)
}

/// The details reported of GraphQL errors: one object per error, with
/// its message and path.
pub open spec fn error_detail_trees(es: Seq<GraphqlErrorInfo>) -> Seq<JsonTree> {
    es.map_values(|e: GraphqlErrorInfo| JsonTree::Object(seq![
        ("message"@, JsonTree::Str(e.message@)),
        ("path"@, JsonTree::Str(e.path@)),
    ]))
}

/// Whether `r` is the error reported for the GraphQL errors of an
/// answer: their messages joined by `; `, with the details of each.
pub open spec fn is_graphql_errors(r: PfxError, es: Seq<GraphqlErrorInfo>) -> bool {
    &&& r matches PfxError::Graphql { message, details }
    &&& message@ == join(error_messages(es), "; "@)
    &&& details matches Some(d)
    &&& tree(d) == JsonTree::Array(error_detail_trees(es))
}

/// What an answer of the API is worth, from its errors and whether it
/// has data: its GraphQL errors if it has any, else an error if it has no
/// data, else nothing (the data are the result).
pub fn response_error(errors: &Vec<GraphqlErrorInfo>, has_data: bool) -> (r: Option<PfxError>)
    ensures
        errors.len() > 0 ==> (r matches Some(e) && is_graphql_errors(e, errors@)),
        errors.len() == 0 && !has_data ==> (r matches Some(e) && e matches PfxError::Graphql { message, details }
            && message@ == "No data in response"@ && details is None),
        errors.len() == 0 && has_data ==> r is None,
{
    if errors.len() == 0 {
        if has_data {
            return None;
        }
        return Some(PfxError::Graphql { message: String::from_str("No data in response"), details: None });
    }
    let mut message = String::new();
    let mut items: Vec<JsonValue> = Vec::new();
    let mut i: usize = 0;
    while i < errors.len()
        invariant
            i <= errors.len(),
            message@ == join(error_messages(errors@.take(i as int)), "; "@),
            trees(items@) == error_detail_trees(errors@.take(i as int)),
        decreases errors.len() - i,
    {
        let e = &errors[i];
        if i > 0 {
            message.append("; ");
        }
        message.append(e.message.as_str());
        let mut members: Vec<(String, JsonValue)> = Vec::new();
        members.push((String::from_str("message"), JsonValue::String(e.message.clone())));
        members.push((String::from_str("path"), JsonValue::String(e.path.clone())));
        let item = JsonValue::Object(members);
        let ghost before = items@;
        items.push(item);
        proof {
            lemma_member_trees_ext(members@, seq![
                ("message"@, JsonTree::Str(e.message@)),
                ("path"@, JsonTree::Str(e.path@)),
            ]);
            lemma_trees_push(before, item);
            assert(error_messages(errors@.take(i + 1)).drop_last() =~= error_messages(errors@.take(i as int)));
            assert(error_detail_trees(errors@.take(i + 1)) =~= error_detail_trees(errors@.take(i as int)).push(tree(item)));
            if i == 0 {
                assert(error_messages(errors@.take(1)) =~= seq![e.message@]);
            }
        }
        i = i + 1;
    }
    proof {
        assert(errors@.take(errors.len() as int) =~= errors@);
    }
    Some(PfxError::Graphql { message, details: Some(JsonValue::Array(items)) })
}

/// How many bytes UTF-8 takes for a character.
pub open spec fn utf8_width(c: char) -> int {
    if (c as u32) < 0x80 {
        1
    } else if (c as u32) < 0x800 {
        2
    } else if (c as u32) < 0x10000 {
        3
    } else {
        4
    }
}

/// How many bytes UTF-8 takes for a text.
pub open spec fn utf8_len(s: Seq<char>) -> int
    decreases s.len(),
{
    if s.len() == 0 {
        0
    } else {
        utf8_width(s[0]) + utf8_len(s.drop_first())
    }
}

/// The characters that lie wholly within the first `n` bytes of a text.
pub open spec fn byte_prefix(s: Seq<char>, n: int) -> Seq<char>
    decreases s.len(),
{
    if s.len() == 0 || utf8_width(s[0]) > n {
        Seq::empty()
    } else {
        seq![s[0]] + byte_prefix(s.drop_first(), n - utf8_width(s[0]))
    }
}

/// How many bytes of a body the error for an undecodable answer shows.
pub const PREVIEW_BYTES: usize = 500;

/// Whether the first `n` bytes of a text end between characters, or the
/// text is no longer than that.
pub open spec fn cut_on_char(s: Seq<char>, n: int) -> bool {
    utf8_len(s) <= n || utf8_len(byte_prefix(s, n)) == n
}

/// The error for an answer that is not a GraphQL answer: the decoder's
/// message, with the body's first `PREVIEW_BYTES` bytes as details.
pub fn decode_error(decoder_message: &str, body: &str) -> (r: PfxError)
    requires
        cut_on_char(body@, PREVIEW_BYTES as int),
    ensures
        r matches PfxError::Graphql { message, details } && (message@ == "Failed to decode response: "@ + decoder_message@
            && (details matches Some(d)
            && tree(d) == JsonTree::Object(seq![("body_preview"@, JsonTree::Str(byte_prefix(body@, PREVIEW_BYTES as int)))]))),
{
    let chars = chars_of(body);
    let mut preview = String::new();
    let mut used: usize = 0;
    let mut i: usize = 0;
    proof {
        assert(body@.skip(0) =~= body@);
        assert(preview@ + byte_prefix(body@.skip(0), 500) =~= byte_prefix(body@, 500));
    }
    let mut full = false;
    while i < chars.len() && !full
        invariant
            i <= chars.len(),
            chars@ == body@,
            used <= PREVIEW_BYTES,
            preview@ + byte_prefix(body@.skip(i as int), PREVIEW_BYTES - used) == byte_prefix(body@, PREVIEW_BYTES as int),
            full ==> byte_prefix(body@.skip(i as int), PREVIEW_BYTES - used) == Seq::<char>::empty(),
        decreases chars.len() - i, (if full { 0int } else { 1int }),
    {
        let c = chars[i];
        let code = c as u32;
        let width: usize = if code < 0x80 { 1 } else if code < 0x800 { 2 } else if code < 0x10000 { 3 } else { 4 };
        let ghost rest = body@.skip(i as int);
        proof {
            assert(rest[0] == c);
            assert(rest.drop_first() =~= body@.skip(i + 1));
        }
        if width > PREVIEW_BYTES - used {
            full = true;
        } else {
            let ghost before = preview@;
            push_char(&mut preview, c);
            proof {
                assert(before + byte_prefix(rest, PREVIEW_BYTES - used) =~= preview@ + byte_prefix(body@.skip(i + 1), PREVIEW_BYTES - used - width));
            }
            used = used + width;
            i = i + 1;
        }
    }
    proof {
        if !full {
            assert(body@.skip(i as int) =~= Seq::<char>::empty());
        }
        assert(preview@ + Seq::<char>::empty() =~= preview@);
    }
    let mut message = String::from_str("Failed to decode response: ");
    message.append(decoder_message);
    let mut members: Vec<(String, JsonValue)> = Vec::new();
    members.push((String::from_str("body_preview"), JsonValue::String(preview)));
    proof {
        lemma_member_trees_ext(members@, seq![("body_preview"@, JsonTree::Str(byte_prefix(body@, PREVIEW_BYTES as int)))]);
    }
    PfxError::Graphql { message, details: Some(JsonValue::Object(members)) }
}

/// The error for an answer whose data lack a member the command's result
/// lies under: a decoding failure naming the missing field, with the body's
/// first `PREVIEW_BYTES` bytes as details.
pub fn missing_field_error(name: &str, body: &str) -> (r: PfxError)
    requires
        cut_on_char(body@, PREVIEW_BYTES as int),
    ensures
        r matches PfxError::Graphql { message, details } && (message@
            == "Failed to decode response: "@ + "missing field `"@ + name@ + "`"@
            && (details matches Some(d)
            && tree(d) == JsonTree::Object(seq![("body_preview"@, JsonTree::Str(byte_prefix(body@, PREVIEW_BYTES as int)))]))),
{
    let mut m = String::from_str("missing field `");
    m.append(name);
    m.append("`");
    let r = decode_error(m.as_str(), body);
    proof {
        assert("Failed to decode response: "@ + m@ =~= "Failed to decode response: "@ + "missing field `"@ + name@ + "`"@);
    }
    r
}

/// Law: an explicit token is what a request carries, whatever the
/// storage holds.
pub proof fn explicit_token_wins(token: String, stored: Option<StoredAuth>)
    ensures
        request_auth_of(Some(token), stored) == RequestAuth::Bearer(token),
{
}

/// A text takes no negative number of bytes.
proof fn lemma_utf8_len_nonneg(s: Seq<char>)
    ensures
        utf8_len(s) >= 0,
    decreases s.len(),
{
    if s.len() > 0 {
        lemma_utf8_len_nonneg(s.drop_first());
    }
}

/// Law: a body no longer than the preview is shown whole.
pub proof fn short_body_shown_whole(s: Seq<char>, n: int)
    requires
        utf8_len(s) <= n,
    ensures
        byte_prefix(s, n) == s,
    decreases s.len(),
{
    if s.len() > 0 {
        lemma_utf8_len_nonneg(s.drop_first());
        short_body_shown_whole(s.drop_first(), n - utf8_width(s[0]));
        assert(s =~= seq![s[0]] + s.drop_first());
    }
}

} // verus!
