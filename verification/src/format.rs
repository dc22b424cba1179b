//! Human-readable rendering of command results.
use vstd::prelude::*;
use vstd::arithmetic::div_mod::lemma_fundamental_div_mod_converse;

use crate::json::{JsonValue, get_spec, str_member, bool_member, i64_member};
use crate::error::{PfxError, error_code, error_details, error_message};
use crate::json_text::{
    compact, compact_is_one_line, floats_one_line, lemma_one_line_concat, lemma_quoted_one_line, one_line, pretty, quoted,
    to_json_string_pretty, write_compact, write_quoted,
};
use crate::json::{tree, JsonTree};
use crate::json_parse::{
    floats_plain, lemma_member_step, lemma_object_back, lemma_plain_escape, lemma_str_value, lemma_value_back, parse_json,
    parse_members, parse_value,
};
use crate::text::{chars_of, digit, digit_char, int_text, join, join_strings, nat_text, push_char, str_texts, texts, i64_to_string, i128_to_string, u128_to_string};

verus! {

/// How a command's result is rendered for people.
pub enum OutputKind {
    Raw,
    User,
    ApiKeyList,
    ApiKey,
    BoolResult { action: &'static str },
    ChannelDetail,
    ChannelList,
    ChannelResult { action: &'static str },
    ChannelMember { action: &'static str },
    ChannelNotice,
    GithubPublisher,
    GitlabPublisher,
    GooglePublisher,
    OidcDeleted,
    PackageDetail,
    PackageList,
    PackageInfo,
    VariantDetail,
    PackageVersions,
    BackgroundJob,
}

/// The result of a command and how to render it.
pub struct CommandOutput {
    pub value: JsonValue,
    pub kind: OutputKind,
}

impl CommandOutput {
    /// A result rendered as `kind` says.
    pub fn new(value: JsonValue, kind: OutputKind) -> (r: Self)
        ensures
            r == (CommandOutput { value, kind }),
    {
        Self { value, kind }
    }

    /// A result rendered as pretty JSON.
    pub fn raw(value: JsonValue) -> (r: Self)
        ensures
            r == (CommandOutput { value, kind: OutputKind::Raw }),
    {
        Self { value, kind: OutputKind::Raw }
    }
}

/// `2^s`.
pub open spec fn two_pow(s: nat) -> nat
    decreases s,
{
    if s == 0 {
        1
    } else {
        2 * two_pow((s - 1) as nat)
    }
}

/// How many low bits of `n` do not fit a 53-bit significand.
pub open spec fn excess_bits(n: nat) -> nat
    decreases n,
{
    if n < 0x20_0000_0000_0000 {
        0
    } else {
        1 + excess_bits(n / 2)
    }
}

/// The value of `n as f64`: `n` rounded to 53 significant bits,
/// to nearest with ties to even.
pub open spec fn f64_nearest(n: nat) -> nat {
    let s = excess_bits(n);
    if s == 0 {
        n
    } else {
        let p = two_pow(s);
        let q = n / p;
        let r = n % p;
        let half = two_pow((s - 1) as nat);
        let q2 = if r > half || (r == half && q % 2 == 1) {
            q + 1
        } else {
            q
        };
        q2 * p
    }
}

/// `value / unit` in tenths, rounded to nearest with ties to even.
pub open spec fn tenths(value: nat, unit: nat) -> nat {
    let t = (value * 10) / unit;
    let r = (value * 10) % unit;
    if 2 * r > unit || (2 * r == unit && t % 2 == 1) {
        t + 1
    } else {
        t
    }
}

/// A count of tenths written with one decimal place, as `{:.1}` writes it.
pub open spec fn one_decimal(t: nat) -> Seq<char> {
    nat_text(t / 10) + seq!['.', digit_char((t % 10) as int)]
}

/// The size text of `bytes`: whole bytes below 1 KiB, otherwise the
/// value in KB, MB or GB (binary units) with one decimal place.
pub open spec fn size_text(bytes: int) -> Seq<char> {
    if bytes >= 1073741824 {
        one_decimal(tenths(f64_nearest(bytes as nat), 1073741824)) + " GB"@
    } else if bytes >= 1048576 {
        one_decimal(tenths(f64_nearest(bytes as nat), 1048576)) + " MB"@
    } else if bytes >= 1024 {
        one_decimal(tenths(f64_nearest(bytes as nat), 1024)) + " KB"@
    } else {
        int_text(bytes) + " B"@
    }
}

/// `n as f64`, as an exact integer.
fn nearest_f64_value(n: u64) -> (v: u128)
    ensures
        v == f64_nearest(n as nat),
        v <= 2 * n,
{
    let mut m: u64 = n;
    let mut p: u128 = 1;
    let ghost mut s: nat = 0;
    while m >= 0x20_0000_0000_0000
        invariant
            p == two_pow(s),
            p * m <= n,
            n < p * m + p,
            excess_bits(n as nat) == s + excess_bits(m as nat),
            s == 0 || m >= 0x10_0000_0000_0000,
            p <= n || s == 0,
            p >= 1,
        decreases m,
    {
        let h = m / 2;
        let b = m % 2;
        proof {
            assert(p * m == 2 * p * h + p * b) by (nonlinear_arith)
                requires
                    m == 2 * h + b;
            assert(p * b <= p) by (nonlinear_arith)
                requires
                    b <= 1,
                    p >= 1;
            assert(p <= p * m) by (nonlinear_arith)
                requires
                    m >= 1,
                    p >= 1;
            assert(two_pow(s + 1) == 2 * two_pow(s));
            assert(2 * p <= 2 * p * h) by (nonlinear_arith)
                requires
                    h >= 1,
                    p >= 1;
        }
        m = h;
        p = p * 2;
        proof {
            s = s + 1;
        }
    }
    proof {
        assert((m as int) * (p as int) == (p as int) * (m as int)) by (nonlinear_arith);
        lemma_fundamental_div_mod_converse(n as int, p as int, m as int, (n - p * m) as int);
    }
    if p == 1 {
        proof {
            assert(s == 0) by {
                if s > 0 {
                    assert(p * m >= 0x10_0000_0000_0000) by (nonlinear_arith)
                        requires
                            m >= 0x10_0000_0000_0000,
                            p >= 1;
                    assert(two_pow(s) >= 2) by {
                        lemma_two_pow_ge_two(s);
                    }
                }
            }
        }
        return n as u128;
    }
    proof {
        assert(s > 0);
        assert(two_pow(s) == 2 * two_pow((s - 1) as nat));
    }
    let r: u128 = (n as u128) - p * (m as u128);
    let half: u128 = p / 2;
    let q2: u128 = if r > half || (r == half && m % 2 == 1) {
        (m as u128) + 1
    } else {
        m as u128
    };
    proof {
        assert(q2 * p <= 2 * (n as int)) by (nonlinear_arith)
            requires
                q2 <= m + 1,
                p * m <= n,
                p <= n;
    }
    q2 * p
}

proof fn lemma_two_pow_ge_two(s: nat)
    requires
        s > 0,
    ensures
        two_pow(s) >= 2,
    decreases s,
{
    if s > 1 {
        lemma_two_pow_ge_two((s - 1) as nat);
    } else {
        assert(two_pow(0) == 1);
    }
}

/// One decimal place of `n / unit` followed by `suffix`.
fn size_in_unit(n: u64, unit: u128, suffix: &str) -> (r: String)
    requires
        0 < unit <= 1073741824,
    ensures
        r@ == one_decimal(tenths(f64_nearest(n as nat), unit as nat)) + suffix@,
{
    let v = nearest_f64_value(n);
    let ten: u128 = v * 10;
    let t0: u128 = ten / unit;
    let rem: u128 = ten % unit;
    let t: u128 = if 2 * rem > unit || (2 * rem == unit && t0 % 2 == 1) {
        t0 + 1
    } else {
        t0
    };
    let mut out = u128_to_string(t / 10);
    push_char(&mut out, '.');
    push_char(&mut out, digit(t % 10));
    out.append(suffix);
    proof {
        assert(t == tenths(f64_nearest(n as nat), unit as nat));
        assert(out@ =~= one_decimal(t as nat) + suffix@);
    }
    out
}

/// Renders a size in bytes: whole bytes below 1 KiB, otherwise KB, MB or
/// GB (powers of 1024) with one decimal place, as `{:.1}` rounds it.
pub fn format_size(bytes: i64) -> (r: String)
    ensures
        r@ == size_text(bytes as int),
{
    if bytes >= 1073741824 {
        size_in_unit(bytes as u64, 1073741824, " GB")
    } else if bytes >= 1048576 {
        size_in_unit(bytes as u64, 1048576, " MB")
    } else if bytes >= 1024 {
        size_in_unit(bytes as u64, 1024, " KB")
    } else {
        let mut out = i64_to_string(bytes);
        out.append(" B");
        out
    }
}

/// `s` cut to at most `max` characters, the last of them `…` when cut.
pub open spec fn truncated(s: Seq<char>, max: nat) -> Seq<char> {
    if s.len() > max {
        s.take(max - 1).push('…')
    } else {
        s
    }
}

/// Law: a shortened text is never longer than `max` characters; a text
/// that fits is left as it is, and a longer one keeps its first `max - 1`
/// characters and ends with `…`.
pub proof fn truncated_fits(s: Seq<char>, max: nat)
    requires
        s.len() > max ==> max >= 1,
    ensures
        truncated(s, max).len() <= max || truncated(s, max) == s,
        s.len() <= max ==> truncated(s, max) == s,
        s.len() > max ==> truncated(s, max).len() == max
            && truncated(s, max).take(max - 1) == s.take(max - 1)
            && truncated(s, max).last() == '…',
{
    if s.len() > max {
        assert(truncated(s, max).take(max - 1) =~= s.take(max - 1));
    }
}

/// Shortens a string to `max` characters, ending it with `…` when it was
/// longer (`max` must be positive for a string longer than `max`).
pub fn truncate(s: &str, max: usize) -> (r: String)
    requires
        s@.len() > max ==> max >= 1,
    ensures
        r@ == truncated(s@, max as nat),
{
    let chars = chars_of(s);
    if chars.len() > max {
        let mut out = String::new();
        let mut i: usize = 0;
        while i < max - 1
            invariant
                i <= max - 1,
                max - 1 < chars.len(),
                out@ == chars@.take(i as int),
            decreases max - 1 - i,
        {
            push_char(&mut out, chars[i]);
            proof {
                assert(chars@.take(i + 1) =~= chars@.take(i as int).push(chars@[i as int]));
            }
            i = i + 1;
        }
        push_char(&mut out, '…');
        out
    } else {
        String::from_str(s)
    }
}

// ── Column alignment ─────────────────────────────────────────────────────────

/// What `tabwriter::TabWriter` (default minimum width, left alignment)
/// with the given padding prints for `text` once it is flushed: the
/// tab-separated cells of contiguous lines aligned into columns.
pub uninterp spec fn tab_aligned(text: Seq<char>, padding: nat) -> Seq<char>;

/// Aligns the tab-separated cells of `text` with `tabwriter::TabWriter`:
/// writes the text to a writer over a `Vec<u8>` with the given padding,
/// flushes it and takes the bytes back. The contract names the result
/// only; what the alignment does is tabwriter's and is not restated. The
/// padding is kept small: tabwriter adds it to the widest cell's width.
#[verifier::external_body]
fn align_columns(text: &str, padding: usize) -> (r: String)
    requires
        padding <= 2,
    ensures
        r@ == tab_aligned(text@, padding as nat),
{
    let mut tw = tabwriter::TabWriter::new(Vec::new()).padding(padding);
    let _ = std::io::Write::write_all(&mut tw, text.as_bytes());
    match tw.into_inner() {
        Ok(bytes) => String::from_utf8(bytes).unwrap_or_default(),
        Err(_) => String::new(),
    }
}

/// The cells of a line joined by tabs, ended by a newline.
pub open spec fn tab_line(cells: Seq<Seq<char>>) -> Seq<char> {
    join(cells, seq!['\t']) + seq!['\n']
}

/// The lines of table rows, one per row.
pub open spec fn lines_text(rows: Seq<Seq<Seq<char>>>) -> Seq<char>
    decreases rows.len(),
{
    if rows.len() == 0 {
        Seq::empty()
    } else {
        lines_text(rows.drop_last()) + tab_line(rows.last())
    }
}

/// The cell texts of table rows.
pub open spec fn row_texts(rows: Seq<Vec<String>>) -> Seq<Seq<Seq<char>>> {
    rows.map_values(|r: Vec<String>| texts(r@))
}

/// A header line and the row lines, before alignment.
pub open spec fn table_text(header: Seq<Seq<char>>, rows: Seq<Seq<Seq<char>>>) -> Seq<char> {
    tab_line(header) + lines_text(rows)
}

/// The texts of key-value pairs.
pub open spec fn pair_texts(pairs: Seq<(&str, String)>) -> Seq<(Seq<char>, Seq<char>)> {
    pairs.map_values(|p: (&str, String)| (p.0@, p.1@))
}

/// The key-value lines `key:<tab>value`, before alignment.
pub open spec fn kv_text(pairs: Seq<(Seq<char>, Seq<char>)>) -> Seq<char>
    decreases pairs.len(),
{
    if pairs.len() == 0 {
        Seq::empty()
    } else {
        kv_text(pairs.drop_last()) + pairs.last().0 + seq![':', '\t'] + pairs.last().1 + seq!['\n']
    }
}

/// Appends the cells of a line joined by tabs and a newline.
fn push_str_line(out: &mut String, cells: &[&str])
    ensures
        final(out)@ == old(out)@ + tab_line(str_texts(cells@)),
{
    let ghost start = out@;
    let mut i: usize = 0;
    while i < cells.len()
        invariant
            i <= cells.len(),
            out@ == start + join(str_texts(cells@.take(i as int)), seq!['\t']),
        decreases cells.len() - i,
    {
        if i > 0 {
            push_char(out, '\t');
        }
        out.append(cells[i]);
        proof {
            assert(str_texts(cells@.take(i + 1)).drop_last() =~= str_texts(cells@.take(i as int)));
            if i == 0 {
                assert(str_texts(cells@.take(1)) =~= seq![cells@[0]@]);
            }
        }
        i = i + 1;
    }
    push_char(out, '\n');
    proof {
        assert(cells@.take(cells@.len() as int) =~= cells@);
    }
}

/// Renders a table: a header line and one line per row, cells aligned in
/// columns two spaces apart.
pub fn table(header: &[&str], rows: &[Vec<String>]) -> (r: String)
    ensures
        r@ == tab_aligned(table_text(str_texts(header@), row_texts(rows@)), 2),
{
    let mut text = String::new();
    push_str_line(&mut text, header);
    let ghost head = text@;
    let mut i: usize = 0;
    while i < rows.len()
        invariant
            i <= rows.len(),
            text@ == head + lines_text(row_texts(rows@.take(i as int))),
        decreases rows.len() - i,
    {
        let line = join_strings(rows[i].as_slice(), "\t");
        text.append(line.as_str());
        push_char(&mut text, '\n');
        proof {
            reveal_strlit("\t");
            assert("\t"@ =~= seq!['\t']);
            assert(rows@.take(i + 1).drop_last() =~= rows@.take(i as int));
            assert(rows@.take(i + 1).last() == rows@[i as int]);
            assert(row_texts(rows@.take(i + 1)).drop_last() =~= row_texts(rows@.take(i as int)));
            assert(row_texts(rows@.take(i + 1)).last() == texts(rows@[i as int]@));
        }
        i = i + 1;
    }
    proof {
        assert(rows@.take(rows@.len() as int) =~= rows@);
        assert(text@ =~= table_text(str_texts(header@), row_texts(rows@)));
    }
    align_columns(text.as_str(), 2)
}

/// Renders `key: value` lines with the values aligned one space after the
/// longest key.
pub fn kv(pairs: &[(&str, String)]) -> (r: String)
    ensures
        r@ == tab_aligned(kv_text(pair_texts(pairs@)), 1),
{
    let mut text = String::new();
    let mut i: usize = 0;
    while i < pairs.len()
        invariant
            i <= pairs.len(),
            text@ == kv_text(pair_texts(pairs@.take(i as int))),
        decreases pairs.len() - i,
    {
        text.append(pairs[i].0);
        push_char(&mut text, ':');
        push_char(&mut text, '\t');
        text.append(pairs[i].1.as_str());
        push_char(&mut text, '\n');
        proof {
            assert(pair_texts(pairs@.take(i + 1)).drop_last() =~= pair_texts(pairs@.take(i as int)));
        }
        i = i + 1;
    }
    proof {
        assert(pairs@.take(pairs@.len() as int) =~= pairs@);
    }
    align_columns(text.as_str(), 1)
}

// ── Reading members ──────────────────────────────────────────────────────────

/// Member `key` as text, `-` when it is missing, null or not a string.
pub open spec fn sv_text(v: JsonValue, key: Seq<char>) -> Seq<char> {
    match str_member(v, key) {
        Some(s) => s,
        None => "-"@,
    }
}

/// `yes`/`no` for a boolean member, `-` otherwise.
pub open spec fn yes_no_text(v: JsonValue, key: Seq<char>) -> Seq<char> {
    match bool_member(v, key) {
        Some(b) => if b {
            "yes"@
        } else {
            "no"@
        },
        None => "-"@,
    }
}

/// Member `inner` of member `outer` as text, `-` when either is missing
/// or the inner one is not a string.
pub open spec fn nested_text(v: JsonValue, outer: Seq<char>, inner: Seq<char>) -> Seq<char> {
    match get_spec(v, outer) {
        Some(o) => sv_text(o, inner),
        None => "-"@,
    }
}

/// The string items of an array, others left out.
pub open spec fn string_items(items: Seq<JsonValue>) -> Seq<Seq<char>>
    decreases items.len(),
{
    if items.len() == 0 {
        Seq::empty()
    } else {
        match items.last() {
            JsonValue::String(s) => string_items(items.drop_last()).push(s@),
            _ => string_items(items.drop_last()),
        }
    }
}

/// The `platforms` member joined by `, `, `-` when it is not an array.
pub open spec fn platforms_text(v: JsonValue) -> Seq<char> {
    match get_spec(v, "platforms"@) {
        Some(JsonValue::Array(items)) => join(string_items(items@), ", "@),
        _ => "-"@,
    }
}

/// Member `key` as an integer, 0 when it is missing or not an `i64`.
pub open spec fn i64_or_zero(v: JsonValue, key: Seq<char>) -> int {
    match i64_member(v, key) {
        Some(i) => i,
        None => 0,
    }
}

/// `Page <current + 1>/<pages> (<total_count> total)` and a newline.
pub open spec fn page_footer_text(v: JsonValue) -> Seq<char> {
    "Page "@ + int_text(i64_or_zero(v, "current"@) + 1) + "/"@ + int_text(i64_or_zero(v, "pages"@))
        + " ("@ + int_text(i64_or_zero(v, "total_count"@)) + " total)\n"@
}

/// Extracts a string member, returning "-" for null or missing.
pub fn sv(v: &JsonValue, key: &str) -> (r: String)
    ensures
        r@ == sv_text(*v, key@),
{
    match v.get(key) {
        Some(m) => match m.as_str() {
            Some(s) => String::from_str(s),
            None => String::from_str("-"),
        },
        None => String::from_str("-"),
    }
}

/// `yes`, `no` or `-` for a boolean member.
pub fn yes_no(v: &JsonValue, key: &str) -> (r: &'static str)
    ensures
        r@ == yes_no_text(*v, key@),
{
    match v.get(key) {
        Some(m) => match m.as_bool() {
            Some(b) => if b {
                "yes"
            } else {
                "no"
            },
            None => "-",
        },
        None => "-",
    }
}

/// The `name` of member `key`, or `-`.
pub fn nested_name(v: &JsonValue, key: &str) -> (r: String)
    ensures
        r@ == nested_text(*v, key@, "name"@),
{
    match v.get(key) {
        Some(o) => sv(o, "name"),
        None => String::from_str("-"),
    }
}

/// The name of the `channel` member, or `-`.
pub fn channel_name(v: &JsonValue) -> (r: String)
    ensures
        r@ == nested_text(*v, "channel"@, "name"@),
{
    nested_name(v, "channel")
}

/// The `version` of the `latest_version` member, or `-`.
pub fn latest_version(v: &JsonValue) -> (r: String)
    ensures
        r@ == nested_text(*v, "latest_version"@, "version"@),
{
    match v.get("latest_version") {
        Some(o) => sv(o, "version"),
        None => String::from_str("-"),
    }
}

/// The string items of the `platforms` member joined by `, `, or `-`.
pub fn platforms_str(v: &JsonValue) -> (r: String)
    ensures
        r@ == platforms_text(*v),
{
    match v.get("platforms") {
        Some(p) => match p.as_array() {
            Some(items) => {
                let mut names: Vec<String> = Vec::new();
                let mut i: usize = 0;
                while i < items.len()
                    invariant
                        i <= items.len(),
                        texts(names@) == string_items(items@.take(i as int)),
                    decreases items.len() - i,
                {
                    proof {
                        assert(items@.take(i + 1).drop_last() =~= items@.take(i as int));
                        assert(items@.take(i + 1).last() == items@[i as int]);
                    }
                    match items[i].as_str() {
                        Some(s) => {
                            let ghost before = names@;
                            names.push(String::from_str(s));
                            proof {
                                assert(texts(names@) =~= texts(before).push(s@));
                            }
                        },
                        None => {},
                    }
                    i = i + 1;
                }
                proof {
                    assert(items@.take(items@.len() as int) =~= items@);
                }
                join_strings(names.as_slice(), ", ")
            },
            None => String::from_str("-"),
        },
        None => String::from_str("-"),
    }
}

/// Member `key` as an integer, 0 when missing or not an `i64`.
fn i64_or_zero_of(v: &JsonValue, key: &str) -> (r: i64)
    ensures
        r as int == i64_or_zero(*v, key@),
{
    match v.get(key) {
        Some(m) => match m.as_i64() {
            Some(i) => i,
            None => 0,
        },
        None => 0,
    }
}

/// The page line under a paged list.
pub fn page_footer(v: &JsonValue) -> (r: String)
    ensures
        r@ == page_footer_text(*v),
{
    let current = i64_or_zero_of(v, "current");
    let pages = i64_or_zero_of(v, "pages");
    let total = i64_or_zero_of(v, "total_count");
    let mut out = String::from_str("Page ");
    out.append(i128_to_string((current as i128) + 1).as_str());
    out.append("/");
    out.append(i64_to_string(pages).as_str());
    out.append(" (");
    out.append(i64_to_string(total).as_str());
    out.append(" total)\n");
    out
}

// ── Formatters ───────────────────────────────────────────────────────────────

/// The text of `format_user`.
pub open spec fn user_text(v: JsonValue) -> Seq<char> {
    if v is Null {
        "Not authenticated.\n"@
    } else {
        "Logged in as: "@ + sv_text(v, "login"@) + "\n"@
    }
}

/// Who is logged in, or that nobody is.
pub fn format_user(v: &JsonValue) -> (r: String)
    ensures
        r@ == user_text(*v),
{
    if v.is_null() {
        String::from_str("Not authenticated.\n")
    } else {
        let mut out = String::from_str("Logged in as: ");
        out.append(sv(v, "login").as_str());
        out.append("\n");
        out
    }
}

/// The header of the API key table.
pub open spec fn api_key_header() -> Seq<Seq<char>> {
    seq!["NAME"@, "DESCRIPTION"@, "CREATED"@, "EXPIRES"@, "LAST USED"@, "REVOKED"@, "ACCESS"@, "CHANNEL"@]
}

/// The table row of one API key.
pub open spec fn api_key_row(k: JsonValue) -> Seq<Seq<char>> {
    seq![
        sv_text(k, "name"@),
        truncated(sv_text(k, "description"@), 30),
        sv_text(k, "created_at"@),
        sv_text(k, "expires_at"@),
        sv_text(k, "last_used_at"@),
        sv_text(k, "revoked_at"@),
        sv_text(k, "access_mode"@),
        nested_text(k, "channel"@, "name"@),
    ]
}

/// The items of an array value, none for any other value.
pub open spec fn array_items(v: JsonValue) -> Seq<JsonValue> {
    match v {
        JsonValue::Array(items) => items@,
        _ => Seq::empty(),
    }
}

/// The text of `format_api_key_list`.
pub open spec fn api_key_list_text(v: JsonValue) -> Seq<char> {
    let keys = array_items(v);
    if keys.len() == 0 {
        "No API keys found.\n"@
    } else {
        tab_aligned(table_text(api_key_header(), keys.map_values(|k: JsonValue| api_key_row(k))), 2)
    }
}

/// A table of API keys, or a note that there are none.
pub fn format_api_key_list(v: &JsonValue) -> (r: String)
    ensures
        r@ == api_key_list_text(*v),
{
    let empty: Vec<JsonValue> = Vec::new();
    let keys = match v.as_array() {
        Some(a) => a,
        None => &empty,
    };
    if keys.len() == 0 {
        return String::from_str("No API keys found.\n");
    }
    let mut rows: Vec<Vec<String>> = Vec::new();
    let mut i: usize = 0;
    while i < keys.len()
        invariant
            i <= keys.len(),
            keys@ == array_items(*v),
            row_texts(rows@) == keys@.take(i as int).map_values(|k: JsonValue| api_key_row(k)),
        decreases keys.len() - i,
    {
        let k = &keys[i];
        let row = vec![
            sv(k, "name"),
            truncate(sv(k, "description").as_str(), 30),
            sv(k, "created_at"),
            sv(k, "expires_at"),
            sv(k, "last_used_at"),
            sv(k, "revoked_at"),
            sv(k, "access_mode"),
            nested_name(k, "channel"),
        ];
        proof {
            assert(texts(row@) =~= api_key_row(*k));
        }
        let ghost before = rows@;
        rows.push(row);
        proof {
            assert(row_texts(rows@) =~= row_texts(before).push(texts(row@)));
            assert(keys@.take(i + 1).map_values(|x: JsonValue| api_key_row(x))
                =~= keys@.take(i as int).map_values(|x: JsonValue| api_key_row(x)).push(api_key_row(keys@[i as int])));
        }
        i = i + 1;
    }
    proof {
        assert(keys@.take(keys@.len() as int) =~= keys@);
    }
    let header = ["NAME", "DESCRIPTION", "CREATED", "EXPIRES", "LAST USED", "REVOKED", "ACCESS", "CHANNEL"];
    let out = table(&header, rows.as_slice());
    proof {
        assert(str_texts(header@) =~= api_key_header());
    }
    out
}

/// The key-value pairs of `format_api_key`.
pub open spec fn api_key_pairs(v: JsonValue) -> Seq<(Seq<char>, Seq<char>)> {
    seq![
        ("Name"@, sv_text(v, "name"@)),
        ("Description"@, sv_text(v, "description"@)),
        ("Created"@, sv_text(v, "created_at"@)),
        ("Expires"@, sv_text(v, "expires_at"@)),
        ("Access"@, sv_text(v, "access_mode"@)),
        ("Channel"@, nested_text(v, "channel"@, "name"@)),
    ]
}

/// The text of `format_api_key`: the key's fields and, when the secret
/// key is present, the key itself with a note to save it.
pub open spec fn api_key_text(v: JsonValue) -> Seq<char> {
    tab_aligned(kv_text(api_key_pairs(v)), 1) + match str_member(v, "key"@) {
        Some(key) => "\nAPI Key: "@ + key + "\n"@ + "(save this now — it won't be shown again)\n"@,
        None => Seq::empty(),
    }
}

/// The fields of one API key, and the secret key when it was just created.
pub fn format_api_key(v: &JsonValue) -> (r: String)
    ensures
        r@ == api_key_text(*v),
{
    let pairs = [
        ("Name", sv(v, "name")),
        ("Description", sv(v, "description")),
        ("Created", sv(v, "created_at")),
        ("Expires", sv(v, "expires_at")),
        ("Access", sv(v, "access_mode")),
        ("Channel", nested_name(v, "channel")),
    ];
    proof {
        assert(pair_texts(pairs@) =~= api_key_pairs(*v));
    }
    let mut out = kv(&pairs);
    match v.get("key") {
        Some(k) => match k.as_str() {
            Some(key) => {
                out.append("\nAPI Key: ");
                out.append(key);
                out.append("\n");
                out.append("(save this now — it won't be shown again)\n");
            },
            None => {},
        },
        None => {},
    }
    proof {
        assert(out@ =~= api_key_text(*v));
    }
    out
}

/// The header of the notice table.
pub open spec fn notice_header() -> Seq<Seq<char>> {
    seq!["NOTICE"@, "LEVEL"@, "MESSAGE"@, "EXPIRES"@]
}

/// The table row of one channel notice.
pub open spec fn notice_row(n: JsonValue) -> Seq<Seq<char>> {
    seq![sv_text(n, "id"@), sv_text(n, "level"@), sv_text(n, "message"@), sv_text(n, "expires_at"@)]
}

/// The header of the member table.
pub open spec fn member_header() -> Seq<Seq<char>> {
    seq!["MEMBER"@, "ROLE"@, "OWNER"@]
}

/// The table row of one channel member.
pub open spec fn member_row(m: JsonValue) -> Seq<Seq<char>> {
    seq![sv_text(m, "username"@), sv_text(m, "role"@), yes_no_text(m, "is_owner"@)]
}

/// The header of the OIDC publisher table.
pub open spec fn publisher_header() -> Seq<Seq<char>> {
    seq!["TYPE"@, "ID"@, "DETAILS"@]
}

/// The table row of one OIDC publisher: its kind, id and what it is bound to.
pub open spec fn publisher_row_text(p: JsonValue) -> Seq<Seq<char>> {
    match get_spec(p, "GithubPublisher"@) {
        Some(gh) => seq![
            "GitHub"@,
            sv_text(gh, "id"@),
            sv_text(gh, "repository_owner"@) + "/"@ + sv_text(gh, "repository_name"@) + " ("@
                + sv_text(gh, "workflow_filename"@) + ")"@,
        ],
        None => match get_spec(p, "GitlabPublisher"@) {
            Some(gl) => seq![
                "GitLab"@,
                sv_text(gl, "id"@),
                sv_text(gl, "namespace"@) + "/"@ + sv_text(gl, "project"@) + " ("@
                    + sv_text(gl, "workflow_filepath"@) + ")"@,
            ],
            None => match get_spec(p, "GooglePublisher"@) {
                Some(g) => seq!["Google"@, sv_text(g, "id"@), sv_text(g, "email"@)],
                None => seq!["Unknown"@, "-"@, "-"@],
            },
        },
    }
}

/// `owner/name (workflow)` of a publisher's three members.
fn slash_paren(v: &JsonValue, a: &str, b: &str, c: &str) -> (r: String)
    ensures
        r@ == sv_text(*v, a@) + "/"@ + sv_text(*v, b@) + " ("@ + sv_text(*v, c@) + ")"@,
{
    let mut out = sv(v, a);
    out.append("/");
    out.append(sv(v, b).as_str());
    out.append(" (");
    out.append(sv(v, c).as_str());
    out.append(")");
    out
}

/// The table row of one OIDC publisher.
pub fn format_publisher_row(p: &JsonValue) -> (r: Vec<String>)
    ensures
        texts(r@) == publisher_row_text(*p),
{
    let row = match p.get("GithubPublisher") {
        Some(gh) => vec![
            String::from_str("GitHub"),
            sv(gh, "id"),
            slash_paren(gh, "repository_owner", "repository_name", "workflow_filename"),
        ],
        None => match p.get("GitlabPublisher") {
            Some(gl) => vec![
                String::from_str("GitLab"),
                sv(gl, "id"),
                slash_paren(gl, "namespace", "project", "workflow_filepath"),
            ],
            None => match p.get("GooglePublisher") {
                Some(g) => vec![String::from_str("Google"), sv(g, "id"), sv(g, "email")],
                None => vec![String::from_str("Unknown"), String::from_str("-"), String::from_str("-")],
            },
        },
    };
    proof {
        assert(texts(row@) =~= publisher_row_text(*p));
    }
    row
}

/// The rows of a notice list.
fn notice_rows(items: &Vec<JsonValue>) -> (rows: Vec<Vec<String>>)
    ensures
        row_texts(rows@) == items@.map_values(|x: JsonValue| notice_row(x)),
{
    let mut rows: Vec<Vec<String>> = Vec::new();
    let mut i: usize = 0;
    while i < items.len()
        invariant
            i <= items.len(),
            row_texts(rows@) == items@.take(i as int).map_values(|x: JsonValue| notice_row(x)),
        decreases items.len() - i,
    {
        let n = &items[i];
        let row = vec![sv(n, "id"), sv(n, "level"), sv(n, "message"), sv(n, "expires_at")];
        proof {
            assert(texts(row@) =~= notice_row(*n));
        }
        let ghost before = rows@;
        rows.push(row);
        proof {
            assert(row_texts(rows@) =~= row_texts(before).push(texts(row@)));
            assert(items@.take(i + 1).map_values(|x: JsonValue| notice_row(x))
                =~= items@.take(i as int).map_values(|x: JsonValue| notice_row(x)).push(notice_row(items@[i as int])));
        }
        i = i + 1;
    }
    proof {
        assert(items@.take(items@.len() as int) =~= items@);
    }
    rows
}

/// The rows of a member list.
fn member_rows(items: &Vec<JsonValue>) -> (rows: Vec<Vec<String>>)
    ensures
        row_texts(rows@) == items@.map_values(|x: JsonValue| member_row(x)),
{
    let mut rows: Vec<Vec<String>> = Vec::new();
    let mut i: usize = 0;
    while i < items.len()
        invariant
            i <= items.len(),
            row_texts(rows@) == items@.take(i as int).map_values(|x: JsonValue| member_row(x)),
        decreases items.len() - i,
    {
        let m = &items[i];
        let row = vec![sv(m, "username"), sv(m, "role"), String::from_str(yes_no(m, "is_owner"))];
        proof {
            assert(texts(row@) =~= member_row(*m));
        }
        let ghost before = rows@;
        rows.push(row);
        proof {
            assert(row_texts(rows@) =~= row_texts(before).push(texts(row@)));
            assert(items@.take(i + 1).map_values(|x: JsonValue| member_row(x))
                =~= items@.take(i as int).map_values(|x: JsonValue| member_row(x)).push(member_row(items@[i as int])));
        }
        i = i + 1;
    }
    proof {
        assert(items@.take(items@.len() as int) =~= items@);
    }
    rows
}

/// The rows of a publisher list.
fn publisher_rows(items: &Vec<JsonValue>) -> (rows: Vec<Vec<String>>)
    ensures
        row_texts(rows@) == items@.map_values(|x: JsonValue| publisher_row_text(x)),
{
    let mut rows: Vec<Vec<String>> = Vec::new();
    let mut i: usize = 0;
    while i < items.len()
        invariant
            i <= items.len(),
            row_texts(rows@) == items@.take(i as int).map_values(|x: JsonValue| publisher_row_text(x)),
        decreases items.len() - i,
    {
        let row = format_publisher_row(&items[i]);
        let ghost before = rows@;
        rows.push(row);
        proof {
            assert(row_texts(rows@) =~= row_texts(before).push(texts(row@)));
            assert(items@.take(i + 1).map_values(|x: JsonValue| publisher_row_text(x))
                =~= items@.take(i as int).map_values(|x: JsonValue| publisher_row_text(x)).push(publisher_row_text(items@[i as int])));
        }
        i = i + 1;
    }
    proof {
        assert(items@.take(items@.len() as int) =~= items@);
    }
    rows
}

/// The key-value pairs at the top of `format_channel_detail`.
pub open spec fn channel_detail_pairs(v: JsonValue) -> Seq<(Seq<char>, Seq<char>)> {
    seq![
        ("Name"@, sv_text(v, "name"@)),
        ("Owner"@, nested_text(v, "owner"@, "name"@)),
        ("Namespace"@, nested_text(v, "namespace"@, "name"@)),
        ("Public"@, yes_no_text(v, "is_public"@)),
        ("Description"@, sv_text(v, "description"@)),
        ("Base URL"@, sv_text(v, "base_url"@)),
        ("Created"@, sv_text(v, "created_at"@)),
        ("Updated"@, sv_text(v, "updated_at"@)),
    ]
}

/// A blank line and a table of the items of member `key` of `v`, drawn
/// with `header` and `row`; nothing when the member is no array or empty.
pub open spec fn list_section(
    v: JsonValue,
    key: Seq<char>,
    header: Seq<Seq<char>>,
    row: spec_fn(JsonValue) -> Seq<Seq<char>>,
) -> Seq<char> {
    match get_spec(v, key) {
        Some(JsonValue::Array(items)) => if items@.len() > 0 {
            "\n"@ + tab_aligned(table_text(header, items@.map_values(row)), 2)
        } else {
            Seq::empty()
        },
        _ => Seq::empty(),
    }
}

/// The mirror line of a channel; nothing when there is no mirror.
pub open spec fn mirror_section(v: JsonValue) -> Seq<char> {
    match get_spec(v, "mirror"@) {
        Some(m) => if m is Null {
            Seq::empty()
        } else {
            "Mirror:   "@ + sv_text(m, "url"@) + "\n"@
        },
        None => Seq::empty(),
    }
}

/// The text of `format_channel_detail`.
pub open spec fn channel_detail_text(v: JsonValue) -> Seq<char> {
    if v is Null {
        "Channel not found.\n"@
    } else {
        tab_aligned(kv_text(channel_detail_pairs(v)), 1)
            + list_section(v, "notices"@, notice_header(), |x: JsonValue| notice_row(x))
            + mirror_section(v)
            + list_section(v, "channel_members"@, member_header(), |x: JsonValue| member_row(x))
            + list_section(v, "oidc_publishers"@, publisher_header(), |x: JsonValue| publisher_row_text(x))
    }
}

/// Details of one channel: its fields, then its notices, mirror, members
/// and OIDC publishers where it has them.
pub fn format_channel_detail(v: &JsonValue) -> (r: String)
    ensures
        r@ == channel_detail_text(*v),
{
    if v.is_null() {
        return String::from_str("Channel not found.\n");
    }
    let pairs = [
        ("Name", sv(v, "name")),
        ("Owner", nested_name(v, "owner")),
        ("Namespace", nested_name(v, "namespace")),
        ("Public", String::from_str(yes_no(v, "is_public"))),
        ("Description", sv(v, "description")),
        ("Base URL", sv(v, "base_url")),
        ("Created", sv(v, "created_at")),
        ("Updated", sv(v, "updated_at")),
    ];
    proof {
        assert(pair_texts(pairs@) =~= channel_detail_pairs(*v));
    }
    let mut out = kv(&pairs);
    let ghost s1 = out@;
    match v.get("notices") {
        Some(n) => match n.as_array() {
            Some(items) => if items.len() > 0 {
                out.append("\n");
                let rows = notice_rows(items);
                let header = ["NOTICE", "LEVEL", "MESSAGE", "EXPIRES"];
                proof {
                    assert(str_texts(header@) =~= notice_header());
                }
                out.append(table(&header, rows.as_slice()).as_str());
            },
            None => {},
        },
        None => {},
    }
    proof {
        assert(out@ =~= s1 + list_section(*v, "notices"@, notice_header(), |x: JsonValue| notice_row(x)));
    }
    let ghost s2 = out@;
    match v.get("mirror") {
        Some(m) => if !m.is_null() {
            out.append("Mirror:   ");
            out.append(sv(m, "url").as_str());
            out.append("\n");
        },
        None => {},
    }
    proof {
        assert(out@ =~= s2 + mirror_section(*v));
    }
    let ghost s3 = out@;
    match v.get("channel_members") {
        Some(n) => match n.as_array() {
            Some(items) => if items.len() > 0 {
                out.append("\n");
                let rows = member_rows(items);
                let header = ["MEMBER", "ROLE", "OWNER"];
                proof {
                    assert(str_texts(header@) =~= member_header());
                }
                out.append(table(&header, rows.as_slice()).as_str());
            },
            None => {},
        },
        None => {},
    }
    proof {
        assert(out@ =~= s3 + list_section(*v, "channel_members"@, member_header(), |x: JsonValue| member_row(x)));
    }
    let ghost s4 = out@;
    match v.get("oidc_publishers") {
        Some(n) => match n.as_array() {
            Some(items) => if items.len() > 0 {
                out.append("\n");
                let rows = publisher_rows(items);
                let header = ["TYPE", "ID", "DETAILS"];
                proof {
                    assert(str_texts(header@) =~= publisher_header());
                }
                out.append(table(&header, rows.as_slice()).as_str());
            },
            None => {},
        },
        None => {},
    }
    proof {
        assert(out@ =~= s4 + list_section(*v, "oidc_publishers"@, publisher_header(), |x: JsonValue| publisher_row_text(x)));
        assert(out@ =~= channel_detail_text(*v));
    }
    out
}

/// The header of the channel table.
pub open spec fn channel_header() -> Seq<Seq<char>> {
    seq!["NAME"@, "OWNER"@, "PUBLIC"@, "DESCRIPTION"@]
}

/// The table row of one channel in a list.
pub open spec fn channel_row(c: JsonValue) -> Seq<Seq<char>> {
    seq![
        sv_text(c, "name"@),
        nested_text(c, "owner"@, "name"@),
        yes_no_text(c, "is_public"@),
        truncated(sv_text(c, "description"@), 40),
    ]
}

/// The items of member `page`, none when it is no array.
pub open spec fn page_items(v: JsonValue) -> Seq<JsonValue> {
    match get_spec(v, "page"@) {
        Some(p) => array_items(p),
        None => Seq::empty(),
    }
}

/// The text of `format_channel_list`.
pub open spec fn channel_list_text(v: JsonValue) -> Seq<char> {
    let items = page_items(v);
    if items.len() == 0 {
        "No channels found.\n"@
    } else {
        tab_aligned(table_text(channel_header(), items.map_values(|x: JsonValue| channel_row(x))), 2)
            + page_footer_text(v)
    }
}

/// A table of channels with the page line, or a note that there are none.
pub fn format_channel_list(v: &JsonValue) -> (r: String)
    ensures
        r@ == channel_list_text(*v),
{
    let empty: Vec<JsonValue> = Vec::new();
    let items: &Vec<JsonValue> = match v.get("page") {
        Some(p) => match p.as_array() {
            Some(a) => a,
            None => &empty,
        },
        None => &empty,
    };
    let ghost its = page_items(*v);
    if items.len() == 0 {
        return String::from_str("No channels found.\n");
    }
    let mut rows: Vec<Vec<String>> = Vec::new();
    let mut i: usize = 0;
    while i < items.len()
        invariant
            i <= items.len(),
            items@ == its,
            row_texts(rows@) == its.take(i as int).map_values(|x: JsonValue| channel_row(x)),
        decreases items.len() - i,
    {
        let c = &items[i];
        let row = vec![
            sv(c, "name"),
            nested_name(c, "owner"),
            String::from_str(yes_no(c, "is_public")),
            truncate(sv(c, "description").as_str(), 40),
        ];
        proof {
            assert(its[i as int] == *c);
            assert(texts(row@) =~= channel_row(*c));
        }
        let ghost before = rows@;
        rows.push(row);
        proof {
            assert(row_texts(rows@) =~= row_texts(before).push(texts(row@)));
            assert(its.take(i + 1).map_values(|x: JsonValue| channel_row(x))
                =~= its.take(i as int).map_values(|x: JsonValue| channel_row(x)).push(channel_row(its[i as int])));
        }
        i = i + 1;
    }
    proof {
        assert(its.take(its.len() as int) =~= its);
    }
    let header = ["NAME", "OWNER", "PUBLIC", "DESCRIPTION"];
    proof {
        assert(str_texts(header@) =~= channel_header());
    }
    let mut out = table(&header, rows.as_slice());
    out.append(page_footer(v).as_str());
    out
}

/// The text of `format_channel_result`.
pub open spec fn channel_result_text(v: JsonValue, action: Seq<char>) -> Seq<char> {
    "Channel '"@ + sv_text(v, "name"@) + "' "@ + action + ".\n"@
}

/// `Channel '<name>' <action>.`
pub fn format_channel_result(v: &JsonValue, action: &str) -> (r: String)
    ensures
        r@ == channel_result_text(*v, action@),
{
    let mut out = String::from_str("Channel '");
    out.append(sv(v, "name").as_str());
    out.append("' ");
    out.append(action);
    out.append(".\n");
    out
}

/// The text of `format_channel_member`.
pub open spec fn channel_member_text(v: JsonValue, action: Seq<char>) -> Seq<char> {
    "Member '"@ + sv_text(v, "username"@) + "' "@ + action + " channel '"@
        + nested_text(v, "channel"@, "name"@) + "' (role: "@ + sv_text(v, "role"@) + ").\n"@
}

/// `Member '<user>' <action> channel '<channel>' (role: <role>).`
pub fn format_channel_member(v: &JsonValue, action: &str) -> (r: String)
    ensures
        r@ == channel_member_text(*v, action@),
{
    let mut out = String::from_str("Member '");
    out.append(sv(v, "username").as_str());
    out.append("' ");
    out.append(action);
    out.append(" channel '");
    out.append(nested_name(v, "channel").as_str());
    out.append("' (role: ");
    out.append(sv(v, "role").as_str());
    out.append(").\n");
    out
}

/// The key-value pairs of `format_channel_notice`.
pub open spec fn channel_notice_pairs(v: JsonValue) -> Seq<(Seq<char>, Seq<char>)> {
    seq![
        ("ID"@, sv_text(v, "id"@)),
        ("Level"@, sv_text(v, "level"@)),
        ("Message"@, sv_text(v, "message"@)),
        ("Created"@, sv_text(v, "created_at"@)),
        ("Expires"@, sv_text(v, "expires_at"@)),
    ]
}

/// The fields of a channel notice.
pub fn format_channel_notice(v: &JsonValue) -> (r: String)
    ensures
        r@ == tab_aligned(kv_text(channel_notice_pairs(*v)), 1),
{
    let pairs = [
        ("ID", sv(v, "id")),
        ("Level", sv(v, "level")),
        ("Message", sv(v, "message")),
        ("Created", sv(v, "created_at")),
        ("Expires", sv(v, "expires_at")),
    ];
    proof {
        assert(pair_texts(pairs@) =~= channel_notice_pairs(*v));
    }
    kv(&pairs)
}

/// The key-value pairs of `format_github_publisher`.
pub open spec fn github_publisher_pairs(v: JsonValue) -> Seq<(Seq<char>, Seq<char>)> {
    seq![
        ("Type"@, "GitHub"@),
        ("ID"@, sv_text(v, "id"@)),
        ("Owner"@, sv_text(v, "repository_owner"@)),
        ("Repo"@, sv_text(v, "repository_name"@)),
        ("Workflow"@, sv_text(v, "workflow_filename"@)),
        ("Environment"@, sv_text(v, "environment"@)),
        ("Access"@, sv_text(v, "access_mode"@)),
        ("Created"@, sv_text(v, "created_at"@)),
    ]
}

/// The fields of a GitHub OIDC publisher.
pub fn format_github_publisher(v: &JsonValue) -> (r: String)
    ensures
        r@ == tab_aligned(kv_text(github_publisher_pairs(*v)), 1),
{
    let pairs = [
        ("Type", String::from_str("GitHub")),
        ("ID", sv(v, "id")),
        ("Owner", sv(v, "repository_owner")),
        ("Repo", sv(v, "repository_name")),
        ("Workflow", sv(v, "workflow_filename")),
        ("Environment", sv(v, "environment")),
        ("Access", sv(v, "access_mode")),
        ("Created", sv(v, "created_at")),
    ];
    proof {
        assert(pair_texts(pairs@) =~= github_publisher_pairs(*v));
    }
    kv(&pairs)
}

/// The key-value pairs of `format_gitlab_publisher`.
pub open spec fn gitlab_publisher_pairs(v: JsonValue) -> Seq<(Seq<char>, Seq<char>)> {
    seq![
        ("Type"@, "GitLab"@),
        ("ID"@, sv_text(v, "id"@)),
        ("Namespace"@, sv_text(v, "namespace"@)),
        ("Project"@, sv_text(v, "project"@)),
        ("Workflow"@, sv_text(v, "workflow_filepath"@)),
        ("Environment"@, sv_text(v, "environment"@)),
        ("Access"@, sv_text(v, "access_mode"@)),
        ("Created"@, sv_text(v, "created_at"@)),
    ]
}

/// The fields of a GitLab OIDC publisher.
pub fn format_gitlab_publisher(v: &JsonValue) -> (r: String)
    ensures
        r@ == tab_aligned(kv_text(gitlab_publisher_pairs(*v)), 1),
{
    let pairs = [
        ("Type", String::from_str("GitLab")),
        ("ID", sv(v, "id")),
        ("Namespace", sv(v, "namespace")),
        ("Project", sv(v, "project")),
        ("Workflow", sv(v, "workflow_filepath")),
        ("Environment", sv(v, "environment")),
        ("Access", sv(v, "access_mode")),
        ("Created", sv(v, "created_at")),
    ];
    proof {
        assert(pair_texts(pairs@) =~= gitlab_publisher_pairs(*v));
    }
    kv(&pairs)
}

/// The key-value pairs of `format_google_publisher`.
pub open spec fn google_publisher_pairs(v: JsonValue) -> Seq<(Seq<char>, Seq<char>)> {
    seq![
        ("Type"@, "Google"@),
        ("ID"@, sv_text(v, "id"@)),
        ("Email"@, sv_text(v, "email"@)),
        ("Subject"@, sv_text(v, "sub"@)),
        ("Access"@, sv_text(v, "access_mode"@)),
        ("Created"@, sv_text(v, "created_at"@)),
    ]
}

/// The fields of a Google OIDC publisher.
pub fn format_google_publisher(v: &JsonValue) -> (r: String)
    ensures
        r@ == tab_aligned(kv_text(google_publisher_pairs(*v)), 1),
{
    let pairs = [
        ("Type", String::from_str("Google")),
        ("ID", sv(v, "id")),
        ("Email", sv(v, "email")),
        ("Subject", sv(v, "sub")),
        ("Access", sv(v, "access_mode")),
        ("Created", sv(v, "created_at")),
    ];
    proof {
        assert(pair_texts(pairs@) =~= google_publisher_pairs(*v));
    }
    kv(&pairs)
}

/// `OIDC publisher '<id>' deleted.`
pub fn format_oidc_deleted(v: &JsonValue) -> (r: String)
    ensures
        r@ == "OIDC publisher '"@ + sv_text(*v, "id"@) + "' deleted.\n"@,
{
    let mut out = String::from_str("OIDC publisher '");
    out.append(sv(v, "id").as_str());
    out.append("' deleted.\n");
    out
}

/// The key-value pairs of `format_background_job`.
pub open spec fn background_job_pairs(v: JsonValue) -> Seq<(Seq<char>, Seq<char>)> {
    seq![
        ("ID"@, sv_text(v, "id"@)),
        ("Type"@, sv_text(v, "job_type"@)),
        ("Status"@, sv_text(v, "status"@)),
        ("Progress"@, int_text(i64_or_zero(v, "processed_count"@)) + "/"@
            + int_text(i64_or_zero(v, "total_count"@)) + " ("@
            + int_text(i64_or_zero(v, "failed_count"@)) + " failed)"@),
        ("Created"@, sv_text(v, "created_at"@)),
        ("Completed"@, sv_text(v, "completed_at"@)),
        ("Error"@, sv_text(v, "error_message"@)),
    ]
}

/// The text of `format_background_job`.
pub open spec fn background_job_text(v: JsonValue) -> Seq<char> {
    if v is Null {
        "Background job not found.\n"@
    } else {
        tab_aligned(kv_text(background_job_pairs(v)), 1) + match get_spec(v, "results"@) {
            Some(res) => if res is Null {
                Seq::empty()
            } else {
                "\nResults:\n"@ + pretty(res, 0) + "\n"@
            },
            None => Seq::empty(),
        }
    }
}

/// The state of a background job and, once there are any, its results as
/// pretty JSON.
pub fn format_background_job(v: &JsonValue) -> (r: String)
    ensures
        r@ == background_job_text(*v),
{
    if v.is_null() {
        return String::from_str("Background job not found.\n");
    }
    let mut progress = i64_to_string(i64_or_zero_of(v, "processed_count"));
    progress.append("/");
    progress.append(i64_to_string(i64_or_zero_of(v, "total_count")).as_str());
    progress.append(" (");
    progress.append(i64_to_string(i64_or_zero_of(v, "failed_count")).as_str());
    progress.append(" failed)");
    let pairs = [
        ("ID", sv(v, "id")),
        ("Type", sv(v, "job_type")),
        ("Status", sv(v, "status")),
        ("Progress", progress),
        ("Created", sv(v, "created_at")),
        ("Completed", sv(v, "completed_at")),
        ("Error", sv(v, "error_message")),
    ];
    proof {
        assert(pair_texts(pairs@) =~= background_job_pairs(*v));
    }
    let mut out = kv(&pairs);
    match v.get("results") {
        Some(res) => if !res.is_null() {
            out.append("\nResults:\n");
            out.append(to_json_string_pretty(res).as_str());
            out.append("\n");
        },
        None => {},
    }
    proof {
        assert(out@ =~= background_job_text(*v));
    }
    out
}

/// The key-value pairs shared by package details and package info.
pub open spec fn package_pairs(v: JsonValue) -> Seq<(Seq<char>, Seq<char>)> {
    seq![
        ("Name"@, sv_text(v, "name"@)),
        ("Channel"@, nested_text(v, "channel"@, "name"@)),
        ("Summary"@, sv_text(v, "summary"@)),
        ("Version"@, nested_text(v, "latest_version"@, "version"@)),
        ("Platforms"@, platforms_text(v)),
        ("Verified"@, yes_no_text(v, "latest_version_verified"@)),
        ("Updated"@, sv_text(v, "last_created_date"@)),
    ]
}

/// The key-value block shared by package details and package info.
fn package_kv(v: &JsonValue) -> (r: String)
    ensures
        r@ == tab_aligned(kv_text(package_pairs(*v)), 1),
{
    let pairs = [
        ("Name", sv(v, "name")),
        ("Channel", channel_name(v)),
        ("Summary", sv(v, "summary")),
        ("Version", latest_version(v)),
        ("Platforms", platforms_str(v)),
        ("Verified", String::from_str(yes_no(v, "latest_version_verified"))),
        ("Updated", sv(v, "last_created_date")),
    ];
    proof {
        assert(pair_texts(pairs@) =~= package_pairs(*v));
    }
    kv(&pairs)
}

/// The size of a variant, `-` when it has none.
pub open spec fn size_cell(v: JsonValue) -> Seq<char> {
    match i64_member(v, "size"@) {
        Some(n) => size_text(n),
        None => "-"@,
    }
}

/// The size of a variant, or `-`.
fn size_of(v: &JsonValue) -> (r: String)
    ensures
        r@ == size_cell(*v),
{
    match v.get("size") {
        Some(n) => match n.as_i64() {
            Some(b) => format_size(b),
            None => String::from_str("-"),
        },
        None => String::from_str("-"),
    }
}

/// The header of the variant table.
pub open spec fn variant_header() -> Seq<Seq<char>> {
    seq!["FILENAME"@, "VERSION"@, "BUILD"@, "PLATFORM"@, "SIZE"@]
}

/// The table row of one variant.
pub open spec fn variant_row(x: JsonValue) -> Seq<Seq<char>> {
    seq![
        sv_text(x, "filename"@),
        sv_text(x, "version"@),
        sv_text(x, "build_string"@),
        sv_text(x, "platform"@),
        size_cell(x),
    ]
}

/// The variant table under package details, with its page line; nothing
/// when there are no variants.
pub open spec fn variants_section(v: JsonValue) -> Seq<char> {
    match get_spec(v, "variants"@) {
        Some(vars) => {
            let items = page_items(vars);
            if items.len() > 0 && get_spec(vars, "page"@) matches Some(JsonValue::Array(_)) {
                "\n"@ + tab_aligned(table_text(variant_header(), items.map_values(|x: JsonValue| variant_row(x))), 2)
                    + page_footer_text(vars)
            } else {
                Seq::empty()
            }
        },
        None => Seq::empty(),
    }
}

/// The text of `format_package_detail`.
pub open spec fn package_detail_text(v: JsonValue) -> Seq<char> {
    if v is Null {
        "Package not found.\n"@
    } else {
        tab_aligned(kv_text(package_pairs(v)), 1) + variants_section(v)
    }
}

/// The rows of a variant list.
fn variant_rows(items: &Vec<JsonValue>) -> (rows: Vec<Vec<String>>)
    ensures
        row_texts(rows@) == items@.map_values(|x: JsonValue| variant_row(x)),
{
    let mut rows: Vec<Vec<String>> = Vec::new();
    let mut i: usize = 0;
    while i < items.len()
        invariant
            i <= items.len(),
            row_texts(rows@) == items@.take(i as int).map_values(|x: JsonValue| variant_row(x)),
        decreases items.len() - i,
    {
        let x = &items[i];
        let row = vec![sv(x, "filename"), sv(x, "version"), sv(x, "build_string"), sv(x, "platform"), size_of(x)];
        proof {
            assert(texts(row@) =~= variant_row(*x));
        }
        let ghost before = rows@;
        rows.push(row);
        proof {
            assert(row_texts(rows@) =~= row_texts(before).push(texts(row@)));
            assert(items@.take(i + 1).map_values(|y: JsonValue| variant_row(y))
                =~= items@.take(i as int).map_values(|y: JsonValue| variant_row(y)).push(variant_row(items@[i as int])));
        }
        i = i + 1;
    }
    proof {
        assert(items@.take(items@.len() as int) =~= items@);
    }
    rows
}

/// Details of one package: its fields and a page of its variants.
pub fn format_package_detail(v: &JsonValue) -> (r: String)
    ensures
        r@ == package_detail_text(*v),
{
    if v.is_null() {
        return String::from_str("Package not found.\n");
    }
    let mut out = package_kv(v);
    match v.get("variants") {
        Some(vars) => match vars.get("page") {
            Some(p) => match p.as_array() {
                Some(items) => if items.len() > 0 {
                    out.append("\n");
                    let rows = variant_rows(items);
                    let header = ["FILENAME", "VERSION", "BUILD", "PLATFORM", "SIZE"];
                    proof {
                        assert(str_texts(header@) =~= variant_header());
                    }
                    out.append(table(&header, rows.as_slice()).as_str());
                    out.append(page_footer(vars).as_str());
                },
                None => {},
            },
            None => {},
        },
        None => {},
    }
    proof {
        assert(out@ =~= package_detail_text(*v));
    }
    out
}

/// The header of the package table.
pub open spec fn package_header() -> Seq<Seq<char>> {
    seq!["NAME"@, "CHANNEL"@, "VERSION"@, "PLATFORMS"@, "SUMMARY"@]
}

/// The table row of one package in a list.
pub open spec fn package_row(x: JsonValue) -> Seq<Seq<char>> {
    seq![
        sv_text(x, "name"@),
        nested_text(x, "channel"@, "name"@),
        nested_text(x, "latest_version"@, "version"@),
        truncated(platforms_text(x), 30),
        truncated(sv_text(x, "summary"@), 40),
    ]
}

/// The text of `format_package_list`.
pub open spec fn package_list_text(v: JsonValue) -> Seq<char> {
    let items = page_items(v);
    if items.len() == 0 {
        "No packages found.\n"@
    } else {
        tab_aligned(table_text(package_header(), items.map_values(|x: JsonValue| package_row(x))), 2)
            + page_footer_text(v)
    }
}

/// A table of packages with the page line, or a note that there are none.
pub fn format_package_list(v: &JsonValue) -> (r: String)
    ensures
        r@ == package_list_text(*v),
{
    let empty: Vec<JsonValue> = Vec::new();
    let items: &Vec<JsonValue> = match v.get("page") {
        Some(p) => match p.as_array() {
            Some(a) => a,
            None => &empty,
        },
        None => &empty,
    };
    let ghost its = page_items(*v);
    if items.len() == 0 {
        return String::from_str("No packages found.\n");
    }
    let mut rows: Vec<Vec<String>> = Vec::new();
    let mut i: usize = 0;
    while i < items.len()
        invariant
            i <= items.len(),
            items@ == its,
            row_texts(rows@) == its.take(i as int).map_values(|x: JsonValue| package_row(x)),
        decreases items.len() - i,
    {
        let x = &items[i];
        let row = vec![
            sv(x, "name"),
            channel_name(x),
            latest_version(x),
            truncate(platforms_str(x).as_str(), 30),
            truncate(sv(x, "summary").as_str(), 40),
        ];
        proof {
            assert(texts(row@) =~= package_row(*x));
        }
        let ghost before = rows@;
        rows.push(row);
        proof {
            assert(row_texts(rows@) =~= row_texts(before).push(texts(row@)));
            assert(its.take(i + 1).map_values(|y: JsonValue| package_row(y))
                =~= its.take(i as int).map_values(|y: JsonValue| package_row(y)).push(package_row(its[i as int])));
        }
        i = i + 1;
    }
    proof {
        assert(its.take(its.len() as int) =~= its);
    }
    let header = ["NAME", "CHANNEL", "VERSION", "PLATFORMS", "SUMMARY"];
    proof {
        assert(str_texts(header@) =~= package_header());
    }
    let mut out = table(&header, rows.as_slice());
    out.append(page_footer(v).as_str());
    out
}

/// The text of `format_package_info`.
pub open spec fn package_info_text(v: JsonValue) -> Seq<char> {
    if v is Null {
        "No matching package found.\n"@
    } else {
        tab_aligned(kv_text(package_pairs(v)), 1)
    }
}

/// The fields of the package that matched a matchspec.
pub fn format_package_info(v: &JsonValue) -> (r: String)
    ensures
        r@ == package_info_text(*v),
{
    if v.is_null() {
        return String::from_str("No matching package found.\n");
    }
    package_kv(v)
}

/// A one-pair list when the value is present, none otherwise.
pub open spec fn opt_pair(label: Seq<char>, value: Option<Seq<char>>) -> Seq<(Seq<char>, Seq<char>)> {
    match value {
        Some(x) => seq![(label, x)],
        None => Seq::empty(),
    }
}

/// The text of an optional integer member.
pub open spec fn opt_int_text(v: JsonValue, key: Seq<char>) -> Option<Seq<char>> {
    match i64_member(v, key) {
        Some(n) => Some(int_text(n)),
        None => None,
    }
}

/// The key-value pairs of `format_variant_detail`: the fixed ones, then
/// the yank reason, checksums and download count where present.
pub open spec fn variant_pairs(v: JsonValue) -> Seq<(Seq<char>, Seq<char>)> {
    seq![
        ("Filename"@, sv_text(v, "filename"@)),
        ("Version"@, sv_text(v, "version"@)),
        ("Build"@, sv_text(v, "build_string"@)),
        ("Build #"@, match opt_int_text(v, "build_number"@) {
            Some(t) => t,
            None => "-"@,
        }),
        ("Platform"@, sv_text(v, "platform"@)),
        ("Size"@, size_cell(v)),
        ("License"@, sv_text(v, "license"@)),
        ("Summary"@, sv_text(v, "summary"@)),
        ("Created"@, sv_text(v, "created_at"@)),
        ("Updated"@, sv_text(v, "updated_at"@)),
    ] + opt_pair("Yanked"@, str_member(v, "yanked_reason"@)) + opt_pair("MD5"@, str_member(v, "md5"@))
        + opt_pair("SHA256"@, str_member(v, "sha256"@)) + opt_pair("Downloads"@, opt_int_text(v, "total_downloads"@))
}

/// The text of `format_variant_detail`.
pub open spec fn variant_detail_text(v: JsonValue) -> Seq<char> {
    if v is Null {
        "Variant not found.\n"@
    } else {
        tab_aligned(kv_text(variant_pairs(v)), 1)
    }
}

/// Text of an optional integer member.
fn opt_int_of(v: &JsonValue, key: &str) -> (r: Option<String>)
    ensures
        match r {
            Some(t) => opt_int_text(*v, key@) == Some(t@),
            None => opt_int_text(*v, key@) is None,
        },
{
    match v.get(key) {
        Some(n) => match n.as_i64() {
            Some(i) => Some(i64_to_string(i)),
            None => None,
        },
        None => None,
    }
}

/// Text of an optional string member.
fn opt_str_of(v: &JsonValue, key: &str) -> (r: Option<String>)
    ensures
        match r {
            Some(t) => str_member(*v, key@) == Some(t@),
            None => str_member(*v, key@) is None,
        },
{
    match v.get(key) {
        Some(n) => match n.as_str() {
            Some(t) => Some(String::from_str(t)),
            None => None,
        },
        None => None,
    }
}

/// Appends a pair when the value is present.
fn push_opt_pair(pairs: &mut Vec<(&'static str, String)>, label: &'static str, value: Option<String>)
    ensures
        pair_texts(final(pairs)@) == pair_texts(old(pairs)@) + opt_pair(label@, match value {
            Some(t) => Some(t@),
            None => None,
        }),
{
    match value {
        Some(t) => {
            let ghost before = pairs@;
            let ghost tv = t@;
            pairs.push((label, t));
            proof {
                assert(pair_texts(pairs@) =~= pair_texts(before) + seq![(label@, tv)]);
            }
        },
        None => {
            proof {
                assert(pair_texts(pairs@) =~= pair_texts(pairs@) + Seq::<(Seq<char>, Seq<char>)>::empty());
            }
        },
    }
}

/// Details of one package variant.
pub fn format_variant_detail(v: &JsonValue) -> (r: String)
    ensures
        r@ == variant_detail_text(*v),
{
    if v.is_null() {
        return String::from_str("Variant not found.\n");
    }
    let build_num = match opt_int_of(v, "build_number") {
        Some(t) => t,
        None => String::from_str("-"),
    };
    let mut pairs: Vec<(&'static str, String)> = vec![
        ("Filename", sv(v, "filename")),
        ("Version", sv(v, "version")),
        ("Build", sv(v, "build_string")),
        ("Build #", build_num),
        ("Platform", sv(v, "platform")),
        ("Size", size_of(v)),
        ("License", sv(v, "license")),
        ("Summary", sv(v, "summary")),
        ("Created", sv(v, "created_at")),
        ("Updated", sv(v, "updated_at")),
    ];
    let ghost base = pair_texts(pairs@);
    push_opt_pair(&mut pairs, "Yanked", opt_str_of(v, "yanked_reason"));
    push_opt_pair(&mut pairs, "MD5", opt_str_of(v, "md5"));
    push_opt_pair(&mut pairs, "SHA256", opt_str_of(v, "sha256"));
    push_opt_pair(&mut pairs, "Downloads", opt_int_of(v, "total_downloads"));
    proof {
        assert(pair_texts(pairs@) =~= variant_pairs(*v));
    }
    kv(pairs.as_slice())
}

/// The header of the version table.
pub open spec fn version_header() -> Seq<Seq<char>> {
    seq!["VERSION"@, "PLATFORMS"@, "VARIANTS"@]
}

/// The table row of one package version.
pub open spec fn version_row(x: JsonValue) -> Seq<Seq<char>> {
    seq![
        sv_text(x, "version"@),
        truncated(platforms_text(x), 40),
        match opt_int_text(x, "total_count"@) {
            Some(t) => t,
            None => "-"@,
        },
    ]
}

/// The version table (or a note that there are none) under a package
/// header; nothing when the package has no page of versions.
pub open spec fn versions_section(v: JsonValue) -> Seq<char> {
    match get_spec(v, "versions"@) {
        Some(vers) => match get_spec(vers, "page"@) {
            Some(JsonValue::Array(items)) => if items@.len() == 0 {
                "No versions found.\n"@
            } else {
                tab_aligned(table_text(version_header(), items@.map_values(|x: JsonValue| version_row(x))), 2)
                    + page_footer_text(vers)
            },
            _ => Seq::empty(),
        },
        None => Seq::empty(),
    }
}

/// The text of `format_package_versions`.
pub open spec fn package_versions_text(v: JsonValue) -> Seq<char> {
    if v is Null {
        "Package not found.\n"@
    } else {
        sv_text(v, "name"@) + " ("@ + nested_text(v, "channel"@, "name"@) + ")\n\n"@ + versions_section(v)
    }
}

/// The rows of a version list.
fn version_rows(items: &Vec<JsonValue>) -> (rows: Vec<Vec<String>>)
    ensures
        row_texts(rows@) == items@.map_values(|x: JsonValue| version_row(x)),
{
    let mut rows: Vec<Vec<String>> = Vec::new();
    let mut i: usize = 0;
    while i < items.len()
        invariant
            i <= items.len(),
            row_texts(rows@) == items@.take(i as int).map_values(|x: JsonValue| version_row(x)),
        decreases items.len() - i,
    {
        let x = &items[i];
        let count = match opt_int_of(x, "total_count") {
            Some(t) => t,
            None => String::from_str("-"),
        };
        let row = vec![sv(x, "version"), truncate(platforms_str(x).as_str(), 40), count];
        proof {
            assert(texts(row@) =~= version_row(*x));
        }
        let ghost before = rows@;
        rows.push(row);
        proof {
            assert(row_texts(rows@) =~= row_texts(before).push(texts(row@)));
            assert(items@.take(i + 1).map_values(|y: JsonValue| version_row(y))
                =~= items@.take(i as int).map_values(|y: JsonValue| version_row(y)).push(version_row(items@[i as int])));
        }
        i = i + 1;
    }
    proof {
        assert(items@.take(items@.len() as int) =~= items@);
    }
    rows
}

/// A package's name and channel and a page of its versions.
pub fn format_package_versions(v: &JsonValue) -> (r: String)
    ensures
        r@ == package_versions_text(*v),
{
    if v.is_null() {
        return String::from_str("Package not found.\n");
    }
    let mut out = sv(v, "name");
    out.append(" (");
    out.append(channel_name(v).as_str());
    out.append(")\n\n");
    match v.get("versions") {
        Some(vers) => match vers.get("page") {
            Some(p) => match p.as_array() {
                Some(items) => if items.len() == 0 {
                    out.append("No versions found.\n");
                } else {
                    let rows = version_rows(items);
                    let header = ["VERSION", "PLATFORMS", "VARIANTS"];
                    proof {
                        assert(str_texts(header@) =~= version_header());
                    }
                    out.append(table(&header, rows.as_slice()).as_str());
                    out.append(page_footer(vers).as_str());
                },
                None => {},
            },
            None => {},
        },
        None => {},
    }
    proof {
        assert(out@ =~= package_versions_text(*v));
    }
    out
}

// ── Rendering results and errors ─────────────────────────────────────────────

/// The JSON text of a result: `{"data":<value>,"ok":true}` (members in
/// key order, as the program prints every object).
pub open spec fn json_output_text(v: JsonValue) -> Seq<char> {
    "{\"data\":"@ + compact(v) + ",\"ok\":true}"@
}

/// The JSON object of an error report: `code`, then `details` when there
/// are any, then `message`.
pub open spec fn error_object_text(e: PfxError) -> Seq<char> {
    "{\"code\":"@ + quoted(error_code(e)) + match error_details(e) {
        Some(d) => ",\"details\":"@ + compact(d),
        None => Seq::empty(),
    } + ",\"message\":"@ + quoted(error_message(e)) + "}"@
}

/// The JSON text of an error: `{"error":<report>,"ok":false}`.
pub open spec fn json_error_text(e: PfxError) -> Seq<char> {
    "{\"error\":"@ + error_object_text(e) + ",\"ok\":false}"@
}

/// The human text of an error: `error [<code>]: <message>`, then the
/// details as pretty JSON on the following lines when there are any.
pub open spec fn human_error_text(e: PfxError) -> Seq<char> {
    "error ["@ + error_code(e) + "]: "@ + error_message(e) + match error_details(e) {
        Some(d) => "\n"@ + pretty(d, 0),
        None => Seq::empty(),
    }
}

/// The human text of a result of the given kind.
pub open spec fn human_text(v: JsonValue, kind: OutputKind) -> Seq<char> {
    match kind {
        OutputKind::Raw => pretty(v, 0) + "\n"@,
        OutputKind::User => user_text(v),
        OutputKind::ApiKeyList => api_key_list_text(v),
        OutputKind::ApiKey => api_key_text(v),
        OutputKind::BoolResult { action } => action@ + "\n"@,
        OutputKind::ChannelDetail => channel_detail_text(v),
        OutputKind::ChannelList => channel_list_text(v),
        OutputKind::ChannelResult { action } => channel_result_text(v, action@),
        OutputKind::ChannelMember { action } => channel_member_text(v, action@),
        OutputKind::ChannelNotice => tab_aligned(kv_text(channel_notice_pairs(v)), 1),
        OutputKind::GithubPublisher => tab_aligned(kv_text(github_publisher_pairs(v)), 1),
        OutputKind::GitlabPublisher => tab_aligned(kv_text(gitlab_publisher_pairs(v)), 1),
        OutputKind::GooglePublisher => tab_aligned(kv_text(google_publisher_pairs(v)), 1),
        OutputKind::OidcDeleted => "OIDC publisher '"@ + sv_text(v, "id"@) + "' deleted.\n"@,
        OutputKind::PackageDetail => package_detail_text(v),
        OutputKind::PackageList => package_list_text(v),
        OutputKind::PackageInfo => package_info_text(v),
        OutputKind::VariantDetail => variant_detail_text(v),
        OutputKind::PackageVersions => package_versions_text(v),
        OutputKind::BackgroundJob => background_job_text(v),
    }
}

/// Law: the JSON text of a result is one line (the program prints one
/// JSON document per line), unless the text of a float in it holds a line
/// break.
pub proof fn json_output_is_one_line(v: JsonValue)
    requires
        floats_one_line(v),
    ensures
        one_line(json_output_text(v)),
{
    reveal_strlit("{\"data\":");
    reveal_strlit(",\"ok\":true}");
    compact_is_one_line(v);
    lemma_one_line_concat("{\"data\":"@, compact(v));
    lemma_one_line_concat("{\"data\":"@ + compact(v), ",\"ok\":true}"@);
}

/// Law: the JSON text of an error is one line, unless the text of a float
/// in its details holds a line break.
pub proof fn json_error_is_one_line(e: PfxError)
    requires
        error_details(e) matches Some(d) ==> floats_one_line(d),
    ensures
        one_line(json_error_text(e)),
{
    reveal_strlit("{\"error\":");
    reveal_strlit(",\"ok\":false}");
    reveal_strlit("{\"code\":");
    reveal_strlit(",\"details\":");
    reveal_strlit(",\"message\":");
    reveal_strlit("}");
    lemma_quoted_one_line(error_code(e));
    lemma_quoted_one_line(error_message(e));
    let details = match error_details(e) {
        Some(d) => ",\"details\":"@ + compact(d),
        None => Seq::<char>::empty(),
    };
    match error_details(e) {
        Some(d) => {
            compact_is_one_line(d);
            lemma_one_line_concat(",\"details\":"@, compact(d));
        },
        None => {},
    }
    let a = "{\"code\":"@ + quoted(error_code(e));
    lemma_one_line_concat("{\"code\":"@, quoted(error_code(e)));
    lemma_one_line_concat(a, details);
    lemma_one_line_concat(a + details, ",\"message\":"@);
    lemma_one_line_concat(a + details + ",\"message\":"@, quoted(error_message(e)));
    lemma_one_line_concat(a + details + ",\"message\":"@ + quoted(error_message(e)), "}"@);
    let obj = error_object_text(e);
    assert(obj == a + details + ",\"message\":"@ + quoted(error_message(e)) + "}"@);
    lemma_one_line_concat("{\"error\":"@, obj);
    lemma_one_line_concat("{\"error\":"@ + obj, ",\"ok\":false}"@);
}

/// The fixed pieces of the JSON reports, as a key's literal between its
/// neighbours.
proof fn lemma_report_pieces()
    ensures
        "{\"data\":"@ == seq!['{'] + quoted("data"@) + seq![':'],
        "{\"error\":"@ == seq!['{'] + quoted("error"@) + seq![':'],
        ",\"ok\":true}"@ == seq![','] + quoted("ok"@) + seq![':'] + compact(JsonValue::Bool(true)) + seq!['}'],
        ",\"ok\":false}"@ == seq![','] + quoted("ok"@) + seq![':'] + compact(JsonValue::Bool(false)) + seq!['}'],
        "{\"code\":"@ == seq!['{'] + quoted("code"@) + seq![':'],
        ",\"details\":"@ == seq![','] + quoted("details"@) + seq![':'],
        ",\"message\":"@ == seq![','] + quoted("message"@) + seq![':'],
        "}"@ == seq!['}'],
{
    assert("{\"data\":"@ == seq!['{'] + quoted("data"@) + seq![':']) by {
        reveal_strlit("{\"data\":");
        reveal_strlit("data");
        lemma_plain_escape("data"@);
        assert("{\"data\":"@ =~= seq!['{'] + quoted("data"@) + seq![':']);
    }
    assert("{\"error\":"@ == seq!['{'] + quoted("error"@) + seq![':']) by {
        reveal_strlit("{\"error\":");
        reveal_strlit("error");
        lemma_plain_escape("error"@);
        assert("{\"error\":"@ =~= seq!['{'] + quoted("error"@) + seq![':']);
    }
    assert(quoted("ok"@) =~= seq!['"', 'o', 'k', '"']) by {
        reveal_strlit("ok");
        lemma_plain_escape("ok"@);
    }
    assert(",\"ok\":true}"@ == seq![','] + quoted("ok"@) + seq![':'] + compact(JsonValue::Bool(true)) + seq!['}']) by {
        reveal_strlit(",\"ok\":true}");
        reveal_strlit("true");
        assert(",\"ok\":true}"@ =~= seq![','] + quoted("ok"@) + seq![':'] + compact(JsonValue::Bool(true)) + seq!['}']);
    }
    assert(",\"ok\":false}"@ == seq![','] + quoted("ok"@) + seq![':'] + compact(JsonValue::Bool(false)) + seq!['}']) by {
        reveal_strlit(",\"ok\":false}");
        reveal_strlit("false");
        assert(",\"ok\":false}"@ =~= seq![','] + quoted("ok"@) + seq![':'] + compact(JsonValue::Bool(false)) + seq!['}']);
    }
    assert("{\"code\":"@ == seq!['{'] + quoted("code"@) + seq![':']) by {
        reveal_strlit("{\"code\":");
        reveal_strlit("code");
        lemma_plain_escape("code"@);
        assert("{\"code\":"@ =~= seq!['{'] + quoted("code"@) + seq![':']);
    }
    assert(",\"details\":"@ == seq![','] + quoted("details"@) + seq![':']) by {
        reveal_strlit(",\"details\":");
        reveal_strlit("details");
        lemma_plain_escape("details"@);
        assert(",\"details\":"@ =~= seq![','] + quoted("details"@) + seq![':']);
    }
    assert(",\"message\":"@ == seq![','] + quoted("message"@) + seq![':']) by {
        reveal_strlit(",\"message\":");
        reveal_strlit("message");
        lemma_plain_escape("message"@);
        assert(",\"message\":"@ =~= seq![','] + quoted("message"@) + seq![':']);
    }
    assert("}"@ == seq!['}']) by {
        reveal_strlit("}");
        assert("}"@ =~= seq!['}']);
    }
}

/// A JSON report: one member under `key` with the given text, then the
/// member `"ok"`.
spec fn envelope_text(key: Seq<char>, body: Seq<char>, ok: bool) -> Seq<char> {
    seq!['{'] + quoted(key) + seq![':'] + body + seq![','] + quoted("ok"@) + seq![':'] + compact(JsonValue::Bool(ok))
        + seq!['}']
}

/// A JSON report whose first member's text reads back as `value` is read
/// back as the object of that member and `"ok"`.
/// The closing `"ok"` member of a JSON report and its `}` are read back as
/// that one member.
proof fn lemma_ok_member(ok: bool, fuel: nat)
    requires
        fuel >= compact(JsonValue::Bool(ok)).len(),
    ensures
        parse_members(quoted("ok"@) + seq![':'] + compact(JsonValue::Bool(ok)) + seq!['}'], fuel) == Some(
            (seq![("ok"@, JsonTree::Bool(ok))], Seq::<char>::empty()),
        ),
{
    let tail = seq!['}'];
    lemma_value_back(JsonValue::Bool(ok), tail, fuel);
    lemma_member_step("ok"@, compact(JsonValue::Bool(ok)), JsonTree::Bool(ok), tail, fuel);
    assert(tail.drop_first() =~= Seq::<char>::empty());
}

/// A JSON report whose first member's text reads back as `value` is read
/// back as the object of that member and `"ok"`.
proof fn lemma_envelope_back(key: Seq<char>, body: Seq<char>, value: JsonTree, ok: bool)
    requires
        parse_value(
            body + (seq![','] + quoted("ok"@) + seq![':'] + compact(JsonValue::Bool(ok)) + seq!['}']),
            (envelope_text(key, body, ok).len() - 1) as nat,
        ) == Some((value, seq![','] + quoted("ok"@) + seq![':'] + compact(JsonValue::Bool(ok)) + seq!['}'])),
    ensures
        parse_json(envelope_text(key, body, ok)) == Some(
            JsonTree::Object(seq![(key, value), ("ok"@, JsonTree::Bool(ok))]),
        ),
{
    let text = envelope_text(key, body, ok);
    let n = text.len();
    let ok_member = quoted("ok"@) + seq![':'] + compact(JsonValue::Bool(ok)) + seq!['}'];
    let after = seq![','] + quoted("ok"@) + seq![':'] + compact(JsonValue::Bool(ok)) + seq!['}'];
    let members = quoted(key) + seq![':'] + body + after;
    assert(text =~= seq!['{'] + members);
    lemma_ok_member(ok, (n - 2) as nat);
    lemma_member_step(key, body, value, after, (n - 1) as nat);
    assert(after.drop_first() =~= ok_member);
    lemma_object_back(members, n);
    assert(seq![(key, value)] + seq![("ok"@, JsonTree::Bool(ok))] =~= seq![(key, value), ("ok"@, JsonTree::Bool(ok))]);
}

/// Law: the JSON text of a result reads back as the object
/// `{"data": <value>, "ok": true}`, unless the text of a float in the
/// value is not a plain number that reads back as that float.
pub proof fn json_output_parses_back(v: JsonValue)
    requires
        floats_plain(v),
    ensures
        parse_json(json_output_text(v)) == Some(
            JsonTree::Object(seq![("data"@, tree(v)), ("ok"@, JsonTree::Bool(true))]),
        ),
{
    let text = envelope_text("data"@, compact(v), true);
    lemma_report_pieces();
    assert(json_output_text(v) =~= text);
    let after = seq![','] + quoted("ok"@) + seq![':'] + compact(JsonValue::Bool(true)) + seq!['}'];
    lemma_value_back(v, after, (text.len() - 1) as nat);
    lemma_envelope_back("data"@, compact(v), tree(v), true);
}

/// The members of an error report as values: `code`, then `details` when
/// there are any, then `message`.
pub open spec fn error_tree(e: PfxError) -> JsonTree {
    report_tree(error_code(e), error_details(e), error_message(e))
}

/// A report of a code, optional details and a message, as a value.
pub open spec fn report_tree(code: Seq<char>, details: Option<JsonValue>, msg: Seq<char>) -> JsonTree {
    JsonTree::Object(seq![("code"@, JsonTree::Str(code))] + report_tail_trees(details, msg))
}

/// The members of a report after its code: `details` when there are any,
/// then `message`.
pub open spec fn report_tail_trees(details: Option<JsonValue>, msg: Seq<char>) -> Seq<(Seq<char>, JsonTree)> {
    match details {
        Some(d) => seq![("details"@, tree(d)), ("message"@, JsonTree::Str(msg))],
        None => seq![("message"@, JsonTree::Str(msg))],
    }
}

/// The text of a report of a code, optional details and a message.
spec fn report_text(code: Seq<char>, details: Option<JsonValue>, msg: Seq<char>) -> Seq<char> {
    "{\"code\":"@ + quoted(code) + match details {
        Some(d) => ",\"details\":"@ + compact(d),
        None => Seq::empty(),
    } + ",\"message\":"@ + quoted(msg) + "}"@
}

/// The `"message"` member of a report, its `}` and anything after it are
/// read back as that one member and what follows.
proof fn lemma_message_back(msg: Seq<char>, after: Seq<char>, fuel: nat)
    requires
        fuel > 0,
    ensures
        parse_members(quoted("message"@) + seq![':'] + quoted(msg) + (seq!['}'] + after), fuel) == Some(
            (seq![("message"@, JsonTree::Str(msg))], after),
        ),
{
    lemma_str_value(msg, seq!['}'] + after, fuel);
    lemma_member_step("message"@, quoted(msg), JsonTree::Str(msg), seq!['}'] + after, fuel);
    assert((seq!['}'] + after).drop_first() =~= after);
}

/// The members of a report after its code: `details` when there are any,
/// then `message`, read back from the `,` before them.
proof fn lemma_report_tail_back(details: Option<JsonValue>, msg: Seq<char>, after: Seq<char>, fuel: nat)
    requires
        details matches Some(d) ==> floats_plain(d) && fuel >= compact(d).len() + 1,
        fuel >= 1,
    ensures
        ({
            let dtext = match details {
                Some(d) => seq![','] + quoted("details"@) + seq![':'] + compact(d),
                None => Seq::<char>::empty(),
            };
            let later = dtext + seq![','] + quoted("message"@) + seq![':'] + quoted(msg) + (seq!['}'] + after);
            &&& later[0] == ','
            &&& parse_members(later.drop_first(), fuel) == Some((report_tail_trees(details, msg), after))
        }),
{
    let message = quoted("message"@) + seq![':'] + quoted(msg) + (seq!['}'] + after);
    match details {
        Some(d) => {
            let dtext = seq![','] + quoted("details"@) + seq![':'] + compact(d);
            let later = dtext + seq![','] + quoted("message"@) + seq![':'] + quoted(msg) + (seq!['}'] + after);
            lemma_value_back(d, seq![','] + message, fuel);
            lemma_message_back(msg, after, (fuel - 1) as nat);
            lemma_member_step("details"@, compact(d), tree(d), seq![','] + message, fuel);
            assert((seq![','] + message).drop_first() =~= message);
            assert(later.drop_first() =~= quoted("details"@) + seq![':'] + compact(d) + (seq![','] + message));
            assert(seq![("details"@, tree(d))] + seq![("message"@, JsonTree::Str(msg))] =~= report_tail_trees(details, msg));
        },
        None => {
            let later = Seq::<char>::empty() + seq![','] + quoted("message"@) + seq![':'] + quoted(msg) + (seq!['}'] + after);
            lemma_message_back(msg, after, fuel);
            assert(later.drop_first() =~= message);
        },
    }
}

/// The text of a report, followed by anything, is read back as the report
/// and what follows.
proof fn lemma_report_back(code: Seq<char>, details: Option<JsonValue>, msg: Seq<char>, after: Seq<char>, fuel: nat)
    requires
        details matches Some(d) ==> floats_plain(d),
        fuel >= report_text(code, details, msg).len(),
    ensures
        parse_value(report_text(code, details, msg) + after, fuel) == Some((report_tree(code, details, msg), after)),
{
    lemma_report_pieces();
    let obj = report_text(code, details, msg);
    let dtext = match details {
        Some(d) => seq![','] + quoted("details"@) + seq![':'] + compact(d),
        None => Seq::<char>::empty(),
    };
    let later = dtext + seq![','] + quoted("message"@) + seq![':'] + quoted(msg) + (seq!['}'] + after);
    let code_member = quoted("code"@) + seq![':'] + quoted(code);
    assert(obj + after =~= seq!['{'] + (code_member + later));
    assert(fuel >= code_member.len() + dtext.len() + 5);
    lemma_report_tail_back(details, msg, after, (fuel - 2) as nat);
    lemma_str_value(code, later, (fuel - 1) as nat);
    lemma_member_step("code"@, quoted(code), JsonTree::Str(code), later, (fuel - 1) as nat);
    lemma_object_back(code_member + later, fuel);
}

/// Law: the JSON text of an error reads back as the object
/// `{"error": <report>, "ok": false}`, unless the text of a float in its
/// details is not a plain number that reads back as that float.
pub proof fn json_error_parses_back(e: PfxError)
    requires
        error_details(e) matches Some(d) ==> floats_plain(d),
    ensures
        parse_json(json_error_text(e)) == Some(
            JsonTree::Object(seq![("error"@, error_tree(e)), ("ok"@, JsonTree::Bool(false))]),
        ),
{
    let obj = report_text(error_code(e), error_details(e), error_message(e));
    assert(error_object_text(e) == obj);
    let text = envelope_text("error"@, obj, false);
    lemma_report_pieces();
    assert(json_error_text(e) =~= text);
    let after = seq![','] + quoted("ok"@) + seq![':'] + compact(JsonValue::Bool(false)) + seq!['}'];
    lemma_report_back(error_code(e), error_details(e), error_message(e), after, (text.len() - 1) as nat);
    lemma_envelope_back("error"@, obj, error_tree(e), false);
}

/// A result as one line of JSON: `{"data":...,"ok":true}`.
pub fn format_json(output: &CommandOutput) -> (r: String)
    ensures
        r@ == json_output_text(output.value),
{
    let mut out = String::from_str("{\"data\":");
    write_compact(&output.value, &mut out);
    out.append(",\"ok\":true}");
    out
}

/// An error as one line of JSON: `{"error":{...},"ok":false}`.
pub fn format_json_error(err: &PfxError) -> (r: String)
    ensures
        r@ == json_error_text(*err),
{
    let mut out = String::from_str("{\"error\":");
    out.append("{\"code\":");
    write_quoted(err.code(), &mut out);
    match err {
        PfxError::Graphql { details: Some(d), .. } => {
            out.append(",\"details\":");
            write_compact(d, &mut out);
        },
        _ => {},
    }
    out.append(",\"message\":");
    write_quoted(err.message().as_str(), &mut out);
    out.append("}");
    out.append(",\"ok\":false}");
    proof {
        assert(out@ =~= json_error_text(*err));
    }
    out
}

/// An error for people: its code and message, and its details as pretty
/// JSON when it has any.
pub fn format_human_error(err: &PfxError) -> (r: String)
    ensures
        r@ == human_error_text(*err),
{
    let mut out = String::from_str("error [");
    out.append(err.code());
    out.append("]: ");
    out.append(err.message().as_str());
    match err {
        PfxError::Graphql { details: Some(d), .. } => {
            out.append("\n");
            out.append(to_json_string_pretty(d).as_str());
        },
        _ => {},
    }
    proof {
        assert(out@ =~= human_error_text(*err));
    }
    out
}

/// A result for people, rendered as its kind says.
pub fn format_human(output: &CommandOutput) -> (r: String)
    ensures
        r@ == human_text(output.value, output.kind),
{
    let v = &output.value;
    match &output.kind {
        OutputKind::Raw => {
            let mut s = to_json_string_pretty(v);
            push_char(&mut s, '\n');
            proof {
                reveal_strlit("\n");
                assert(s@ =~= pretty(*v, 0) + "\n"@);
            }
            s
        },
        OutputKind::User => format_user(v),
        OutputKind::ApiKeyList => format_api_key_list(v),
        OutputKind::ApiKey => format_api_key(v),
        OutputKind::BoolResult { action } => {
            let mut s = String::from_str(action);
            s.append("\n");
            s
        },
        OutputKind::ChannelDetail => format_channel_detail(v),
        OutputKind::ChannelList => format_channel_list(v),
        OutputKind::ChannelResult { action } => format_channel_result(v, action),
        OutputKind::ChannelMember { action } => format_channel_member(v, action),
        OutputKind::ChannelNotice => format_channel_notice(v),
        OutputKind::GithubPublisher => format_github_publisher(v),
        OutputKind::GitlabPublisher => format_gitlab_publisher(v),
        OutputKind::GooglePublisher => format_google_publisher(v),
        OutputKind::OidcDeleted => format_oidc_deleted(v),
        OutputKind::PackageDetail => format_package_detail(v),
        OutputKind::PackageList => format_package_list(v),
        OutputKind::PackageInfo => format_package_info(v),
        OutputKind::VariantDetail => format_variant_detail(v),
        OutputKind::PackageVersions => format_package_versions(v),
        OutputKind::BackgroundJob => format_background_job(v),
    }
}

/// Law: the variant table under a package's details has the header
/// FILENAME, VERSION, BUILD, PLATFORM, SIZE, and one row per variant of
/// the page, in order, whose cells are in that order the variant's
/// filename, version, build string, platform and size; the page line under
/// it is that of the variants object.
pub proof fn variant_table_cells(v: JsonValue, vars: JsonValue, items: Seq<JsonValue>)
    requires
        !(v is Null),
        get_spec(v, "variants"@) == Some(vars),
        get_spec(vars, "page"@) matches Some(JsonValue::Array(a)) && a@ == items,
        items.len() > 0,
    ensures
        package_detail_text(v) == tab_aligned(kv_text(package_pairs(v)), 1) + "\n"@ + tab_aligned(
            table_text(
                seq!["FILENAME"@, "VERSION"@, "BUILD"@, "PLATFORM"@, "SIZE"@],
                Seq::new(
                    items.len(),
                    |i: int|
                        seq![
                            sv_text(items[i], "filename"@),
                            sv_text(items[i], "version"@),
                            sv_text(items[i], "build_string"@),
                            sv_text(items[i], "platform"@),
                            size_cell(items[i]),
                        ],
                ),
            ),
            2,
        ) + page_footer_text(vars),
{
    assert(page_items(vars) == items);
    let rows = Seq::new(
        items.len(),
        |i: int|
            seq![
                sv_text(items[i], "filename"@),
                sv_text(items[i], "version"@),
                sv_text(items[i], "build_string"@),
                sv_text(items[i], "platform"@),
                size_cell(items[i]),
            ],
    );
    assert(items.map_values(|x: JsonValue| variant_row(x)) =~= rows);
}

/// The labels of a variant's details.
proof fn lemma_variant_labels()
    ensures
        "Filename"@.len() == 8,
        "Version"@.len() == 7,
        "Build"@.len() == 5,
        "Build #"@.len() == 7,
        "Platform"@.len() == 8,
        "Size"@.len() == 4,
        "License"@.len() == 7,
        "Summary"@.len() == 7,
        "Created"@.len() == 7,
        "Updated"@.len() == 7,
        "Yanked"@.len() == 6,
        "MD5"@.len() == 3,
        "SHA256"@.len() == 6,
        "Downloads"@.len() == 9,
        "Yanked"@[0] == 'Y',
        "SHA256"@[0] == 'S',
{
    reveal_strlit("Filename");
    reveal_strlit("Version");
    reveal_strlit("Build");
    reveal_strlit("Build #");
    reveal_strlit("Platform");
    reveal_strlit("Size");
    reveal_strlit("License");
    reveal_strlit("Summary");
    reveal_strlit("Created");
    reveal_strlit("Updated");
    reveal_strlit("Yanked");
    reveal_strlit("MD5");
    reveal_strlit("SHA256");
    reveal_strlit("Downloads");
}

/// Law: a variant's details list its md5 member on an `MD5` line and its
/// sha256 member on a `SHA256` line, each exactly when the member is a
/// string, and no other value under those labels.
pub proof fn variant_checksums_shown(v: JsonValue)
    requires
        !(v is Null),
    ensures
        variant_detail_text(v) == tab_aligned(kv_text(variant_pairs(v)), 1),
        forall|i: int|
            0 <= i < variant_pairs(v).len() && (#[trigger] variant_pairs(v)[i]).0 == "MD5"@ ==> str_member(v, "md5"@)
                == Some(variant_pairs(v)[i].1),
        forall|i: int|
            0 <= i < variant_pairs(v).len() && (#[trigger] variant_pairs(v)[i]).0 == "SHA256"@ ==> str_member(
                v,
                "sha256"@,
            ) == Some(variant_pairs(v)[i].1),
        str_member(v, "md5"@) matches Some(m) ==> exists|i: int|
            0 <= i < variant_pairs(v).len() && #[trigger] variant_pairs(v)[i] == ("MD5"@, m),
        str_member(v, "sha256"@) matches Some(h) ==> exists|i: int|
            0 <= i < variant_pairs(v).len() && #[trigger] variant_pairs(v)[i] == ("SHA256"@, h),
{
    lemma_variant_labels();
    let ps = variant_pairs(v);
    let y = opt_pair("Yanked"@, str_member(v, "yanked_reason"@));
    let md5 = str_member(v, "md5"@);
    let sha = str_member(v, "sha256"@);
    let m = opt_pair("MD5"@, md5);
    let h = opt_pair("SHA256"@, sha);
    let d = opt_pair("Downloads"@, opt_int_text(v, "total_downloads"@));
    let base = ps.take(10);
    assert(ps =~= base + y + m + h + d);
    let a: int = (base.len() + y.len()) as int;
    let b: int = a + m.len();
    let c: int = b + h.len();
    assert forall|i: int| 0 <= i < ps.len() && (#[trigger] ps[i]).0 == "MD5"@ implies str_member(v, "md5"@) == Some(ps[i].1) by {
        if i < 10 {
            assert(ps[i] == base[i]);
        } else if i < a {
            assert(ps[i] == y[i - 10]);
        } else if i < b {
            assert(ps[i] == m[i - a]);
        } else if i < c {
            assert(ps[i] == h[i - b]);
        } else {
            assert(ps[i] == d[i - c]);
        }
    }
    assert forall|i: int| 0 <= i < ps.len() && (#[trigger] ps[i]).0 == "SHA256"@ implies str_member(v, "sha256"@) == Some(ps[i].1) by {
        if i < 10 {
            assert(ps[i] == base[i]);
        } else if i < a {
            assert(ps[i] == y[i - 10]);
            assert(y[i - 10].0 == "Yanked"@);
            assert(ps[i].0[0] == 'Y');
        } else if i < b {
            assert(ps[i] == m[i - a]);
        } else if i < c {
            assert(ps[i] == h[i - b]);
        } else {
            assert(ps[i] == d[i - c]);
        }
    }
    if let Some(x) = str_member(v, "md5"@) {
        assert(ps[a] == ("MD5"@, x));
    }
    if let Some(x) = str_member(v, "sha256"@) {
        assert(ps[b] == ("SHA256"@, x));
    }
}

/// Law: a package's versions are shown under its name and channel as a
/// table with the header VERSION, PLATFORMS, VARIANTS and one row per
/// version of the page, then the page line of the versions object:
/// `Page <current + 1>/<pages> (<total_count> total)`.
pub proof fn versions_page_line(v: JsonValue, vers: JsonValue, items: Seq<JsonValue>, current: int, pages: int, total: int)
    requires
        !(v is Null),
        get_spec(v, "versions"@) == Some(vers),
        get_spec(vers, "page"@) matches Some(JsonValue::Array(a)) && a@ == items,
        items.len() > 0,
        i64_member(vers, "current"@) == Some(current),
        i64_member(vers, "pages"@) == Some(pages),
        i64_member(vers, "total_count"@) == Some(total),
    ensures
        package_versions_text(v) == sv_text(v, "name"@) + " ("@ + nested_text(v, "channel"@, "name"@) + ")\n\n"@
            + tab_aligned(
            table_text(
                seq!["VERSION"@, "PLATFORMS"@, "VARIANTS"@],
                Seq::new(
                    items.len(),
                    |i: int|
                        seq![
                            sv_text(items[i], "version"@),
                            truncated(platforms_text(items[i]), 40),
                            match i64_member(items[i], "total_count"@) {
                                Some(n) => int_text(n),
                                None => "-"@,
                            },
                        ],
                ),
            ),
            2,
        ) + "Page "@ + int_text(current + 1) + "/"@ + int_text(pages) + " ("@ + int_text(total) + " total)\n"@,
{
    let rows = Seq::new(
        items.len(),
        |i: int|
            seq![
                sv_text(items[i], "version"@),
                truncated(platforms_text(items[i]), 40),
                match i64_member(items[i], "total_count"@) {
                    Some(n) => int_text(n),
                    None => "-"@,
                },
            ],
    );
    assert forall|i: int| 0 <= i < items.len() implies version_row(items[i]) == rows[i] by {
        assert(version_row(items[i]) =~= rows[i]);
    }
    assert(items.map_values(|x: JsonValue| version_row(x)) =~= rows);
}

} // verus!
