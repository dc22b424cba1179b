//! Writing JSON values as text: compact (one line, no spaces) and pretty
//! (two-space indentation, `": "` between a key and its value), with the
//! string escapes of standard JSON output.
use vstd::prelude::*;

use crate::json::{JsonNumber, JsonValue};
use crate::text::{chars_of, digit_char, int_text, nat_text, push_char, i64_to_string, u64_to_string};

verus! {

/// Lower-case hexadecimal digit of `d < 16`.
pub open spec fn hex_char(d: int) -> char {
    if d < 10 {
        digit_char(d)
    } else {
        (87 + d) as char
    }
}

/// How one character is written inside a JSON string literal.
pub open spec fn escape_char(c: char) -> Seq<char> {
    if c == '"' {
        seq!['\\', '"']
    } else if c == '\\' {
        seq!['\\', '\\']
    } else if c == '\u{8}' {
        seq!['\\', 'b']
    } else if c == '\t' {
        seq!['\\', 't']
    } else if c == '\n' {
        seq!['\\', 'n']
    } else if c == '\u{c}' {
        seq!['\\', 'f']
    } else if c == '\r' {
        seq!['\\', 'r']
    } else if (c as int) < 32 {
        seq!['\\', 'u', '0', '0', hex_char((c as int) / 16), hex_char((c as int) % 16)]
    } else {
        seq![c]
    }
}

/// The escaped characters of a string.
pub open spec fn escape_text(s: Seq<char>) -> Seq<char>
    decreases s.len(),
{
    if s.len() == 0 {
        Seq::empty()
    } else {
        escape_text(s.drop_last()) + escape_char(s.last())
    }
}

/// A string as a JSON string literal.
pub open spec fn quoted(s: Seq<char>) -> Seq<char> {
    seq!['"'] + escape_text(s) + seq!['"']
}

/// The text of a number.
pub open spec fn number_text(n: JsonNumber) -> Seq<char> {
    match n {
        JsonNumber::Int(i) => int_text(i as int),
        JsonNumber::UInt(u) => nat_text(u as nat),
        JsonNumber::Float(s) => s@,
    }
}

/// Text of `null`, a boolean, a number or a string.
pub open spec fn scalar_text(v: JsonValue) -> Seq<char> {
    match v {
        JsonValue::Null => "null"@,
        JsonValue::Bool(b) => if b {
            "true"@
        } else {
            "false"@
        },
        JsonValue::Number(n) => number_text(n),
        JsonValue::String(s) => quoted(s@),
        _ => Seq::empty(),
    }
}

/// Compact JSON text of a value.
pub open spec fn compact(v: JsonValue) -> Seq<char>
    decreases v,
{
    match v {
        JsonValue::Array(items) => seq!['['] + compact_items(items@) + seq![']'],
        JsonValue::Object(entries) => seq!['{'] + compact_members(entries@) + seq!['}'],
        _ => scalar_text(v),
    }
}

/// Compact texts of array items, separated by commas.
pub open spec fn compact_items(s: Seq<JsonValue>) -> Seq<char>
    decreases s,
{
    if s.len() == 0 {
        Seq::empty()
    } else if s.len() == 1 {
        compact(s[0])
    } else {
        compact_items(s.drop_last()) + seq![','] + compact(s.last())
    }
}

/// Compact texts of object members, separated by commas.
pub open spec fn compact_members(s: Seq<(String, JsonValue)>) -> Seq<char>
    decreases s,
{
    if s.len() == 0 {
        Seq::empty()
    } else if s.len() == 1 {
        quoted(s[0].0@) + seq![':'] + compact(s[0].1)
    } else {
        compact_members(s.drop_last()) + seq![','] + quoted(s.last().0@) + seq![':'] + compact(s.last().1)
    }
}

/// `depth` levels of two-space indentation.
pub open spec fn indent(depth: nat) -> Seq<char> {
    Seq::new(2 * depth, |i: int| ' ')
}

/// Pretty JSON text of a value nested `depth` levels deep.
pub open spec fn pretty(v: JsonValue, depth: nat) -> Seq<char>
    decreases v,
{
    match v {
        JsonValue::Array(items) => if items@.len() == 0 {
            "[]"@
        } else {
            seq!['['] + pretty_items(items@, depth + 1) + seq!['\n'] + indent(depth) + seq![']']
        },
        JsonValue::Object(entries) => if entries@.len() == 0 {
            "{}"@
        } else {
            seq!['{'] + pretty_members(entries@, depth + 1) + seq!['\n'] + indent(depth) + seq!['}']
        },
        _ => scalar_text(v),
    }
}

/// The separator before item `i` of a pretty array or object.
pub open spec fn item_sep(i: int) -> Seq<char> {
    if i == 0 {
        seq!['\n']
    } else {
        seq![',', '\n']
    }
}

/// Pretty array items at `depth`, each on its own line.
pub open spec fn pretty_items(s: Seq<JsonValue>, depth: nat) -> Seq<char>
    decreases s,
{
    if s.len() == 0 {
        Seq::empty()
    } else {
        pretty_items(s.drop_last(), depth) + item_sep(s.len() - 1) + indent(depth) + pretty(s.last(), depth)
    }
}

/// Pretty object members at `depth`, each on its own line.
pub open spec fn pretty_members(s: Seq<(String, JsonValue)>, depth: nat) -> Seq<char>
    decreases s,
{
    if s.len() == 0 {
        Seq::empty()
    } else {
        pretty_members(s.drop_last(), depth) + item_sep(s.len() - 1) + indent(depth)
            + quoted(s.last().0@) + seq![':', ' '] + pretty(s.last().1, depth)
    }
}

/// Lower-case hexadecimal digit for `d < 16`.
fn hex_digit(d: u32) -> (c: char)
    requires
        d < 16,
    ensures
        c == hex_char(d as int),
{
    if d < 10 {
        ((d as u8) + 48u8) as char
    } else {
        ((d as u8) + 87u8) as char
    }
}

/// Appends the escaped form of one character.
fn push_escaped(c: char, out: &mut String)
    ensures
        final(out)@ == old(out)@ + escape_char(c),
{
    if c == '"' {
        push_char(out, '\\');
        push_char(out, '"');
    } else if c == '\\' {
        push_char(out, '\\');
        push_char(out, '\\');
    } else if c == '\u{8}' {
        push_char(out, '\\');
        push_char(out, 'b');
    } else if c == '\t' {
        push_char(out, '\\');
        push_char(out, 't');
    } else if c == '\n' {
        push_char(out, '\\');
        push_char(out, 'n');
    } else if c == '\u{c}' {
        push_char(out, '\\');
        push_char(out, 'f');
    } else if c == '\r' {
        push_char(out, '\\');
        push_char(out, 'r');
    } else if (c as u32) < 32 {
        push_char(out, '\\');
        push_char(out, 'u');
        push_char(out, '0');
        push_char(out, '0');
        push_char(out, hex_digit((c as u32) / 16));
        push_char(out, hex_digit((c as u32) % 16));
    } else {
        push_char(out, c);
    }
    proof {
        assert(final(out)@ =~= old(out)@ + escape_char(c));
    }
}

/// Appends a string as a JSON string literal.
pub fn write_quoted(s: &str, out: &mut String)
    ensures
        final(out)@ == old(out)@ + quoted(s@),
{
    let ghost start = out@;
    let chars = chars_of(s);
    push_char(out, '"');
    let mut i: usize = 0;
    while i < chars.len()
        invariant
            i <= chars.len(),
            chars@ == s@,
            out@ == start + seq!['"'] + escape_text(chars@.take(i as int)),
        decreases chars.len() - i,
    {
        push_escaped(chars[i], out);
        proof {
            assert(chars@.take(i + 1).drop_last() =~= chars@.take(i as int));
        }
        i = i + 1;
    }
    push_char(out, '"');
    proof {
        assert(chars@.take(chars.len() as int) =~= chars@);
        assert(out@ =~= start + quoted(s@));
    }
}

/// Appends the text of `null`, a boolean, a number or a string.
fn write_scalar(v: &JsonValue, out: &mut String)
    ensures
        final(out)@ == old(out)@ + scalar_text(*v),
{
    match v {
        JsonValue::Null => out.append("null"),
        JsonValue::Bool(b) => if *b {
            out.append("true")
        } else {
            out.append("false")
        },
        JsonValue::Number(JsonNumber::Int(i)) => {
            let t = i64_to_string(*i);
            out.append(t.as_str());
        },
        JsonValue::Number(JsonNumber::UInt(u)) => {
            let t = u64_to_string(*u);
            out.append(t.as_str());
        },
        JsonValue::Number(JsonNumber::Float(t)) => out.append(t.as_str()),
        JsonValue::String(s) => write_quoted(s.as_str(), out),
        _ => {
            proof {
                assert(old(out)@ + scalar_text(*v) =~= old(out)@);
            }
        },
    }
}

/// Appends the compact JSON text of a value.
pub fn write_compact(v: &JsonValue, out: &mut String)
    ensures
        final(out)@ == old(out)@ + compact(*v),
    decreases v,
{
    let ghost start = out@;
    match v {
        JsonValue::Array(items) => {
            push_char(out, '[');
            let mut i: usize = 0;
            while i < items.len()
                invariant
                    i <= items.len(),
                    *v == JsonValue::Array(*items),
                    out@ == start + seq!['['] + compact_items(items@.take(i as int)),
                decreases items.len() - i,
            {
                if i > 0 {
                    push_char(out, ',');
                }
                proof {
                    assert(decreases_to!(*v => (*v)->Array_0));
                    assert(decreases_to!(*items => items@));
                    assert(decreases_to!(items@ => items@[i as int]));
                    assert(decreases_to!(*v => items@[i as int]));
                }
                write_compact(&items[i], out);
                proof {
                    assert(items@.take(i + 1).drop_last() =~= items@.take(i as int));
                }
                i = i + 1;
            }
            push_char(out, ']');
            proof {
                assert(items@.take(items.len() as int) =~= items@);
            }
        },
        JsonValue::Object(entries) => {
            push_char(out, '{');
            let mut i: usize = 0;
            while i < entries.len()
                invariant
                    i <= entries.len(),
                    *v == JsonValue::Object(*entries),
                    out@ == start + seq!['{'] + compact_members(entries@.take(i as int)),
                decreases entries.len() - i,
            {
                if i > 0 {
                    push_char(out, ',');
                }
                write_quoted(entries[i].0.as_str(), out);
                push_char(out, ':');
                proof {
                    assert(decreases_to!(*v => (*v)->Object_0));
                    assert(decreases_to!(*entries => entries@));
                    assert(decreases_to!(entries@ => entries@[i as int]));
                    assert(decreases_to!(entries@[i as int] => entries@[i as int].1));
                    assert(decreases_to!(*v => entries@[i as int].1));
                }
                write_compact(&entries[i].1, out);
                proof {
                    assert(entries@.take(i + 1).drop_last() =~= entries@.take(i as int));
                }
                i = i + 1;
            }
            push_char(out, '}');
            proof {
                assert(entries@.take(entries.len() as int) =~= entries@);
            }
        },
        _ => write_scalar(v, out),
    }
}

/// Appends the pretty JSON text of a value nested `depth` levels deep;
/// `ind` is the indentation of that depth.
fn write_pretty(v: &JsonValue, ind: &String, Ghost(depth): Ghost<nat>, out: &mut String)
    requires
        ind@ == indent(depth),
    ensures
        final(out)@ == old(out)@ + pretty(*v, depth),
    decreases v,
{
    let ghost start = out@;
    let mut inner = ind.clone();
    push_char(&mut inner, ' ');
    push_char(&mut inner, ' ');
    proof {
        assert(inner@ =~= indent(depth + 1));
    }
    match v {
        JsonValue::Array(items) => {
            if items.len() == 0 {
                out.append("[]");
                return;
            }
            push_char(out, '[');
            let mut i: usize = 0;
            while i < items.len()
                invariant
                    i <= items.len(),
                    *v == JsonValue::Array(*items),
                    inner@ == indent(depth + 1),
                    out@ == start + seq!['['] + pretty_items(items@.take(i as int), depth + 1),
                decreases items.len() - i,
            {
                if i > 0 {
                    push_char(out, ',');
                }
                push_char(out, '\n');
                out.append(inner.as_str());
                proof {
                    assert(decreases_to!(*v => (*v)->Array_0));
                    assert(decreases_to!(*items => items@));
                    assert(decreases_to!(items@ => items@[i as int]));
                }
                write_pretty(&items[i], &inner, Ghost(depth + 1), out);
                proof {
                    assert(items@.take(i + 1).drop_last() =~= items@.take(i as int));
                    assert(item_sep(i as int) =~= if i == 0 { seq!['\n'] } else { seq![',', '\n'] });
                }
                i = i + 1;
            }
            push_char(out, '\n');
            out.append(ind.as_str());
            push_char(out, ']');
            proof {
                assert(items@.take(items.len() as int) =~= items@);
            }
        },
        JsonValue::Object(entries) => {
            if entries.len() == 0 {
                out.append("{}");
                return;
            }
            push_char(out, '{');
            let mut i: usize = 0;
            while i < entries.len()
                invariant
                    i <= entries.len(),
                    *v == JsonValue::Object(*entries),
                    inner@ == indent(depth + 1),
                    out@ == start + seq!['{'] + pretty_members(entries@.take(i as int), depth + 1),
                decreases entries.len() - i,
            {
                if i > 0 {
                    push_char(out, ',');
                }
                push_char(out, '\n');
                out.append(inner.as_str());
                write_quoted(entries[i].0.as_str(), out);
                push_char(out, ':');
                push_char(out, ' ');
                proof {
                    assert(decreases_to!(*v => (*v)->Object_0));
                    assert(decreases_to!(*entries => entries@));
                    assert(decreases_to!(entries@ => entries@[i as int]));
                    assert(decreases_to!(entries@[i as int] => entries@[i as int].1));
                }
                write_pretty(&entries[i].1, &inner, Ghost(depth + 1), out);
                proof {
                    assert(entries@.take(i + 1).drop_last() =~= entries@.take(i as int));
                }
                i = i + 1;
            }
            push_char(out, '\n');
            out.append(ind.as_str());
            push_char(out, '}');
            proof {
                assert(entries@.take(entries.len() as int) =~= entries@);
            }
        },
        _ => write_scalar(v, out),
    }
}

/// Compact JSON text of a value.
pub fn to_json_string(v: &JsonValue) -> (r: String)
    ensures
        r@ == compact(*v),
{
    let mut out = String::new();
    write_compact(v, &mut out);
    proof {
        assert(out@ =~= compact(*v));
    }
    out
}

/// Pretty JSON text of a value.
pub fn to_json_string_pretty(v: &JsonValue) -> (r: String)
    ensures
        r@ == pretty(*v, 0),
{
    let mut out = String::new();
    let ind = String::new();
    proof {
        assert(ind@ =~= indent(0));
    }
    write_pretty(v, &ind, Ghost(0), &mut out);
    proof {
        assert(out@ =~= pretty(*v, 0));
    }
    out
}

/// Whether a text holds no line break.
pub open spec fn one_line(s: Seq<char>) -> bool {
    forall|i: int| 0 <= i < s.len() ==> s[i] != '\n'
}

/// Whether no float of a value holds a line break in its text.
pub open spec fn floats_one_line(v: JsonValue) -> bool
    decreases v,
{
    match v {
        JsonValue::Number(JsonNumber::Float(f)) => one_line(f@),
        JsonValue::Array(items) => items_floats_one_line(items@),
        JsonValue::Object(entries) => members_floats_one_line(entries@),
        _ => true,
    }
}

/// Whether no float among some values holds a line break.
pub open spec fn items_floats_one_line(s: Seq<JsonValue>) -> bool
    decreases s,
{
    if s.len() == 0 {
        true
    } else {
        items_floats_one_line(s.drop_last()) && floats_one_line(s.last())
    }
}

/// Whether no float among the values of some members holds a line break.
pub open spec fn members_floats_one_line(s: Seq<(String, JsonValue)>) -> bool
    decreases s,
{
    if s.len() == 0 {
        true
    } else {
        members_floats_one_line(s.drop_last()) && floats_one_line(s.last().1)
    }
}

/// Two texts without line breaks make one.
pub proof fn lemma_one_line_concat(a: Seq<char>, b: Seq<char>)
    requires
        one_line(a),
        one_line(b),
    ensures
        one_line(a + b),
{
    assert forall|i: int| 0 <= i < (a + b).len() implies (a + b)[i] != '\n' by {
        if i >= a.len() {
            assert((a + b)[i] == b[i - a.len()]);
        }
    }
}

/// Decimal text has no line break.
proof fn lemma_nat_text_one_line(n: nat)
    ensures
        one_line(nat_text(n)),
    decreases n,
{
    if n >= 10 {
        lemma_nat_text_one_line((n / 10) as nat);
        let d = digit_char((n % 10) as int);
        assert(d != '\n');
        assert(one_line(seq![d]));
        lemma_one_line_concat(nat_text((n / 10) as nat), seq![d]);
        assert(nat_text(n) =~= nat_text((n / 10) as nat) + seq![d]);
    } else {
        assert(digit_char(n as int) != '\n');
    }
}

/// A character's code is a natural number.
pub proof fn lemma_char_code(c: char)
    ensures
        0 <= (c as int),
{
}

/// A hexadecimal digit is no line break.
proof fn lemma_hex_char_not_newline(d: int)
    requires
        0 <= d < 16,
    ensures
        hex_char(d) != '\n',
{
    if d < 10 {
        assert(digit_char(d) as int == 48 + d);
    } else {
        assert(((87 + d) as char) as int == 87 + d);
    }
}

/// An escaped string has no line break: a line break is written `\n`.
proof fn lemma_escape_text_one_line(s: Seq<char>)
    ensures
        one_line(escape_text(s)),
    decreases s.len(),
{
    if s.len() > 0 {
        lemma_escape_text_one_line(s.drop_last());
        let c = s.last();
        if (c as int) < 32 && c != '"' && c != '\\' && c != '\u{8}' && c != '\t' && c != '\n' && c != '\u{c}' && c != '\r' {
            lemma_char_code(c);
            lemma_hex_char_not_newline((c as int) / 16);
            lemma_hex_char_not_newline((c as int) % 16);
        }
        assert(one_line(escape_char(c)));
        lemma_one_line_concat(escape_text(s.drop_last()), escape_char(c));
    }
}

/// A JSON string literal has no line break.
pub proof fn lemma_quoted_one_line(s: Seq<char>)
    ensures
        one_line(quoted(s)),
{
    lemma_escape_text_one_line(s);
    assert(one_line(seq!['"']));
    lemma_one_line_concat(seq!['"'], escape_text(s));
    lemma_one_line_concat(seq!['"'] + escape_text(s), seq!['"']);
}

/// Law: the compact text of a value is one line, unless the text of one
/// of its floats holds a line break.
pub proof fn compact_is_one_line(v: JsonValue)
    requires
        floats_one_line(v),
    ensures
        one_line(compact(v)),
    decreases v,
{
    match v {
        JsonValue::Array(items) => {
            compact_items_one_line(items@);
            lemma_one_line_concat(seq!['['], compact_items(items@));
            lemma_one_line_concat(seq!['['] + compact_items(items@), seq![']']);
        },
        JsonValue::Object(entries) => {
            compact_members_one_line(entries@);
            lemma_one_line_concat(seq!['{'], compact_members(entries@));
            lemma_one_line_concat(seq!['{'] + compact_members(entries@), seq!['}']);
        },
        JsonValue::String(s) => {
            lemma_quoted_one_line(s@);
        },
        JsonValue::Number(JsonNumber::Int(i)) => {
            lemma_nat_text_one_line(if i < 0 { (-i) as nat } else { i as nat });
            if i < 0 {
                lemma_one_line_concat(seq!['-'], nat_text((-i) as nat));
            }
        },
        JsonValue::Number(JsonNumber::UInt(u)) => {
            lemma_nat_text_one_line(u as nat);
        },
        JsonValue::Number(JsonNumber::Float(_)) => {},
        JsonValue::Null => {
            reveal_strlit("null");
        },
        JsonValue::Bool(b) => {
            reveal_strlit("true");
            reveal_strlit("false");
        },
    }
}

/// The compact texts of values without line breaks in their floats,
/// joined by commas, make one line.
proof fn compact_items_one_line(s: Seq<JsonValue>)
    requires
        items_floats_one_line(s),
    ensures
        one_line(compact_items(s)),
    decreases s,
{
    if s.len() == 1 {
        assert(s.drop_last().len() == 0);
        compact_is_one_line(s[0]);
    } else if s.len() > 1 {
        compact_items_one_line(s.drop_last());
        compact_is_one_line(s.last());
        lemma_one_line_concat(compact_items(s.drop_last()), seq![',']);
        lemma_one_line_concat(compact_items(s.drop_last()) + seq![','], compact(s.last()));
    }
}

/// The compact texts of members without line breaks in their floats,
/// joined by commas, make one line.
proof fn compact_members_one_line(s: Seq<(String, JsonValue)>)
    requires
        members_floats_one_line(s),
    ensures
        one_line(compact_members(s)),
    decreases s,
{
    if s.len() == 1 {
        assert(s.drop_last().len() == 0);
        lemma_quoted_one_line(s[0].0@);
        compact_is_one_line(s[0].1);
        lemma_one_line_concat(quoted(s[0].0@), seq![':']);
        lemma_one_line_concat(quoted(s[0].0@) + seq![':'], compact(s[0].1));
    } else if s.len() > 1 {
        compact_members_one_line(s.drop_last());
        lemma_quoted_one_line(s.last().0@);
        compact_is_one_line(s.last().1);
        let a = compact_members(s.drop_last()) + seq![','];
        lemma_one_line_concat(compact_members(s.drop_last()), seq![',']);
        lemma_one_line_concat(a, quoted(s.last().0@));
        lemma_one_line_concat(a + quoted(s.last().0@), seq![':']);
        lemma_one_line_concat(a + quoted(s.last().0@) + seq![':'], compact(s.last().1));
    }
}

} // verus!
