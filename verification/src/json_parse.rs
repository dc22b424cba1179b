//! Reading JSON text back, as mathematics: a parser of the compact text
//! that `json_text` writes, and the laws that it gives back the value
//! that was written.
use vstd::prelude::*;

use crate::json::{member_trees, tree, trees, JsonNumber, JsonTree, JsonValue};
use crate::json_text::{lemma_char_code, compact, compact_items, compact_members, escape_char, escape_text, hex_char, quoted};
use crate::text::{digit_char, int_text, nat_text};

verus! {

/// Whether a character is a decimal digit.
pub open spec fn is_digit(c: char) -> bool {
    '0' <= c && c <= '9'
}

/// Whether all characters of a text are decimal digits.
pub open spec fn all_digits(s: Seq<char>) -> bool {
    forall|i: int| 0 <= i < s.len() ==> is_digit(#[trigger] s[i])
}

/// Whether a character can stand in a JSON number.
pub open spec fn is_num_char(c: char) -> bool {
    is_digit(c) || c == '-' || c == '+' || c == '.' || c == 'e' || c == 'E'
}

/// How many characters at the start of a text can stand in a number.
pub open spec fn number_run(s: Seq<char>) -> nat
    decreases s.len(),
{
    if s.len() > 0 && is_num_char(s[0]) {
        1 + number_run(s.drop_first())
    } else {
        0
    }
}

/// The value of a text of decimal digits.
pub open spec fn digits_value(s: Seq<char>) -> int
    decreases s.len(),
{
    if s.len() == 0 {
        0
    } else {
        digits_value(s.drop_last()) * 10 + (s.last() as int - 48)
    }
}

/// A number read from its text: an integer for digits with an optional
/// minus sign, else a float held as its text.
pub open spec fn number_tree(t: Seq<char>) -> JsonTree {
    if t.len() > 0 && all_digits(t) {
        JsonTree::Int(digits_value(t))
    } else if t.len() > 1 && t[0] == '-' && all_digits(t.drop_first()) {
        JsonTree::Int(-digits_value(t.drop_first()))
    } else {
        JsonTree::Float(t)
    }
}

/// Whether a character is a hexadecimal digit.
pub open spec fn is_hex(c: char) -> bool {
    is_digit(c) || ('a' <= c && c <= 'f') || ('A' <= c && c <= 'F')
}

/// The value of a hexadecimal digit.
pub open spec fn hex_value(c: char) -> int {
    if is_digit(c) {
        c as int - 48
    } else if 'a' <= c && c <= 'f' {
        c as int - 87
    } else {
        c as int - 55
    }
}

/// The character of a code.
pub open spec fn char_of(v: int) -> char {
    (v as u32) as char
}

/// The character a one-letter escape stands for.
pub open spec fn simple_escape(e: char) -> Option<char> {
    if e == '"' {
        Some('"')
    } else if e == '\\' {
        Some('\\')
    } else if e == '/' {
        Some('/')
    } else if e == 'b' {
        Some('\u{8}')
    } else if e == 't' {
        Some('\t')
    } else if e == 'n' {
        Some('\n')
    } else if e == 'f' {
        Some('\u{c}')
    } else if e == 'r' {
        Some('\r')
    } else {
        None
    }
}

/// Reads the rest of a string literal (after its opening quote): the
/// string and what follows its closing quote.
pub open spec fn parse_string(s: Seq<char>) -> Option<(Seq<char>, Seq<char>)>
    decreases s.len(),
{
    if s.len() == 0 {
        None
    } else if s[0] == '"' {
        Some((Seq::empty(), s.drop_first()))
    } else if s[0] == '\\' {
        if s.len() < 2 {
            None
        } else if s[1] == 'u' {
            if s.len() < 6 || !(is_hex(s[2]) && is_hex(s[3]) && is_hex(s[4]) && is_hex(s[5])) {
                None
            } else {
                let c = char_of(hex_value(s[2]) * 4096 + hex_value(s[3]) * 256 + hex_value(s[4]) * 16 + hex_value(s[5]));
                match parse_string(s.skip(6)) {
                    Some((t, r)) => Some((seq![c] + t, r)),
                    None => None,
                }
            }
        } else {
            match simple_escape(s[1]) {
                Some(c) => match parse_string(s.skip(2)) {
                    Some((t, r)) => Some((seq![c] + t, r)),
                    None => None,
                },
                None => None,
            }
        }
    } else {
        match parse_string(s.drop_first()) {
            Some((t, r)) => Some((seq![s[0]] + t, r)),
            None => None,
        }
    }
}

/// Reads one value at the start of a text: the value and the text after
/// it. `fuel` bounds the nested values and list entries read on the way;
/// each takes at least one character, so the text's length is always
/// enough.
#[verifier::opaque]
pub open spec fn parse_value(s: Seq<char>, fuel: nat) -> Option<(JsonTree, Seq<char>)>
    decreases fuel, 0nat,
{
    if fuel == 0 || s.len() == 0 {
        None
    } else if s[0] == 'n' {
        if s.len() >= 4 && s.take(4) == "null"@ { Some((JsonTree::Null, s.skip(4))) } else { None }
    } else if s[0] == 't' {
        if s.len() >= 4 && s.take(4) == "true"@ { Some((JsonTree::Bool(true), s.skip(4))) } else { None }
    } else if s[0] == 'f' {
        if s.len() >= 5 && s.take(5) == "false"@ { Some((JsonTree::Bool(false), s.skip(5))) } else { None }
    } else if s[0] == '"' {
        match parse_string(s.drop_first()) {
            Some((t, r)) => Some((JsonTree::Str(t), r)),
            None => None,
        }
    } else if s[0] == '[' {
        if s.len() >= 2 && s[1] == ']' {
            Some((JsonTree::Array(Seq::empty()), s.skip(2)))
        } else {
            match parse_items(s.drop_first(), (fuel - 1) as nat) {
                Some((items, r)) => Some((JsonTree::Array(items), r)),
                None => None,
            }
        }
    } else if s[0] == '{' {
        if s.len() >= 2 && s[1] == '}' {
            Some((JsonTree::Object(Seq::empty()), s.skip(2)))
        } else {
            match parse_members(s.drop_first(), (fuel - 1) as nat) {
                Some((ms, r)) => Some((JsonTree::Object(ms), r)),
                None => None,
            }
        }
    } else if number_run(s) > 0 {
        Some((number_tree(s.take(number_run(s) as int)), s.skip(number_run(s) as int)))
    } else {
        None
    }
}

/// Reads the items of an array (after its `[`) and its closing `]`.
#[verifier::opaque]
pub open spec fn parse_items(s: Seq<char>, fuel: nat) -> Option<(Seq<JsonTree>, Seq<char>)>
    decreases fuel, 1nat,
{
    match parse_value(s, fuel) {
        None => None,
        Some((v, r)) => if r.len() > 0 && r[0] == ']' {
            Some((seq![v], r.drop_first()))
        } else if r.len() > 0 && r[0] == ',' && fuel > 0 {
            match parse_items(r.drop_first(), (fuel - 1) as nat) {
                Some((vs, r2)) => Some((seq![v] + vs, r2)),
                None => None,
            }
        } else {
            None
        },
    }
}

/// Reads the members of an object (after its `{`) and its closing `}`.
#[verifier::opaque]
pub open spec fn parse_members(s: Seq<char>, fuel: nat) -> Option<(Seq<(Seq<char>, JsonTree)>, Seq<char>)>
    decreases fuel, 1nat,
{
    if s.len() == 0 || s[0] != '"' {
        None
    } else {
        match parse_string(s.drop_first()) {
            None => None,
            Some((k, r)) => if r.len() == 0 || r[0] != ':' {
                None
            } else {
                match parse_value(r.drop_first(), fuel) {
                    None => None,
                    Some((v, r2)) => if r2.len() > 0 && r2[0] == '}' {
                        Some((seq![(k, v)], r2.drop_first()))
                    } else if r2.len() > 0 && r2[0] == ',' && fuel > 0 {
                        match parse_members(r2.drop_first(), (fuel - 1) as nat) {
                            Some((ms, r3)) => Some((seq![(k, v)] + ms, r3)),
                            None => None,
                        }
                    } else {
                        None
                    },
                }
            },
        }
    }
}

/// The value a JSON text holds, if it holds exactly one.
pub open spec fn parse_json(s: Seq<char>) -> Option<JsonTree> {
    match parse_value(s, s.len()) {
        Some((t, r)) => if r.len() == 0 { Some(t) } else { None },
        None => None,
    }
}

/// A string's escapes, from its first character on.
proof fn lemma_escape_front(s: Seq<char>)
    requires
        s.len() > 0,
    ensures
        escape_text(s) == escape_char(s[0]) + escape_text(s.drop_first()),
    decreases s.len(),
{
    if s.len() == 1 {
        assert(s.drop_last() =~= Seq::<char>::empty());
        assert(s.drop_first() =~= Seq::<char>::empty());
        assert(escape_text(s) =~= escape_char(s[0]) + escape_text(s.drop_first()));
    } else {
        lemma_escape_front(s.drop_last());
        assert(s.drop_last().drop_first() =~= s.drop_first().drop_last());
        assert(s.drop_first().last() == s.last());
        assert(escape_text(s) =~= escape_char(s[0]) + escape_text(s.drop_first()));
    }
}

/// A hexadecimal digit is read back as its value.
proof fn lemma_hex_back(d: int)
    requires
        0 <= d < 16,
    ensures
        is_hex(hex_char(d)),
        hex_value(hex_char(d)) == d,
{
    if d < 10 {
        assert(digit_char(d) as int == 48 + d);
    } else {
        assert(((87 + d) as char) as int == 87 + d);
    }
}

/// A character's code gives the character back.
proof fn lemma_char_of(c: char)
    ensures
        char_of(c as int) == c,
{
    vstd::utf8::char_u32_cast(c, c as u32);
}

/// The escapes of a string, its closing quote and anything after it are
/// read back as the string and what follows.
pub proof fn lemma_string_back(s: Seq<char>, rest: Seq<char>)
    ensures
        parse_string(escape_text(s) + seq!['"'] + rest) == Some((s, rest)),
    decreases s.len(),
{
    if s.len() == 0 {
        assert(escape_text(s) + seq!['"'] + rest =~= seq!['"'] + rest);
        assert((seq!['"'] + rest).drop_first() =~= rest);
    } else {
        let c = s[0];
        let tail = s.drop_first();
        lemma_escape_front(s);
        lemma_string_back(tail, rest);
        let t = escape_text(tail) + seq!['"'] + rest;
        let e = escape_char(c);
        let x = escape_text(s) + seq!['"'] + rest;
        assert(x =~= e + t);
        assert(seq![c] + tail =~= s);
        if c == '"' || c == '\\' || c == '\u{8}' || c == '\t' || c == '\n' || c == '\u{c}' || c == '\r' {
            assert(x[0] == '\\');
            assert(x[1] == e[1]);
            assert(x.skip(2) =~= t);
            assert(simple_escape(x[1]) == Some(c));
        } else if (c as int) < 32 {
            lemma_char_code(c);
            lemma_hex_back((c as int) / 16);
            lemma_hex_back((c as int) % 16);
            lemma_char_of(c);
            assert(x[0] == '\\' && x[1] == 'u' && x[2] == '0' && x[3] == '0');
            assert(x[4] == hex_char((c as int) / 16) && x[5] == hex_char((c as int) % 16));
            assert(hex_value('0') == 0);
            assert(hex_value(x[2]) * 4096 + hex_value(x[3]) * 256 + hex_value(x[4]) * 16 + hex_value(x[5]) == c as int);
            assert(x.skip(6) =~= t);
        } else {
            assert(e == seq![c]);
            assert(x[0] == c);
            assert(x.drop_first() =~= t);
        }
    }
}

/// Whether a text may follow a value inside the compact text: nothing, or
/// a `,`, `]` or `}`.
pub open spec fn may_follow(rest: Seq<char>) -> bool {
    rest.len() == 0 || rest[0] == ',' || rest[0] == ']' || rest[0] == '}'
}

/// Whether a float's text reads back as that float: a non-empty run of
/// number characters that is not an integer's text.
pub open spec fn float_plain(t: Seq<char>) -> bool {
    &&& t.len() > 0
    &&& forall|i: int| 0 <= i < t.len() ==> is_num_char(#[trigger] t[i])
    &&& number_tree(t) == JsonTree::Float(t)
}

/// Whether every float of a value reads back as itself.
pub open spec fn floats_plain(v: JsonValue) -> bool
    decreases v,
{
    match v {
        JsonValue::Number(JsonNumber::Float(f)) => float_plain(f@),
        JsonValue::Array(items) => items_floats_plain(items@),
        JsonValue::Object(entries) => members_floats_plain(entries@),
        _ => true,
    }
}

/// Whether every float among some values reads back as itself.
pub open spec fn items_floats_plain(s: Seq<JsonValue>) -> bool
    decreases s,
{
    if s.len() == 0 {
        true
    } else {
        items_floats_plain(s.drop_last()) && floats_plain(s.last())
    }
}

/// Whether every float among the values of some members reads back as
/// itself.
pub open spec fn members_floats_plain(s: Seq<(String, JsonValue)>) -> bool
    decreases s,
{
    if s.len() == 0 {
        true
    } else {
        members_floats_plain(s.drop_last()) && floats_plain(s.last().1)
    }
}

/// A run of number characters followed by what may follow a value is read
/// as one number.
proof fn lemma_number_run(t: Seq<char>, rest: Seq<char>)
    requires
        forall|i: int| 0 <= i < t.len() ==> is_num_char(#[trigger] t[i]),
        may_follow(rest),
    ensures
        number_run(t + rest) == t.len(),
    decreases t.len(),
{
    if t.len() == 0 {
        assert(t + rest =~= rest);
    } else {
        assert((t + rest)[0] == t[0]);
        assert((t + rest).drop_first() =~= t.drop_first() + rest);
        lemma_number_run(t.drop_first(), rest);
    }
}

/// Decimal text is digits that read back as the number.
proof fn lemma_nat_text_back(n: nat)
    ensures
        nat_text(n).len() > 0,
        all_digits(nat_text(n)),
        digits_value(nat_text(n)) == n,
    decreases n,
{
    if n < 10 {
        assert(digit_char(n as int) as int == 48 + n);
        assert(nat_text(n).drop_last() =~= Seq::<char>::empty());
        assert(digits_value(nat_text(n)) == digits_value(nat_text(n).drop_last()) * 10 + (nat_text(n).last() as int - 48));
    } else {
        let p = nat_text((n / 10) as nat);
        lemma_nat_text_back((n / 10) as nat);
        let d = digit_char((n % 10) as int);
        assert(d as int == 48 + n % 10);
        assert(nat_text(n) == p.push(d));
        assert(p.push(d).drop_last() =~= p);
        assert(digits_value(nat_text(n)) == digits_value(p) * 10 + (d as int - 48));
        assert((n / 10) * 10 + n % 10 == n);
        assert forall|i: int| 0 <= i < nat_text(n).len() implies is_digit(#[trigger] nat_text(n)[i]) by {
            if i < p.len() {
                assert(nat_text(n)[i] == p[i]);
            }
        }
    }
}

/// The number text of an integer reads back as the integer.
proof fn lemma_int_text_back(i: int, rest: Seq<char>)
    requires
        may_follow(rest),
    ensures
        int_text(i).len() > 0,
        number_run(int_text(i) + rest) == int_text(i).len(),
        number_tree(int_text(i)) == JsonTree::Int(i),
        int_text(i)[0] == '-' || is_digit(int_text(i)[0]),
{
    let m: nat = if i < 0 { (-i) as nat } else { i as nat };
    lemma_nat_text_back(m);
    let t = int_text(i);
    if i < 0 {
        assert(t == seq!['-'] + nat_text(m));
        assert(t.drop_first() =~= nat_text(m));
        assert(!is_digit(t[0]));
        assert forall|j: int| 0 <= j < t.len() implies is_num_char(#[trigger] t[j]) by {
            if j > 0 {
                assert(t[j] == nat_text(m)[j - 1]);
            }
        }
    } else {
        assert forall|j: int| 0 <= j < t.len() implies is_num_char(#[trigger] t[j]) by {
            assert(is_digit(t[j]));
        }
    }
    lemma_number_run(t, rest);
}

/// The compact text of array items, from the first item on.
proof fn lemma_items_front(s: Seq<JsonValue>)
    requires
        s.len() > 0,
    ensures
        compact_items(s) == compact(s[0]) + if s.len() == 1 {
            Seq::<char>::empty()
        } else {
            seq![','] + compact_items(s.drop_first())
        },
        trees(s) == seq![tree(s[0])] + trees(s.drop_first()),
        items_floats_plain(s) ==> floats_plain(s[0]) && items_floats_plain(s.drop_first()),
    decreases s.len(),
{
    if s.len() == 1 {
        assert(s.drop_first() =~= Seq::<JsonValue>::empty());
        assert(s.drop_last() =~= Seq::<JsonValue>::empty());
        assert(compact(s[0]) + Seq::<char>::empty() =~= compact(s[0]));
        assert(trees(s) =~= seq![tree(s[0])] + trees(s.drop_first()));
    } else {
        let init = s.drop_last();
        lemma_items_front(init);
        assert(init.drop_first() =~= s.drop_first().drop_last());
        assert(s.drop_first().last() == s.last());
        assert(init[0] == s[0]);
        if s.len() == 2 {
            assert(s.drop_first().drop_last() =~= Seq::<JsonValue>::empty());
            assert(s.drop_first().len() == 1);
        }
        assert(compact_items(s) =~= compact(s[0]) + (seq![','] + compact_items(s.drop_first())));
        assert(trees(s) =~= seq![tree(s[0])] + trees(s.drop_first()));
    }
}

/// The compact text of object members, from the first member on.
proof fn lemma_members_front(s: Seq<(String, JsonValue)>)
    requires
        s.len() > 0,
    ensures
        compact_members(s) == quoted(s[0].0@) + seq![':'] + compact(s[0].1) + if s.len() == 1 {
            Seq::<char>::empty()
        } else {
            seq![','] + compact_members(s.drop_first())
        },
        member_trees(s) == seq![(s[0].0@, tree(s[0].1))] + member_trees(s.drop_first()),
        members_floats_plain(s) ==> floats_plain(s[0].1) && members_floats_plain(s.drop_first()),
    decreases s.len(),
{
    if s.len() == 1 {
        assert(s.drop_first() =~= Seq::<(String, JsonValue)>::empty());
        assert(s.drop_last() =~= Seq::<(String, JsonValue)>::empty());
        assert(compact_members(s) =~= quoted(s[0].0@) + seq![':'] + compact(s[0].1) + Seq::<char>::empty());
        assert(member_trees(s) =~= seq![(s[0].0@, tree(s[0].1))] + member_trees(s.drop_first()));
    } else {
        let init = s.drop_last();
        lemma_members_front(init);
        assert(init.drop_first() =~= s.drop_first().drop_last());
        assert(s.drop_first().last() == s.last());
        assert(init[0] == s[0]);
        if s.len() == 2 {
            assert(s.drop_first().drop_last() =~= Seq::<(String, JsonValue)>::empty());
            assert(s.drop_first().len() == 1);
        }
        assert(compact_members(s) =~= quoted(s[0].0@) + seq![':'] + compact(s[0].1) + (seq![','] + compact_members(s.drop_first())));
        assert(member_trees(s) =~= seq![(s[0].0@, tree(s[0].1))] + member_trees(s.drop_first()));
    }
}

/// Text without quotes, backslashes or control characters is its own
/// escaped form.
pub proof fn lemma_plain_escape(s: Seq<char>)
    requires
        forall|i: int| 0 <= i < s.len() ==> (#[trigger] s[i] as int) >= 32 && s[i] != '"' && s[i] != '\\',
    ensures
        escape_text(s) == s,
    decreases s.len(),
{
    if s.len() > 0 {
        lemma_plain_escape(s.drop_last());
        assert(escape_char(s.last()) == seq![s.last()]);
        assert(s.drop_last() + seq![s.last()] =~= s);
    }
}

/// One member of an object, read from its key's literal, a `:`, the
/// value's text and what follows: a `}` ends the object, a `,` leads to
/// the next member.
pub proof fn lemma_member_step(k: Seq<char>, text: Seq<char>, value: JsonTree, after: Seq<char>, fuel: nat)
    requires
        parse_value(text + after, fuel) == Some((value, after)),
        after.len() > 0,
    ensures
        parse_members(quoted(k) + seq![':'] + text + after, fuel) == if after[0] == '}' {
            Some((seq![(k, value)], after.drop_first()))
        } else if after[0] == ',' && fuel > 0 {
            match parse_members(after.drop_first(), (fuel - 1) as nat) {
                Some((ms, r)) => Some((seq![(k, value)] + ms, r)),
                None => None,
            }
        } else {
            None
        },
{
    reveal_with_fuel(parse_value, 1);
    reveal_with_fuel(parse_items, 1);
    reveal_with_fuel(parse_members, 1);
    let x = quoted(k) + seq![':'] + text + after;
    let r = seq![':'] + text + after;
    assert(x[0] == '"');
    assert(x.drop_first() =~= escape_text(k) + seq!['"'] + r);
    lemma_string_back(k, r);
    assert(r.drop_first() =~= text + after);
}

/// The compact text of a value, followed by what may follow a value, is
/// read back as the value and what follows; the text starts with neither
/// `]` nor `}` nor `,`.
pub proof fn lemma_value_back(v: JsonValue, rest: Seq<char>, fuel: nat)
    requires
        floats_plain(v),
        may_follow(rest),
        fuel >= compact(v).len(),
    ensures
        parse_value(compact(v) + rest, fuel) == Some((tree(v), rest)),
        compact(v).len() > 0,
        compact(v)[0] != ']' && compact(v)[0] != '}' && compact(v)[0] != ',',
    decreases v,
{
    reveal_with_fuel(parse_value, 1);
    reveal_with_fuel(parse_items, 1);
    reveal_with_fuel(parse_members, 1);
    let c = compact(v);
    let x = c + rest;
    match v {
        JsonValue::Null => {
            reveal_strlit("null");
            assert(x.take(4) =~= "null"@);
            assert(x.skip(4) =~= rest);
        },
        JsonValue::Bool(b) => {
            reveal_strlit("true");
            reveal_strlit("false");
            if b {
                assert(x.take(4) =~= "true"@);
                assert(x.skip(4) =~= rest);
            } else {
                assert(x.take(5) =~= "false"@);
                assert(x.skip(5) =~= rest);
            }
        },
        JsonValue::Number(JsonNumber::Int(i)) => {
            lemma_int_text_back(i as int, rest);
            assert(x[0] == c[0]);
            assert(x.take(c.len() as int) =~= c);
            assert(x.skip(c.len() as int) =~= rest);
        },
        JsonValue::Number(JsonNumber::UInt(u)) => {
            lemma_int_text_back(u as int, rest);
            assert(int_text(u as int) == nat_text(u as nat));
            assert(x[0] == c[0]);
            assert(x.take(c.len() as int) =~= c);
            assert(x.skip(c.len() as int) =~= rest);
        },
        JsonValue::Number(JsonNumber::Float(f)) => {
            lemma_number_run(c, rest);
            assert(is_num_char(c[0]));
            assert(x[0] == c[0]);
            assert(x.take(c.len() as int) =~= c);
            assert(x.skip(c.len() as int) =~= rest);
        },
        JsonValue::String(s) => {
            assert(x[0] == '"');
            assert(x.drop_first() =~= escape_text(s@) + seq!['"'] + rest);
            lemma_string_back(s@, rest);
        },
        JsonValue::Array(items) => {
            let s = items@;
            if s.len() == 0 {
                assert(c =~= seq!['[', ']']);
                assert(x.skip(2) =~= rest);
                assert(trees(s) =~= Seq::<JsonTree>::empty());
            } else {
                lemma_items_back(s, rest, (fuel - 1) as nat);
                assert(x[1] == compact_items(s)[0]);
                assert(x.drop_first() =~= compact_items(s) + seq![']'] + rest);
            }
        },
        JsonValue::Object(entries) => {
            let s = entries@;
            if s.len() == 0 {
                assert(c =~= seq!['{', '}']);
                assert(x.skip(2) =~= rest);
                assert(member_trees(s) =~= Seq::<(Seq<char>, JsonTree)>::empty());
            } else {
                lemma_members_back(s, rest, (fuel - 1) as nat);
                assert(x[1] == compact_members(s)[0]);
                assert(x.drop_first() =~= compact_members(s) + seq!['}'] + rest);
            }
        },
    }
}

/// The compact text of some array items, a `]` and anything after it are
/// read back as the items and what follows.
proof fn lemma_items_back(s: Seq<JsonValue>, rest: Seq<char>, fuel: nat)
    requires
        s.len() > 0,
        items_floats_plain(s),
        fuel >= compact_items(s).len(),
    ensures
        parse_items(compact_items(s) + seq![']'] + rest, fuel) == Some((trees(s), rest)),
        compact_items(s).len() > 0,
        compact_items(s)[0] != ']',
    decreases s,
{
    reveal_with_fuel(parse_value, 1);
    reveal_with_fuel(parse_items, 1);
    reveal_with_fuel(parse_members, 1);
    lemma_items_front(s);
    let c0 = compact(s[0]);
    let x = compact_items(s) + seq![']'] + rest;
    if s.len() == 1 {
        let after = seq![']'] + rest;
        assert(compact_items(s) =~= c0);
        assert(x =~= c0 + after);
        lemma_value_back(s[0], after, fuel);
        assert(after.drop_first() =~= rest);
        assert(trees(s.drop_first()) =~= Seq::<JsonTree>::empty());
        assert(trees(s) =~= seq![tree(s[0])]);
    } else {
        let tail = s.drop_first();
        let after = seq![','] + compact_items(tail) + seq![']'] + rest;
        assert(x =~= c0 + after);
        lemma_value_back(s[0], after, fuel);
        lemma_items_back(tail, rest, (fuel - 1) as nat);
        assert(after.drop_first() =~= compact_items(tail) + seq![']'] + rest);
    }
    assert(compact_items(s)[0] == c0[0]);
}

/// The compact text of some object members, a `}` and anything after it
/// are read back as the members and what follows.
proof fn lemma_members_back(s: Seq<(String, JsonValue)>, rest: Seq<char>, fuel: nat)
    requires
        s.len() > 0,
        members_floats_plain(s),
        fuel >= compact_members(s).len(),
    ensures
        parse_members(compact_members(s) + seq!['}'] + rest, fuel) == Some((member_trees(s), rest)),
        compact_members(s).len() > 0,
        compact_members(s)[0] == '"',
    decreases s,
{
    lemma_members_front(s);
    let k = s[0].0@;
    let c0 = compact(s[0].1);
    let x = compact_members(s) + seq!['}'] + rest;
    if s.len() == 1 {
        let after = seq!['}'] + rest;
        assert(x =~= quoted(k) + seq![':'] + c0 + after);
        lemma_value_back(s[0].1, after, fuel);
        lemma_member_step(k, c0, tree(s[0].1), after, fuel);
        assert(after.drop_first() =~= rest);
        assert(member_trees(s.drop_first()) =~= Seq::<(Seq<char>, JsonTree)>::empty());
        assert(member_trees(s) =~= seq![(k, tree(s[0].1))]);
    } else {
        let tail = s.drop_first();
        let after = seq![','] + compact_members(tail) + seq!['}'] + rest;
        assert(x =~= quoted(k) + seq![':'] + c0 + after);
        lemma_value_back(s[0].1, after, fuel);
        lemma_members_back(tail, rest, (fuel - 1) as nat);
        lemma_member_step(k, c0, tree(s[0].1), after, fuel);
        assert(after.drop_first() =~= compact_members(tail) + seq!['}'] + rest);
    }
    assert(compact_members(s)[0] == quoted(k)[0]);
}

/// Law: the compact text of a value reads back as the value, unless the
/// text of a float in it is not a plain number that reads back as that
/// float.
pub proof fn compact_parses_back(v: JsonValue)
    requires
        floats_plain(v),
    ensures
        parse_json(compact(v)) == Some(tree(v)),
{
    lemma_value_back(v, Seq::empty(), compact(v).len());
    assert(compact(v) + Seq::<char>::empty() =~= compact(v));
}

/// A string literal followed by anything is read back as the string and
/// what follows.
pub proof fn lemma_str_value(s: Seq<char>, rest: Seq<char>, fuel: nat)
    requires
        fuel > 0,
    ensures
        parse_value(quoted(s) + rest, fuel) == Some((JsonTree::Str(s), rest)),
{
    reveal_with_fuel(parse_value, 1);
    reveal_with_fuel(parse_items, 1);
    reveal_with_fuel(parse_members, 1);
    let x = quoted(s) + rest;
    assert(x[0] == '"');
    assert(x.drop_first() =~= escape_text(s) + seq!['"'] + rest);
    lemma_string_back(s, rest);
}

/// An object's text, from its `{` on, is read as the members that follow
/// it.
pub proof fn lemma_object_back(body: Seq<char>, fuel: nat)
    requires
        fuel > 0,
        body.len() > 0,
        body[0] == '"',
    ensures
        parse_value(seq!['{'] + body, fuel) == match parse_members(body, (fuel - 1) as nat) {
            Some((ms, r)) => Some((JsonTree::Object(ms), r)),
            None => None,
        },
{
    reveal_with_fuel(parse_value, 1);
    reveal_with_fuel(parse_items, 1);
    reveal_with_fuel(parse_members, 1);
    let x = seq!['{'] + body;
    assert(x[1] == body[0]);
    assert(x.drop_first() =~= body);
}

} // verus!
