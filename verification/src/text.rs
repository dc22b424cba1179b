//! Decimal rendering of integers and small string utilities.
use vstd::prelude::*;

verus! {

/// The character of a decimal digit `d` (`0 <= d < 10`).
pub open spec fn digit_char(d: int) -> char {
    (48 + d) as char
}

/// Decimal text of a natural number, without sign or leading zeros.
pub open spec fn nat_text(n: nat) -> Seq<char>
    decreases n,
{
    if n < 10 {
        seq![digit_char(n as int)]
    } else {
        nat_text((n / 10) as nat).push(digit_char((n % 10) as int))
    }
}

/// Decimal text of an integer, with a leading `-` for negative values.
pub open spec fn int_text(i: int) -> Seq<char> {
    if i < 0 {
        seq!['-'] + nat_text((-i) as nat)
    } else {
        nat_text(i as nat)
    }
}

/// Appends one character to a string with std's `String::push`. The
/// contract claims what std documents: the text afterwards is the text
/// before followed by `c`.
#[verifier::external_body]
pub(crate) fn push_char(s: &mut String, c: char)
    ensures
        final(s)@ == old(s)@.push(c),
{
    s.push(c);
}

/// The digit character for `d < 10`.
pub fn digit(d: u128) -> (c: char)
    requires
        d < 10,
    ensures
        c == digit_char(d as int),
{
    ((d as u8) + 48u8) as char
}

/// Decimal text of an unsigned 64-bit value.
pub fn u64_to_string(n: u64) -> (r: String)
    ensures
        r@ == nat_text(n as nat),
{
    u128_to_string(n as u128)
}

/// Decimal text of an unsigned 128-bit value.
pub fn u128_to_string(n: u128) -> (r: String)
    ensures
        r@ == nat_text(n as nat),
{
    let mut digits: Vec<char> = Vec::new();
    let mut m: u128 = n;
    // digits are collected least significant first
    loop
        invariant
            m <= n,
            nat_text(n as nat) == nat_text(m as nat) + digits@.reverse(),
            m == n || m > 0,
        ensures
            m < 10,
            nat_text(n as nat) == nat_text(m as nat) + digits@.reverse(),
        decreases m,
    {
        if m < 10 {
            break;
        }
        let c = digit(m % 10);
        proof {
            assert(c == digit_char((m % 10) as int));
            assert(nat_text(m as nat) == nat_text((m / 10) as nat).push(c));
            assert(digits@.push(c).reverse() =~= seq![c] + digits@.reverse());
            assert(nat_text((m / 10) as nat) + (seq![c] + digits@.reverse()) =~= nat_text((m / 10) as nat).push(c) + digits@.reverse());
        }
        digits.push(c);
        m = m / 10;
    }
    let mut r = String::new();
    let c0 = digit(m);
    proof {
        assert(nat_text(m as nat) == seq![digit_char(m as int)]);
    }
    push_char(&mut r, c0);
    let mut i: usize = digits.len();
    while i > 0
        invariant
            i <= digits.len(),
            r@ + digits@.subrange(0, i as int).reverse() == nat_text(n as nat),
        decreases i,
    {
        i = i - 1;
        let c = digits[i];
        proof {
            assert(digits@.subrange(0, i + 1).reverse() =~= seq![c] + digits@.subrange(0, i as int).reverse());
        }
        push_char(&mut r, c);
    }
    proof {
        assert(digits@.subrange(0, 0).reverse() =~= Seq::<char>::empty());
        assert(r@ =~= r@ + Seq::<char>::empty());
    }
    r
}

/// Decimal text of a signed 64-bit value.
pub fn i64_to_string(n: i64) -> (r: String)
    ensures
        r@ == int_text(n as int),
{
    i128_to_string(n as i128)
}

/// Decimal text of a signed 128-bit value.
pub fn i128_to_string(n: i128) -> (r: String)
    ensures
        r@ == int_text(n as int),
{
    if n < 0 {
        let m: u128 = ((-(n + 1)) as u128) + 1;
        let digits = u128_to_string(m);
        let mut r = String::new();
        push_char(&mut r, '-');
        r.append(digits.as_str());
        proof {
            assert(r@ =~= seq!['-'] + nat_text((-n) as nat));
        }
        r
    } else {
        u128_to_string(n as u128)
    }
}

/// The characters of a string slice, in order.
pub fn chars_of(s: &str) -> (r: Vec<char>)
    ensures
        r@ == s@,
{
    let mut r: Vec<char> = Vec::new();
    for c in it: s.chars()
        invariant
            r@ == it.seq().take(it.index() as int),
            it.seq() == s@,
    {
        r.push(c);
    }
    r
}

/// The parts joined with `sep` between neighbours.
pub open spec fn join(parts: Seq<Seq<char>>, sep: Seq<char>) -> Seq<char>
    decreases parts.len(),
{
    if parts.len() == 0 {
        Seq::empty()
    } else if parts.len() == 1 {
        parts[0]
    } else {
        join(parts.drop_last(), sep) + sep + parts.last()
    }
}

/// The texts of a list of strings.
pub open spec fn texts(v: Seq<String>) -> Seq<Seq<char>> {
    v.map_values(|s: String| s@)
}

/// The texts of string slices.
pub open spec fn str_texts(v: Seq<&str>) -> Seq<Seq<char>> {
    v.map_values(|s: &str| s@)
}

/// Joins strings with `sep` between neighbours.
pub fn join_strings(parts: &[String], sep: &str) -> (r: String)
    ensures
        r@ == join(texts(parts@), sep@),
{
    let mut out = String::new();
    let mut i: usize = 0;
    while i < parts.len()
        invariant
            i <= parts.len(),
            out@ == join(texts(parts@.take(i as int)), sep@),
        decreases parts.len() - i,
    {
        if i > 0 {
            out.append(sep);
        }
        out.append(parts[i].as_str());
        proof {
            assert(texts(parts@.take(i + 1)).drop_last() =~= texts(parts@.take(i as int)));
            assert(texts(parts@.take(i + 1)).last() == parts@[i as int]@);
            if i == 0 {
                assert(texts(parts@.take(1)) =~= seq![parts@[0]@]);
            }
        }
        i = i + 1;
    }
    proof {
        assert(parts@.take(parts.len() as int) =~= parts@);
    }
    out
}

/// A copy of a list of strings.
pub fn clone_strings(v: &Vec<String>) -> (r: Vec<String>)
    ensures
        r@ == v@,
{
    let mut out: Vec<String> = Vec::new();
    let mut i: usize = 0;
    while i < v.len()
        invariant
            i <= v.len(),
            out@ == v@.take(i as int),
        decreases v.len() - i,
    {
        out.push(v[i].clone());
        proof {
            assert(out@ =~= v@.take(i + 1));
        }
        i = i + 1;
    }
    proof {
        assert(v@.take(v.len() as int) =~= v@);
    }
    out
}

/// The string of the first `n` characters of a list.
pub fn prefix_string(chars: &Vec<char>, n: usize) -> (r: String)
    requires
        n <= chars.len(),
    ensures
        r@ == chars@.take(n as int),
{
    let mut out = String::new();
    let mut i: usize = 0;
    while i < n
        invariant
            i <= n,
            n <= chars.len(),
            out@ == chars@.take(i as int),
        decreases n - i,
    {
        push_char(&mut out, chars[i]);
        proof {
            assert(out@ =~= chars@.take(i + 1));
        }
        i = i + 1;
    }
    out
}

/// Whether two texts are the same.
pub fn same_text(a: &str, b: &str) -> (r: bool)
    ensures
        r == (a@ == b@),
{
    let x = chars_of(a);
    let y = chars_of(b);
    if x.len() != y.len() {
        return false;
    }
    let mut i: usize = 0;
    while i < x.len()
        invariant
            i <= x.len(),
            x.len() == y.len(),
            x@ == a@,
            y@ == b@,
            forall|j: int| 0 <= j < i ==> x@[j] == y@[j],
        decreases x.len() - i,
    {
        if x[i] != y[i] {
            return false;
        }
        i = i + 1;
    }
    proof {
        assert(a@ =~= b@);
    }
    true
}

} // verus!
