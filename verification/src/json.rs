//! The JSON values that the API returns and that the program prints,
//! what they are as mathematics, and the lookups the formatters use.
use vstd::prelude::*;

use crate::text::same_text;

verus! {

/// A JSON number: an integer that fits `i64`, a larger non-negative
/// integer, or a floating-point number held as its JSON text.
#[derive(Debug)]
pub enum JsonNumber {
    Int(i64),
    UInt(u64),
    Float(String),
}

/// A JSON value. Object members keep the order in which they are stored,
/// which is the order in which they are printed.
#[derive(Debug)]
pub enum JsonValue {
    Null,
    Bool(bool),
    Number(JsonNumber),
    String(String),
    Array(Vec<JsonValue>),
    Object(Vec<(String, JsonValue)>),
}

/// What a JSON value is, as mathematics: its strings as texts and its
/// numbers as integers (or, for floats, as their text).
pub enum JsonTree {
    Null,
    Bool(bool),
    Int(int),
    Float(Seq<char>),
    Str(Seq<char>),
    Array(Seq<JsonTree>),
    Object(Seq<(Seq<char>, JsonTree)>),
}

/// The mathematical value of a JSON value.
pub open spec fn tree(v: JsonValue) -> JsonTree
    decreases v,
{
    match v {
        JsonValue::Null => JsonTree::Null,
        JsonValue::Bool(b) => JsonTree::Bool(b),
        JsonValue::Number(JsonNumber::Int(i)) => JsonTree::Int(i as int),
        JsonValue::Number(JsonNumber::UInt(u)) => JsonTree::Int(u as int),
        JsonValue::Number(JsonNumber::Float(f)) => JsonTree::Float(f@),
        JsonValue::String(s) => JsonTree::Str(s@),
        JsonValue::Array(items) => JsonTree::Array(trees(items@)),
        JsonValue::Object(entries) => JsonTree::Object(member_trees(entries@)),
    }
}

/// The mathematical values of a list of JSON values.
pub open spec fn trees(s: Seq<JsonValue>) -> Seq<JsonTree>
    decreases s,
{
    if s.len() == 0 {
        Seq::empty()
    } else {
        trees(s.drop_last()).push(tree(s.last()))
    }
}

/// The mathematical values of object members: names as texts.
pub open spec fn member_trees(s: Seq<(String, JsonValue)>) -> Seq<(Seq<char>, JsonTree)>
    decreases s,
{
    if s.len() == 0 {
        Seq::empty()
    } else {
        member_trees(s.drop_last()).push((s.last().0@, tree(s.last().1)))
    }
}

/// `member_trees` keeps the length and maps each member on its own.
pub proof fn lemma_member_trees_index(s: Seq<(String, JsonValue)>)
    ensures
        member_trees(s).len() == s.len(),
        forall|j: int| 0 <= j < s.len() ==> #[trigger] member_trees(s)[j] == (s[j].0@, tree(s[j].1)),
    decreases s.len(),
{
    if s.len() > 0 {
        lemma_member_trees_index(s.drop_last());
    }
}

/// Members mapped on their own are equal where the members are.
pub proof fn lemma_member_trees_ext(s: Seq<(String, JsonValue)>, t: Seq<(Seq<char>, JsonTree)>)
    requires
        s.len() == t.len(),
        forall|j: int| 0 <= j < s.len() ==> #[trigger] t[j] == (s[j].0@, tree(s[j].1)),
    ensures
        member_trees(s) == t,
{
    lemma_member_trees_index(s);
    assert(member_trees(s) =~= t);
}

/// Appending a value appends its mathematical value.
pub proof fn lemma_trees_push(s: Seq<JsonValue>, x: JsonValue)
    ensures
        trees(s.push(x)) == trees(s).push(tree(x)),
{
    assert(s.push(x).drop_last() =~= s);
}

/// The value of the first member named `key`, if any.
pub open spec fn lookup(entries: Seq<(String, JsonValue)>, key: Seq<char>) -> Option<JsonValue>
    decreases entries.len(),
{
    if entries.len() == 0 {
        None
    } else if entries[0].0@ == key {
        Some(entries[0].1)
    } else {
        lookup(entries.drop_first(), key)
    }
}

/// Member `key` of an object; `None` for a missing member or a non-object.
pub open spec fn get_spec(v: JsonValue, key: Seq<char>) -> Option<JsonValue> {
    match v {
        JsonValue::Object(entries) => lookup(entries@, key),
        _ => None,
    }
}

/// The text of a string value.
pub open spec fn as_str_spec(v: JsonValue) -> Option<Seq<char>> {
    match v {
        JsonValue::String(s) => Some(s@),
        _ => None,
    }
}

/// The value of a boolean.
pub open spec fn as_bool_spec(v: JsonValue) -> Option<bool> {
    match v {
        JsonValue::Bool(b) => Some(b),
        _ => None,
    }
}

/// The value of an integer that fits `i64`.
pub open spec fn as_i64_spec(v: JsonValue) -> Option<int> {
    match v {
        JsonValue::Number(JsonNumber::Int(i)) => Some(i as int),
        JsonValue::Number(JsonNumber::UInt(u)) => if u <= i64::MAX {
            Some(u as int)
        } else {
            None
        },
        _ => None,
    }
}

/// Member `key` of `v`, read as a string.
pub open spec fn str_member(v: JsonValue, key: Seq<char>) -> Option<Seq<char>> {
    match get_spec(v, key) {
        Some(m) => as_str_spec(m),
        None => None,
    }
}

/// Member `key` of `v`, read as an integer that fits `i64`.
pub open spec fn i64_member(v: JsonValue, key: Seq<char>) -> Option<int> {
    match get_spec(v, key) {
        Some(m) => as_i64_spec(m),
        None => None,
    }
}

/// Member `key` of `v`, read as a boolean.
pub open spec fn bool_member(v: JsonValue, key: Seq<char>) -> Option<bool> {
    match get_spec(v, key) {
        Some(m) => as_bool_spec(m),
        None => None,
    }
}

impl JsonValue {
    /// Member `key` of an object (`None` for a non-object or a missing member).
    pub fn get(&self, key: &str) -> (r: Option<&JsonValue>)
        ensures
            match r {
                Some(m) => get_spec(*self, key@) == Some(*m),
                None => get_spec(*self, key@) is None,
            },
    {
        match self {
            JsonValue::Object(entries) => {
                let mut i: usize = 0;
                proof {
                    assert(entries@.subrange(0, entries.len() as int) =~= entries@);
                }
                while i < entries.len()
                    invariant
                        i <= entries.len(),
                        *self == JsonValue::Object(*entries),
                        lookup(entries@, key@) == lookup(entries@.subrange(i as int, entries.len() as int), key@),
                    decreases entries.len() - i,
                {
                    let ghost rest = entries@.subrange(i as int, entries.len() as int);
                    if same_text(entries[i].0.as_str(), key) {
                        proof {
                            assert(rest.len() > 0);
                            assert(rest[0] == entries@[i as int]);
                            assert(rest[0].0@ == key@);
                            assert(lookup(rest, key@) == Some(rest[0].1));
                        }
                        return Some(&entries[i].1);
                    }
                    proof {
                        assert(rest.drop_first() =~= entries@.subrange(i + 1, entries.len() as int));
                    }
                    i = i + 1;
                }
                None
            },
            _ => None,
        }
    }

    /// The text of a string value.
    pub fn as_str(&self) -> (r: Option<&str>)
        ensures
            match r {
                Some(s) => as_str_spec(*self) == Some(s@),
                None => as_str_spec(*self) is None,
            },
    {
        match self {
            JsonValue::String(s) => Some(s.as_str()),
            _ => None,
        }
    }

    /// The value of a boolean.
    pub fn as_bool(&self) -> (r: Option<bool>)
        ensures
            r == as_bool_spec(*self),
    {
        match self {
            JsonValue::Bool(b) => Some(*b),
            _ => None,
        }
    }

    /// The value of an integer that fits `i64`.
    pub fn as_i64(&self) -> (r: Option<i64>)
        ensures
            match r {
                Some(i) => as_i64_spec(*self) == Some(i as int),
                None => as_i64_spec(*self) is None,
            },
    {
        match self {
            JsonValue::Number(JsonNumber::Int(i)) => Some(*i),
            JsonValue::Number(JsonNumber::UInt(u)) => if *u <= 9223372036854775807u64 {
                Some(*u as i64)
            } else {
                None
            },
            _ => None,
        }
    }

    /// The items of an array.
    pub fn as_array(&self) -> (r: Option<&Vec<JsonValue>>)
        ensures
            match r {
                Some(items) => *self == JsonValue::Array(*items),
                None => !(*self is Array),
            },
    {
        match self {
            JsonValue::Array(items) => Some(items),
            _ => None,
        }
    }

    /// Whether the value is `null`.
    pub fn is_null(&self) -> (r: bool)
        ensures
            r == (*self is Null),
    {
        match self {
            JsonValue::Null => true,
            _ => false,
        }
    }
}

} // verus!
