//! What a command shows of the data of an answer: the field it asked for,
//! with the names the API writes in camelCase given in snake_case (as the
//! response types are serialized), members by name in ascending order,
//! and each OIDC publisher tagged with its type.
use vstd::prelude::*;

use crate::json::{
    get_spec, lemma_member_trees_ext, lemma_member_trees_index, lemma_trees_push, member_trees, tree, trees, JsonNumber,
    JsonTree, JsonValue,
};
use crate::json_map::{insert_member, insert_sorted, keys_sorted, lemma_insert_keeps_sorted, lemma_insert_values, member_value};
use crate::text::{chars_of, push_char, same_text, str_texts};

verus! {

/// Whether a character is an ASCII capital letter.
pub open spec fn is_capital(c: char) -> bool {
    'A' <= c && c <= 'Z'
}

/// A name in camelCase as in snake_case: each capital letter becomes `_`
/// and its small letter.
pub open spec fn snake_text(s: Seq<char>) -> Seq<char>
    decreases s.len(),
{
    if s.len() == 0 {
        Seq::empty()
    } else if is_capital(s.last()) {
        snake_text(s.drop_last()) + seq!['_', ((s.last() as u32) + 32) as char]
    } else {
        snake_text(s.drop_last()).push(s.last())
    }
}

/// The fields whose values are JSON documents of their own, shown as the
/// API wrote them.
pub open spec fn is_opaque_field(k: Seq<char>) -> bool {
    ||| k == "rawIndex"@
    ||| k == "rawAbout"@
    ||| k == "rawRunExports"@
    ||| k == "repoDataPatches"@
    ||| k == "payload"@
    ||| k == "results"@
}

/// The kinds of OIDC publisher that are shown with their fields.
pub open spec fn is_publisher_kind(k: Seq<char>) -> bool {
    k == "GithubPublisher"@ || k == "GitlabPublisher"@ || k == "GooglePublisher"@
}

/// How a value of an answer is shown.
pub open spec fn shape(t: JsonTree) -> JsonTree
    decreases t,
{
    match t {
        JsonTree::Array(items) => JsonTree::Array(shape_items(items)),
        JsonTree::Object(ms) => match member_value(ms, "__typename"@) {
            Some(JsonTree::Str(kind)) => if is_publisher_kind(kind) {
                JsonTree::Object(seq![(kind, JsonTree::Object(shape_members(ms, true)))])
            } else {
                JsonTree::Str("Unknown"@)
            },
            _ => JsonTree::Object(shape_members(ms, false)),
        },
        _ => t,
    }
}

/// How the items of an array are shown.
pub open spec fn shape_items(s: Seq<JsonTree>) -> Seq<JsonTree>
    decreases s,
{
    if s.len() == 0 {
        Seq::empty()
    } else {
        shape_items(s.drop_last()).push(shape(s.last()))
    }
}

/// How the members of an object are shown: by their snake_case names in
/// ascending order (a later member taking the place of an earlier one of
/// the same name), without `__typename` where `tagged`.
pub open spec fn shape_members(ms: Seq<(Seq<char>, JsonTree)>, tagged: bool) -> Seq<(Seq<char>, JsonTree)>
    decreases ms,
{
    if ms.len() == 0 {
        Seq::empty()
    } else if tagged && ms.last().0 == "__typename"@ {
        shape_members(ms.drop_last(), tagged)
    } else {
        insert_sorted(
            shape_members(ms.drop_last(), tagged),
            snake_text(ms.last().0),
            if is_opaque_field(ms.last().0) { ms.last().1 } else { shape(ms.last().1) },
        )
    }
}

/// A name in snake_case.
fn snake_string(s: &str) -> (r: String)
    ensures
        r@ == snake_text(s@),
{
    let chars = chars_of(s);
    let mut out = String::new();
    let mut i: usize = 0;
    while i < chars.len()
        invariant
            i <= chars.len(),
            chars@ == s@,
            out@ == snake_text(s@.take(i as int)),
        decreases chars.len() - i,
    {
        let c = chars[i];
        proof {
            assert(s@.take(i + 1).drop_last() =~= s@.take(i as int));
            assert(s@.take(i + 1).last() == c);
        }
        if 'A' <= c && c <= 'Z' {
            push_char(&mut out, '_');
            let code: u32 = c as u32;
            let small_code: u8 = (code + 32) as u8;
            let small = small_code as char;
            assert(small_code as int == code + 32);
            push_char(&mut out, small);
            proof {
                assert(out@ =~= snake_text(s@.take(i as int)) + seq!['_', ((c as u32) + 32) as char]);
            }
        } else {
            push_char(&mut out, c);
        }
        i = i + 1;
    }
    proof {
        assert(s@.take(chars.len() as int) =~= s@);
    }
    out
}

/// A copy of a JSON value.
pub fn copy_json(v: &JsonValue) -> (r: JsonValue)
    ensures
        tree(r) == tree(*v),
    decreases v,
{
    match v {
        JsonValue::Null => JsonValue::Null,
        JsonValue::Bool(b) => JsonValue::Bool(*b),
        JsonValue::Number(JsonNumber::Int(i)) => JsonValue::Number(JsonNumber::Int(*i)),
        JsonValue::Number(JsonNumber::UInt(u)) => JsonValue::Number(JsonNumber::UInt(*u)),
        JsonValue::Number(JsonNumber::Float(f)) => JsonValue::Number(JsonNumber::Float(f.clone())),
        JsonValue::String(s) => JsonValue::String(s.clone()),
        JsonValue::Array(items) => {
            let mut out: Vec<JsonValue> = Vec::new();
            let mut i: usize = 0;
            while i < items.len()
                invariant
                    i <= items.len(),
                    *v == JsonValue::Array(*items),
                    trees(out@) == trees(items@.take(i as int)),
                decreases items.len() - i,
            {
                proof {
                    assert(decreases_to!(*v => (*v)->Array_0));
                    assert(decreases_to!(*items => items@));
                    assert(decreases_to!(items@ => items@[i as int]));
                }
                let x = copy_json(&items[i]);
                let ghost before = out@;
                out.push(x);
                proof {
                    lemma_trees_push(before, x);
                    assert(items@.take(i + 1).drop_last() =~= items@.take(i as int));
                }
                i = i + 1;
            }
            proof {
                assert(items@.take(items.len() as int) =~= items@);
            }
            JsonValue::Array(out)
        },
        JsonValue::Object(entries) => {
            let mut out: Vec<(String, JsonValue)> = Vec::new();
            let mut i: usize = 0;
            while i < entries.len()
                invariant
                    i <= entries.len(),
                    *v == JsonValue::Object(*entries),
                    member_trees(out@) == member_trees(entries@.take(i as int)),
                decreases entries.len() - i,
            {
                proof {
                    assert(decreases_to!(*v => (*v)->Object_0));
                    assert(decreases_to!(*entries => entries@));
                    assert(decreases_to!(entries@ => entries@[i as int]));
                    assert(decreases_to!(entries@[i as int] => entries@[i as int].1));
                }
                let x = copy_json(&entries[i].1);
                let ghost before = out@;
                let member = (entries[i].0.clone(), x);
                out.push(member);
                proof {
                    assert(out@.drop_last() =~= before);
                    assert(entries@.take(i + 1).drop_last() =~= entries@.take(i as int));
                }
                i = i + 1;
            }
            proof {
                assert(entries@.take(entries.len() as int) =~= entries@);
            }
            JsonValue::Object(out)
        },
    }
}

/// Where the first member named `key` is, if any.
fn find_member(entries: &Vec<(String, JsonValue)>, key: &str) -> (r: Option<usize>)
    ensures
        match r {
            Some(j) => j < entries.len() && entries@[j as int].0@ == key@
                && member_value(member_trees(entries@), key@) == Some(tree(entries@[j as int].1)),
            None => member_value(member_trees(entries@), key@) is None,
        },
{
    let ghost t = member_trees(entries@);
    proof {
        lemma_member_trees_index(entries@);
        assert(t.skip(0) =~= t);
    }
    let mut i: usize = 0;
    while i < entries.len()
        invariant
            i <= entries.len(),
            t == member_trees(entries@),
            t.len() == entries@.len(),
            forall|j: int| 0 <= j < entries@.len() ==> #[trigger] t[j] == (entries@[j].0@, tree(entries@[j].1)),
            member_value(t, key@) == member_value(t.skip(i as int), key@),
        decreases entries.len() - i,
    {
        proof {
            assert(t.skip(i as int)[0] == t[i as int]);
            assert(t.skip(i as int).drop_first() =~= t.skip(i + 1));
        }
        if same_text(entries[i].0.as_str(), key) {
            return Some(i);
        }
        i = i + 1;
    }
    None
}

/// Whether a field is one whose value is shown as the API wrote it.
fn opaque_field(k: &str) -> (r: bool)
    ensures
        r == is_opaque_field(k@),
{
    same_text(k, "rawIndex") || same_text(k, "rawAbout") || same_text(k, "rawRunExports") || same_text(k, "repoDataPatches")
        || same_text(k, "payload") || same_text(k, "results")
}

/// How a value of an answer is shown (see `shape`).
pub fn response_value(v: &JsonValue) -> (r: JsonValue)
    ensures
        tree(r) == shape(tree(*v)),
    decreases v,
{
    match v {
        JsonValue::Array(items) => {
            let mut out: Vec<JsonValue> = Vec::new();
            let mut i: usize = 0;
            while i < items.len()
                invariant
                    i <= items.len(),
                    *v == JsonValue::Array(*items),
                    trees(out@) == shape_items(trees(items@.take(i as int))),
                decreases items.len() - i,
            {
                proof {
                    assert(decreases_to!(*v => (*v)->Array_0));
                    assert(decreases_to!(*items => items@));
                    assert(decreases_to!(items@ => items@[i as int]));
                }
                let x = response_value(&items[i]);
                let ghost before = out@;
                out.push(x);
                proof {
                    lemma_trees_push(before, x);
                    assert(items@.take(i + 1).drop_last() =~= items@.take(i as int));
                    let ts = trees(items@.take(i + 1));
                    assert(ts.drop_last() == trees(items@.take(i as int)));
                    assert(ts.last() == tree(items@[i as int]));
                }
                i = i + 1;
            }
            proof {
                assert(items@.take(items.len() as int) =~= items@);
            }
            JsonValue::Array(out)
        },
        JsonValue::Object(entries) => {
            proof {
                assert(decreases_to!(*v => (*v)->Object_0));
            }
            let ghost ms = member_trees(entries@);
            assert(tree(*v) == JsonTree::Object(ms));
            match find_member(entries, "__typename") {
                Some(j) => match &entries[j].1 {
                    JsonValue::String(kind) => {
                        assert(member_value(ms, "__typename"@) == Some(JsonTree::Str(kind@)));
                        if same_text(kind.as_str(), "GithubPublisher") || same_text(kind.as_str(), "GitlabPublisher")
                            || same_text(kind.as_str(), "GooglePublisher") {
                            let inner = shape_object(entries, true);
                            let mut tagged: Vec<(String, JsonValue)> = Vec::new();
                            let member = (kind.clone(), JsonValue::Object(inner));
                            tagged.push(member);
                            proof {
                                assert(tagged@[0] == member);
                                assert(tree(member.1) == JsonTree::Object(shape_members(ms, true)));
                                lemma_member_trees_ext(tagged@, seq![(kind@, JsonTree::Object(shape_members(ms, true)))]);
                            }
                            JsonValue::Object(tagged)
                        } else {
                            JsonValue::String(String::from_str("Unknown"))
                        }
                    },
                    _ => JsonValue::Object(shape_object(entries, false)),
                },
                None => JsonValue::Object(shape_object(entries, false)),
            }
        },
        _ => copy_json(v),
    }
}

/// How the members of an object are shown (see `shape_members`).
fn shape_object(entries: &Vec<(String, JsonValue)>, tagged: bool) -> (r: Vec<(String, JsonValue)>)
    ensures
        member_trees(r@) == shape_members(member_trees(entries@), tagged),
    decreases entries,
{
    let ghost t = member_trees(entries@);
    proof {
        lemma_member_trees_index(entries@);
    }
    let mut out: Vec<(String, JsonValue)> = Vec::new();
    let mut i: usize = 0;
    while i < entries.len()
        invariant
            i <= entries.len(),
            t == member_trees(entries@),
            t.len() == entries@.len(),
            forall|j: int| 0 <= j < entries@.len() ==> #[trigger] t[j] == (entries@[j].0@, tree(entries@[j].1)),
            member_trees(out@) == shape_members(t.take(i as int), tagged),
        decreases entries.len() - i,
    {
        let key = entries[i].0.as_str();
        proof {
            assert(t.take(i + 1).drop_last() =~= t.take(i as int));
            assert(t.take(i + 1).last() == t[i as int]);
        }
        if tagged && same_text(key, "__typename") {
        } else {
            let name = snake_string(key);
            let value = if opaque_field(key) {
                copy_json(&entries[i].1)
            } else {
                proof {
                    assert(decreases_to!(*entries => entries@));
                    assert(decreases_to!(entries@ => entries@[i as int]));
                    assert(decreases_to!(entries@[i as int] => entries@[i as int].1));
                }
                response_value(&entries[i].1)
            };
            insert_member(&mut out, name, value);
        }
        i = i + 1;
    }
    proof {
        assert(t.take(entries.len() as int) =~= t);
    }
    out
}

/// A path of one member name.
pub fn path1(a: &'static str) -> (r: Vec<&'static str>)
    ensures
        str_texts(r@) == seq![a@],
{
    let mut r: Vec<&'static str> = Vec::new();
    r.push(a);
    proof {
        assert(str_texts(r@) =~= seq![a@]);
    }
    r
}

/// A path of two member names.
pub fn path2(a: &'static str, b: &'static str) -> (r: Vec<&'static str>)
    ensures
        str_texts(r@) == seq![a@, b@],
{
    let mut r: Vec<&'static str> = Vec::new();
    r.push(a);
    r.push(b);
    proof {
        assert(str_texts(r@) =~= seq![a@, b@]);
    }
    r
}

/// The value at a path of member names, or the first name on the path
/// that is missing.
pub open spec fn value_at(v: JsonValue, path: Seq<Seq<char>>) -> Result<JsonValue, Seq<char>>
    decreases path.len(),
{
    if path.len() == 0 {
        Ok(v)
    } else {
        match get_spec(v, path[0]) {
            Some(x) => value_at(x, path.drop_first()),
            None => Err(path[0]),
        }
    }
}

/// What a command shows of the data of an answer: the value at the path
/// of its result, shaped; or, where a member on the path is missing, its
/// name.
pub fn result_at(data: &JsonValue, path: &[&str]) -> (r: Result<JsonValue, String>)
    ensures
        match value_at(*data, str_texts(path@)) {
            Ok(x) => r matches Ok(y) && tree(y) == shape(tree(x)),
            Err(name) => r matches Err(m) && m@ == name,
        },
{
    let ghost p = str_texts(path@);
    let mut cur: &JsonValue = data;
    let mut i: usize = 0;
    proof {
        assert(p.skip(0) =~= p);
    }
    while i < path.len()
        invariant
            i <= path.len(),
            p == str_texts(path@),
            p.len() == path@.len(),
            value_at(*data, p) == value_at(*cur, p.skip(i as int)),
        decreases path.len() - i,
    {
        proof {
            assert(p.skip(i as int)[0] == path@[i as int]@);
            assert(p.skip(i as int).drop_first() =~= p.skip(i + 1));
        }
        match cur.get(path[i]) {
            Some(x) => {
                cur = x;
            },
            None => {
                return Err(String::from_str(path[i]));
            },
        }
        i = i + 1;
    }
    proof {
        assert(p.skip(path.len() as int) =~= Seq::<Seq<char>>::empty());
    }
    Ok(response_value(cur))
}

/// Law: a name as shown has no capital letter left.
pub proof fn snake_names_have_no_capitals(s: Seq<char>)
    ensures
        forall|i: int| 0 <= i < snake_text(s).len() ==> !is_capital(#[trigger] snake_text(s)[i]),
    decreases s.len(),
{
    if s.len() > 0 {
        snake_names_have_no_capitals(s.drop_last());
        let prev = snake_text(s.drop_last());
        let c = s.last();
        if is_capital(c) {
            let small = ((c as u32) + 32) as char;
            assert(snake_text(s) == prev + seq!['_', small]);
            assert forall|i: int| 0 <= i < snake_text(s).len() implies !is_capital(#[trigger] snake_text(s)[i]) by {
                if i >= prev.len() {
                    if i == prev.len() + 1 {
                        assert(snake_text(s)[i] == small);
                        assert((small as u32) >= 97);
                    }
                }
            }
        }
    }
}

/// Law: the members of an object as shown are in strictly ascending order
/// of name, each name once.
pub proof fn shaped_members_sorted(ms: Seq<(Seq<char>, JsonTree)>, tagged: bool)
    ensures
        keys_sorted(shape_members(ms, tagged)),
    decreases ms.len(),
{
    if ms.len() > 0 {
        shaped_members_sorted(ms.drop_last(), tagged);
        if !(tagged && ms.last().0 == "__typename"@) {
            lemma_insert_keeps_sorted(
                shape_members(ms.drop_last(), tagged),
                snake_text(ms.last().0),
                if is_opaque_field(ms.last().0) { ms.last().1 } else { shape(ms.last().1) },
            );
        }
    }
}

/// Every member of an object, but a dropped `__typename`, is shown under
/// its snake_case name.
proof fn lemma_members_shown(ms: Seq<(Seq<char>, JsonTree)>, tagged: bool, i: int)
    requires
        0 <= i < ms.len(),
        !(tagged && ms[i].0 == "__typename"@),
    ensures
        member_value(shape_members(ms, tagged), snake_text(ms[i].0)) is Some,
    decreases ms.len(),
{
    let last = ms.len() - 1;
    let prev = shape_members(ms.drop_last(), tagged);
    if tagged && ms.last().0 == "__typename"@ {
        assert(i != last);
        lemma_members_shown(ms.drop_last(), tagged, i);
        assert(ms.drop_last()[i] == ms[i]);
    } else {
        let k = snake_text(ms.last().0);
        let x = if is_opaque_field(ms.last().0) { ms.last().1 } else { shape(ms.last().1) };
        lemma_insert_values(prev, k, x, snake_text(ms[i].0));
        if i < last {
            lemma_members_shown(ms.drop_last(), tagged, i);
            assert(ms.drop_last()[i] == ms[i]);
        }
    }
}

/// Law: an object of an answer tagged with its `__typename` is shown, for
/// a GitHub, GitLab or Google OIDC publisher, as one member named after
/// the kind whose value holds every other member under its snake_case
/// name, in ascending order; for any other kind, as `"Unknown"`.
pub proof fn publishers_shown_by_kind(v: JsonValue, r: JsonValue, kind: Seq<char>)
    requires
        tree(r) == shape(tree(v)),
        v matches JsonValue::Object(es) && member_value(member_trees(es@), "__typename"@) == Some(JsonTree::Str(kind)),
    ensures
        (kind == "GithubPublisher"@ || kind == "GitlabPublisher"@ || kind == "GooglePublisher"@) ==> {
            let inner = shape_members(member_trees(v->Object_0@), true);
            &&& tree(r) == JsonTree::Object(seq![(kind, JsonTree::Object(inner))])
            &&& keys_sorted(inner)
            &&& forall|i: int|
                0 <= i < member_trees(v->Object_0@).len() && member_trees(v->Object_0@)[i].0 != "__typename"@
                    ==> (#[trigger] member_value(inner, snake_text(member_trees(v->Object_0@)[i].0))) is Some
        },
        !(kind == "GithubPublisher"@ || kind == "GitlabPublisher"@ || kind == "GooglePublisher"@) ==> tree(r)
            == JsonTree::Str("Unknown"@),
{
    let ms = member_trees(v->Object_0@);
    if kind == "GithubPublisher"@ || kind == "GitlabPublisher"@ || kind == "GooglePublisher"@ {
        let inner = shape_members(ms, true);
        shaped_members_sorted(ms, true);
        assert forall|i: int| 0 <= i < ms.len() && ms[i].0 != "__typename"@
            implies (#[trigger] member_value(inner, snake_text(ms[i].0))) is Some by {
            lemma_members_shown(ms, true, i);
        }
    }
}

} // verus!
