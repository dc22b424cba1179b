//! JSON objects kept as maps: members in ascending order of name, each
//! name once, as serde_json keeps them.
use vstd::prelude::*;

use crate::json::{lemma_member_trees_ext, lemma_member_trees_index, member_trees, tree, JsonTree, JsonValue};
use crate::text::{chars_of, same_text};

verus! {

/// Whether text `a` comes before text `b`: the order of `String`, by
/// characters (code points), a prefix first.
pub open spec fn text_before(a: Seq<char>, b: Seq<char>) -> bool
    decreases a.len(),
{
    if a.len() == 0 {
        b.len() > 0
    } else if b.len() == 0 {
        false
    } else if a[0] != b[0] {
        (a[0] as u32) < (b[0] as u32)
    } else {
        text_before(a.drop_first(), b.drop_first())
    }
}

/// Puts `(k, v)` into members kept by name: in place of the member named
/// `k`, else before the first member whose name comes after `k`, else at
/// the end. On members in ascending order of name, as all the ones built
/// here are, this is a map's insertion.
pub open spec fn insert_sorted(m: Seq<(Seq<char>, JsonTree)>, k: Seq<char>, v: JsonTree) -> Seq<(Seq<char>, JsonTree)>
    decreases m.len(),
{
    if m.len() == 0 {
        seq![(k, v)]
    } else if m[0].0 == k {
        m.update(0, (k, v))
    } else if text_before(k, m[0].0) {
        seq![(k, v)] + m
    } else {
        seq![m[0]] + insert_sorted(m.drop_first(), k, v)
    }
}

/// Whether members are in strictly ascending order of name (so no name
/// occurs twice).
pub open spec fn keys_sorted(m: Seq<(Seq<char>, JsonTree)>) -> bool {
    forall|i: int, j: int| 0 <= i < j < m.len() ==> text_before(#[trigger] m[i].0, #[trigger] m[j].0)
}

/// Inserting past members that come before the new name.
pub proof fn lemma_insert_after_prefix(m: Seq<(Seq<char>, JsonTree)>, k: Seq<char>, v: JsonTree, i: int)
    requires
        0 <= i <= m.len(),
        forall|j: int| 0 <= j < i ==> #[trigger] m[j].0 != k && !text_before(k, m[j].0),
    ensures
        insert_sorted(m, k, v) == m.take(i) + insert_sorted(m.skip(i), k, v),
    decreases i,
{
    if i == 0 {
        assert(m.take(0) + insert_sorted(m.skip(0), k, v) =~= insert_sorted(m, k, v)) by {
            assert(m.skip(0) =~= m);
        }
    } else {
        let rest = m.drop_first();
        assert forall|j: int| 0 <= j < i - 1 implies #[trigger] rest[j].0 != k && !text_before(k, rest[j].0) by {
            assert(rest[j] == m[j + 1]);
        }
        lemma_insert_after_prefix(rest, k, v, i - 1);
        assert(m[0].0 != k && !text_before(k, m[0].0));
        assert(rest.skip(i - 1) =~= m.skip(i));
        assert(seq![m[0]] + rest.take(i - 1) =~= m.take(i));
        assert(insert_sorted(m, k, v) == seq![m[0]] + insert_sorted(rest, k, v));
        assert(seq![m[0]] + (rest.take(i - 1) + insert_sorted(m.skip(i), k, v))
            =~= m.take(i) + insert_sorted(m.skip(i), k, v));
    }
}

/// Whether `a` comes before `b`, computed.
pub fn text_before_exec(a: &str, b: &str) -> (r: bool)
    ensures
        r == text_before(a@, b@),
{
    let x = chars_of(a);
    let y = chars_of(b);
    let mut i: usize = 0;
    proof {
        assert(a@.skip(0) =~= a@);
        assert(b@.skip(0) =~= b@);
    }
    while i < x.len() && i < y.len() && x[i] == y[i]
        invariant
            i <= x.len(),
            i <= y.len(),
            x@ == a@,
            y@ == b@,
            text_before(a@, b@) == text_before(a@.skip(i as int), b@.skip(i as int)),
        decreases x.len() - i,
    {
        proof {
            let sa = a@.skip(i as int);
            let sb = b@.skip(i as int);
            assert(sa[0] == x@[i as int] && sb[0] == y@[i as int]);
            assert(sa.drop_first() =~= a@.skip(i + 1));
            assert(sb.drop_first() =~= b@.skip(i + 1));
        }
        i = i + 1;
    }
    proof {
        let sa = a@.skip(i as int);
        let sb = b@.skip(i as int);
        if i < x.len() {
            assert(sa[0] == x@[i as int]);
        }
        if i < y.len() {
            assert(sb[0] == y@[i as int]);
        }
    }
    if i == x.len() {
        i < y.len()
    } else if i == y.len() {
        false
    } else {
        (x[i] as u32) < (y[i] as u32)
    }
}

/// Puts a member into members kept by name (see `insert_sorted`).
pub fn insert_member(m: &mut Vec<(String, JsonValue)>, k: String, v: JsonValue)
    ensures
        member_trees(final(m)@) == insert_sorted(member_trees(old(m)@), k@, tree(v)),
{
    let ghost ms = member_trees(m@);
    let ghost t = tree(v);
    proof {
        lemma_member_trees_index(m@);
    }
    let mut i: usize = 0;
    while i < m.len()
        invariant
            i <= m.len(),
            m@ == old(m)@,
            t == tree(v),
            ms == member_trees(m@),
            ms.len() == m@.len(),
            forall|j: int| 0 <= j < m@.len() ==> #[trigger] ms[j] == (m@[j].0@, tree(m@[j].1)),
            forall|j: int| 0 <= j < i ==> #[trigger] ms[j].0 != k@ && !text_before(k@, ms[j].0),
        decreases m.len() - i,
    {
        assert(ms[i as int].0 == m@[i as int].0@);
        if same_text(m[i].0.as_str(), k.as_str()) {
            proof {
                lemma_insert_after_prefix(ms, k@, t, i as int);
                assert(ms.skip(i as int)[0].0 == k@);
                assert(ms.take(i as int) + ms.skip(i as int).update(0, (k@, t)) =~= ms.update(i as int, (k@, t)));
            }
            let ghost kv = k@;
            m.set(i, (k, v));
            proof {
                assert forall|j: int| 0 <= j < m@.len() implies #[trigger] ms.update(i as int, (kv, t))[j] == (m@[j].0@, tree(m@[j].1)) by {
                    if j != i {
                        assert(m@[j] == old(m)@[j]);
                    }
                }
                lemma_member_trees_ext(m@, ms.update(i as int, (kv, t)));
            }
            return;
        }
        if text_before_exec(k.as_str(), m[i].0.as_str()) {
            proof {
                lemma_insert_after_prefix(ms, k@, t, i as int);
                assert(ms.skip(i as int)[0].0 == ms[i as int].0);
                assert(ms.take(i as int) + (seq![(k@, t)] + ms.skip(i as int)) =~= ms.insert(i as int, (k@, t)));
            }
            m.insert(i, (k, v));
            proof {
                assert forall|j: int| 0 <= j < m@.len() implies #[trigger] ms.insert(i as int, (k@, t))[j] == (m@[j].0@, tree(m@[j].1)) by {
                    if j < i {
                        assert(m@[j] == old(m)@[j]);
                    } else if j > i {
                        assert(m@[j] == old(m)@[j - 1]);
                    }
                }
                lemma_member_trees_ext(m@, ms.insert(i as int, (k@, t)));
            }
            return;
        }
        i = i + 1;
    }
    proof {
        lemma_insert_after_prefix(ms, k@, t, ms.len() as int);
        assert(ms.take(ms.len() as int) =~= ms);
        assert(ms.skip(ms.len() as int) =~= Seq::<(Seq<char>, JsonTree)>::empty());
    }
    let ghost before = m@;
    m.push((k, v));
    proof {
        assert(m@.drop_last() =~= before);
    }
}

/// The order of texts is transitive.
pub proof fn lemma_before_transitive(a: Seq<char>, b: Seq<char>, c: Seq<char>)
    requires
        text_before(a, b),
        text_before(b, c),
    ensures
        text_before(a, c),
    decreases a.len(),
{
    if a.len() > 0 && b.len() > 0 && c.len() > 0 && a[0] == b[0] && b[0] == c[0] {
        lemma_before_transitive(a.drop_first(), b.drop_first(), c.drop_first());
    }
}

/// Of two different texts, one comes before the other.
pub proof fn lemma_before_total(a: Seq<char>, b: Seq<char>)
    requires
        a != b,
    ensures
        text_before(a, b) || text_before(b, a),
    decreases a.len(),
{
    if a.len() > 0 && b.len() > 0 && a[0] == b[0] {
        if a.drop_first() == b.drop_first() {
            assert(a =~= seq![a[0]] + a.drop_first());
            assert(b =~= seq![b[0]] + b.drop_first());
        }
        lemma_before_total(a.drop_first(), b.drop_first());
    } else if a.len() > 0 && b.len() > 0 {
        vstd::utf8::char_u32_cast(a[0], a[0] as u32);
        vstd::utf8::char_u32_cast(b[0], b[0] as u32);
    } else if a.len() == 0 && b.len() == 0 {
        assert(a =~= b);
    }
}

/// Every name among members after an insertion was among them before,
/// or is the one inserted.
pub proof fn lemma_insert_names(m: Seq<(Seq<char>, JsonTree)>, k: Seq<char>, v: JsonTree)
    ensures
        forall|j: int| 0 <= j < insert_sorted(m, k, v).len() ==>
            #[trigger] insert_sorted(m, k, v)[j].0 == k
            || exists|i: int| 0 <= i < m.len() && m[i].0 == insert_sorted(m, k, v)[j].0,
    decreases m.len(),
{
    if m.len() > 0 && m[0].0 != k && !text_before(k, m[0].0) {
        let rest = m.drop_first();
        lemma_insert_names(rest, k, v);
        let ins = insert_sorted(m, k, v);
        assert forall|j: int| 0 <= j < ins.len() implies
            #[trigger] ins[j].0 == k || exists|i: int| 0 <= i < m.len() && m[i].0 == ins[j].0 by {
            if j == 0 {
                assert(m[0].0 == ins[0].0);
            } else {
                let r = insert_sorted(rest, k, v);
                assert(ins[j] == r[j - 1]);
                if r[j - 1].0 != k {
                    let i = choose|i: int| 0 <= i < rest.len() && rest[i].0 == r[j - 1].0;
                    assert(m[i + 1].0 == ins[j].0);
                }
            }
        }
    } else if m.len() > 0 {
        let ins = insert_sorted(m, k, v);
        assert forall|j: int| 0 <= j < ins.len() implies
            #[trigger] ins[j].0 == k || exists|i: int| 0 <= i < m.len() && m[i].0 == ins[j].0 by {
            if m[0].0 == k {
                if j != 0 {
                    assert(m[j].0 == ins[j].0);
                }
            } else if j > 0 {
                assert(m[j - 1].0 == ins[j].0);
            }
        }
    }
}

/// Inserting into members in ascending order of name keeps them so.
pub proof fn lemma_insert_keeps_sorted(m: Seq<(Seq<char>, JsonTree)>, k: Seq<char>, v: JsonTree)
    requires
        keys_sorted(m),
    ensures
        keys_sorted(insert_sorted(m, k, v)),
    decreases m.len(),
{
    if m.len() == 0 {
    } else if m[0].0 == k {
        let ins = insert_sorted(m, k, v);
        assert forall|i: int, j: int| 0 <= i < j < ins.len() implies text_before(#[trigger] ins[i].0, #[trigger] ins[j].0) by {
            assert(ins[i].0 == m[i].0 && ins[j].0 == m[j].0);
        }
    } else if text_before(k, m[0].0) {
        let ins = insert_sorted(m, k, v);
        assert forall|i: int, j: int| 0 <= i < j < ins.len() implies text_before(#[trigger] ins[i].0, #[trigger] ins[j].0) by {
            if i == 0 {
                if j > 1 {
                    lemma_before_transitive(k, m[0].0, m[j - 1].0);
                }
            } else {
                assert(ins[i] == m[i - 1] && ins[j] == m[j - 1]);
            }
        }
    } else {
        let rest = m.drop_first();
        assert(keys_sorted(rest)) by {
            assert forall|i: int, j: int| 0 <= i < j < rest.len() implies text_before(#[trigger] rest[i].0, #[trigger] rest[j].0) by {
                assert(rest[i] == m[i + 1] && rest[j] == m[j + 1]);
            }
        }
        lemma_insert_keeps_sorted(rest, k, v);
        lemma_insert_names(rest, k, v);
        lemma_before_total(k, m[0].0);
        let r = insert_sorted(rest, k, v);
        let ins = insert_sorted(m, k, v);
        assert forall|i: int, j: int| 0 <= i < j < ins.len() implies text_before(#[trigger] ins[i].0, #[trigger] ins[j].0) by {
            if i == 0 {
                assert(ins[j] == r[j - 1]);
                if r[j - 1].0 != k {
                    let x = choose|x: int| 0 <= x < rest.len() && rest[x].0 == r[j - 1].0;
                    assert(rest[x] == m[x + 1]);
                }
            } else {
                assert(ins[i] == r[i - 1] && ins[j] == r[j - 1]);
            }
        }
    }
}

/// The value of the first member named `k`.
pub open spec fn member_value(m: Seq<(Seq<char>, JsonTree)>, k: Seq<char>) -> Option<JsonTree>
    decreases m.len(),
{
    if m.len() == 0 {
        None
    } else if m[0].0 == k {
        Some(m[0].1)
    } else {
        member_value(m.drop_first(), k)
    }
}

/// After an insertion the inserted name has the inserted value, and every
/// other name keeps its value.
pub proof fn lemma_insert_values(m: Seq<(Seq<char>, JsonTree)>, k: Seq<char>, v: JsonTree, k2: Seq<char>)
    ensures
        member_value(insert_sorted(m, k, v), k2) == if k2 == k { Some(v) } else { member_value(m, k2) },
    decreases m.len(),
{
    if m.len() == 0 {
        assert(insert_sorted(m, k, v).drop_first() =~= Seq::<(Seq<char>, JsonTree)>::empty());
    } else {
        let ins = insert_sorted(m, k, v);
        if m[0].0 == k {
            assert(ins[0] == (k, v));
            assert(ins.drop_first() =~= m.drop_first());
            if k2 != k {
                assert(member_value(ins, k2) == member_value(ins.drop_first(), k2));
                assert(member_value(m, k2) == member_value(m.drop_first(), k2));
            }
        } else if text_before(k, m[0].0) {
            assert(ins[0] == (k, v));
            assert(ins.drop_first() =~= m);
            if k2 != k {
                assert(member_value(ins, k2) == member_value(ins.drop_first(), k2));
            }
        } else {
            lemma_insert_values(m.drop_first(), k, v, k2);
            assert(ins[0] == m[0]);
            assert(ins.drop_first() =~= insert_sorted(m.drop_first(), k, v));
            if m[0].0 != k2 {
                assert(member_value(ins, k2) == member_value(ins.drop_first(), k2));
                assert(member_value(m, k2) == member_value(m.drop_first(), k2));
            }
        }
    }
}

} // verus!
