//! Identifiers as sequences of characters, and their lexicographic order.
//!
//! An identifier is modelled by its text, a `Seq<char>`. Texts are ordered as
//! `str` orders them: character by character, by code point, a proper prefix
//! before any of its extensions.

use vstd::prelude::*;
use vstd::relations::{sorted_by, total_ordering};

verus! {

/// `a` stands at or before `b` in lexicographic order.
pub open spec fn lex_le(a: Seq<char>, b: Seq<char>) -> bool
    decreases a.len(),
{
    if a.len() == 0 {
        true
    } else if b.len() == 0 {
        false
    } else if a[0] == b[0] {
        lex_le(a.drop_first(), b.drop_first())
    } else {
        a[0] < b[0]
    }
}

/// The lexicographic order as a relation, in the form the sequence library takes.
pub open spec fn lex_order() -> spec_fn(Seq<char>, Seq<char>) -> bool {
    |a: Seq<char>, b: Seq<char>| lex_le(a, b)
}

/// The texts of a list of names, in the same order.
pub open spec fn texts(names: Seq<String>) -> Seq<Seq<char>> {
    names.map_values(|s: String| s@)
}

/// The names in lexicographic order.
pub open spec fn sorted_texts(names: Seq<Seq<char>>) -> Seq<Seq<char>> {
    names.sort_by(lex_order())
}

pub proof fn lemma_lex_le_reflexive(a: Seq<char>)
    ensures
        lex_le(a, a),
    decreases a.len(),
{
    if a.len() > 0 {
        lemma_lex_le_reflexive(a.drop_first());
    }
}

pub proof fn lemma_lex_le_antisymmetric(a: Seq<char>, b: Seq<char>)
    requires
        lex_le(a, b),
        lex_le(b, a),
    ensures
        a == b,
    decreases a.len(),
{
    if a.len() == 0 || b.len() == 0 {
        assert(a =~= b);
    } else {
        lemma_lex_le_antisymmetric(a.drop_first(), b.drop_first());
        assert(a =~= seq![a[0]] + a.drop_first());
        assert(b =~= seq![b[0]] + b.drop_first());
    }
}

pub proof fn lemma_lex_le_transitive(a: Seq<char>, b: Seq<char>, c: Seq<char>)
    requires
        lex_le(a, b),
        lex_le(b, c),
    ensures
        lex_le(a, c),
    decreases a.len(),
{
    if a.len() > 0 && a[0] == b[0] && b[0] == c[0] {
        lemma_lex_le_transitive(a.drop_first(), b.drop_first(), c.drop_first());
    }
}

pub proof fn lemma_lex_le_connected(a: Seq<char>, b: Seq<char>)
    ensures
        lex_le(a, b) || lex_le(b, a),
    decreases a.len(),
{
    if a.len() > 0 && b.len() > 0 {
        if a[0] == b[0] {
            lemma_lex_le_connected(a.drop_first(), b.drop_first());
        }
    }
}

/// The lexicographic order is a total order on texts.
pub proof fn lemma_lex_order_total()
    ensures
        total_ordering(lex_order()),
{
    let r = lex_order();
    assert forall|x: Seq<char>| #[trigger] r(x, x) by {
        lemma_lex_le_reflexive(x);
    }
    assert forall|x: Seq<char>, y: Seq<char>| #[trigger] r(x, y) && #[trigger] r(y, x) implies x
        == y by {
        lemma_lex_le_antisymmetric(x, y);
    }
    assert forall|x: Seq<char>, y: Seq<char>, z: Seq<char>| #[trigger]
        r(x, y) && #[trigger] r(y, z) implies r(x, z) by {
        lemma_lex_le_transitive(x, y, z);
    }
    assert forall|x: Seq<char>, y: Seq<char>| #[trigger] r(x, y) || #[trigger] r(y, x) by {
        lemma_lex_le_connected(x, y);
    }
}

/// Sorting is settled by its two properties: a list that is in order and
/// holds the same texts as `names` is `names` sorted.
pub proof fn lemma_sorted_texts_unique(names: Seq<Seq<char>>, sorted: Seq<Seq<char>>)
    requires
        sorted_by(sorted, lex_order()),
        sorted.to_multiset() == names.to_multiset(),
    ensures
        sorted == sorted_texts(names),
{
    lemma_lex_order_total();
    names.lemma_sort_by_ensures(lex_order());
    vstd::seq_lib::lemma_sorted_unique(sorted, sorted_texts(names), lex_order());
}

/// Dropping a common first part does not change how two texts compare.
proof fn lemma_lex_le_skip(a: Seq<char>, b: Seq<char>, k: int)
    requires
        0 <= k <= a.len(),
        k <= b.len(),
        forall|i: int| 0 <= i < k ==> a[i] == b[i],
    ensures
        lex_le(a, b) == lex_le(a.skip(k), b.skip(k)),
    decreases k,
{
    if k == 0 {
        assert(a.skip(0) =~= a);
        assert(b.skip(0) =~= b);
    } else {
        assert(a.drop_first().skip(k - 1) =~= a.skip(k));
        assert(b.drop_first().skip(k - 1) =~= b.skip(k));
        lemma_lex_le_skip(a.drop_first(), b.drop_first(), k - 1);
    }
}

/// The characters of `s`, in order.
pub fn chars_of(s: &str) -> (v: Vec<char>)
    ensures
        v@ == s@,
{
    let mut v: Vec<char> = Vec::new();
    for c in it: s.chars()
        invariant
            v@ == it.seq().take(it.index()),
    {
        v.push(c);
    }
    v
}

/// Whether two names have the same text.
pub fn same_name(a: &str, b: &str) -> (r: bool)
    ensures
        r == (a@ == b@),
{
    let x = chars_of(a);
    let y = chars_of(b);
    if x.len() != y.len() {
        return false;
    }
    let mut i: usize = 0;
    while i < x.len()
        invariant
            x@ == a@,
            y@ == b@,
            i <= x.len(),
            x.len() == y.len(),
            forall|j: int| 0 <= j < i ==> x@[j] == y@[j],
        decreases x.len() - i,
    {
        if x[i] != y[i] {
            return false;
        }
        i += 1;
    }
    assert(x@ =~= y@);
    true
}

/// Whether `a` stands at or before `b` in lexicographic order.
pub fn name_le(a: &str, b: &str) -> (r: bool)
    ensures
        r == lex_le(a@, b@),
{
    let x = chars_of(a);
    let y = chars_of(b);
    let mut i: usize = 0;
    while i < x.len() && i < y.len()
        invariant
            x@ == a@,
            y@ == b@,
            i <= x.len(),
            i <= y.len(),
            forall|j: int| 0 <= j < i ==> x@[j] == y@[j],
        decreases x.len() - i,
    {
        if x[i] != y[i] {
            proof {
                lemma_lex_le_skip(x@, y@, i as int);
                assert(x@.skip(i as int)[0] == x@[i as int]);
                assert(y@.skip(i as int)[0] == y@[i as int]);
            }
            return x[i] < y[i];
        }
        i += 1;
    }
    proof {
        lemma_lex_le_skip(x@, y@, i as int);
    }
    i == x.len()
}

/// Puts the names in lexicographic order, keeping every one of them.
pub fn sort_names(names: &mut Vec<String>)
    ensures
        texts(final(names)@) == sorted_texts(texts(old(names)@)),
{
    let ghost before = texts(names@);
    let n = names.len();
    let mut i: usize = 0;
    while i < n
        invariant
            i <= n,
            names.len() == n,
            texts(names@).to_multiset() == before.to_multiset(),
            sorted_by(texts(names@).take(i as int), lex_order()),
        decreases n - i,
    {
        let ghost whole = texts(names@);
        let name = names.remove(i);
        let ghost rest = texts(names@);
        assert(rest =~= whole.remove(i as int));
        assert(rest.take(i as int) =~= whole.take(i as int));
        let mut at: usize = 0;
        while at < i && name_le(names[at].as_str(), name.as_str())
            invariant
                at <= i,
                i < n,
                names.len() == n - 1,
                rest == texts(names@),
                forall|j: int| 0 <= j < at ==> lex_le(#[trigger] rest[j], name@),
            decreases i - at,
        {
            at += 1;
        }
        proof {
            lemma_lex_order_total();
            if at < i {
                lemma_lex_le_connected(rest[at as int], name@);
            }
            assert forall|j: int| at <= j < i implies lex_le(name@, #[trigger] rest[j]) by {
                assert(lex_order()(rest.take(i as int)[at as int], rest.take(i as int)[j])
                    || j == at);
                lemma_lex_le_transitive(name@, rest[at as int], rest[j]);
            }
        }
        names.insert(at, name);
        proof {
            let after = texts(names@);
            assert(after =~= rest.insert(at as int, name@));
            vstd::seq_lib::to_multiset_remove(whole, i as int);
            vstd::seq_lib::to_multiset_insert(rest, at as int, name@);
            assert(whole.to_multiset().count(whole[i as int]) > 0) by {
                vstd::seq_lib::to_multiset_contains(whole, whole[i as int]);
                assert(whole.contains(whole[i as int]));
            }
            assert(after.to_multiset() =~= whole.to_multiset());
            let head = after.take(i + 1);
            assert forall|p: int, q: int| 0 <= p < q < head.len() implies #[trigger] lex_order()(
                head[p],
                head[q],
            ) by {
                let old_p = if p < at { p } else { p - 1 };
                let old_q = if q < at { q } else { q - 1 };
                if p != at && q != at {
                    assert(lex_order()(
                        rest.take(i as int)[old_p],
                        rest.take(i as int)[old_q],
                    ));
                }
            }
        }
        i += 1;
    }
    proof {
        assert(texts(names@).take(n as int) =~= texts(names@));
        lemma_sorted_texts_unique(before, texts(names@));
    }
}

} // verus!
