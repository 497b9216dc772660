//! Lexicographic order on text, and sorting by it.
use vstd::prelude::*;
use vstd::relations::{sorted_by, total_ordering};
use crate::text::chars_of;

verus! {

broadcast use vstd::seq_lib::group_to_multiset_ensures, vstd::multiset::group_multiset_axioms;

/// `a` comes strictly before `b`, comparing characters by code point from the
/// start (the order of `str` and of UTF-8 file names).
pub open spec fn lex_lt(a: Seq<char>, b: Seq<char>) -> bool
    decreases a.len(),
{
    if a.len() == 0 {
        b.len() > 0
    } else if b.len() == 0 {
        false
    } else if a[0] != b[0] {
        a[0] < b[0]
    } else {
        lex_lt(a.drop_first(), b.drop_first())
    }
}

/// `a` equals `b` or comes before it.
pub open spec fn lex_le(a: Seq<char>, b: Seq<char>) -> bool {
    a == b || lex_lt(a, b)
}

/// [`lex_le`] as a relation.
pub open spec fn lex_order() -> spec_fn(Seq<char>, Seq<char>) -> bool {
    |a: Seq<char>, b: Seq<char>| lex_le(a, b)
}

/// No text comes before itself.
proof fn lemma_lex_irreflexive(a: Seq<char>)
    ensures
        !lex_lt(a, a),
    decreases a.len(),
{
    if a.len() > 0 {
        lemma_lex_irreflexive(a.drop_first());
    }
}

/// Of two texts that come before each other, neither does.
proof fn lemma_lex_asymmetric(a: Seq<char>, b: Seq<char>)
    ensures
        !(lex_lt(a, b) && lex_lt(b, a)),
    decreases a.len(),
{
    if a.len() > 0 && b.len() > 0 && a[0] == b[0] {
        lemma_lex_asymmetric(a.drop_first(), b.drop_first());
    }
}

/// Coming before is transitive.
pub proof fn lemma_lex_transitive(a: Seq<char>, b: Seq<char>, c: Seq<char>)
    requires
        lex_lt(a, b),
        lex_lt(b, c),
    ensures
        lex_lt(a, c),
    decreases a.len(),
{
    if a.len() > 0 && b.len() > 0 && c.len() > 0 && a[0] == b[0] && b[0] == c[0] {
        lemma_lex_transitive(a.drop_first(), b.drop_first(), c.drop_first());
    }
}

/// Of two different texts, one comes before the other.
pub proof fn lemma_lex_connected(a: Seq<char>, b: Seq<char>)
    requires
        a != b,
    ensures
        lex_lt(a, b) || lex_lt(b, a),
    decreases a.len(),
{
    if a.len() > 0 && b.len() > 0 && a[0] == b[0] {
        if a.drop_first() == b.drop_first() {
            assert(a =~= seq![a[0]] + a.drop_first());
            assert(b =~= seq![b[0]] + b.drop_first());
        }
        lemma_lex_connected(a.drop_first(), b.drop_first());
    } else if a.len() == 0 && b.len() == 0 {
        assert(a =~= b);
    }
}

/// [`lex_le`] is a total order.
pub proof fn lemma_lex_total()
    ensures
        total_ordering(lex_order()),
{
    let le = lex_order();
    assert forall|x: Seq<char>| #[trigger] le(x, x) by {}
    assert forall|x: Seq<char>, y: Seq<char>| #[trigger] le(x, y) && #[trigger] le(y, x) implies x
        == y by {
        if x != y {
            lemma_lex_asymmetric(x, y);
        }
    }
    assert forall|x: Seq<char>, y: Seq<char>, z: Seq<char>| #[trigger] le(x, y) && #[trigger] le(
        y,
        z,
    ) implies le(x, z) by {
        if x != y && y != z {
            lemma_lex_transitive(x, y, z);
        }
    }
    assert forall|x: Seq<char>, y: Seq<char>| #[trigger] le(x, y) || #[trigger] le(y, x) by {
        if x != y {
            lemma_lex_connected(x, y);
        }
    }
}

/// Whether `a` comes strictly before `b`.
pub fn text_less(a: &str, b: &str) -> (r: bool)
    ensures
        r == lex_lt(a@, b@),
{
    let ca = chars_of(a);
    let cb = chars_of(b);
    let mut i: usize = 0;
    assert(a@.skip(0) =~= a@);
    assert(b@.skip(0) =~= b@);
    assert(ca@.take(0) =~= cb@.take(0));
    while i < ca.len() && i < cb.len()
        invariant
            ca@ == a@,
            cb@ == b@,
            i <= ca.len(),
            i <= cb.len(),
            ca@.take(i as int) == cb@.take(i as int),
            lex_lt(a@, b@) == lex_lt(a@.skip(i as int), b@.skip(i as int)),
        decreases ca.len() - i,
    {
        if ca[i] != cb[i] {
            return ca[i] < cb[i];
        }
        assert(a@.skip(i as int).drop_first() =~= a@.skip(i + 1));
        assert(b@.skip(i as int).drop_first() =~= b@.skip(i + 1));
        assert(ca@.take(i + 1) =~= ca@.take(i as int).push(ca@[i as int]));
        assert(cb@.take(i + 1) =~= cb@.take(i as int).push(cb@[i as int]));
        i = i + 1;
    }
    cb.len() > i
}

/// The texts of a list of strings.
pub open spec fn texts(v: Seq<String>) -> Seq<Seq<char>> {
    v.map_values(|s: String| s@)
}

/// The strings of `v`, sorted by [`lex_le`].
pub fn sort_texts(v: Vec<String>) -> (r: Vec<String>)
    ensures
        texts(r@) == texts(v@).sort_by(lex_order()),
{
    let ghost iv = texts(v@);
    let mut out: Vec<String> = Vec::new();
    let mut rest = v;
    proof {
        lemma_lex_total();
        assert(iv.skip(0) =~= iv);
        assert(iv.take(0) =~= Seq::<Seq<char>>::empty());
    }
    let ghost mut k: int = 0;
    while rest.len() > 0
        invariant
            total_ordering(lex_order()),
            0 <= k <= iv.len(),
            texts(rest@) == iv.skip(k),
            sorted_by(texts(out@), lex_order()),
            texts(out@).to_multiset() == iv.take(k).to_multiset(),
        decreases rest.len(),
    {
        let ghost before = rest@;
        let x = rest.remove(0);
        proof {
            assert(rest@ == before.remove(0));
            assert(texts(before) == iv.skip(k));
            assert(texts(before).len() == before.len());
            assert(before.len() > 0);
            assert(k < iv.len());
            assert(x == before[0]);
            assert(texts(before)[0] == x@);
            assert(iv.skip(k)[0] == iv[k]);
            assert forall|j: int| 0 <= j < rest@.len() implies #[trigger] texts(rest@)[j] == iv.skip(
                k + 1,
            )[j] by {
                assert(rest@[j] == before[j + 1]);
                assert(texts(before)[j + 1] == iv.skip(k)[j + 1]);
            }
            assert(texts(rest@) =~= iv.skip(k + 1));
        }
        let mut p: usize = 0;
        while p < out.len() && !text_less(x.as_str(), out[p].as_str())
            invariant
                p <= out.len(),
                forall|j: int| 0 <= j < p ==> !lex_lt(x@, #[trigger] texts(out@)[j]),
            decreases out.len() - p,
        {
            p = p + 1;
        }
        let ghost ov = texts(out@);
        proof {
            if p < out.len() {
                assert(lex_lt(x@, ov[p as int]));
            }
        }
        out.insert(p, x);
        proof {
            let nv = texts(out@);
            assert(nv =~= ov.insert(p as int, x@));
            ov.insert_ensures(p as int, x@);
            let le = lex_order();
            assert forall|i: int, j: int| 0 <= i < j < nv.len() implies #[trigger] le(nv[i], nv[j]) by {
                if j < p {
                    assert(nv[i] == ov[i] && nv[j] == ov[j]);
                    assert(le(ov[i], ov[j]));
                } else if j == p {
                    assert(nv[i] == ov[i] && nv[j] == x@);
                    assert(!lex_lt(x@, ov[i]));
                    if x@ != ov[i] {
                        lemma_lex_connected(x@, ov[i]);
                    }
                } else if i > p {
                    assert(nv[i] == ov[i - 1] && nv[j] == ov[j - 1]);
                    assert(le(ov[i - 1], ov[j - 1]));
                } else if i == p {
                    assert(nv[i] == x@ && nv[j] == ov[j - 1]);
                    assert(lex_lt(x@, ov[p as int]));
                    if j - 1 > p {
                        assert(le(ov[p as int], ov[j - 1]));
                        if ov[p as int] != ov[j - 1] {
                            lemma_lex_transitive(x@, ov[p as int], ov[j - 1]);
                        }
                    }
                } else {
                    assert(nv[i] == ov[i] && nv[j] == ov[j - 1]);
                    assert(le(ov[i], ov[j - 1]));
                }
            }
            assert(nv.remove(p as int) =~= ov);
            assert(nv[p as int] == x@);
            assert(nv.to_multiset() =~= ov.to_multiset().insert(x@)) by {
                assert(nv.remove(p as int).to_multiset() =~= nv.to_multiset().remove(nv[p as int]));
                assert(nv.to_multiset().count(x@) > 0);
            }
            assert(iv.take(k + 1) =~= iv.take(k).push(iv[k]));
            k = k + 1;
        }
    }
    proof {
        assert(iv.take(k) =~= iv);
        iv.lemma_sort_by_ensures(lex_order());
        vstd::seq_lib::lemma_sorted_unique(texts(out@), iv.sort_by(lex_order()), lex_order());
    }
    out
}

} // verus!
