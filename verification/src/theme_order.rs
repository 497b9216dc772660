//! Themes compare by the kebab-case slug of their names.
use vstd::prelude::*;
use core::cmp::Ordering;
use vstd::std_specs::cmp::{PartialEqSpecImpl, PartialOrdSpecImpl};
use crate::order::{lemma_lex_connected, lemma_lex_total, lemma_lex_transitive, lex_le, lex_lt, text_less};
use crate::text::kebab_case;
use crate::theme::Theme;
use crate::tui::TcaTheme;

verus! {

broadcast use vstd::seq_lib::group_to_multiset_ensures, vstd::multiset::group_multiset_axioms;

/// How two slugs compare: by [`lex_lt`], equal slugs being equal.
pub open spec fn slug_order(a: Seq<char>, b: Seq<char>) -> Option<Ordering> {
    if lex_lt(a, b) {
        Some(Ordering::Less)
    } else if a == b {
        Some(Ordering::Equal)
    } else {
        Some(Ordering::Greater)
    }
}

/// Compares two slugs.
fn compare_slugs(a: &String, b: &String) -> (r: Option<Ordering>)
    ensures
        r == slug_order(a@, b@),
{
    if text_less(a.as_str(), b.as_str()) {
        Some(Ordering::Less)
    } else if *a == *b {
        Some(Ordering::Equal)
    } else {
        Some(Ordering::Greater)
    }
}

impl PartialEq for Theme {
    /// Themes are equal when their names have the same slug.
    fn eq(&self, other: &Self) -> (r: bool) {
        self.name_slug() == other.name_slug()
    }
}

impl PartialEqSpecImpl for Theme {
    open spec fn obeys_eq_spec() -> bool {
        true
    }

    open spec fn eq_spec(&self, other: &Theme) -> bool {
        kebab_case(self.meta.name@) == kebab_case(other.meta.name@)
    }
}

impl Eq for Theme {
}

impl PartialOrd for Theme {
    /// Themes are ordered by the slugs of their names.
    fn partial_cmp(&self, other: &Self) -> (r: Option<Ordering>) {
        compare_slugs(&self.name_slug(), &other.name_slug())
    }
}

impl PartialOrdSpecImpl for Theme {
    open spec fn obeys_partial_cmp_spec() -> bool {
        true
    }

    open spec fn partial_cmp_spec(&self, other: &Theme) -> Option<Ordering> {
        slug_order(kebab_case(self.meta.name@), kebab_case(other.meta.name@))
    }
}

impl PartialEq for TcaTheme {
    /// Themes are equal when their names have the same slug.
    fn eq(&self, other: &Self) -> (r: bool) {
        self.name_slug() == other.name_slug()
    }
}

impl PartialEqSpecImpl for TcaTheme {
    open spec fn obeys_eq_spec() -> bool {
        true
    }

    open spec fn eq_spec(&self, other: &TcaTheme) -> bool {
        kebab_case(self.meta.name@) == kebab_case(other.meta.name@)
    }
}

impl Eq for TcaTheme {
}

impl PartialOrd for TcaTheme {
    /// Themes are ordered by the slugs of their names.
    fn partial_cmp(&self, other: &Self) -> (r: Option<Ordering>) {
        compare_slugs(&self.name_slug(), &other.name_slug())
    }
}

impl PartialOrdSpecImpl for TcaTheme {
    open spec fn obeys_partial_cmp_spec() -> bool {
        true
    }

    open spec fn partial_cmp_spec(&self, other: &TcaTheme) -> Option<Ordering> {
        slug_order(kebab_case(self.meta.name@), kebab_case(other.meta.name@))
    }
}

/// The slug of a theme's name.
pub open spec fn slug_of(t: Theme) -> Seq<char> {
    kebab_case(t.meta.name@)
}

/// The themes `ts` are in order of their slugs.
pub open spec fn sorted_by_slug(ts: Seq<Theme>) -> bool {
    forall|i: int, j: int| 0 <= i < j < ts.len() ==> lex_le(slug_of(#[trigger] ts[i]), slug_of(#[trigger] ts[j]))
}

/// The themes of `themes`, sorted by the slugs of their names; themes with
/// equal slugs keep their order.
pub fn sort_themes(themes: Vec<Theme>) -> (r: Vec<Theme>)
    ensures
        r@.to_multiset() == themes@.to_multiset(),
        sorted_by_slug(r@),
{
    let ghost all = themes@;
    let mut out: Vec<Theme> = Vec::new();
    let mut rest = themes;
    let ghost mut k: int = 0;
    proof {
        lemma_lex_total();
        assert(all.skip(0) =~= all);
        assert(all.take(0) =~= Seq::<Theme>::empty());
    }
    while rest.len() > 0
        invariant
            0 <= k <= all.len(),
            rest@ == all.skip(k),
            sorted_by_slug(out@),
            out@.to_multiset() == all.take(k).to_multiset(),
        decreases rest.len(),
    {
        let x = rest.remove(0);
        proof {
            assert(x == all[k]);
            assert(rest@ =~= all.skip(k + 1));
        }
        let xs = x.name_slug();
        let mut p: usize = 0;
        while p < out.len() && !text_less(xs.as_str(), out[p].name_slug().as_str())
            invariant
                p <= out.len(),
                xs@ == slug_of(x),
                forall|j: int| 0 <= j < p ==> !lex_lt(slug_of(x), slug_of(#[trigger] out@[j])),
            decreases out.len() - p,
        {
            p = p + 1;
        }
        let ghost ov = out@;
        proof {
            if p < out.len() {
                assert(lex_lt(slug_of(x), slug_of(ov[p as int])));
            }
        }
        out.insert(p, x);
        proof {
            let nv = out@;
            assert(nv =~= ov.insert(p as int, x));
            ov.insert_ensures(p as int, x);
            assert forall|i: int, j: int| 0 <= i < j < nv.len() implies lex_le(slug_of(#[trigger] nv[i]), slug_of(#[trigger] nv[j])) by {
                if j < p {
                    assert(nv[i] == ov[i] && nv[j] == ov[j]);
                } else if j == p {
                    assert(nv[i] == ov[i] && nv[j] == x);
                    assert(!lex_lt(slug_of(x), slug_of(ov[i])));
                    if slug_of(x) != slug_of(ov[i]) {
                        lemma_lex_connected(slug_of(x), slug_of(ov[i]));
                    }
                } else if i > p {
                    assert(nv[i] == ov[i - 1] && nv[j] == ov[j - 1]);
                } else if i == p {
                    assert(nv[i] == x && nv[j] == ov[j - 1]);
                    if j - 1 > p {
                        assert(lex_le(slug_of(ov[p as int]), slug_of(ov[j - 1])));
                        if slug_of(ov[p as int]) != slug_of(ov[j - 1]) {
                            lemma_lex_transitive(slug_of(x), slug_of(ov[p as int]), slug_of(ov[j - 1]));
                        }
                    }
                } else {
                    assert(nv[i] == ov[i] && nv[j] == ov[j - 1]);
                }
            }
            assert(nv.remove(p as int) =~= ov);
            assert(nv[p as int] == x);
            assert(nv.to_multiset() =~= ov.to_multiset().insert(x)) by {
                assert(nv.remove(p as int).to_multiset() =~= nv.to_multiset().remove(nv[p as int]));
                assert(nv.to_multiset().count(x) > 0);
            }
            assert(all.take(k + 1) =~= all.take(k).push(all[k]));
            k = k + 1;
        }
    }
    proof {
        assert(all.take(k) =~= all);
    }
    out
}

} // verus!
