//! A cycling cursor over a collection of themes.
use vstd::prelude::*;
use vstd::arithmetic::div_mod::{lemma_fundamental_div_mod, lemma_fundamental_div_mod_converse, lemma_mod_bound};

use crate::text::{kebab_case, to_kebab_case};
use crate::theme::Theme;
use crate::util::{all_themes, builtin_seq, builtin_themes, merged_themes};

verus! {

/// The position after moving forward one step in a ring of `len` items.
pub open spec fn next_pos(pos: int, len: int) -> int {
    (pos + 1) % len
}

/// The position after moving back one step in a ring of `len` items.
pub open spec fn prev_pos(pos: int, len: int) -> int {
    if pos == 0 {
        len - 1
    } else {
        pos - 1
    }
}

/// A cycling cursor over a list of themes of type `T`.
///
/// `peek()` returns the current theme without moving; `next()` and `prev()`
/// move the cursor and return the new current theme. Both wrap around.
pub struct ThemeCursor<T> {
    themes: Vec<T>,
    index: usize,
}

impl<T> ThemeCursor<T> {
    /// The themes held by the cursor, in order.
    pub closed spec fn items(&self) -> Seq<T> {
        self.themes@
    }

    /// The index of the current theme.
    pub closed spec fn pos(&self) -> int {
        self.index as int
    }

    /// The current position lies in the list, or is zero when the list is empty.
    pub open spec fn pos_ok(&self) -> bool {
        0 <= self.pos() < self.items().len() || (self.items().len() == 0 && self.pos() == 0)
    }

    #[verifier::type_invariant]
    closed spec fn inv(&self) -> bool {
        self.index < self.themes.len() || (self.themes.len() == 0 && self.index == 0)
    }

    /// Create a cursor over `themes`. The cursor starts at the first theme.
    pub fn new(themes: Vec<T>) -> (c: Self)
        ensures
            c.items() == themes@,
            c.pos() == 0,
            c.pos_ok(),
    {
        ThemeCursor { themes, index: 0 }
    }

    /// Returns the current theme without moving the cursor.
    pub fn peek(&self) -> (r: Option<&T>)
        ensures
            r == (if self.items().len() == 0 { None } else { Some(&self.items()[self.pos()]) }),
    {
        proof { use_type_invariant(self); }
        if self.index < self.themes.len() {
            Some(&self.themes[self.index])
        } else {
            None
        }
    }

    /// Advances the cursor to the next theme (wrapping) and returns it.
    /// Returns `None` if the cursor is empty.
    pub fn next(&mut self) -> (r: Option<&T>)
        ensures
            final(self).items() == old(self).items(),
            final(self).pos_ok(),
            old(self).items().len() == 0 ==> r is None && final(self).pos() == old(self).pos(),
            old(self).items().len() > 0 ==> {
                &&& final(self).pos() == next_pos(old(self).pos(), old(self).items().len() as int)
                &&& r == Some(&final(self).items()[final(self).pos()])
            },
    {
        proof { use_type_invariant(&*self); }
        if self.themes.len() == 0 {
            return None;
        }
        self.index = (self.index + 1) % self.themes.len();
        Some(&self.themes[self.index])
    }

    /// Retreats the cursor to the previous theme (wrapping) and returns it.
    /// Returns `None` if the cursor is empty.
    pub fn prev(&mut self) -> (r: Option<&T>)
        ensures
            final(self).items() == old(self).items(),
            final(self).pos_ok(),
            old(self).items().len() == 0 ==> r is None && final(self).pos() == old(self).pos(),
            old(self).items().len() > 0 ==> {
                &&& final(self).pos() == prev_pos(old(self).pos(), old(self).items().len() as int)
                &&& r == Some(&final(self).items()[final(self).pos()])
            },
    {
        proof { use_type_invariant(&*self); }
        if self.themes.len() == 0 {
            return None;
        }
        if self.index == 0 {
            self.index = self.themes.len() - 1;
        } else {
            self.index = self.index - 1;
        }
        Some(&self.themes[self.index])
    }

    /// Returns all themes in the cursor, in order.
    pub fn themes(&self) -> (r: &[T])
        ensures
            r@ == self.items(),
    {
        self.themes.as_slice()
    }

    /// The index of the current theme.
    pub fn position(&self) -> (i: usize)
        ensures
            i == self.pos(),
            self.pos_ok(),
    {
        proof { use_type_invariant(self); }
        self.index
    }

    /// Returns the number of themes.
    pub fn len(&self) -> (n: usize)
        ensures
            n == self.items().len(),
    {
        self.themes.len()
    }

    /// Returns `true` if the cursor contains no themes.
    pub fn is_empty(&self) -> (b: bool)
        ensures
            b == (self.items().len() == 0),
    {
        self.themes.len() == 0
    }

    /// Moves the cursor to `index` and returns the theme there.
    /// Returns `None`, leaving the cursor where it was, if `index` is out of bounds.
    pub fn set_index(&mut self, index: usize) -> (r: Option<&T>)
        ensures
            final(self).items() == old(self).items(),
            final(self).pos_ok(),
            index < old(self).items().len() ==> {
                &&& final(self).pos() == index
                &&& r == Some(&final(self).items()[index as int])
            },
            index >= old(self).items().len() ==> r is None && final(self).pos() == old(self).pos(),
    {
        proof { use_type_invariant(&*self); }
        if index < self.themes.len() {
            self.index = index;
            Some(&self.themes[index])
        } else {
            None
        }
    }
}

/// `i` is the first position in `ts` of a theme whose name has the slug `slug`.
pub open spec fn first_with_slug(ts: Seq<Theme>, slug: Seq<char>, i: int) -> bool {
    &&& 0 <= i < ts.len()
    &&& kebab_case(ts[i].meta.name@) == slug
    &&& forall|j: int| 0 <= j < i ==> kebab_case(#[trigger] ts[j].meta.name@) != slug
}

/// Convenience constructors for cursors over [`Theme`]s.
impl ThemeCursor<Theme> {
    /// A cursor over all built-in themes, in declaration order.
    pub fn with_builtins() -> (c: Self)
        ensures
            builtin_seq(c.items()),
            c.pos() == 0,
    {
        ThemeCursor::new(builtin_themes())
    }

    /// A cursor over the user's installed themes, as loaded from the user
    /// themes directory.
    pub fn with_user_themes(user: Vec<Theme>) -> (c: Self)
        ensures
            c.items() == user@,
            c.pos() == 0,
    {
        ThemeCursor::new(user)
    }

    /// A cursor over the built-in themes and the user's themes; a user theme
    /// replaces the built-in theme of the same name (see [`all_themes`]).
    pub fn with_all_themes(user: Vec<Theme>) -> (c: Self)
        ensures
            exists|bs: Seq<Theme>| builtin_seq(bs) && c.items() == merged_themes(user@, bs),
            c.pos() == 0,
    {
        ThemeCursor::new(all_themes(user))
    }

    /// Moves the cursor to the first theme whose name has the same kebab-case
    /// slug as `name`, and returns it ("Nord Dark", "nord-dark" and "NordDark"
    /// all find the same theme). Returns `None`, leaving the cursor where it
    /// was, when no theme matches.
    pub fn set_current(&mut self, name: &str) -> (r: Option<&Theme>)
        ensures
            final(self).items() == old(self).items(),
            final(self).pos_ok(),
            r is Some ==> first_with_slug(old(self).items(), kebab_case(name@), final(self).pos())
                && r == Some(&final(self).items()[final(self).pos()]),
            r is None ==> final(self).pos() == old(self).pos() && forall|j: int|
                0 <= j < old(self).items().len() ==> kebab_case(
                    #[trigger] old(self).items()[j].meta.name@,
                ) != kebab_case(name@),
    {
        proof {
            use_type_invariant(&*self);
        }
        let slug = to_kebab_case(name);
        let n = self.themes.len();
        let mut found: Option<usize> = None;
        for i in 0..n
            invariant
                n == self.themes.len(),
                slug@ == kebab_case(name@),
                found is None ==> forall|j: int| 0 <= j < i ==> kebab_case(
                    #[trigger] self.themes@[j].meta.name@,
                ) != slug@,
                found matches Some(k) ==> first_with_slug(self.themes@, slug@, k as int),
        {
            if found.is_none() {
                let s = self.themes[i].name_slug();
                if s == slug {
                    found = Some(i);
                }
            }
        }
        match found {
            Some(k) => self.set_index(k),
            None => None,
        }
    }
}

/// The position reached from `pos` after `k` forward steps in a ring of `len` items.
pub open spec fn advance(pos: int, len: int, k: nat) -> int
    decreases k,
{
    if k == 0 {
        pos
    } else {
        next_pos(advance(pos, len, (k - 1) as nat), len)
    }
}

/// The position reached from `pos` after `k` backward steps in a ring of `len` items.
pub open spec fn retreat(pos: int, len: int, k: nat) -> int
    decreases k,
{
    if k == 0 {
        pos
    } else {
        prev_pos(retreat(pos, len, (k - 1) as nat), len)
    }
}

/// Moving forward and then back (or back and then forward) returns to the
/// starting theme.
pub proof fn law_next_prev_inverse(pos: int, len: int)
    requires
        0 <= pos < len,
    ensures
        prev_pos(next_pos(pos, len), len) == pos,
        next_pos(prev_pos(pos, len), len) == pos,
        0 <= next_pos(pos, len) < len,
        0 <= prev_pos(pos, len) < len,
{
    if pos + 1 == len {
        assert(next_pos(pos, len) == 0) by (nonlinear_arith)
            requires pos + 1 == len, len > 0;
    } else {
        assert(next_pos(pos, len) == pos + 1) by (nonlinear_arith)
            requires 0 <= pos + 1 < len;
    }
    if pos == 0 {
        assert(next_pos(len - 1, len) == 0) by (nonlinear_arith)
            requires len > 0;
    } else {
        assert(next_pos(pos - 1, len) == pos) by (nonlinear_arith)
            requires 0 < pos < len;
    }
}

proof fn lemma_mod_succ(x: int, len: int)
    requires
        len > 0,
    ensures
        next_pos(x % len, len) == (x + 1) % len,
        prev_pos(x % len, len) == (x - 1) % len,
{
    let q = x / len;
    let r = x % len;
    lemma_fundamental_div_mod(x, len);
    lemma_mod_bound(x, len);
    assert(x == len * q + r);
    assert(x == q * len + r) by (nonlinear_arith)
        requires x == len * q + r;
    if r + 1 < len {
        lemma_fundamental_div_mod_converse(x + 1, len, q, r + 1);
        lemma_fundamental_div_mod_converse(r + 1, len, 0, r + 1);
    } else {
        assert(x + 1 == (q + 1) * len + 0) by (nonlinear_arith)
            requires x == len * q + r, r + 1 == len;
        lemma_fundamental_div_mod_converse(x + 1, len, q + 1, 0);
        lemma_fundamental_div_mod_converse(r + 1, len, 1, 0);
    }
    if r == 0 {
        assert(x - 1 == (q - 1) * len + (len - 1)) by (nonlinear_arith)
            requires x == len * q + r, r == 0;
        lemma_fundamental_div_mod_converse(x - 1, len, q - 1, len - 1);
    } else {
        lemma_fundamental_div_mod_converse(x - 1, len, q, r - 1);
    }
}

/// `k` forward steps land on `(pos + k) % len`.
pub proof fn lemma_advance(pos: int, len: int, k: nat)
    requires
        0 <= pos < len,
    ensures
        advance(pos, len, k) == (pos + k) % len,
    decreases k,
{
    if k == 0 {
        vstd::arithmetic::div_mod::lemma_small_mod(pos as nat, len as nat);
    } else {
        lemma_advance(pos, len, (k - 1) as nat);
        lemma_mod_succ(pos + k - 1, len);
    }
}

/// `k` backward steps land on `(pos - k) mod len`.
pub proof fn lemma_retreat(pos: int, len: int, k: nat)
    requires
        0 <= pos < len,
    ensures
        retreat(pos, len, k) == (pos - k) % len,
    decreases k,
{
    if k == 0 {
        vstd::arithmetic::div_mod::lemma_small_mod(pos as nat, len as nat);
    } else {
        lemma_retreat(pos, len, (k - 1) as nat);
        lemma_mod_succ(pos - (k - 1), len);
    }
}

/// Moving forward once per theme, or back once per theme, cycles through
/// every theme and returns to the starting one.
pub proof fn law_full_cycle(pos: int, len: int)
    requires
        0 <= pos < len,
    ensures
        advance(pos, len, len as nat) == pos,
        retreat(pos, len, len as nat) == pos,
{
    lemma_advance(pos, len, len as nat);
    lemma_retreat(pos, len, len as nat);
    assert((pos + len) % len == pos) by {
        vstd::arithmetic::div_mod::lemma_mod_add_multiples_vanish(pos, len);
        vstd::arithmetic::div_mod::lemma_small_mod(pos as nat, len as nat);
    }
    assert((pos - len) % len == pos) by {
        vstd::arithmetic::div_mod::lemma_mod_sub_multiples_vanish(pos, len);
        vstd::arithmetic::div_mod::lemma_small_mod(pos as nat, len as nat);
    }
}

/// `b` is what a call of `next` (or, when `forward` is false, of `prev`)
/// leaves of the cursor `a`.
pub open spec fn step_of<T>(a: ThemeCursor<T>, b: ThemeCursor<T>, forward: bool) -> bool {
    &&& b.items() == a.items()
    &&& b.pos() == if forward {
        next_pos(a.pos(), a.items().len() as int)
    } else {
        prev_pos(a.pos(), a.items().len() as int)
    }
}

/// `cs` is a run of cursor states, each what a call of `next` (or, when
/// `forward` is false, of `prev`) leaves of the one before.
pub open spec fn stepped<T>(cs: Seq<ThemeCursor<T>>, forward: bool) -> bool {
    forall|i: int| 0 < i < cs.len() ==> #[trigger] step_of(cs[i - 1], cs[i], forward)
}

proof fn lemma_stepped<T>(cs: Seq<ThemeCursor<T>>, forward: bool, k: int)
    requires
        stepped(cs, forward),
        0 <= k < cs.len(),
    ensures
        cs[k].items() == cs[0].items(),
        cs[k].pos() == if forward {
            advance(cs[0].pos(), cs[0].items().len() as int, k as nat)
        } else {
            retreat(cs[0].pos(), cs[0].items().len() as int, k as nat)
        },
    decreases k,
{
    if k > 0 {
        lemma_stepped(cs, forward, k - 1);
        assert(step_of(cs[k - 1], cs[k], forward));
    }
}

/// On a cursor over `n > 0` themes, `n` successive calls of `next` (or of
/// `prev`), as their contracts describe them, end on the starting theme.
pub proof fn law_cycle_returns<T>(cs: Seq<ThemeCursor<T>>, forward: bool)
    requires
        cs.len() > 0,
        cs[0].pos_ok(),
        cs[0].items().len() > 0,
        cs.len() == cs[0].items().len() + 1,
        stepped(cs, forward),
    ensures
        cs.last().items() == cs[0].items(),
        cs.last().pos() == cs[0].pos(),
        cs.last().items()[cs.last().pos()] == cs[0].items()[cs[0].pos()],
{
    let n = cs[0].items().len();
    lemma_stepped(cs, forward, n as int);
    law_full_cycle(cs[0].pos(), n as int);
}

} // verus!
