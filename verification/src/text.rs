//! Character-level helpers shared by the parsers and serialisers.
use vstd::prelude::*;
use vstd::utf8::is_ascii_chars;
use vstd::string::{StrSliceExecFns, StringExecFns};

verus! {

broadcast use vstd::string::group_string_axioms;

/// The characters of `s`, in order.
pub fn chars_of(s: &str) -> (v: Vec<char>)
    ensures
        v@ == s@,
{
    let mut v: Vec<char> = Vec::new();
    for c in it: s.chars()
        invariant
            it.seq() == s@,
            v@ == it.seq().take(it.index()),
    {
        v.push(c);
    }
    v
}

/// `c` with `A`–`Z` mapped to `a`–`z`.
pub open spec fn ascii_lower_char(c: char) -> char {
    if 'A' <= c <= 'Z' {
        ((c as u32) + 32) as char
    } else {
        c
    }
}

/// `s` with every ASCII upper-case letter mapped to lower case.
pub open spec fn ascii_lower(s: Seq<char>) -> Seq<char> {
    Seq::new(s.len(), |i: int| ascii_lower_char(s[i]))
}

/// `ascii_lower_char(c)` as a number.
fn lower_code(c: char) -> (n: u32)
    ensures
        n == ascii_lower_char(c) as u32,
{
    if 'A' <= c && c <= 'Z' {
        c as u32 + 32
    } else {
        c as u32
    }
}

/// Whether `a` and `b` are equal once ASCII letters are lower-cased
/// (`str::eq_ignore_ascii_case`).
pub fn eq_ignore_ascii_case(a: &str, b: &str) -> (r: bool)
    ensures
        r == (ascii_lower(a@) == ascii_lower(b@)),
{
    let ca = chars_of(a);
    let cb = chars_of(b);
    if ca.len() != cb.len() {
        assert(ascii_lower(a@).len() != ascii_lower(b@).len());
        return false;
    }
    for i in 0..ca.len()
        invariant
            ca@ == a@,
            cb@ == b@,
            ca.len() == cb.len(),
            forall|j: int| 0 <= j < i ==> #[trigger] ascii_lower(a@)[j] == ascii_lower(b@)[j],
    {
        if lower_code(ca[i]) != lower_code(cb[i]) {
            assert(ascii_lower(a@)[i as int] != ascii_lower(b@)[i as int]);
            return false;
        }
        assert(ascii_lower(a@)[i as int] == ascii_lower(b@)[i as int]);
    }
    assert(ascii_lower(a@) =~= ascii_lower(b@));
    true
}

/// What `str::to_lowercase` returns: Unicode lower-casing of the whole string.
pub uninterp spec fn unicode_lower(s: Seq<char>) -> Seq<char>;

/// `str::to_lowercase` as the library relies on it: on ASCII text only
/// `A`–`Z` change, to `a`–`z`; other text gets the Unicode mapping.
pub open spec fn lowercase(s: Seq<char>) -> Seq<char> {
    if is_ascii_chars(s) {
        ascii_lower(s)
    } else {
        unicode_lower(s)
    }
}

/// Calls `str::to_lowercase`.
///
/// Claimed of it: the result is the Unicode lower-case mapping of `s` (named,
/// not spelled out), and on all-ASCII input that mapping only turns `A`–`Z`
/// into `a`–`z`, as Unicode's case tables have it.
#[verifier::external_body]
pub fn to_lowercase(s: &str) -> (r: String)
    ensures
        r@ == unicode_lower(s@),
        is_ascii_chars(s@) ==> r@ == ascii_lower(s@),
{
    s.to_lowercase()
}

/// What `heck::AsKebabCase` makes of a string: its words, split at
/// non-alphanumeric characters and at lower-to-upper case changes, lower-cased
/// and joined by `-`.
pub uninterp spec fn kebab_case(s: Seq<char>) -> Seq<char>;

/// Calls `heck::AsKebabCase(s).to_string()`.
///
/// Claimed of it: the result depends on `s` alone, and is named
/// [`kebab_case`]; the word-splitting rules are not spelled out here.
#[verifier::external_body]
pub fn to_kebab_case(s: &str) -> (r: String)
    ensures
        r@ == kebab_case(s@),
{
    heck::AsKebabCase(s).to_string()
}

/// `s` ends with `suffix`.
pub open spec fn has_suffix(s: Seq<char>, suffix: Seq<char>) -> bool {
    suffix.len() <= s.len() && s.subrange(s.len() - suffix.len(), s.len() as int) == suffix
}

/// Whether `s` ends with `suffix` (`str::ends_with` for a string pattern).
pub fn ends_with(s: &str, suffix: &str) -> (b: bool)
    ensures
        b == has_suffix(s@, suffix@),
{
    let cs = chars_of(s);
    let cx = chars_of(suffix);
    if cx.len() > cs.len() {
        return false;
    }
    let off = cs.len() - cx.len();
    for i in 0..cx.len()
        invariant
            cs@ == s@,
            cx@ == suffix@,
            off == cs.len() - cx.len(),
            forall|j: int| 0 <= j < i ==> #[trigger] cx@[j] == cs@[off + j],
    {
        if cs[off + i] != cx[i] {
            assert(s@.subrange(off as int, s@.len() as int)[i as int] != suffix@[i as int]);
            return false;
        }
    }
    assert(s@.subrange(off as int, s@.len() as int) =~= suffix@);
    true
}

/// Whether `a` and `b` are the same text.
pub fn same_text(a: &str, b: &str) -> (r: bool)
    ensures
        r == (a@ == b@),
{
    let ca = chars_of(a);
    let cb = chars_of(b);
    if ca.len() != cb.len() {
        return false;
    }
    for i in 0..ca.len()
        invariant
            ca@ == a@,
            cb@ == b@,
            ca.len() == cb.len(),
            forall|j: int| 0 <= j < i ==> a@[j] == b@[j],
    {
        if ca[i] != cb[i] {
            return false;
        }
    }
    assert(a@ =~= b@);
    true
}

/// The file name for the name `name` with extension `ext`: the kebab-case
/// slug of the name followed by `ext`. A name that already ends with `ext`
/// (`nord.toml`) has it taken off before it is slugged, so the extension is
/// kept rather than slugged into the name.
pub open spec fn slug_file_name(name: Seq<char>, ext: Seq<char>) -> Seq<char> {
    if has_suffix(name, ext) {
        kebab_case(name.take(name.len() - ext.len())) + ext
    } else {
        kebab_case(name) + ext
    }
}

/// The file name for `name` with extension `ext` (see [`slug_file_name`]).
pub fn slug_file_name_str(name: &str, ext: &str) -> (r: String)
    ensures
        r@ == slug_file_name(name@, ext@),
{
    let mut slug = if ends_with(name, ext) {
        let n = name.unicode_len();
        let m = ext.unicode_len();
        let stem = name.substring_char(0, n - m);
        assert(stem@ =~= name@.take(name@.len() - ext@.len()));
        to_kebab_case(stem)
    } else {
        to_kebab_case(name)
    };
    slug.append(ext);
    slug
}

} // verus!
