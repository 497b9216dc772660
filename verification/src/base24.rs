//! Parser for the flat `key: "value"` YAML subset used by base16/base24 scheme files.
use vstd::prelude::*;
use vstd::hash_map::StringHashMap;
use vstd::slice::slice_subrange;
use vstd::string::{StrSliceExecFns, StringSliceAdditionalSpecFns};
use vstd::utf8::{
    decode_utf8, encode_utf8, is_char_boundary, is_continuation_byte, is_leading_byte_width_1,
    pop_first_scalar, valid_utf8,
};
use crate::text::{chars_of, lowercase, to_lowercase};

verus! {

broadcast use vstd::string::group_string_axioms, vstd::utf8::group_utf8_lib;

/// A parsed base24 scheme file: a flat map from lower-cased key to raw value.
pub type RawSlots = StringHashMap<String>;

/// Errors from [`parse_base24`].
#[derive(Debug, PartialEq, Eq)]
pub enum Base24Error {
    /// A line of the input is not valid UTF-8.
    InvalidUtf8,
}

/// `char::is_whitespace`: the Unicode `White_Space` property.
pub open spec fn is_whitespace(c: char) -> bool {
    ||| '\u{9}' <= c <= '\u{d}'
    ||| c == ' '
    ||| c == '\u{85}'
    ||| c == '\u{a0}'
    ||| c == '\u{1680}'
    ||| '\u{2000}' <= c <= '\u{200a}'
    ||| c == '\u{2028}'
    ||| c == '\u{2029}'
    ||| c == '\u{202f}'
    ||| c == '\u{205f}'
    ||| c == '\u{3000}'
}

/// `s` without its leading whitespace.
pub open spec fn skip_ws(s: Seq<char>) -> Seq<char>
    decreases s.len(),
{
    if s.len() > 0 && is_whitespace(s[0]) {
        skip_ws(s.drop_first())
    } else {
        s
    }
}

/// `s` without its trailing whitespace.
pub open spec fn drop_ws(s: Seq<char>) -> Seq<char>
    decreases s.len(),
{
    if s.len() > 0 && is_whitespace(s.last()) {
        drop_ws(s.drop_last())
    } else {
        s
    }
}

/// `str::trim`: `s` without leading and trailing whitespace.
pub open spec fn trim(s: Seq<char>) -> Seq<char> {
    drop_ws(skip_ws(s))
}

/// `s` without its leading occurrences of `c`.
pub open spec fn skip_char(s: Seq<char>, c: char) -> Seq<char>
    decreases s.len(),
{
    if s.len() > 0 && s[0] == c {
        skip_char(s.drop_first(), c)
    } else {
        s
    }
}

/// `s` without its trailing occurrences of `c`.
pub open spec fn drop_char(s: Seq<char>, c: char) -> Seq<char>
    decreases s.len(),
{
    if s.len() > 0 && s.last() == c {
        drop_char(s.drop_last(), c)
    } else {
        s
    }
}

/// `str::trim_matches(c)`: `s` without leading and trailing occurrences of `c`.
pub open spec fn trim_char(s: Seq<char>, c: char) -> Seq<char> {
    drop_char(skip_char(s, c), c)
}

/// `i` is the first position of `x` in `s`.
pub open spec fn is_first<A>(s: Seq<A>, x: A, i: int) -> bool {
    &&& 0 <= i < s.len()
    &&& s[i] == x
    &&& forall|j: int| 0 <= j < i ==> s[j] != x
}

/// The first position of `x` in `s`, if it occurs.
pub open spec fn first_index<A>(s: Seq<A>, x: A) -> Option<int> {
    if exists|i: int| is_first(s, x, i) {
        Some(choose|i: int| is_first(s, x, i))
    } else {
        None
    }
}

/// Where a trailing `# comment` starts in `s`, scanning from `i` with quote state `q`
/// (`s.len()` when there is none).
pub open spec fn comment_cut(s: Seq<char>, i: int, q: Option<char>) -> int
    decreases s.len() - i,
{
    if i < 0 || i >= s.len() {
        s.len() as int
    } else {
        let c = s[i];
        match q {
            None => if c == '"' || c == '\'' {
                comment_cut(s, i + 1, Some(c))
            } else if c == '#' {
                i
            } else {
                comment_cut(s, i + 1, None)
            },
            Some(open) => if c == open {
                comment_cut(s, i + 1, None)
            } else {
                comment_cut(s, i + 1, q)
            },
        }
    }
}

/// `s` without a trailing inline comment: everything from the first `#` that
/// stands outside single or double quotes is removed.
pub open spec fn comment_free(s: Seq<char>) -> Seq<char> {
    s.take(comment_cut(s, 0, None))
}

/// The value part of an entry: trimmed, comment removed, trimmed again, then
/// surrounding double quotes and then single quotes removed.
pub open spec fn clean_value(raw: Seq<char>) -> Seq<char> {
    trim_char(trim_char(trim(comment_free(trim(raw))), '"'), '\'')
}

/// The key/value pair that one line contributes, if any.
///
/// Blank lines, lines starting with `#` and lines without a `:` contribute
/// nothing. Otherwise the key is the trimmed, lower-cased text before the first
/// `:` and the value is the cleaned text after it.
pub open spec fn line_entry(line: Seq<char>) -> Option<(Seq<char>, Seq<char>)> {
    let t = trim(line);
    if t.len() == 0 || t[0] == '#' {
        None
    } else {
        match first_index(t, ':') {
            None => None,
            Some(i) => Some((lowercase(trim(t.take(i))), clean_value(t.skip(i + 1)))),
        }
    }
}

/// A line without the carriage return of a `\r\n` line ending.
pub open spec fn drop_cr(l: Seq<u8>) -> Seq<u8> {
    if l.len() > 0 && l.last() == 13u8 {
        l.drop_last()
    } else {
        l
    }
}

/// `BufRead::lines`: the lines of `b`, split at `\n`, each without its `\n`
/// or `\r\n`; a final line without a newline is kept as it is.
pub open spec fn split_lines(b: Seq<u8>) -> Seq<Seq<u8>>
    decreases b.len(),
{
    if b.len() == 0 {
        seq![]
    } else {
        match first_index(b, 10u8) {
            None => seq![b],
            Some(i) => seq![drop_cr(b.take(i))] + split_lines(b.skip(i + 1)),
        }
    }
}

/// Every line is valid UTF-8.
pub open spec fn lines_valid(ls: Seq<Seq<u8>>) -> bool {
    forall|i: int| 0 <= i < ls.len() ==> valid_utf8(#[trigger] ls[i])
}

/// The map built by inserting the entries of `lines` in order (a later entry
/// replaces an earlier one with the same key).
pub open spec fn entries_map(lines: Seq<Seq<char>>) -> Map<Seq<char>, Seq<char>>
    decreases lines.len(),
{
    if lines.len() == 0 {
        Map::empty()
    } else {
        let m = entries_map(lines.drop_last());
        match line_entry(lines.last()) {
            Some((k, v)) => m.insert(k, v),
            None => m,
        }
    }
}

/// The decoded text of each line.
pub open spec fn decoded_lines(b: Seq<u8>) -> Seq<Seq<char>> {
    split_lines(b).map_values(|l: Seq<u8>| decode_utf8(l))
}

/// The map that the scheme file `b` denotes.
pub open spec fn slots_of(b: Seq<u8>) -> Map<Seq<char>, Seq<char>> {
    entries_map(decoded_lines(b))
}

/// `m` holds exactly the entries of `s`, values taken by their text.
pub open spec fn same_entries(m: Map<Seq<char>, String>, s: Map<Seq<char>, Seq<char>>) -> bool {
    &&& m.dom() == s.dom()
    &&& forall|k: Seq<char>| #[trigger] m.contains_key(k) ==> m[k]@ == s[k]
}

/// The map that the text of a scheme file denotes.
pub open spec fn scheme_map(src: Seq<char>) -> Map<Seq<char>, Seq<char>> {
    slots_of(encode_utf8(src))
}

/// The lines of valid UTF-8 are valid UTF-8: a `\n` or `\r` never cuts a character.
pub proof fn lemma_lines_valid(b: Seq<u8>)
    requires
        valid_utf8(b),
    ensures
        lines_valid(split_lines(b)),
    decreases b.len(),
{
    if b.len() > 0 {
        match first_index(b, 10u8) {
            None => {
                assert(split_lines(b) =~= seq![b]);
            },
            Some(i) => {
                assert(is_first(b, 10u8, i));
                let x = b[i];
                assert(x == 10u8 ==> !is_continuation_byte(x)) by (bit_vector);
                assert(is_char_boundary(b, i));
                let head = b.subrange(0, i);
                let tail = b.subrange(i, b.len() as int);
                assert(valid_utf8(head));
                assert(valid_utf8(tail));
                assert(tail[0] == 10u8);
                assert(is_leading_byte_width_1(x)) by (bit_vector)
                    requires x == 10u8;
                assert(pop_first_scalar(tail) =~= b.skip(i + 1));
                assert(valid_utf8(b.skip(i + 1)));
                lemma_lines_valid(b.skip(i + 1));
                assert(b.take(i) =~= head);
                let line = drop_cr(head);
                if head.len() > 0 && head.last() == 13u8 {
                    let y = head[head.len() - 1];
                    assert(y == 13u8 ==> !is_continuation_byte(y)) by (bit_vector);
                    assert(is_char_boundary(head, head.len() - 1));
                    assert(head.subrange(0, head.len() - 1) =~= head.drop_last());
                    assert(valid_utf8(line));
                }
                let rest = split_lines(b.skip(i + 1));
                assert(split_lines(b) == seq![line] + rest);
                assert forall|k: int| 0 <= k < split_lines(b).len() implies valid_utf8(
                    #[trigger] split_lines(b)[k],
                ) by {
                    if k > 0 {
                        assert(split_lines(b)[k] == rest[k - 1]);
                    }
                }
            },
        }
    }
}

/// A map holding exactly the entries of `s` has `s` as its text view.
pub proof fn lemma_same_entries(m: Map<Seq<char>, String>, s: Map<Seq<char>, Seq<char>>)
    requires
        same_entries(m, s),
    ensures
        m.map_values(|v: String| v@) == s,
{
    assert(m.map_values(|v: String| v@) =~= s);
}

/// `char::is_whitespace`.
pub fn is_whitespace_char(c: char) -> (b: bool)
    ensures
        b == is_whitespace(c),
{
    ('\u{9}' <= c && c <= '\u{d}') || c == ' ' || c == '\u{85}' || c == '\u{a0}' || c
        == '\u{1680}' || ('\u{2000}' <= c && c <= '\u{200a}') || c == '\u{2028}' || c
        == '\u{2029}' || c == '\u{202f}' || c == '\u{205f}' || c == '\u{3000}'
}

fn skip_ws_range(cs: &Vec<char>, lo: usize, hi: usize) -> (a: usize)
    requires
        lo <= hi <= cs.len(),
    ensures
        lo <= a <= hi,
        cs@.subrange(a as int, hi as int) == skip_ws(cs@.subrange(lo as int, hi as int)),
{
    let mut a = lo;
    while a < hi && is_whitespace_char(cs[a])
        invariant
            lo <= a <= hi <= cs.len(),
            skip_ws(cs@.subrange(lo as int, hi as int)) == skip_ws(
                cs@.subrange(a as int, hi as int),
            ),
        decreases hi - a,
    {
        assert(cs@.subrange(a as int, hi as int).drop_first() =~= cs@.subrange(
            a + 1,
            hi as int,
        ));
        a += 1;
    }
    a
}

fn drop_ws_range(cs: &Vec<char>, lo: usize, hi: usize) -> (b: usize)
    requires
        lo <= hi <= cs.len(),
    ensures
        lo <= b <= hi,
        cs@.subrange(lo as int, b as int) == drop_ws(cs@.subrange(lo as int, hi as int)),
{
    let mut b = hi;
    while b > lo && is_whitespace_char(cs[b - 1])
        invariant
            lo <= b <= hi <= cs.len(),
            drop_ws(cs@.subrange(lo as int, hi as int)) == drop_ws(
                cs@.subrange(lo as int, b as int),
            ),
        decreases b - lo,
    {
        assert(cs@.subrange(lo as int, b as int).drop_last() =~= cs@.subrange(
            lo as int,
            b - 1,
        ));
        b -= 1;
    }
    b
}

fn trim_range(cs: &Vec<char>, lo: usize, hi: usize) -> (r: (usize, usize))
    requires
        lo <= hi <= cs.len(),
    ensures
        lo <= r.0 <= r.1 <= hi,
        cs@.subrange(r.0 as int, r.1 as int) == trim(cs@.subrange(lo as int, hi as int)),
{
    let a = skip_ws_range(cs, lo, hi);
    let b = drop_ws_range(cs, a, hi);
    (a, b)
}

fn trim_char_range(cs: &Vec<char>, lo: usize, hi: usize, c: char) -> (r: (usize, usize))
    requires
        lo <= hi <= cs.len(),
    ensures
        lo <= r.0 <= r.1 <= hi,
        cs@.subrange(r.0 as int, r.1 as int) == trim_char(cs@.subrange(lo as int, hi as int), c),
{
    let mut a = lo;
    while a < hi && cs[a] == c
        invariant
            lo <= a <= hi <= cs.len(),
            skip_char(cs@.subrange(lo as int, hi as int), c) == skip_char(
                cs@.subrange(a as int, hi as int),
                c,
            ),
        decreases hi - a,
    {
        assert(cs@.subrange(a as int, hi as int).drop_first() =~= cs@.subrange(
            a + 1,
            hi as int,
        ));
        a += 1;
    }
    let mut b = hi;
    while b > a && cs[b - 1] == c
        invariant
            lo <= a <= b <= hi <= cs.len(),
            drop_char(cs@.subrange(a as int, hi as int), c) == drop_char(
                cs@.subrange(a as int, b as int),
                c,
            ),
        decreases b - a,
    {
        assert(cs@.subrange(a as int, b as int).drop_last() =~= cs@.subrange(a as int, b - 1));
        b -= 1;
    }
    (a, b)
}

fn comment_end(cs: &Vec<char>, lo: usize, hi: usize) -> (e: usize)
    requires
        lo <= hi <= cs.len(),
    ensures
        lo <= e <= hi,
        e - lo == comment_cut(cs@.subrange(lo as int, hi as int), 0, None),
{
    let ghost s = cs@.subrange(lo as int, hi as int);
    let mut q: Option<char> = None;
    let mut i = lo;
    while i < hi
        invariant
            lo <= i <= hi <= cs.len(),
            s == cs@.subrange(lo as int, hi as int),
            comment_cut(s, 0, None) == comment_cut(s, i - lo, q),
        decreases hi - i,
    {
        let c = cs[i];
        assert(s[i - lo] == c);
        match q {
            None => {
                if c == '"' || c == '\'' {
                    q = Some(c);
                } else if c == '#' {
                    return i;
                }
            },
            Some(open) => {
                if c == open {
                    q = None;
                }
            },
        }
        i += 1;
    }
    i
}

/// Strip a trailing inline comment (`# …`) that appears outside of quotes.
pub fn strip_inline_comment(s: &str) -> (r: &str)
    ensures
        r@ == comment_free(s@),
{
    let cs = chars_of(s);
    let e = comment_end(&cs, 0, cs.len());
    assert(cs@.subrange(0, cs.len() as int) =~= s@);
    s.substring_char(0, e)
}

/// The key/value pair that `line` contributes to a scheme, if any.
pub fn parse_line(line: &str) -> (r: Option<(String, String)>)
    ensures
        r is None ==> line_entry(line@) is None,
        r matches Some((k, v)) ==> line_entry(line@) == Some((k@, v@)),
{
    let cs = chars_of(line);
    let n = cs.len();
    let (t0, t1) = trim_range(&cs, 0, n);
    let ghost t = cs@.subrange(t0 as int, t1 as int);
    proof {
        assert(cs@.subrange(0, n as int) =~= line@);
    }
    if t0 == t1 || cs[t0] == '#' {
        return None;
    }
    let mut i = t0;
    while i < t1 && cs[i] != ':'
        invariant
            t0 <= i <= t1 <= cs.len(),
            t == cs@.subrange(t0 as int, t1 as int),
            forall|j: int| t0 <= j < i ==> cs@[j] != ':',
        decreases t1 - i,
    {
        i += 1;
    }
    if i == t1 {
        proof {
            assert forall|k: int| !is_first(t, ':', k) by {
                if 0 <= k < t.len() {
                    assert(t[k] == cs@[t0 + k]);
                }
            }
        }
        return None;
    }
    proof {
        let ii = i - t0;
        assert(is_first(t, ':', ii)) by {
            assert forall|j: int| 0 <= j < ii implies t[j] != ':' by {
                assert(t[j] == cs@[t0 + j]);
            }
        }
        assert forall|k: int| is_first(t, ':', k) implies k == ii by {
            if k < ii {
                assert(t[k] != ':');
            }
            if k > ii {
                assert(t[ii] == ':');
            }
        }
        assert(first_index(t, ':') == Some(ii));
    }
    let (k0, k1) = trim_range(&cs, t0, i);
    let key = to_lowercase(line.substring_char(k0, k1));
    let (v0, v1) = trim_range(&cs, i + 1, t1);
    let c = comment_end(&cs, v0, v1);
    let (w0, w1) = trim_range(&cs, v0, c);
    let (x0, x1) = trim_char_range(&cs, w0, w1, '"');
    let (y0, y1) = trim_char_range(&cs, x0, x1, '\'');
    let value = String::from_str(line.substring_char(y0, y1));
    proof {
        assert(t.take(i - t0) =~= cs@.subrange(t0 as int, i as int));
        assert(t.skip(i - t0 + 1) =~= cs@.subrange(i + 1, t1 as int));
        assert(comment_free(cs@.subrange(v0 as int, v1 as int)) =~= cs@.subrange(
            v0 as int,
            c as int,
        ));
    }
    Some((key, value))
}

/// Calls `std::str::from_utf8`.
///
/// Claimed of it, as its documentation states: it succeeds exactly when the
/// bytes are valid UTF-8, and then returns a string with those bytes.
#[verifier::external_body]
fn str_from_utf8(b: &[u8]) -> (r: Option<&str>)
    ensures
        r is Some <==> valid_utf8(b@),
        r matches Some(s) ==> s.spec_bytes() == b@,
{
    std::str::from_utf8(b).ok()
}

/// Parse the flat `key: "value"` YAML subset used by base16/base24 scheme files.
///
/// - Lines are split as `BufRead::lines` splits them; the parse fails if one of
///   them is not valid UTF-8.
/// - Blank lines, lines starting with `#`, and lines without `:` are skipped.
/// - Inline comments outside of quoted strings are stripped.
/// - Surrounding quotes (double, then single) are removed from values.
/// - Keys are lower-cased; a later line replaces an earlier one with the same key.
pub fn parse_base24(input: &[u8]) -> (r: Result<RawSlots, Base24Error>)
    ensures
        r is Ok <==> lines_valid(split_lines(input@)),
        r matches Ok(m) ==> same_entries(m@, slots_of(input@)),
        r matches Err(e) ==> e == Base24Error::InvalidUtf8,
{
    let mut slots: RawSlots = StringHashMap::new();
    let n = input.len();
    let mut pos: usize = 0;
    let ghost mut done: Seq<Seq<u8>> = seq![];
    proof {
        assert(input@.skip(0) =~= input@);
        assert(done + split_lines(input@) =~= split_lines(input@));
        assert(done.map_values(|l: Seq<u8>| decode_utf8(l)) =~= Seq::<Seq<char>>::empty());
    }
    while pos < n
        invariant
            pos <= n == input@.len(),
            split_lines(input@) == done + split_lines(input@.skip(pos as int)),
            lines_valid(done),
            same_entries(slots@, entries_map(done.map_values(|l: Seq<u8>| decode_utf8(l)))),
        decreases n - pos,
    {
        let ghost rest = input@.skip(pos as int);
        let mut j = pos;
        while j < n && input[j] != 10u8
            invariant
                pos <= j <= n == input@.len(),
                forall|k: int| pos <= k < j ==> input@[k] != 10u8,
            decreases n - j,
        {
            j += 1;
        }
        let line_bytes = if j < n {
            let l = slice_subrange(input, pos, j);
            if l.len() > 0 && l[l.len() - 1] == 13u8 {
                slice_subrange(input, pos, j - 1)
            } else {
                l
            }
        } else {
            slice_subrange(input, pos, n)
        };
        let next = if j < n {
            j + 1
        } else {
            n
        };
        proof {
            if j < n {
                let jj = j - pos;
                assert(is_first(rest, 10u8, jj)) by {
                    assert forall|k: int| 0 <= k < jj implies rest[k] != 10u8 by {
                        assert(rest[k] == input@[pos + k]);
                    }
                }
                assert forall|k: int| is_first(rest, 10u8, k) implies k == jj by {
                    if k < jj {
                        assert(rest[k] != 10u8);
                    }
                    if k > jj {
                        assert(rest[jj] == 10u8);
                    }
                }
                assert(first_index(rest, 10u8) == Some(jj));
                assert(rest.take(jj) =~= input@.subrange(pos as int, j as int));
                if j > pos {
                    assert(input@.subrange(pos as int, j as int).drop_last() =~= input@.subrange(
                        pos as int,
                        j - 1,
                    ));
                }
                assert(rest.skip(jj + 1) =~= input@.skip(next as int));
                assert(split_lines(rest) == seq![line_bytes@] + split_lines(
                    input@.skip(next as int),
                ));
            } else {
                assert forall|k: int| !is_first(rest, 10u8, k) by {
                    if 0 <= k < rest.len() {
                        assert(rest[k] == input@[pos + k]);
                    }
                }
                assert(rest =~= input@.subrange(pos as int, n as int));
                assert(input@.skip(next as int) =~= Seq::<u8>::empty());
                assert(split_lines(rest) == seq![line_bytes@] + split_lines(
                    input@.skip(next as int),
                ));
            }
            assert(split_lines(input@) == done.push(line_bytes@) + split_lines(
                input@.skip(next as int),
            )) by {
                assert(done + (seq![line_bytes@] + split_lines(input@.skip(next as int)))
                    =~= done.push(line_bytes@) + split_lines(input@.skip(next as int)));
            }
        }
        match str_from_utf8(line_bytes) {
            None => {
                proof {
                    assert(split_lines(input@)[done.len() as int] == line_bytes@);
                }
                return Err(Base24Error::InvalidUtf8);
            },
            Some(line) => {
                let ghost before = slots@;
                proof {
                    assert(line@ == decode_utf8(line_bytes@)) by {
                        assert(decode_utf8(encode_utf8(line@)) == line@);
                    }
                }
                match parse_line(line) {
                    Some((k, v)) => {
                        slots.insert(k, v);
                    },
                    None => {},
                }
                proof {
                    let f = |l: Seq<u8>| decode_utf8(l);
                    let d2 = done.push(line_bytes@);
                    assert(d2.map_values(f) =~= done.map_values(f).push(line@));
                    assert(d2.map_values(f).drop_last() =~= done.map_values(f));
                    assert(lines_valid(d2)) by {
                        assert forall|i: int| 0 <= i < d2.len() implies valid_utf8(#[trigger] d2[i]) by {
                            if i < done.len() {
                                assert(d2[i] == done[i]);
                            }
                        }
                    }
                    done = d2;
                }
            },
        }
        pos = next;
    }
    proof {
        assert(input@.skip(pos as int) =~= Seq::<u8>::empty());
        assert(done + Seq::<Seq<u8>>::empty() =~= done);
        assert(decoded_lines(input@) =~= done.map_values(|l: Seq<u8>| decode_utf8(l)));
    }
    Ok(slots)
}

} // verus!
