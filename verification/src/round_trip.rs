//! Writing a theme as base24 text and reading that text back.
use vstd::prelude::*;
use vstd::utf8::{
    char_is_scalar, char_u32_cast, encode_scalar, encode_utf8,
    leading_byte_width_1, leading_byte_width_2, leading_byte_width_3, leading_byte_width_4,
    last_continuation_byte, second_last_continuation_byte, third_last_continuation_byte,
};
use crate::base24::{
    comment_cut, comment_free, decoded_lines, drop_char, drop_cr, drop_ws, entries_map,
    first_index, is_first, is_whitespace, line_entry, skip_char, skip_ws, split_lines, trim,
    trim_char,
};
use crate::text::{ascii_lower, lowercase};
use crate::hex::{
    digits_value, hex_bytes, hex_digit_value, lemma_encode_len, radix16_value,
    spec_normalize, spec_rgb, strip_hashes,
};
use crate::theme::{
    base24_text, fallback_slot, header_lines, lemma_normalized, normalized_slot, required_slots, resolved_slots,
    scheme_author, scheme_name, slot_entry_lines, slot_text, slots_ok, variant_text,
};
use crate::base24::scheme_map;
use vstd::utf8::is_ascii_chars;
use crate::theme::{entry_line, joined, out_key, slot_key};
use vstd::utf8::encode_utf8_decode_utf8;

verus! {

/// No character of `s` is `c`.
pub open spec fn lacks(s: Seq<char>, c: char) -> bool {
    forall|k: int| 0 <= k < s.len() ==> s[k] != c
}

/// UTF-8 encoding distributes over concatenation.
pub proof fn lemma_encode_concat(a: Seq<char>, b: Seq<char>)
    ensures
        encode_utf8(a + b) == encode_utf8(a) + encode_utf8(b),
    decreases a.len(),
{
    if a.len() == 0 {
        assert(a + b =~= b);
        assert(encode_utf8(a) + encode_utf8(b) =~= encode_utf8(b));
    } else {
        lemma_encode_concat(a.drop_first(), b);
        assert((a + b).drop_first() =~= a.drop_first() + b);
        assert((a + b)[0] == a[0]);
        assert(encode_utf8(a + b) =~= encode_utf8(a) + encode_utf8(b));
    }
}

/// An ASCII character encodes as its own code; any other character encodes
/// as bytes that are all at least 0x80.
pub proof fn lemma_scalar_bytes(c: char)
    ensures
        (c as u32) < 0x80 ==> encode_scalar(c as u32) == seq![(c as u32) as u8],
        (c as u32) >= 0x80 ==> forall|k: int|
            0 <= k < encode_scalar(c as u32).len() ==> #[trigger] encode_scalar(c as u32)[k]
                >= 0x80,
{
    let u = c as u32;
    char_is_scalar(c);
    if u < 0x80 {
        assert(leading_byte_width_1(u) == u as u8) by (bit_vector)
            requires
                u < 0x80,
        ;
        assert(encode_scalar(u) =~= seq![u as u8]);
    } else {
        assert(leading_byte_width_2(u) >= 0x80) by (bit_vector);
        assert(leading_byte_width_3(u) >= 0x80) by (bit_vector);
        assert(leading_byte_width_4(u) >= 0x80) by (bit_vector);
        assert(last_continuation_byte(u) >= 0x80) by (bit_vector);
        assert(second_last_continuation_byte(u) >= 0x80) by (bit_vector);
        assert(third_last_continuation_byte(u) >= 0x80) by (bit_vector);
    }
}

/// The encoding of a one-character sequence is the encoding of the character.
pub proof fn lemma_encode_single(c: char)
    ensures
        encode_utf8(seq![c]) == encode_scalar(c as u32),
{
    reveal_with_fuel(encode_utf8, 2);
    assert(seq![c].drop_first() =~= Seq::<char>::empty());
    assert(encode_utf8(seq![c]) =~= encode_scalar(c as u32));
}

/// A string without the ASCII character `c` encodes without the byte `c`.
pub proof fn lemma_no_byte(s: Seq<char>, c: char)
    requires
        (c as u32) < 0x80,
        lacks(s, c),
    ensures
        forall|k: int| 0 <= k < encode_utf8(s).len() ==> #[trigger] encode_utf8(s)[k] != (c as u32) as u8,
    decreases s.len(),
{
    if s.len() > 0 {
        lemma_no_byte(s.drop_first(), c);
        lemma_scalar_bytes(s[0]);
        let e = encode_scalar(s[0] as u32);
        assert forall|k: int| 0 <= k < encode_utf8(s).len() implies #[trigger] encode_utf8(s)[k]
            != (c as u32) as u8 by {
            if k < e.len() {
                assert(encode_utf8(s)[k] == e[k]);
                if (s[0] as u32) < 0x80 {
                    char_u32_cast(s[0], s[0] as u32);
                    char_u32_cast(c, c as u32);
                }
            } else {
                assert(encode_utf8(s)[k] == encode_utf8(s.drop_first())[k - e.len()]);
            }
        }
    }
}

/// A non-empty string whose last character is not the ASCII character `c`
/// does not end with the byte `c`.
pub proof fn lemma_last_byte(s: Seq<char>, c: char)
    requires
        (c as u32) < 0x80,
        s.len() > 0,
        s.last() != c,
    ensures
        encode_utf8(s).len() > 0,
        encode_utf8(s).last() != (c as u32) as u8,
{
    let x = s.last();
    lemma_encode_concat(s.drop_last(), seq![x]);
    assert(s.drop_last() + seq![x] =~= s);
    lemma_encode_single(x);
    lemma_scalar_bytes(x);
    char_is_scalar(x);
    if (x as u32) < 0x80 {
        char_u32_cast(x, x as u32);
        char_u32_cast(c, c as u32);
    } else {
        let e = encode_scalar(x as u32);
        assert(e.len() > 0);
        assert(e[e.len() - 1] >= 0x80);
    }
}

/// Reading the lines of `line` + `"\n"` + `rest`: the first line is `line`.
pub proof fn lemma_split_first_line(line: Seq<char>, rest: Seq<char>)
    requires
        lacks(line, '\n'),
        line.len() == 0 || line.last() != '\r',
    ensures
        split_lines(encode_utf8(line + "\n"@ + rest)) == seq![encode_utf8(line)] + split_lines(
            encode_utf8(rest),
        ),
{
    reveal_strlit("\n");
    let nl = "\n"@;
    assert(nl =~= seq!['\n']);
    let el = encode_utf8(line);
    let er = encode_utf8(rest);
    let b = encode_utf8(line + nl + rest);
    lemma_encode_concat(line + nl, rest);
    lemma_encode_concat(line, nl);
    lemma_encode_single('\n');
    lemma_scalar_bytes('\n');
    assert(encode_utf8(nl) =~= seq![10u8]);
    assert(b =~= el + seq![10u8] + er);
    lemma_no_byte(line, '\n');
    let n = el.len() as int;
    assert(is_first(b, 10u8, n));
    assert(first_index(b, 10u8) == Some(n)) by {
        let i = choose|i: int| is_first(b, 10u8, i);
        assert(is_first(b, 10u8, i));
        if i < n {
            assert(b[i] == el[i]);
        }
        if n < i {
            assert(b[n] != 10u8);
        }
    }
    assert(b.take(n) =~= el);
    assert(b.skip(n + 1) =~= er);
    if line.len() > 0 {
        lemma_last_byte(line, '\r');
    } else {
        assert(el =~= Seq::<u8>::empty());
    }
    assert(drop_cr(el) == el);
}

/// Joining lines, seen from the front: the first line, a line break, then the rest.
pub proof fn lemma_joined_front(ls: Seq<Seq<char>>)
    requires
        ls.len() > 0,
    ensures
        joined(ls) == ls[0] + "\n"@ + joined(ls.drop_first()),
    decreases ls.len(),
{
    if ls.len() == 1 {
        assert(ls.drop_last() =~= Seq::<Seq<char>>::empty());
        assert(ls.drop_first() =~= Seq::<Seq<char>>::empty());
        assert(joined(ls) =~= ls[0] + "\n"@ + joined(ls.drop_first()));
    } else {
        let dl = ls.drop_last();
        lemma_joined_front(dl);
        assert(ls.drop_first().drop_last() =~= dl.drop_first());
        assert(ls.drop_first().last() == ls.last());
        assert(dl[0] == ls[0]);
        assert(joined(ls) =~= ls[0] + "\n"@ + joined(ls.drop_first()));
    }
}

/// Each line has no line break and does not end with a carriage return.
pub open spec fn plain_lines(ls: Seq<Seq<char>>) -> bool {
    forall|k: int|
        0 <= k < ls.len() ==> lacks(#[trigger] ls[k], '\n') && (ls[k].len() == 0 || ls[k].last()
            != '\r')
}

/// Reading back joined plain lines gives the lines.
pub proof fn lemma_decoded_joined(ls: Seq<Seq<char>>)
    requires
        plain_lines(ls),
    ensures
        decoded_lines(encode_utf8(joined(ls))) == ls,
    decreases ls.len(),
{
    if ls.len() == 0 {
        assert(encode_utf8(joined(ls)) =~= Seq::<u8>::empty());
        assert(decoded_lines(encode_utf8(joined(ls))) =~= ls);
    } else {
        let tail = ls.drop_first();
        assert(plain_lines(tail)) by {
            assert forall|k: int| 0 <= k < tail.len() implies lacks(#[trigger] tail[k], '\n') && (
            tail[k].len() == 0 || tail[k].last() != '\r') by {
                assert(tail[k] == ls[k + 1]);
            }
        }
        lemma_decoded_joined(tail);
        lemma_joined_front(ls);
        assert(lacks(ls[0], '\n'));
        lemma_split_first_line(ls[0], joined(tail));
        encode_utf8_decode_utf8(ls[0]);
        let sp = split_lines(encode_utf8(joined(ls)));
        let st = split_lines(encode_utf8(joined(tail)));
        assert(sp == seq![encode_utf8(ls[0])] + st);
        assert(decoded_lines(encode_utf8(joined(ls))) =~= ls) by {
            assert forall|k: int| 0 <= k < ls.len() implies #[trigger] decoded_lines(
                encode_utf8(joined(ls)),
            )[k] == ls[k] by {
                if k > 0 {
                    assert(sp[k] == st[k - 1]);
                    assert(decoded_lines(encode_utf8(joined(tail)))[k - 1] == tail[k - 1]);
                }
            }
        }
    }
}

/// Inserting the entries of lines with distinct keys: each key maps to the
/// value of its line.
pub proof fn lemma_entries_map(ls: Seq<Seq<char>>, ks: Seq<Seq<char>>, vs: Seq<Seq<char>>)
    requires
        ks.len() == ls.len(),
        vs.len() == ls.len(),
        forall|k: int| 0 <= k < ls.len() ==> #[trigger] line_entry(ls[k]) == Some((ks[k], vs[k])),
        forall|j: int, k: int| 0 <= j < k < ls.len() ==> #[trigger] ks[j] != #[trigger] ks[k],
    ensures
        forall|k: int|
            0 <= k < ls.len() ==> entries_map(ls).contains_key(#[trigger] ks[k])
                && entries_map(ls)[ks[k]] == vs[k],
    decreases ls.len(),
{
    if ls.len() > 0 {
        let n = ls.len() - 1;
        let dl = ls.drop_last();
        let dk = ks.drop_last();
        let dv = vs.drop_last();
        assert forall|k: int| 0 <= k < dl.len() implies #[trigger] line_entry(dl[k]) == Some(
            (dk[k], dv[k]),
        ) by {
            assert(line_entry(ls[k]) == Some((ks[k], vs[k])));
        }
        assert forall|j: int, k: int| 0 <= j < k < dl.len() implies #[trigger] dk[j]
            != #[trigger] dk[k] by {
            assert(ks[j] != ks[k]);
        }
        lemma_entries_map(dl, dk, dv);
        assert(line_entry(ls[n]) == Some((ks[n], vs[n])));
        assert(ls.last() == ls[n]);
        assert forall|k: int| 0 <= k < ls.len() implies entries_map(ls).contains_key(
            #[trigger] ks[k],
        ) && entries_map(ls)[ks[k]] == vs[k] by {
            if k < n {
                assert(dk[k] == ks[k]);
                assert(ks[k] != ks[n]);
            }
        }
    }
}

/// Scanning a quoted text that ends with its closing quote finds no comment.
pub proof fn lemma_comment_cut_quoted(q: Seq<char>, i: int)
    requires
        q.len() >= 1,
        1 <= i <= q.len() - 1,
        q[q.len() - 1] == '"',
        forall|k: int| i <= k < q.len() - 1 ==> q[k] != '"',
    ensures
        comment_cut(q, i, Some('"')) == q.len(),
    decreases q.len() - i,
{
    if i < q.len() - 1 {
        lemma_comment_cut_quoted(q, i + 1);
    } else {
        reveal_with_fuel(comment_cut, 2);
    }
}

/// A key that a line can start with: non-empty ASCII without `:` or line
/// breaks, not starting with `#`, and not starting or ending with whitespace.
pub open spec fn plain_key(key: Seq<char>) -> bool {
    &&& key.len() > 0
    &&& is_ascii_chars(key)
    &&& lacks(key, ':')
    &&& lacks(key, '\n')
    &&& key[0] != '#'
    &&& !is_whitespace(key[0])
    &&& !is_whitespace(key.last())
}

/// A value that survives being written in double quotes: no double quote, no
/// line break, and no single quote at either end.
pub open spec fn plain_value(v: Seq<char>) -> bool {
    &&& lacks(v, '"')
    &&& lacks(v, '\n')
    &&& (v.len() == 0 || (v[0] != '\'' && v.last() != '\''))
}

/// Reading the line `key: "value"` gives back the lower-cased key and the value.
pub proof fn lemma_entry_line(key: Seq<char>, v: Seq<char>)
    requires
        plain_key(key),
        plain_value(v),
    ensures
        line_entry(entry_line(key, v)) == Some((ascii_lower(key), v)),
        lacks(entry_line(key, v), '\n'),
        entry_line(key, v).last() != '\r',
{
    reveal_strlit(": \"");
    reveal_strlit("\"");
    let line = entry_line(key, v);
    let n = key.len() as int;
    assert(line =~= key + seq![':', ' ', '"'] + v + seq!['"']);
    assert(line[0] == key[0]);
    assert(line.last() == '"');
    assert(skip_ws(line) == line);
    assert(drop_ws(line) == line);
    assert(trim(line) == line);
    assert(is_first(line, ':', n));
    assert(first_index(line, ':') == Some(n)) by {
        let i = choose|i: int| is_first(line, ':', i);
        assert(is_first(line, ':', i));
        if i < n {
            assert(line[i] == key[i]);
        }
        if n < i {
            assert(line[n] != ':');
        }
    }
    assert(line.take(n) =~= key);
    assert(skip_ws(key) == key);
    assert(drop_ws(key) == key);
    assert(lowercase(key) == ascii_lower(key));
    let raw = line.skip(n + 1);
    let q = seq!['"'] + v + seq!['"'];
    assert(raw =~= seq![' '] + q);
    assert(raw.drop_first() =~= q);
    assert(skip_ws(q) == q);
    assert(skip_ws(raw) == q);
    assert(drop_ws(q) == q);
    assert(trim(raw) == q);
    lemma_comment_cut_quoted(q, 1);
    assert(comment_cut(q, 0, None) == q.len());
    assert(q.take(q.len() as int) =~= q);
    assert(comment_free(q) == q);
    let w = q.drop_first();
    assert(w =~= v + seq!['"']);
    if v.len() == 0 {
        assert(w.drop_first() =~= Seq::<char>::empty());
        reveal_with_fuel(skip_char, 2);
        assert(skip_char(w, '"') == Seq::<char>::empty());
    } else {
        assert(w[0] == v[0]);
        assert(skip_char(w, '"') == w);
        assert(w.drop_last() =~= v);
        assert(drop_char(v, '"') == v);
    }
    assert(skip_char(q, '"') == skip_char(w, '"'));
    assert(trim_char(q, '"') == v);
    assert(trim_char(v, '\'') == v);
    assert(lacks(line, '\n')) by {
        assert forall|k: int| 0 <= k < line.len() implies line[k] != '\n' by {
            if k >= n + 3 && k < n + 3 + v.len() {
                assert(line[k] == v[k - n - 3]);
            }
        }
    }
}

/// Digit `d` (0 to 15) of a slot key, its letters upper-case when `upper`.
pub open spec fn key_digit(d: int, upper: bool) -> char {
    if d < 10 {
        (48 + d) as char
    } else if upper {
        (55 + d) as char
    } else {
        (87 + d) as char
    }
}

/// `"base"` followed by the two hexadecimal digits of `i`.
pub open spec fn key_form(i: int, upper: bool) -> Seq<char> {
    "base"@ + seq![key_digit(i / 16, upper), key_digit(i % 16, upper)]
}

/// The slot keys read and written are `"base"` and two hexadecimal digits.
pub proof fn lemma_key_shape(i: int)
    requires
        0 <= i < 24,
    ensures
        slot_key(i) == key_form(i, false),
        out_key(i) == key_form(i, true),
{
    reveal_strlit("base");
    if i == 0 {
        reveal_strlit("base00");
        assert(slot_key(i) =~= key_form(i, false));
        assert(out_key(i) =~= key_form(i, true));
    } else if i == 1 {
        reveal_strlit("base01");
        assert(slot_key(i) =~= key_form(i, false));
        assert(out_key(i) =~= key_form(i, true));
    } else if i == 2 {
        reveal_strlit("base02");
        assert(slot_key(i) =~= key_form(i, false));
        assert(out_key(i) =~= key_form(i, true));
    } else if i == 3 {
        reveal_strlit("base03");
        assert(slot_key(i) =~= key_form(i, false));
        assert(out_key(i) =~= key_form(i, true));
    } else if i == 4 {
        reveal_strlit("base04");
        assert(slot_key(i) =~= key_form(i, false));
        assert(out_key(i) =~= key_form(i, true));
    } else if i == 5 {
        reveal_strlit("base05");
        assert(slot_key(i) =~= key_form(i, false));
        assert(out_key(i) =~= key_form(i, true));
    } else if i == 6 {
        reveal_strlit("base06");
        assert(slot_key(i) =~= key_form(i, false));
        assert(out_key(i) =~= key_form(i, true));
    } else if i == 7 {
        reveal_strlit("base07");
        assert(slot_key(i) =~= key_form(i, false));
        assert(out_key(i) =~= key_form(i, true));
    } else if i == 8 {
        reveal_strlit("base08");
        assert(slot_key(i) =~= key_form(i, false));
        assert(out_key(i) =~= key_form(i, true));
    } else if i == 9 {
        reveal_strlit("base09");
        assert(slot_key(i) =~= key_form(i, false));
        assert(out_key(i) =~= key_form(i, true));
    } else if i == 10 {
        reveal_strlit("base0a");
        reveal_strlit("base0A");
        assert(slot_key(i) =~= key_form(i, false));
        assert(out_key(i) =~= key_form(i, true));
    } else if i == 11 {
        reveal_strlit("base0b");
        reveal_strlit("base0B");
        assert(slot_key(i) =~= key_form(i, false));
        assert(out_key(i) =~= key_form(i, true));
    } else if i == 12 {
        reveal_strlit("base0c");
        reveal_strlit("base0C");
        assert(slot_key(i) =~= key_form(i, false));
        assert(out_key(i) =~= key_form(i, true));
    } else if i == 13 {
        reveal_strlit("base0d");
        reveal_strlit("base0D");
        assert(slot_key(i) =~= key_form(i, false));
        assert(out_key(i) =~= key_form(i, true));
    } else if i == 14 {
        reveal_strlit("base0e");
        reveal_strlit("base0E");
        assert(slot_key(i) =~= key_form(i, false));
        assert(out_key(i) =~= key_form(i, true));
    } else if i == 15 {
        reveal_strlit("base0f");
        reveal_strlit("base0F");
        assert(slot_key(i) =~= key_form(i, false));
        assert(out_key(i) =~= key_form(i, true));
    } else if i == 16 {
        reveal_strlit("base10");
        assert(slot_key(i) =~= key_form(i, false));
        assert(out_key(i) =~= key_form(i, true));
    } else if i == 17 {
        reveal_strlit("base11");
        assert(slot_key(i) =~= key_form(i, false));
        assert(out_key(i) =~= key_form(i, true));
    } else if i == 18 {
        reveal_strlit("base12");
        assert(slot_key(i) =~= key_form(i, false));
        assert(out_key(i) =~= key_form(i, true));
    } else if i == 19 {
        reveal_strlit("base13");
        assert(slot_key(i) =~= key_form(i, false));
        assert(out_key(i) =~= key_form(i, true));
    } else if i == 20 {
        reveal_strlit("base14");
        assert(slot_key(i) =~= key_form(i, false));
        assert(out_key(i) =~= key_form(i, true));
    } else if i == 21 {
        reveal_strlit("base15");
        assert(slot_key(i) =~= key_form(i, false));
        assert(out_key(i) =~= key_form(i, true));
    } else if i == 22 {
        reveal_strlit("base16");
        assert(slot_key(i) =~= key_form(i, false));
        assert(out_key(i) =~= key_form(i, true));
    } else {
        reveal_strlit("base17");
        assert(slot_key(i) =~= key_form(i, false));
        assert(out_key(i) =~= key_form(i, true));
    }
}

/// Properties of the slot keys: they can start a line, and lower-casing the
/// written key gives the key that is looked up.
pub proof fn lemma_key_props(i: int)
    requires
        0 <= i < 24,
    ensures
        plain_key(key_form(i, true)),
        ascii_lower(key_form(i, true)) == key_form(i, false),
        key_form(i, false).len() == 6,
        key_form(i, false)[0] == 'b',
        key_form(i, false)[4] == key_digit(i / 16, false),
        key_form(i, false)[5] == key_digit(i % 16, false),
{
    reveal_strlit("base");
    let k = key_form(i, true);
    assert(k.len() == 6);
    assert(k[0] == 'b');
    assert(k[1] == 'a');
    assert(k[2] == 's');
    assert(k[3] == 'e');
    assert(k[4] == key_digit(i / 16, true));
    assert(k[5] == key_digit(i % 16, true));
    assert(is_ascii_chars(k)) by {
        assert forall|j: int| 0 <= j < k.len() implies '\0' <= #[trigger] k[j] <= '\u{7f}' by {}
    }
    assert(ascii_lower(k) =~= key_form(i, false));
}

/// Different slots have different keys.
pub proof fn lemma_key_distinct(i: int, j: int)
    requires
        0 <= i < 24,
        0 <= j < 24,
        i != j,
    ensures
        key_form(i, false) != key_form(j, false),
{
    lemma_key_props(i);
    lemma_key_props(j);
    if key_form(i, false) == key_form(j, false) {
        assert(key_form(i, false)[4] == key_form(j, false)[4]);
        assert(key_form(i, false)[5] == key_form(j, false)[5]);
        assert(i / 16 == j / 16);
        assert(i % 16 == j % 16);
    }
}

/// A normalized slot value is written as its six characters after the `#`,
/// which can stand in double quotes and normalize back to the value.
pub proof fn lemma_slot_value(v: Seq<char>)
    requires
        spec_normalize(v) == Some(v),
    ensures
        slot_text(v) == v.drop_first(),
        plain_value(v.drop_first()),
        spec_normalize(v.drop_first()) == Some(v),
{
    lemma_normalized(v);
    let d = v.drop_first();
    assert(is_ascii_chars(d)) by {
        assert forall|k: int| 0 <= k < d.len() implies '\0' <= #[trigger] d[k] <= '\u{7f}' by {
            assert(d[k] == v[k + 1]);
        }
    }
    assert(lowercase(d) == d);
    crate::hex::lemma_digits_some(d);
    assert(d.len() == 6);
    assert(lacks(d, '"')) by {
        assert forall|k: int| 0 <= k < d.len() implies d[k] != '"' by {
            assert(hex_digit_value(d[k]) is Some);
        }
    }
    assert(lacks(d, '\n')) by {
        assert forall|k: int| 0 <= k < d.len() implies d[k] != '\n' by {
            assert(hex_digit_value(d[k]) is Some);
        }
    }
    assert(hex_digit_value(d[0]) is Some);
    assert(hex_digit_value(d[5]) is Some);
    assert(d.last() == d[5]);
}

/// The header keys can start a line and are already lower case.
pub proof fn lemma_header_keys()
    ensures
        plain_key("scheme"@),
        plain_key("author"@),
        plain_key("variant"@),
        ascii_lower("scheme"@) == "scheme"@,
        ascii_lower("author"@) == "author"@,
        ascii_lower("variant"@) == "variant"@,
        "scheme"@[0] == 's',
        "author"@[0] == 'a',
        "variant"@[0] == 'v',
{
    reveal_strlit("scheme");
    reveal_strlit("author");
    reveal_strlit("variant");
    assert(ascii_lower("scheme"@) =~= "scheme"@);
    assert(ascii_lower("author"@) =~= "author"@);
    assert(ascii_lower("variant"@) =~= "variant"@);
    assert(is_ascii_chars("scheme"@)) by {
        assert forall|j: int| 0 <= j < "scheme"@.len() implies '\0' <= #[trigger] "scheme"@[j] <= '\u{7f}' by {}
    }
    assert(is_ascii_chars("author"@)) by {
        assert forall|j: int| 0 <= j < "author"@.len() implies '\0' <= #[trigger] "author"@[j] <= '\u{7f}' by {}
    }
    assert(is_ascii_chars("variant"@)) by {
        assert forall|j: int| 0 <= j < "variant"@.len() implies '\0' <= #[trigger] "variant"@[j] <= '\u{7f}' by {}
    }
}

/// Twenty-four slot values, each a normalized color.
pub open spec fn normalized_slots(vs: Seq<Seq<char>>) -> bool {
    &&& vs.len() == 24
    &&& forall|i: int| 0 <= i < 24 ==> spec_normalize(#[trigger] vs[i]) == Some(vs[i])
}

/// The slots of every theme read from scheme text are normalized colors, so
/// the round trip below applies to them.
pub proof fn lemma_resolved_normalized(m: Map<Seq<char>, Seq<char>>)
    requires
        slots_ok(m),
    ensures
        normalized_slots(resolved_slots(m)),
{
    assert forall|i: int| 0 <= i < 24 implies spec_normalize(#[trigger] resolved_slots(m)[i])
        == Some(resolved_slots(m)[i]) by {
        let j = if i < required_slots(m) { i } else { fallback_slot(i) };
        assert(normalized_slot(m, j) is Some);
        lemma_normalized(m[slot_key(j)]);
    }
}

/// The keys of the lines of a written theme, as read back.
pub open spec fn written_keys() -> Seq<Seq<char>> {
    seq!["scheme"@, "author"@, "variant"@] + Seq::new(24, |i: int| slot_key(i))
}

/// The values of the lines of a written theme.
pub open spec fn written_values(
    name: Seq<char>,
    author: Seq<char>,
    dark: bool,
    vs: Seq<Seq<char>>,
) -> Seq<Seq<char>> {
    seq![name, author, variant_text(dark)] + Seq::new(24, |i: int| slot_text(vs[i]))
}

/// Writing a theme as base24 text ([`Theme::to_base24_str`]) and reading that
/// text ([`Theme::from_base24_str`]) gives back every slot, the name and the
/// author, provided the slots are normalized colors (as every theme built by
/// this library has them) and the name and author can stand between double
/// quotes (no `"`, no line break, no `'` at either end).
pub proof fn law_base24_round_trip(
    name: Seq<char>,
    author: Seq<char>,
    dark: bool,
    vs: Seq<Seq<char>>,
)
    requires
        normalized_slots(vs),
        plain_value(name),
        plain_value(author),
    ensures
        ({
            let m = scheme_map(base24_text(name, author, dark, vs));
            &&& slots_ok(m)
            &&& resolved_slots(m) == vs
            &&& scheme_name(m) == name
            &&& scheme_author(m) == author
        }),
{
    let hs = header_lines(name, author, dark);
    let ls = hs + slot_entry_lines(vs);
    let ks = written_keys();
    let vals = written_values(name, author, dark, vs);
    lemma_header_keys();
    reveal_strlit("dark");
    reveal_strlit("light");
    assert(plain_value(variant_text(dark)));
    assert forall|k: int| 0 <= k < ls.len() implies #[trigger] line_entry(ls[k]) == Some(
        (ks[k], vals[k]),
    ) && lacks(ls[k], '\n') && ls[k].last() != '\r' by {
        if k == 0 {
            lemma_entry_line("scheme"@, name);
        } else if k == 1 {
            lemma_entry_line("author"@, author);
        } else if k == 2 {
            lemma_entry_line("variant"@, variant_text(dark));
        } else {
            let i = k - 3;
            lemma_key_shape(i);
            lemma_key_props(i);
            lemma_slot_value(vs[i]);
            lemma_entry_line(out_key(i), slot_text(vs[i]));
        }
    }
    assert(plain_lines(ls)) by {
        assert forall|k: int| 0 <= k < ls.len() implies lacks(#[trigger] ls[k], '\n') && (
        ls[k].len() == 0 || ls[k].last() != '\r') by {
            assert(line_entry(ls[k]) == Some((ks[k], vals[k])));
        }
    }
    lemma_decoded_joined(ls);
    assert forall|j: int, k: int| 0 <= j < k < ls.len() implies #[trigger] ks[j] != #[trigger] ks[k] by {
        if k >= 3 {
            lemma_key_shape(k - 3);
            lemma_key_props(k - 3);
            if j >= 3 {
                lemma_key_shape(j - 3);
                lemma_key_distinct(j - 3, k - 3);
            } else {
                assert(ks[k][0] == 'b');
            }
        }
    }
    lemma_entries_map(ls, ks, vals);
    let m = scheme_map(base24_text(name, author, dark, vs));
    assert(m == entries_map(ls));
    assert(m.contains_key(ks[0]) && m[ks[0]] == vals[0]);
    assert(m.contains_key(ks[1]) && m[ks[1]] == vals[1]);
    assert(m.contains_key(ks[19]) && ks[19] == "base10"@);
    assert(required_slots(m) == 24);
    assert forall|i: int| 0 <= i < 24 implies #[trigger] normalized_slot(m, i) == Some(vs[i]) by {
        assert(m.contains_key(ks[i + 3]) && m[ks[i + 3]] == vals[i + 3]);
        assert(ks[i + 3] == slot_key(i));
        lemma_slot_value(vs[i]);
    }
    assert(slots_ok(m));
    assert(resolved_slots(m) =~= vs);
}

/// A normalized color denotes an RGB triple: its three two-character parts
/// each read as a number below 256.
pub proof fn lemma_normalized_rgb(v: Seq<char>)
    requires
        spec_normalize(v) == Some(v),
    ensures
        spec_rgb(v) is Some,
{
}


/// `a` and `b` hold the same text in every field: name, author, darkness,
/// slots and every ANSI, semantic and UI color.
pub open spec fn same_theme(a: crate::theme::Theme, b: crate::theme::Theme) -> bool {
    &&& a.meta.name@ == b.meta.name@
    &&& a.meta.author@ == b.meta.author@
    &&& a.meta.dark == b.meta.dark
    &&& a.base24.values() == b.base24.values()
    &&& a.ansi.black@ == b.ansi.black@
    &&& a.ansi.red@ == b.ansi.red@
    &&& a.ansi.green@ == b.ansi.green@
    &&& a.ansi.yellow@ == b.ansi.yellow@
    &&& a.ansi.blue@ == b.ansi.blue@
    &&& a.ansi.magenta@ == b.ansi.magenta@
    &&& a.ansi.cyan@ == b.ansi.cyan@
    &&& a.ansi.white@ == b.ansi.white@
    &&& a.ansi.bright_black@ == b.ansi.bright_black@
    &&& a.ansi.bright_red@ == b.ansi.bright_red@
    &&& a.ansi.bright_green@ == b.ansi.bright_green@
    &&& a.ansi.bright_yellow@ == b.ansi.bright_yellow@
    &&& a.ansi.bright_blue@ == b.ansi.bright_blue@
    &&& a.ansi.bright_magenta@ == b.ansi.bright_magenta@
    &&& a.ansi.bright_cyan@ == b.ansi.bright_cyan@
    &&& a.ansi.bright_white@ == b.ansi.bright_white@
    &&& a.semantic.error@ == b.semantic.error@
    &&& a.semantic.warning@ == b.semantic.warning@
    &&& a.semantic.info@ == b.semantic.info@
    &&& a.semantic.success@ == b.semantic.success@
    &&& a.semantic.highlight@ == b.semantic.highlight@
    &&& a.semantic.link@ == b.semantic.link@
    &&& a.ui.bg.primary@ == b.ui.bg.primary@
    &&& a.ui.bg.secondary@ == b.ui.bg.secondary@
    &&& a.ui.fg.primary@ == b.ui.fg.primary@
    &&& a.ui.fg.secondary@ == b.ui.fg.secondary@
    &&& a.ui.fg.muted@ == b.ui.fg.muted@
    &&& a.ui.border.primary@ == b.ui.border.primary@
    &&& a.ui.border.muted@ == b.ui.border.muted@
    &&& a.ui.cursor.primary@ == b.ui.cursor.primary@
    &&& a.ui.cursor.muted@ == b.ui.cursor.muted@
    &&& a.ui.selection.bg@ == b.ui.selection.bg@
    &&& a.ui.selection.fg@ == b.ui.selection.fg@
}

/// Reading back what [`crate::theme::Theme::to_base24_str`] writes of a
/// theme `t` succeeds, and every theme that
/// [`crate::theme::Theme::from_base24_str`] may return for that text is the
/// same theme as `t`. This holds of every theme whose fields are derived from
/// its slots, whose slots are normalized colors (as for every theme read from
/// scheme text, see [`lemma_resolved_normalized`], and every built-in theme)
/// and whose name and author can stand between double quotes.
pub proof fn law_theme_round_trip(t: crate::theme::Theme, u: crate::theme::Theme)
    requires
        t.is_derived(),
        normalized_slots(t.base24.values()),
        plain_value(t.meta.name@),
        plain_value(t.meta.author@),
        ({
            let m = scheme_map(base24_text(t.meta.name@, t.meta.author@, t.meta.dark, t.base24.values()));
            u.models(resolved_slots(m), scheme_name(m), scheme_author(m))
        }),
    ensures
        slots_ok(scheme_map(base24_text(t.meta.name@, t.meta.author@, t.meta.dark, t.base24.values()))),
        same_theme(u, t),
{
    law_base24_round_trip(t.meta.name@, t.meta.author@, t.meta.dark, t.base24.values());
    let vs = t.base24.values();
    assert(u.base24.values() == vs);
}

} // verus!
