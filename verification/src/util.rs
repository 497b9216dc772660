//! Collections of themes: the built-in ones, and those merged with user themes.
use vstd::prelude::*;
use crate::builtin::{BuiltinTheme, all_builtins, builtin_author, builtin_name, builtin_slots};
use crate::base24::scheme_map;
use crate::text::{ends_with, has_suffix, kebab_case, to_kebab_case};
use crate::theme::{Theme, file_name_of, resolved_slots, scheme_author, scheme_name, slots_ok};
use vstd::string::{StrSliceExecFns, StringExecFns};

verus! {

/// `ts` are the built-in themes, in declaration order.
pub open spec fn builtin_seq(ts: Seq<Theme>) -> bool {
    &&& ts.len() == all_builtins().len()
    &&& forall|i: int|
        0 <= i < ts.len() ==> #[trigger] ts[i].models(
            builtin_slots(all_builtins()[i]),
            builtin_name(all_builtins()[i]),
            builtin_author(all_builtins()[i]),
        )
}

/// All the built-in themes, in declaration order.
pub fn builtin_themes() -> (r: Vec<Theme>)
    ensures
        builtin_seq(r@),
{
    let all = BuiltinTheme::iter();
    let mut out: Vec<Theme> = Vec::new();
    for k in 0..all.len()
        invariant
            all@ == all_builtins(),
            out.len() == k,
            forall|i: int|
                0 <= i < k ==> #[trigger] out@[i].models(
                    builtin_slots(all_builtins()[i]),
                    builtin_name(all_builtins()[i]),
                    builtin_author(all_builtins()[i]),
                ),
    {
        out.push(all[k].theme());
    }
    out
}

/// Some theme of `ts` has the name `n`.
pub open spec fn named_in(ts: Seq<Theme>, n: Seq<char>) -> bool {
    exists|j: int| 0 <= j < ts.len() && #[trigger] ts[j].meta.name@ == n
}

/// `ts` with only the last theme of each name kept, in order.
pub open spec fn last_of_each_name(ts: Seq<Theme>) -> Seq<Theme>
    decreases ts.len(),
{
    if ts.len() == 0 {
        Seq::empty()
    } else if named_in(ts.drop_first(), ts[0].meta.name@) {
        last_of_each_name(ts.drop_first())
    } else {
        seq![ts[0]] + last_of_each_name(ts.drop_first())
    }
}

/// The themes of `bs` whose names no theme of `user` has, in order.
pub open spec fn not_named_in(bs: Seq<Theme>, user: Seq<Theme>) -> Seq<Theme>
    decreases bs.len(),
{
    if bs.len() == 0 {
        Seq::empty()
    } else if named_in(user, bs[0].meta.name@) {
        not_named_in(bs.drop_first(), user)
    } else {
        seq![bs[0]] + not_named_in(bs.drop_first(), user)
    }
}

/// User themes merged with built-in ones: for each name the last user theme
/// of that name, then the built-in themes that no user theme overrides.
pub open spec fn merged_themes(user: Seq<Theme>, bs: Seq<Theme>) -> Seq<Theme> {
    last_of_each_name(user) + not_named_in(bs, user)
}

/// Whether a theme of `ts` has the name `n`.
fn has_name(ts: &Vec<Theme>, n: &String) -> (b: bool)
    ensures
        b == named_in(ts@, n@),
{
    for j in 0..ts.len()
        invariant
            forall|i: int| 0 <= i < j ==> #[trigger] ts@[i].meta.name@ != n@,
    {
        if ts[j].meta.name == *n {
            return true;
        }
    }
    false
}

/// Whether one of `names` is `n`.
fn in_names(names: &Vec<String>, n: &String) -> (b: bool)
    ensures
        b == exists|j: int| 0 <= j < names.len() && #[trigger] names@[j]@ == n@,
{
    for j in 0..names.len()
        invariant
            forall|i: int| 0 <= i < j ==> #[trigger] names@[i]@ != n@,
    {
        if names[j] == *n {
            return true;
        }
    }
    false
}

/// Merges `user` themes with built-in themes `builtins`: a user theme
/// replaces the built-in theme of the same name, and of several user themes
/// with one name the last is kept.
pub fn merge_themes(user: Vec<Theme>, builtins: Vec<Theme>) -> (r: Vec<Theme>)
    ensures
        r@ == merged_themes(user@, builtins@),
{
    let ghost u0 = user@;
    let ghost b0 = builtins@;
    let mut names: Vec<String> = Vec::new();
    for j in 0..user.len()
        invariant
            names.len() == j,
            forall|i: int| 0 <= i < j ==> #[trigger] names@[i]@ == user@[i].meta.name@,
    {
        names.push(user[j].meta.name.clone());
    }
    let mut rest = user;
    let mut out: Vec<Theme> = Vec::new();
    proof {
        assert(u0.skip(0) =~= u0);
    }
    while rest.len() > 0
        invariant
            last_of_each_name(u0) == out@ + last_of_each_name(rest@),
        decreases rest.len(),
    {
        let ghost before = rest@;
        let t = rest.remove(0);
        proof {
            assert(rest@ =~= before.drop_first());
        }
        if has_name(&rest, &t.meta.name) {
            proof {
                assert(out@ + last_of_each_name(rest@) == out@ + last_of_each_name(before));
            }
        } else {
            out.push(t);
            proof {
                assert(last_of_each_name(before) == seq![t] + last_of_each_name(rest@));
                assert(out@ + last_of_each_name(rest@) =~= out@.drop_last() + (seq![t]
                    + last_of_each_name(rest@)));
            }
        }
    }
    proof {
        assert(out@ + last_of_each_name(rest@) =~= out@);
    }
    let mut bs = builtins;
    while bs.len() > 0
        invariant
            names.len() == u0.len(),
            forall|i: int| 0 <= i < names.len() ==> #[trigger] names@[i]@ == u0[i].meta.name@,
            merged_themes(u0, b0) == out@ + not_named_in(bs@, u0),
        decreases bs.len(),
    {
        let ghost before = bs@;
        let b = bs.remove(0);
        proof {
            assert(bs@ =~= before.drop_first());
        }
        let seen = in_names(&names, &b.meta.name);
        proof {
            if seen {
                let j = choose|j: int| 0 <= j < names.len() && #[trigger] names@[j]@ == b.meta.name@;
                assert(u0[j].meta.name@ == b.meta.name@);
            } else {
                assert forall|j: int| 0 <= j < u0.len() implies #[trigger] u0[j].meta.name@
                    != b.meta.name@ by {
                    assert(names@[j]@ == u0[j].meta.name@);
                }
            }
        }
        if !seen {
            out.push(b);
            proof {
                assert(out@ + not_named_in(bs@, u0) =~= out@.drop_last() + (seq![b]
                    + not_named_in(bs@, u0)));
            }
        }
    }
    proof {
        assert(out@ + not_named_in(bs@, u0) =~= out@);
    }
    out
}

/// All available themes: the given user themes merged with the built-in
/// themes (see [`merge_themes`]).
pub fn all_themes(user: Vec<Theme>) -> (r: Vec<Theme>)
    ensures
        exists|bs: Seq<Theme>| builtin_seq(bs) && r@ == merged_themes(user@, bs),
{
    let bs = builtin_themes();
    let ghost b = bs@;
    let r = merge_themes(user, bs);
    assert(builtin_seq(b) && r@ == merged_themes(user@, b));
    r
}

/// No two themes of `ts` share a name.
pub open spec fn distinct_names(ts: Seq<Theme>) -> bool {
    forall|i: int, j: int|
        0 <= i < j < ts.len() ==> #[trigger] ts[i].meta.name@ != #[trigger] ts[j].meta.name@
}

/// What [`last_of_each_name`] keeps: exactly the themes of `ts` that no later
/// theme of the same name follows, and their names are distinct.
pub proof fn lemma_last_of_each_name(ts: Seq<Theme>)
    ensures
        forall|t: Theme| #[trigger] last_of_each_name(ts).contains(t) ==> ts.contains(t),
        forall|i: int|
            0 <= i < ts.len() && !named_in(ts.skip(i + 1), ts[i].meta.name@)
                ==> #[trigger] last_of_each_name(ts).contains(ts[i]),
        forall|n: Seq<char>| #[trigger] named_in(last_of_each_name(ts), n) <==> named_in(ts, n),
        distinct_names(last_of_each_name(ts)),
    decreases ts.len(),
{
    if ts.len() > 0 {
        let tail = ts.drop_first();
        lemma_last_of_each_name(tail);
        let lt = last_of_each_name(tail);
        let r = last_of_each_name(ts);
        assert forall|t: Theme| #[trigger] r.contains(t) implies ts.contains(t) by {
            if lt.contains(t) {
                let k = choose|k: int| 0 <= k < tail.len() && tail[k] == t;
                assert(ts[k + 1] == t);
            } else {
                assert(t == ts[0]);
            }
        }
        assert forall|i: int|
            0 <= i < ts.len() && !named_in(ts.skip(i + 1), ts[i].meta.name@) implies #[trigger] r.contains(ts[i]) by {
            if i == 0 {
                assert(ts.skip(1) =~= tail);
                assert(r[0] == ts[0]);
            } else {
                assert(ts.skip(i + 1) =~= tail.skip(i));
                assert(tail[i - 1] == ts[i]);
                assert(lt.contains(tail[i - 1]));
                let k = choose|k: int| 0 <= k < lt.len() && lt[k] == ts[i];
                if !named_in(tail, ts[0].meta.name@) {
                    assert(r[k + 1] == ts[i]);
                }
            }
        }
        assert forall|n: Seq<char>| named_in(r, n) <==> named_in(ts, n) by {
            if named_in(ts, n) {
                let j = choose|j: int| 0 <= j < ts.len() && #[trigger] ts[j].meta.name@ == n;
                if j > 0 {
                    assert(tail[j - 1].meta.name@ == n);
                    assert(named_in(tail, n));
                    assert(named_in(lt, n));
                    let k = choose|k: int| 0 <= k < lt.len() && #[trigger] lt[k].meta.name@ == n;
                    if !named_in(tail, ts[0].meta.name@) {
                        assert(r[k + 1].meta.name@ == n);
                    }
                } else if named_in(tail, ts[0].meta.name@) {
                    assert(named_in(lt, n));
                } else {
                    assert(r[0].meta.name@ == n);
                }
            }
            if named_in(r, n) {
                let j = choose|j: int| 0 <= j < r.len() && #[trigger] r[j].meta.name@ == n;
                if named_in(tail, ts[0].meta.name@) {
                    assert(named_in(lt, n));
                    assert(named_in(tail, n));
                    let k = choose|k: int| 0 <= k < tail.len() && #[trigger] tail[k].meta.name@ == n;
                    assert(ts[k + 1].meta.name@ == n);
                } else if j == 0 {
                    assert(ts[0].meta.name@ == n);
                } else {
                    assert(lt[j - 1].meta.name@ == n);
                    assert(named_in(lt, n));
                    assert(named_in(tail, n));
                    let k = choose|k: int| 0 <= k < tail.len() && #[trigger] tail[k].meta.name@ == n;
                    assert(ts[k + 1].meta.name@ == n);
                }
            }
        }
        assert(distinct_names(r)) by {
            if !named_in(tail, ts[0].meta.name@) {
                assert forall|i: int, j: int| 0 <= i < j < r.len() implies #[trigger] r[i].meta.name@
                    != #[trigger] r[j].meta.name@ by {
                    if i == 0 {
                        assert(r[j] == lt[j - 1]);
                        if r[j].meta.name@ == ts[0].meta.name@ {
                            assert(named_in(lt, ts[0].meta.name@));
                        }
                    } else {
                        assert(r[i] == lt[i - 1]);
                        assert(r[j] == lt[j - 1]);
                    }
                }
            }
        }
    }
}

/// What [`not_named_in`] keeps: exactly the themes of `bs` whose name no
/// theme of `user` has; distinct names stay distinct.
pub proof fn lemma_not_named_in(bs: Seq<Theme>, user: Seq<Theme>)
    ensures
        forall|t: Theme|
            #[trigger] not_named_in(bs, user).contains(t) <==> bs.contains(t) && !named_in(
                user,
                t.meta.name@,
            ),
        distinct_names(bs) ==> distinct_names(not_named_in(bs, user)),
    decreases bs.len(),
{
    if bs.len() > 0 {
        let tail = bs.drop_first();
        lemma_not_named_in(tail, user);
        let nt = not_named_in(tail, user);
        let r = not_named_in(bs, user);
        assert forall|t: Theme| #[trigger] r.contains(t) <==> bs.contains(t) && !named_in(
            user,
            t.meta.name@,
        ) by {
            if r.contains(t) {
                if nt.contains(t) {
                    let k = choose|k: int| 0 <= k < tail.len() && tail[k] == t;
                    assert(bs[k + 1] == t);
                } else {
                    assert(t == bs[0]);
                }
            }
            if bs.contains(t) && !named_in(user, t.meta.name@) {
                let k = choose|k: int| 0 <= k < bs.len() && bs[k] == t;
                if k > 0 {
                    assert(tail[k - 1] == t);
                    assert(nt.contains(t));
                    let m = choose|m: int| 0 <= m < nt.len() && nt[m] == t;
                    if !named_in(user, bs[0].meta.name@) {
                        assert(r[m + 1] == t);
                    }
                } else {
                    assert(r[0] == t);
                }
            }
        }
        if distinct_names(bs) {
            assert(distinct_names(tail)) by {
                assert forall|i: int, j: int| 0 <= i < j < tail.len() implies #[trigger] tail[i].meta.name@
                    != #[trigger] tail[j].meta.name@ by {
                    assert(bs[i + 1].meta.name@ != bs[j + 1].meta.name@);
                }
            }
            if !named_in(user, bs[0].meta.name@) {
                assert forall|i: int, j: int| 0 <= i < j < r.len() implies #[trigger] r[i].meta.name@
                    != #[trigger] r[j].meta.name@ by {
                    if i == 0 {
                        assert(nt.contains(r[j]));
                        let k = choose|k: int| 0 <= k < tail.len() && tail[k] == r[j];
                        assert(bs[0].meta.name@ != bs[k + 1].meta.name@);
                    } else {
                        assert(r[i] == nt[i - 1]);
                        assert(r[j] == nt[j - 1]);
                    }
                }
            }
        }
    }
}

/// User themes override built-in themes of the same name. The merged list
/// holds, for each user theme name, the last user theme of that name; every
/// built-in theme whose name no user theme has; nothing else; and, when the
/// built-in names are distinct, no name twice.
pub proof fn law_user_themes_override(user: Seq<Theme>, bs: Seq<Theme>)
    ensures
        forall|i: int|
            0 <= i < user.len() && !named_in(user.skip(i + 1), user[i].meta.name@)
                ==> #[trigger] merged_themes(user, bs).contains(user[i]),
        forall|b: Theme|
            bs.contains(b) && !named_in(user, b.meta.name@) ==> #[trigger] merged_themes(
                user,
                bs,
            ).contains(b),
        forall|t: Theme|
            #[trigger] merged_themes(user, bs).contains(t) ==> (user.contains(t) && named_in(
                user,
                t.meta.name@,
            )) || (bs.contains(t) && !named_in(user, t.meta.name@)),
        distinct_names(bs) ==> distinct_names(merged_themes(user, bs)),
{
    lemma_last_of_each_name(user);
    lemma_not_named_in(bs, user);
    let a = last_of_each_name(user);
    let b = not_named_in(bs, user);
    let m = merged_themes(user, bs);
    assert forall|i: int|
        0 <= i < user.len() && !named_in(user.skip(i + 1), user[i].meta.name@) implies #[trigger] m.contains(user[i]) by {
        assert(a.contains(user[i]));
        let k = choose|k: int| 0 <= k < a.len() && a[k] == user[i];
        assert(m[k] == user[i]);
    }
    assert forall|t: Theme| bs.contains(t) && !named_in(user, t.meta.name@) implies #[trigger] m.contains(t) by {
        assert(b.contains(t));
        let k = choose|k: int| 0 <= k < b.len() && b[k] == t;
        assert(m[a.len() + k] == t);
    }
    assert forall|t: Theme| #[trigger] m.contains(t) implies (user.contains(t) && named_in(
        user,
        t.meta.name@,
    )) || (bs.contains(t) && !named_in(user, t.meta.name@)) by {
        let k = choose|k: int| 0 <= k < m.len() && m[k] == t;
        if k < a.len() {
            assert(a[k] == t);
            assert(a.contains(t));
            assert(user.contains(t));
            let j = choose|j: int| 0 <= j < user.len() && user[j] == t;
            assert(user[j].meta.name@ == t.meta.name@);
        } else {
            assert(b[k - a.len()] == t);
            assert(b.contains(t));
        }
    }
    if distinct_names(bs) {
        assert forall|i: int, j: int| 0 <= i < j < m.len() implies #[trigger] m[i].meta.name@
            != #[trigger] m[j].meta.name@ by {
            if j < a.len() {
                assert(m[i] == a[i] && m[j] == a[j]);
            } else if i >= a.len() {
                assert(m[i] == b[i - a.len()] && m[j] == b[j - a.len()]);
            } else {
                assert(m[i] == a[i]);
                assert(m[j] == b[j - a.len()]);
                assert(named_in(a, a[i].meta.name@));
                assert(b.contains(m[j]));
            }
        }
    }
}

/// `.` followed by the extension `ext`.
pub open spec fn ext_suffix(ext: Seq<char>) -> Seq<char> {
    seq!['.'] + ext
}

/// The file name `f` has the extension `ext` (`Path::extension`): it ends with
/// `.` and `ext`, and something comes before the dot.
pub open spec fn has_ext(f: Seq<char>, ext: Seq<char>) -> bool {
    has_suffix(f, ext_suffix(ext)) && f.len() > ext_suffix(ext).len()
}

/// The file stem (`Path::file_stem`) of a file name with extension `ext`.
pub open spec fn file_stem(f: Seq<char>, ext: Seq<char>) -> Seq<char> {
    f.subrange(0, f.len() - ext_suffix(ext).len())
}

/// Whether the file name `f` has the extension `ext`.
pub fn has_extension(f: &str, ext: &str) -> (b: bool)
    ensures
        b == has_ext(f@, ext@),
{
    let mut suffix = String::from_str(".");
    proof {
        reveal_strlit(".");
    }
    suffix.append(ext);
    assert(suffix@ =~= ext_suffix(ext@));
    ends_with(f, suffix.as_str()) && f.unicode_len() > suffix.as_str().unicode_len()
}

/// A file of a themes directory: its name and its text.
#[derive(Debug, Clone)]
pub struct ThemeFile {
    /// The file name.
    pub name: String,
    /// The text of the file.
    pub text: String,
}

/// The texts of the files of `fs` that have extension `ext` and read as a
/// complete theme, in order.
pub open spec fn usable_texts(fs: Seq<ThemeFile>, ext: Seq<char>) -> Seq<Seq<char>>
    decreases fs.len(),
{
    if fs.len() == 0 {
        Seq::empty()
    } else {
        let rest = usable_texts(fs.drop_last(), ext);
        let f = fs.last();
        if has_ext(f.name@, ext) && slots_ok(scheme_map(f.text@)) {
            rest.push(f.text@)
        } else {
            rest
        }
    }
}

/// `ts` are the themes read from the scheme texts `xs`, in order.
pub open spec fn themes_of_texts(ts: Seq<Theme>, xs: Seq<Seq<char>>) -> bool {
    &&& ts.len() == xs.len()
    &&& forall|i: int|
        0 <= i < ts.len() ==> #[trigger] ts[i].models(
            resolved_slots(scheme_map(xs[i])),
            scheme_name(scheme_map(xs[i])),
            scheme_author(scheme_map(xs[i])),
        )
}

/// The themes read from the files of a directory that have extension `ext`;
/// files that do not read as a theme are skipped.
pub fn themes_from_files(files: &Vec<ThemeFile>, ext: &str) -> (r: Vec<Theme>)
    ensures
        themes_of_texts(r@, usable_texts(files@, ext@)),
{
    let mut out: Vec<Theme> = Vec::new();
    for k in 0..files.len()
        invariant
            themes_of_texts(out@, usable_texts(files@.take(k as int), ext@)),
    {
        proof {
            assert(files@.take(k + 1).drop_last() =~= files@.take(k as int));
            assert(files@.take(k + 1).last() == files@[k as int]);
        }
        let f = &files[k];
        if has_extension(f.name.as_str(), ext) {
            match Theme::from_base24_str(f.text.as_str()) {
                Ok(t) => {
                    out.push(t);
                },
                Err(_) => {},
            }
        }
    }
    proof {
        assert(files@.take(files@.len() as int) =~= files@);
    }
    out
}

/// All themes in the user themes directory, given its files: those named
/// `*.yaml` that read as a theme. A file that does not read is skipped.
pub fn all_from_dir(files: &Vec<ThemeFile>) -> (r: Vec<Theme>)
    ensures
        themes_of_texts(r@, usable_texts(files@, "yaml"@)),
{
    themes_from_files(files, "yaml")
}

/// The file name of the theme named `name`: its kebab-case slug followed by
/// `.yaml`; a name given with its `.yaml` extension keeps it.
pub fn theme_file_name(name: &str) -> (r: String)
    ensures
        r@ == file_name_of(name@),
{
    crate::text::slug_file_name_str(name, ".yaml")
}

/// An entry of a directory of a theme repository.
#[derive(Debug, Clone)]
pub struct RepoEntry {
    /// The entry's file name.
    pub name: String,
    /// Whether the entry is a file (a blob, executable or not).
    pub is_file: bool,
}

/// Which repository entries to save, and which wanted files were not found.
#[derive(Debug, Clone)]
pub struct RepoSelection {
    /// The positions of the entries to save, in order.
    pub save: Vec<usize>,
    /// The wanted file names that no saved entry has, each once, in the
    /// order they were asked for.
    pub not_found: Vec<String>,
}

/// Some position listed in `ps` is `i`.
pub open spec fn listed(ps: Seq<usize>, i: int) -> bool {
    exists|q: int| 0 <= q < ps.len() && ps[q] as int == i
}

/// Some string of `ws` is `n`.
pub open spec fn wanted_name(ws: Seq<String>, n: Seq<char>) -> bool {
    exists|j: int| 0 <= j < ws.len() && #[trigger] ws[j]@ == n
}

/// Entry `i` of `es` is saved: it is a file, its name is wanted, and no
/// earlier file entry has the same name.
pub open spec fn saves(es: Seq<RepoEntry>, ws: Seq<String>, i: int) -> bool {
    &&& es[i].is_file
    &&& wanted_name(ws, es[i].name@)
    &&& forall|j: int| 0 <= j < i ==> !((#[trigger] es[j]).is_file && es[j].name@ == es[i].name@)
}

/// Some entry of `es` that is saved has the name `n`.
pub open spec fn saved_name(es: Seq<RepoEntry>, ws: Seq<String>, n: Seq<char>) -> bool {
    exists|i: int| 0 <= i < es.len() && saves(es, ws, i) && #[trigger] es[i].name@ == n
}

/// Whether some entry of `es[..upto]` is a file named `n`.
fn file_named_before(es: &Vec<RepoEntry>, upto: usize, n: &String) -> (b: bool)
    requires
        upto <= es.len(),
    ensures
        b == exists|j: int| 0 <= j < upto && (#[trigger] es@[j]).is_file && es@[j].name@ == n@,
{
    for j in 0..upto
        invariant
            upto <= es.len(),
            forall|k: int| 0 <= k < j ==> !((#[trigger] es@[k]).is_file && es@[k].name@ == n@),
    {
        if es[j].is_file && es[j].name == *n {
            return true;
        }
    }
    false
}

/// Whether one of `ws[..upto]` is `n`.
fn named_before(ws: &Vec<String>, upto: usize, n: &String) -> (b: bool)
    requires
        upto <= ws.len(),
    ensures
        b == exists|j: int| 0 <= j < upto && #[trigger] ws@[j]@ == n@,
{
    for j in 0..upto
        invariant
            upto <= ws.len(),
            forall|k: int| 0 <= k < j ==> #[trigger] ws@[k]@ != n@,
    {
        if ws[j] == *n {
            return true;
        }
    }
    false
}

/// Chooses the entries of a repository directory to save for the wanted
/// file names: each file entry whose name is wanted, the first one of each
/// name; and reports the wanted names that were not found.
pub fn select_repo_entries(entries: &Vec<RepoEntry>, wanted: &Vec<String>) -> (r: RepoSelection)
    ensures
        forall|k: int| 0 <= k < r.save@.len() ==> #[trigger] r.save@[k] < entries@.len(),
        forall|k: int, l: int| 0 <= k < l < r.save@.len() ==> #[trigger] r.save@[k] < #[trigger] r.save@[l],
        forall|i: int| 0 <= i < entries@.len() ==> (saves(entries@, wanted@, i) <==> listed(r.save@, i)),
        forall|k: int| 0 <= k < r.not_found@.len() ==> {
            &&& wanted_name(wanted@, (#[trigger] r.not_found@[k])@)
            &&& !saved_name(entries@, wanted@, r.not_found@[k]@)
        },
        forall|j: int| 0 <= j < wanted@.len() && !saved_name(entries@, wanted@, (#[trigger] wanted@[j])@)
            ==> exists|k: int| 0 <= k < r.not_found@.len() && r.not_found@[k]@ == wanted@[j]@,
        forall|k: int, l: int| 0 <= k < l < r.not_found@.len() ==> (#[trigger] r.not_found@[k])@ != (#[trigger] r.not_found@[l])@,
{
    let mut save: Vec<usize> = Vec::new();
    let mut i: usize = 0;
    while i < entries.len()
        invariant
            i <= entries.len(),
            forall|k: int| 0 <= k < save@.len() ==> #[trigger] save@[k] < i,
            forall|k: int, l: int| 0 <= k < l < save@.len() ==> #[trigger] save@[k] < #[trigger] save@[l],
            forall|m: int| 0 <= m < i ==> (saves(entries@, wanted@, m) <==> listed(save@, m as int)),
        decreases entries.len() - i,
    {
        let e = &entries[i];
        if e.is_file && named_before(wanted, wanted.len(), &e.name) && !file_named_before(entries, i, &e.name) {
            let ghost old_save = save@;
            save.push(i);
            proof {
                assert(save@ == old_save.push(i));
                assert forall|m: int| 0 <= m < i + 1 implies (saves(entries@, wanted@, m) <==> listed(save@, m as int)) by {
                    if m < i {
                        if listed(old_save, m as int) {
                            let k = choose|k: int| 0 <= k < old_save.len() && old_save[k] as int == m;
                            assert(save@[k] == old_save[k]);
                        }
                        if listed(save@, m as int) {
                            let k = choose|k: int| 0 <= k < save@.len() && save@[k] as int == m;
                            assert(k < old_save.len());
                            assert(old_save[k] == save@[k]);
                        }
                    } else {
                        assert(save@[old_save.len() as int] == i);
                    }
                }
            }
        } else {
            proof {
                assert(!saves(entries@, wanted@, i as int));
                assert(!listed(save@, i as int)) by {
                    if listed(save@, i as int) {
                        let k = choose|k: int| 0 <= k < save@.len() && save@[k] as int == i;
                    }
                }
            }
        }
        i = i + 1;
    }
    let mut not_found: Vec<String> = Vec::new();
    let mut j: usize = 0;
    while j < wanted.len()
        invariant
            j <= wanted.len(),
            forall|q: int| 0 <= q < save@.len() ==> #[trigger] save@[q] < entries@.len(),
            forall|m: int| 0 <= m < entries@.len() ==> (saves(entries@, wanted@, m) <==> listed(save@, m as int)),
            forall|k: int| 0 <= k < not_found@.len() ==> {
                &&& wanted_name(wanted@, (#[trigger] not_found@[k])@)
                &&& !saved_name(entries@, wanted@, not_found@[k]@)
            },
            forall|m: int| 0 <= m < j && !saved_name(entries@, wanted@, (#[trigger] wanted@[m])@)
                ==> exists|k: int| 0 <= k < not_found@.len() && not_found@[k]@ == wanted@[m]@,
            forall|k: int, l: int| 0 <= k < l < not_found@.len() ==> (#[trigger] not_found@[k])@ != (#[trigger] not_found@[l])@,
        decreases wanted.len() - j,
    {
        let w = &wanted[j];
        let mut found = false;
        let mut k: usize = 0;
        while k < save.len()
            invariant
                k <= save.len(),
                found == exists|q: int| 0 <= q < k && entries@[save@[q] as int].name@ == w@,
                forall|q: int| 0 <= q < save@.len() ==> #[trigger] save@[q] < entries@.len(),
            decreases save.len() - k,
        {
            if entries[save[k]].name == *w {
                found = true;
            }
            k = k + 1;
        }
        let ghost is_saved = saved_name(entries@, wanted@, w@);
        proof {
            if found {
                let q = choose|q: int| 0 <= q < save@.len() && entries@[save@[q] as int].name@ == w@;
                let i = save@[q] as int;
                assert(listed(save@, save@[q] as int));
                assert(saves(entries@, wanted@, i));
                assert(is_saved);
            } else if is_saved {
                let i = choose|i: int| 0 <= i < entries@.len() && saves(entries@, wanted@, i) && #[trigger] entries@[i].name@ == w@;
                assert(saves(entries@, wanted@, i));
                assert(listed(save@, i as int));
                let q = choose|q: int| 0 <= q < save@.len() && save@[q] as int == i;
                assert(entries@[save@[q] as int].name@ == w@);
                assert(0 <= q < k);
                assert(false);
            }
        }
        let already = named_before(&not_found, not_found.len(), w);
        let ghost before = not_found@;
        if !found && !already {
            not_found.push(w.clone());
            proof {
                assert(wanted_name(wanted@, w@)) by {
                    assert(wanted@[j as int]@ == w@);
                }
            }
        }
        proof {
            assert forall|m: int| 0 <= m < j + 1 && !saved_name(entries@, wanted@, (#[trigger] wanted@[m])@)
                implies exists|k: int| 0 <= k < not_found@.len() && not_found@[k]@ == wanted@[m]@ by {
                if m == j {
                    assert(wanted@[m]@ == w@);
                    if already {
                        let k = choose|k: int| 0 <= k < before.len() && #[trigger] before[k]@ == w@;
                        assert(not_found@[k] == before[k]);
                    } else {
                        assert(not_found@[not_found@.len() - 1]@ == w@);
                    }
                } else {
                    let k = choose|k: int| 0 <= k < before.len() && before[k]@ == wanted@[m]@;
                    assert(not_found@[k] == before[k]);
                }
            }
        }
        j = j + 1;
    }
    let ghost nf = not_found@;
    let r = RepoSelection { save, not_found };
    assert(r.not_found@ == nf);
    assert forall|m: int| 0 <= m < wanted@.len() && !saved_name(entries@, wanted@, (#[trigger] wanted@[m])@)
        implies exists|k: int| 0 <= k < r.not_found@.len() && r.not_found@[k]@ == wanted@[m]@ by {
        assert(m < j);
        let k = choose|k: int| 0 <= k < nf.len() && nf[k]@ == wanted@[m]@;
        assert(r.not_found@[k] == nf[k]);
    }
    r
}

} // verus!
