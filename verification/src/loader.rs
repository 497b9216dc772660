//! Discovering and loading themes from the shared themes directory.
use vstd::prelude::*;
use crate::builtin::ThemeMode;
use crate::config::{choose_preferred, preferred_name};
use crate::order::{lemma_lex_total, lex_order, sort_texts, texts};
use crate::text::{ends_with, has_suffix, kebab_case, to_kebab_case};
use crate::util::{ext_suffix, file_stem, has_ext, has_extension, themes_from_files, themes_of_texts, usable_texts, ThemeFile};
use crate::theme::Theme;
use vstd::string::{StrSliceExecFns, StringExecFns};

verus! {

broadcast use vstd::string::group_string_axioms;

/// Theme preferences of the user, as the loader stores them.
#[derive(Debug, Clone)]
pub struct TcaConfig {
    /// The general default theme. Used if the mode can't be detected or the
    /// other options aren't set.
    pub default_theme: Option<String>,
    /// Default dark mode theme.
    pub default_dark_theme: Option<String>,
    /// Default light mode theme.
    pub default_light_theme: Option<String>,
}

impl Default for TcaConfig {
    /// No preference set.
    fn default() -> (c: TcaConfig)
        ensures
            c.default_theme is None,
            c.default_dark_theme is None,
            c.default_light_theme is None,
    {
        TcaConfig { default_theme: None, default_dark_theme: None, default_light_theme: None }
    }
}

impl TcaConfig {
    /// The best default theme for the terminal's color mode (`None` when it
    /// could not be detected): the mode's own preference if set, else the
    /// general default.
    pub fn mode_aware_theme(&self, mode: Option<ThemeMode>) -> (r: Option<String>)
        ensures
            r == preferred_name(
                self.default_theme,
                self.default_dark_theme,
                self.default_light_theme,
                mode,
            ),
    {
        choose_preferred(
            &self.default_theme,
            &self.default_dark_theme,
            &self.default_light_theme,
            mode,
        )
    }
}

/// A file name whose extension is `toml`.
pub open spec fn is_toml_name(f: Seq<char>) -> bool {
    has_ext(f, "toml"@)
}

/// The file stem of a file name with extension `toml`.
pub open spec fn toml_stem(f: Seq<char>) -> Seq<char> {
    file_stem(f, "toml"@)
}

/// The file names of `fs` whose extension is `toml`, in order.
pub open spec fn toml_names(fs: Seq<Seq<char>>) -> Seq<Seq<char>>
    decreases fs.len(),
{
    if fs.len() == 0 {
        Seq::empty()
    } else if is_toml_name(fs.last()) {
        toml_names(fs.drop_last()).push(fs.last())
    } else {
        toml_names(fs.drop_last())
    }
}

/// Every name kept by [`toml_names`] has the extension `toml`.
pub proof fn lemma_toml_names(fs: Seq<Seq<char>>)
    ensures
        forall|x: Seq<char>| #[trigger] toml_names(fs).contains(x) ==> is_toml_name(x),
    decreases fs.len(),
{
    if fs.len() > 0 {
        lemma_toml_names(fs.drop_last());
        assert forall|x: Seq<char>| #[trigger] toml_names(fs).contains(x) implies is_toml_name(x) by {
            let t = toml_names(fs.drop_last());
            if is_toml_name(fs.last()) && x != fs.last() {
                let j = choose|j: int| 0 <= j < toml_names(fs).len() && toml_names(fs)[j] == x;
                assert(toml_names(fs) == t.push(fs.last()));
                assert(j < t.len());
                assert(t[j] == x);
                assert(t.contains(x));
            }
        }
    }
}

/// Whether the file name `f` has the extension `toml`.
pub fn has_toml_extension(f: &str) -> (b: bool)
    ensures
        b == is_toml_name(f@),
{
    has_extension(f, "toml")
}

/// The theme files among the file names of a directory listing: those whose
/// extension is `toml`, sorted by name.
pub fn list_themes(files: Vec<String>) -> (r: Vec<String>)
    ensures
        texts(r@) == toml_names(texts(files@)).sort_by(lex_order()),
        forall|j: int| 0 <= j < r@.len() ==> is_toml_name(#[trigger] texts(r@)[j]),
{
    let mut keep: Vec<String> = Vec::new();
    let ghost fv = texts(files@);
    let rest = files;
    proof {
        assert(fv.take(0) =~= Seq::<Seq<char>>::empty());
    }
    for k in 0..rest.len()
        invariant
            texts(rest@) == fv,
            texts(keep@) == toml_names(fv.take(k as int)),
    {
        proof {
            assert(fv.take(k + 1).drop_last() =~= fv.take(k as int));
            assert(fv.take(k + 1).last() == rest@[k as int]@);
        }
        if has_toml_extension(rest[k].as_str()) {
            keep.push(rest[k].clone());
            proof {
                assert(texts(keep@) =~= toml_names(fv.take(k as int)).push(fv[k as int]));
            }
        }
    }
    proof {
        assert(fv.take(fv.len() as int) =~= fv);
    }
    let r = sort_texts(keep);
    proof {
        let tn = toml_names(fv);
        lemma_lex_total();
        tn.lemma_sort_by_ensures(lex_order());
        lemma_toml_names(fv);
        assert forall|j: int| 0 <= j < r@.len() implies is_toml_name(#[trigger] texts(r@)[j]) by {
            let x = texts(r@)[j];
            assert(tn.sort_by(lex_order()).contains(x));
        }
    }
    r
}

/// The stems of theme file names.
pub open spec fn stems(fs: Seq<Seq<char>>) -> Seq<Seq<char>> {
    fs.map_values(|f: Seq<char>| toml_stem(f))
}

/// All theme names (file names without their extension), sorted by file name,
/// given the names of the files in the themes directory.
pub fn list_theme_names(files: Vec<String>) -> (r: Vec<String>)
    ensures
        texts(r@) == stems(toml_names(texts(files@)).sort_by(lex_order())),
{
    let themes = list_themes(files);
    proof {
        reveal_strlit("toml");
    }
    let mut names: Vec<String> = Vec::new();
    for k in 0..themes.len()
        invariant
            names.len() == k,
            forall|j: int| 0 <= j < k ==> #[trigger] names@[j]@ == toml_stem(themes@[j]@),
            forall|j: int| 0 <= j < themes.len() ==> is_toml_name(#[trigger] texts(themes@)[j]),
            ext_suffix("toml"@).len() == 5,
    {
        assert(is_toml_name(texts(themes@)[k as int]));
        let t = themes[k].as_str();
        let n = t.unicode_len() - 5;
        names.push(String::from_str(t.substring_char(0, n)));
    }
    proof {
        assert(texts(names@) =~= stems(texts(themes@)));
    }
    names
}

/// The file name searched for a theme name: its kebab-case slug followed by
/// `.toml`; a name given with its `.toml` extension (`nord.toml`) keeps it.
pub open spec fn toml_file_name(name: Seq<char>) -> Seq<char> {
    crate::text::slug_file_name(name, ".toml"@)
}

/// The file name searched for in the themes directory for a theme name.
pub fn find_theme_file_name(name: &str) -> (r: String)
    ensures
        r@ == toml_file_name(name@),
{
    crate::text::slug_file_name_str(name, ".toml")
}

/// All locally installed themes, given the files of the shared themes
/// directory: those named `*.toml` that read as a theme. A file that does
/// not read is skipped.
pub fn load_all_from_theme_dir(files: &Vec<ThemeFile>) -> (r: Vec<Theme>)
    ensures
        themes_of_texts(r@, usable_texts(files@, "toml"@)),
{
    themes_from_files(files, "toml")
}

} // verus!
