//! User preferences: which themes to use by default.
use vstd::prelude::*;
use crate::builtin::ThemeMode;
use crate::text::same_text;
use vstd::string::StringExecFns;

verus! {

/// Theme preferences of the user.
#[derive(Debug, Clone)]
pub struct TcaSection {
    /// The general default theme. Used if the mode can't be detected or the
    /// other options aren't set.
    pub default_theme: Option<String>,
    /// Default dark mode theme.
    pub default_dark_theme: Option<String>,
    /// Default light mode theme.
    pub default_light_theme: Option<String>,
}

/// The TCA configuration file: a TOML file holding the user's preferences,
/// stored at `$XDG_CONFIG_HOME/tca/tca.toml`.
#[derive(Debug, Clone)]
pub struct TcaConfig {
    /// TCA theme preferences.
    pub tca: TcaSection,
}

impl Default for TcaSection {
    /// No preference set.
    fn default() -> (s: TcaSection)
        ensures
            s.default_theme is None,
            s.default_dark_theme is None,
            s.default_light_theme is None,
    {
        TcaSection { default_theme: None, default_dark_theme: None, default_light_theme: None }
    }
}

impl Default for TcaConfig {
    /// No preference set.
    fn default() -> (c: TcaConfig)
        ensures
            c.tca.default_theme is None,
            c.tca.default_dark_theme is None,
            c.tca.default_light_theme is None,
    {
        TcaConfig { tca: TcaSection::default() }
    }
}

/// A copy of an optional string.
pub fn copy_opt(o: &Option<String>) -> (r: Option<String>)
    ensures
        r == *o,
{
    match o {
        Some(s) => Some(s.clone()),
        None => None,
    }
}

/// The preferred theme name for a terminal mode: the mode's own default if
/// set, else the general default; with no known mode, the general default.
pub open spec fn preferred_name(
    general: Option<String>,
    dark: Option<String>,
    light: Option<String>,
    mode: Option<ThemeMode>,
) -> Option<String> {
    match mode {
        Some(ThemeMode::Dark) => if dark is Some {
            dark
        } else {
            general
        },
        Some(ThemeMode::Light) => if light is Some {
            light
        } else {
            general
        },
        None => general,
    }
}

/// [`preferred_name`], computed.
pub fn choose_preferred(
    general: &Option<String>,
    dark: &Option<String>,
    light: &Option<String>,
    mode: Option<ThemeMode>,
) -> (r: Option<String>)
    ensures
        r == preferred_name(*general, *dark, *light, mode),
{
    match mode {
        Some(ThemeMode::Dark) => if dark.is_some() {
            copy_opt(dark)
        } else {
            copy_opt(general)
        },
        Some(ThemeMode::Light) => if light.is_some() {
            copy_opt(light)
        } else {
            copy_opt(general)
        },
        None => copy_opt(general),
    }
}

/// The theme name the user prefers for the terminal's mode (`None` when the
/// mode could not be detected): see [`preferred_name`].
pub fn mode_aware_theme_name(cfg: &TcaConfig, mode: Option<ThemeMode>) -> (r: Option<String>)
    ensures
        r == preferred_name(
            cfg.tca.default_theme,
            cfg.tca.default_dark_theme,
            cfg.tca.default_light_theme,
            mode,
        ),
{
    choose_preferred(
        &cfg.tca.default_theme,
        &cfg.tca.default_dark_theme,
        &cfg.tca.default_light_theme,
        mode,
    )
}

/// What `format!("{:?}", s)` gives for a string slice: `s` in double quotes,
/// with special characters escaped.
pub uninterp spec fn debug_quoted(s: Seq<char>) -> Seq<char>;

/// Printable ASCII other than `"` and `\`: characters that `Debug` writes as
/// they are.
pub open spec fn debug_plain(s: Seq<char>) -> bool {
    forall|i: int| 0 <= i < s.len() ==> ' ' <= #[trigger] s[i] <= '~' && s[i] != '"' && s[i] != '\\'
}

/// Calls `format!("{:?}", s)`.
///
/// Claimed of it: the result depends on `s` alone (named [`debug_quoted`]);
/// and, as the documentation of `str::escape_debug` states, printable ASCII
/// other than `"` and `\` is not escaped, so such text is only put in quotes.
#[verifier::external_body]
fn debug_text(s: &str) -> (r: String)
    ensures
        r@ == debug_quoted(s@),
        debug_plain(s@) ==> r@ == seq!['"'] + s@ + seq!['"'],
{
    format!("{:?}", s)
}

/// A preference as shown: its value, or `None` when unset.
pub open spec fn shown(o: Option<String>) -> Seq<char> {
    match o {
        Some(s) => s@,
        None => "None"@,
    }
}

/// `s` as `Debug` writes it: in double quotes, and when it is plain (see
/// [`debug_plain`]) with nothing escaped.
pub open spec fn quoted(s: Seq<char>) -> Seq<char> {
    if debug_plain(s) {
        seq!['"'] + s + seq!['"']
    } else {
        debug_quoted(s)
    }
}

/// The text that [`TcaConfig::summary`] gives.
pub open spec fn summary_text(c: TcaConfig) -> Seq<char> {
    "default: "@ + quoted(shown(c.tca.default_theme)) + "\ndefault_dark: "@ + quoted(
        shown(c.tca.default_dark_theme),
    ) + "\ndefault_light: "@ + quoted(shown(c.tca.default_light_theme))
}

/// A preference as shown.
fn shown_text(o: &Option<String>) -> (r: &str)
    ensures
        r@ == shown(*o),
{
    match o {
        Some(s) => s.as_str(),
        None => "None",
    }
}

impl TcaConfig {
    /// The preferences as three lines, `default: "..."`, `default_dark: "..."`
    /// and `default_light: "..."`, each value quoted as `Debug` quotes it and
    /// `None` when unset.
    pub fn summary(&self) -> (r: String)
        ensures
            r@ == summary_text(*self),
    {
        let mut out = String::from_str("default: ");
        out.append(debug_text(shown_text(&self.tca.default_theme)).as_str());
        out.append("\ndefault_dark: ");
        out.append(debug_text(shown_text(&self.tca.default_dark_theme)).as_str());
        out.append("\ndefault_light: ");
        out.append(debug_text(shown_text(&self.tca.default_light_theme)).as_str());
        assert(out@ =~= summary_text(*self));
        out
    }

    /// Sets the preference named `key` (`default`, `default_dark` or
    /// `default_light`) to `theme`. Returns `false`, changing nothing, for any
    /// other key.
    pub fn set(&mut self, key: &str, theme: String) -> (known: bool)
        ensures
            known == (key@ == "default"@ || key@ == "default_dark"@ || key@ == "default_light"@),
            final(self).tca.default_theme == (if key@ == "default"@ {
                Some(theme)
            } else {
                old(self).tca.default_theme
            }),
            final(self).tca.default_dark_theme == (if key@ == "default_dark"@ {
                Some(theme)
            } else {
                old(self).tca.default_dark_theme
            }),
            final(self).tca.default_light_theme == (if key@ == "default_light"@ {
                Some(theme)
            } else {
                old(self).tca.default_light_theme
            }),
    {
        proof {
            reveal_strlit("default");
            reveal_strlit("default_dark");
            reveal_strlit("default_light");
            assert("default"@.len() == 7);
            assert("default_dark"@.len() == 12);
            assert("default_light"@.len() == 13);
        }
        if same_text(key, "default") {
            self.tca.default_theme = Some(theme);
            true
        } else if same_text(key, "default_dark") {
            self.tca.default_dark_theme = Some(theme);
            true
        } else if same_text(key, "default_light") {
            self.tca.default_light_theme = Some(theme);
            true
        } else {
            false
        }
    }
}

} // verus!
