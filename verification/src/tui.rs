//! Themes resolved to terminal colors, and the styles built from them.
use vstd::prelude::*;
use crate::base24::scheme_map;
use crate::builtin::{BuiltinTheme, ThemeMode};
use crate::cursor::ThemeCursor;
use crate::hex::{brightness, hex_to_rgb, spec_rgb};
use crate::round_trip::lemma_resolved_normalized;
use crate::theme::{lemma_normalized, resolved_slots, slots_ok};
use vstd::string::StrSliceExecFns;
use crate::lookup::{fallback_builtin, named_model, opt_view, usable_file};
use crate::builtin::{all_builtins, builtin_author, builtin_name, builtin_slots, lemma_builtin_slots_normalized};
use crate::cursor::{next_pos, prev_pos};
use crate::round_trip::{lemma_normalized_rgb, normalized_slots};
use crate::theme::{is_first_bad_slot, scheme_author, scheme_name, slot_error};
use crate::util::{all_themes, builtin_seq, builtin_themes, law_user_themes_override, merged_themes};
use crate::text::{ends_with, kebab_case, same_text, to_kebab_case};
use crate::theme::{Theme, ThemeError, file_name_of};
use vstd::string::StringExecFns;

verus! {

/// A terminal color: one of the named ANSI colors, an indexed color, an RGB
/// color, or the terminal's own default (`Reset`).
#[derive(Debug, Clone, Copy, PartialEq, Eq, Structural)]
pub enum Color {
    /// The terminal's default color.
    Reset,
    /// ANSI black.
    Black,
    /// ANSI red.
    Red,
    /// ANSI green.
    Green,
    /// ANSI yellow.
    Yellow,
    /// ANSI blue.
    Blue,
    /// ANSI magenta.
    Magenta,
    /// ANSI cyan.
    Cyan,
    /// ANSI white, shown as light gray.
    Gray,
    /// ANSI bright black, shown as dark gray.
    DarkGray,
    /// ANSI bright red.
    LightRed,
    /// ANSI bright green.
    LightGreen,
    /// ANSI bright yellow.
    LightYellow,
    /// ANSI bright blue.
    LightBlue,
    /// ANSI bright magenta.
    LightMagenta,
    /// ANSI bright cyan.
    LightCyan,
    /// ANSI bright white.
    White,
    /// A 24-bit color.
    Rgb(u8, u8, u8),
    /// A color of the 256-color palette.
    Indexed(u8),
}

/// The RGB color that the hex string `hex` denotes, if it denotes one.
pub open spec fn color_of(hex: Seq<char>) -> Option<Color> {
    match spec_rgb(hex) {
        Some((r, g, b)) => Some(Color::Rgb(r, g, b)),
        None => None,
    }
}

/// The RGB color that `hex` denotes, else `d`.
pub open spec fn color_or(hex: Seq<char>, d: Color) -> Color {
    match color_of(hex) {
        Some(c) => c,
        None => d,
    }
}

/// Parses `#RRGGBB` hex into an RGB color; `None` on malformed input.
pub fn hex_to_color(hex: &str) -> (r: Option<Color>)
    ensures
        r == color_of(hex@),
{
    match hex_to_rgb(hex) {
        Ok((r, g, b)) => Some(Color::Rgb(r, g, b)),
        Err(_) => None,
    }
}

/// Theme metadata.
#[derive(Debug, Clone, PartialEq, Eq)]
pub struct Meta {
    /// Human-readable theme name.
    pub name: String,
    /// Theme author name or contact. Empty string if not specified.
    pub author: String,
    /// `true` for dark themes, `false` for light themes.
    pub dark: bool,
}

impl Default for Meta {
    /// An unnamed light theme without an author.
    fn default() -> (m: Meta)
        ensures
            m.name@ == "Unnamed Theme"@,
            m.author@ == Seq::<char>::empty(),
            !m.dark,
    {
        Meta { name: String::from_str("Unnamed Theme"), author: String::new(), dark: false }
    }
}

/// ANSI 16-color definitions as terminal colors.
///
/// Colors loaded from a theme are RGB; the [`Default`] maps each to the
/// terminal's named color of the same role.
#[derive(Debug, Clone, Copy, PartialEq, Eq, Structural)]
pub struct Ansi {
    /// ANSI color 0 — black.
    pub black: Color,
    /// ANSI color 1 — red.
    pub red: Color,
    /// ANSI color 2 — green.
    pub green: Color,
    /// ANSI color 3 — yellow.
    pub yellow: Color,
    /// ANSI color 4 — blue.
    pub blue: Color,
    /// ANSI color 5 — magenta.
    pub magenta: Color,
    /// ANSI color 6 — cyan.
    pub cyan: Color,
    /// ANSI color 7 — white.
    pub white: Color,
    /// ANSI color 8 — bright black (dark gray).
    pub bright_black: Color,
    /// ANSI color 9 — bright red.
    pub bright_red: Color,
    /// ANSI color 10 — bright green.
    pub bright_green: Color,
    /// ANSI color 11 — bright yellow.
    pub bright_yellow: Color,
    /// ANSI color 12 — bright blue.
    pub bright_blue: Color,
    /// ANSI color 13 — bright magenta.
    pub bright_magenta: Color,
    /// ANSI color 14 — bright cyan.
    pub bright_cyan: Color,
    /// ANSI color 15 — bright white.
    pub bright_white: Color,
}

/// The terminal's named ANSI colors.
pub open spec fn default_ansi() -> Ansi {
    Ansi {
        black: Color::Black,
        red: Color::Red,
        green: Color::Green,
        yellow: Color::Yellow,
        blue: Color::Blue,
        magenta: Color::Magenta,
        cyan: Color::Cyan,
        white: Color::Gray,
        bright_black: Color::DarkGray,
        bright_red: Color::LightRed,
        bright_green: Color::LightGreen,
        bright_yellow: Color::LightYellow,
        bright_blue: Color::LightBlue,
        bright_magenta: Color::LightMagenta,
        bright_cyan: Color::LightCyan,
        bright_white: Color::White,
    }
}

impl Default for Ansi {
    /// The terminal's named ANSI colors ([`default_ansi`]).
    fn default() -> (a: Ansi)
        ensures
            a == default_ansi(),
    {
        Ansi {
            black: Color::Black,
            red: Color::Red,
            green: Color::Green,
            yellow: Color::Yellow,
            blue: Color::Blue,
            magenta: Color::Magenta,
            cyan: Color::Cyan,
            white: Color::Gray,
            bright_black: Color::DarkGray,
            bright_red: Color::LightRed,
            bright_green: Color::LightGreen,
            bright_yellow: Color::LightYellow,
            bright_blue: Color::LightBlue,
            bright_magenta: Color::LightMagenta,
            bright_cyan: Color::LightCyan,
            bright_white: Color::White,
        }
    }
}

/// The color of `a` named `key` (`"red"`, `"bright_black"`, …), if `key` is
/// one of the sixteen names.
pub open spec fn ansi_named(a: Ansi, key: Seq<char>) -> Option<Color> {
    if key == "black"@ {
        Some(a.black)
    } else if key == "red"@ {
        Some(a.red)
    } else if key == "green"@ {
        Some(a.green)
    } else if key == "yellow"@ {
        Some(a.yellow)
    } else if key == "blue"@ {
        Some(a.blue)
    } else if key == "magenta"@ {
        Some(a.magenta)
    } else if key == "cyan"@ {
        Some(a.cyan)
    } else if key == "white"@ {
        Some(a.white)
    } else if key == "bright_black"@ {
        Some(a.bright_black)
    } else if key == "bright_red"@ {
        Some(a.bright_red)
    } else if key == "bright_green"@ {
        Some(a.bright_green)
    } else if key == "bright_yellow"@ {
        Some(a.bright_yellow)
    } else if key == "bright_blue"@ {
        Some(a.bright_blue)
    } else if key == "bright_magenta"@ {
        Some(a.bright_magenta)
    } else if key == "bright_cyan"@ {
        Some(a.bright_cyan)
    } else if key == "bright_white"@ {
        Some(a.bright_white)
    } else {
        None
    }
}

impl Ansi {
    /// The color for an ANSI key name (`"red"`, `"bright_black"`, …);
    /// `None` for unknown names.
    pub fn get(&self, key: &str) -> (r: Option<Color>)
        ensures
            r == ansi_named(*self, key@),
    {
        if same_text(key, "black") {
            Some(self.black)
        } else if same_text(key, "red") {
            Some(self.red)
        } else if same_text(key, "green") {
            Some(self.green)
        } else if same_text(key, "yellow") {
            Some(self.yellow)
        } else if same_text(key, "blue") {
            Some(self.blue)
        } else if same_text(key, "magenta") {
            Some(self.magenta)
        } else if same_text(key, "cyan") {
            Some(self.cyan)
        } else if same_text(key, "white") {
            Some(self.white)
        } else if same_text(key, "bright_black") {
            Some(self.bright_black)
        } else if same_text(key, "bright_red") {
            Some(self.bright_red)
        } else if same_text(key, "bright_green") {
            Some(self.bright_green)
        } else if same_text(key, "bright_yellow") {
            Some(self.bright_yellow)
        } else if same_text(key, "bright_blue") {
            Some(self.bright_blue)
        } else if same_text(key, "bright_magenta") {
            Some(self.bright_magenta)
        } else if same_text(key, "bright_cyan") {
            Some(self.bright_cyan)
        } else if same_text(key, "bright_white") {
            Some(self.bright_white)
        } else {
            None
        }
    }
}

/// A named color ramp, from darkest (index 0) to lightest.
#[derive(Debug, Clone, PartialEq, Eq)]
pub struct ColorRamp {
    /// The colors of the ramp, darkest first.
    pub colors: Vec<Color>,
}

impl Default for ColorRamp {
    /// An empty ramp.
    fn default() -> (r: ColorRamp)
        ensures
            r.colors@ == Seq::<Color>::empty(),
    {
        ColorRamp { colors: Vec::new() }
    }
}

impl ColorRamp {
    /// The color at index `idx`, or `None` if out of range.
    pub fn get(&self, idx: usize) -> (r: Option<Color>)
        ensures
            r == (if idx < self.colors@.len() {
                Some(self.colors@[idx as int])
            } else {
                None
            }),
    {
        if idx < self.colors.len() {
            Some(self.colors[idx])
        } else {
            None
        }
    }

    /// The number of colors in the ramp.
    pub fn len(&self) -> (n: usize)
        ensures
            n == self.colors@.len(),
    {
        self.colors.len()
    }

    /// Whether the ramp has no colors.
    pub fn is_empty(&self) -> (b: bool)
        ensures
            b == (self.colors@.len() == 0),
    {
        self.colors.len() == 0
    }
}

/// Semantic color roles as terminal colors.
#[derive(Debug, Clone, Copy, PartialEq, Eq, Structural)]
pub struct Semantic {
    /// Color for error states.
    pub error: Color,
    /// Color for warning states.
    pub warning: Color,
    /// Color for informational states.
    pub info: Color,
    /// Color for success states.
    pub success: Color,
    /// Color for highlighted text.
    pub highlight: Color,
    /// Color for hyperlinks.
    pub link: Color,
}

/// The named colors used for the semantic roles when a theme has none.
pub open spec fn default_semantic() -> Semantic {
    Semantic {
        error: Color::Red,
        warning: Color::Yellow,
        info: Color::Blue,
        success: Color::Green,
        highlight: Color::Cyan,
        link: Color::Blue,
    }
}

impl Default for Semantic {
    /// The named fallback colors ([`default_semantic`]).
    fn default() -> (s: Semantic)
        ensures
            s == default_semantic(),
    {
        Semantic {
            error: Color::Red,
            warning: Color::Yellow,
            info: Color::Blue,
            success: Color::Green,
            highlight: Color::Cyan,
            link: Color::Blue,
        }
    }
}

/// UI element colors for application chrome, one field per role.
#[derive(Debug, Clone, Copy, PartialEq, Eq, Structural)]
pub struct Ui {
    /// Primary application background.
    pub bg_primary: Color,
    /// Secondary / sidebar background.
    pub bg_secondary: Color,
    /// Primary text color.
    pub fg_primary: Color,
    /// Secondary text color.
    pub fg_secondary: Color,
    /// De-emphasized / placeholder text color.
    pub fg_muted: Color,
    /// Active / focused border color.
    pub border_primary: Color,
    /// Inactive / de-emphasized border color.
    pub border_muted: Color,
    /// Active cursor color.
    pub cursor_primary: Color,
    /// Inactive cursor color.
    pub cursor_muted: Color,
    /// Selection background.
    pub selection_bg: Color,
    /// Selection foreground.
    pub selection_fg: Color,
}

/// A minimal dark fallback for the UI colors.
pub open spec fn default_ui() -> Ui {
    Ui {
        bg_primary: Color::Black,
        bg_secondary: Color::Black,
        fg_primary: Color::White,
        fg_secondary: Color::Gray,
        fg_muted: Color::DarkGray,
        border_primary: Color::White,
        border_muted: Color::DarkGray,
        cursor_primary: Color::White,
        cursor_muted: Color::Gray,
        selection_bg: Color::DarkGray,
        selection_fg: Color::White,
    }
}

impl Default for Ui {
    /// The dark fallback colors ([`default_ui`]).
    fn default() -> (u: Ui)
        ensures
            u == default_ui(),
    {
        Ui {
            bg_primary: Color::Black,
            bg_secondary: Color::Black,
            fg_primary: Color::White,
            fg_secondary: Color::Gray,
            fg_muted: Color::DarkGray,
            border_primary: Color::White,
            border_muted: Color::DarkGray,
            cursor_primary: Color::White,
            cursor_muted: Color::Gray,
            selection_bg: Color::DarkGray,
            selection_fg: Color::White,
        }
    }
}

/// A theme with every color resolved to a terminal color.
#[derive(Debug, Clone)]
pub struct TcaTheme {
    /// Theme metadata (name, author, dark).
    pub meta: Meta,
    /// ANSI 16-color definitions.
    pub ansi: Ansi,
    /// Semantic color roles.
    pub semantic: Semantic,
    /// UI element colors.
    pub ui: Ui,
    /// Raw base24 slot colors: index 0 is base00, index 23 is base17.
    pub base24: [Color; 24],
}

/// Errors from resolving a theme to terminal colors.
#[derive(Debug)]
pub enum TcaThemeError {
    /// The theme text could not be read as a theme.
    Theme(ThemeError),
    /// An ANSI color is not a hex color; holds the offending value.
    InvalidAnsi(String),
}



/// The sixteen ANSI colors of a theme, black first.
pub open spec fn ansi_texts(a: crate::theme::Ansi) -> Seq<Seq<char>> {
    seq![a.black@, a.red@, a.green@, a.yellow@, a.blue@, a.magenta@, a.cyan@, a.white@, a.bright_black@, a.bright_red@, a.bright_green@, a.bright_yellow@, a.bright_blue@, a.bright_magenta@, a.bright_cyan@, a.bright_white@]
}

/// `i` is the first position of `xs` that is not a hex color.
pub open spec fn is_first_bad_color(xs: Seq<Seq<char>>, i: int) -> bool {
    &&& 0 <= i < xs.len()
    &&& color_of(xs[i]) is None
    &&& forall|j: int| 0 <= j < i ==> #[trigger] color_of(xs[j]) is Some
}

/// Every color of `xs` is a hex color.
pub open spec fn all_colors(xs: Seq<Seq<char>>) -> bool {
    forall|j: int| 0 <= j < xs.len() ==> #[trigger] color_of(xs[j]) is Some
}

/// The ANSI colors of a theme resolved strictly (meaningful when all are
/// hex colors).
pub open spec fn resolved_ansi(a: crate::theme::Ansi) -> Ansi {
    Ansi {
        black: color_of(a.black@)->0,
        red: color_of(a.red@)->0,
        green: color_of(a.green@)->0,
        yellow: color_of(a.yellow@)->0,
        blue: color_of(a.blue@)->0,
        magenta: color_of(a.magenta@)->0,
        cyan: color_of(a.cyan@)->0,
        white: color_of(a.white@)->0,
        bright_black: color_of(a.bright_black@)->0,
        bright_red: color_of(a.bright_red@)->0,
        bright_green: color_of(a.bright_green@)->0,
        bright_yellow: color_of(a.bright_yellow@)->0,
        bright_blue: color_of(a.bright_blue@)->0,
        bright_magenta: color_of(a.bright_magenta@)->0,
        bright_cyan: color_of(a.bright_cyan@)->0,
        bright_white: color_of(a.bright_white@)->0,
    }
}

/// The semantic colors of a theme, each falling back to [`default_semantic`].
pub open spec fn resolved_semantic(s: crate::theme::Semantic) -> Semantic {
    Semantic {
        error: color_or(s.error@, default_semantic().error),
        warning: color_or(s.warning@, default_semantic().warning),
        info: color_or(s.info@, default_semantic().info),
        success: color_or(s.success@, default_semantic().success),
        highlight: color_or(s.highlight@, default_semantic().highlight),
        link: color_or(s.link@, default_semantic().link),
    }
}

/// The UI colors of a theme, each falling back to [`default_ui`].
pub open spec fn resolved_ui(u: crate::theme::Ui) -> Ui {
    Ui {
        bg_primary: color_or(u.bg.primary@, default_ui().bg_primary),
        bg_secondary: color_or(u.bg.secondary@, default_ui().bg_secondary),
        fg_primary: color_or(u.fg.primary@, default_ui().fg_primary),
        fg_secondary: color_or(u.fg.secondary@, default_ui().fg_secondary),
        fg_muted: color_or(u.fg.muted@, default_ui().fg_muted),
        border_primary: color_or(u.border.primary@, default_ui().border_primary),
        border_muted: color_or(u.border.muted@, default_ui().border_muted),
        cursor_primary: color_or(u.cursor.primary@, default_ui().cursor_primary),
        cursor_muted: color_or(u.cursor.muted@, default_ui().cursor_muted),
        selection_bg: color_or(u.selection.bg@, default_ui().selection_bg),
        selection_fg: color_or(u.selection.fg@, default_ui().selection_fg),
    }
}

/// The base24 slots resolved, each falling back to `Reset`.
pub open spec fn resolved_slot_colors(vs: Seq<Seq<char>>) -> Seq<Color> {
    Seq::new(vs.len(), |i: int| color_or(vs[i], Color::Reset))
}

/// `t` is what resolving `raw` gives.
pub open spec fn resolves(t: TcaTheme, raw: Theme) -> bool {
    &&& t.meta.name@ == raw.meta.name@
    &&& t.meta.author@ == raw.meta.author@
    &&& t.meta.dark == raw.meta.dark
    &&& t.ansi == resolved_ansi(raw.ansi)
    &&& t.semantic == resolved_semantic(raw.semantic)
    &&& t.ui == resolved_ui(raw.ui)
    &&& t.base24@ == resolved_slot_colors(raw.base24.values())
}

/// Resolves one color, falling back to `d`.
fn color_or_default(hex: &String, d: Color) -> (c: Color)
    ensures
        c == color_or(hex@, d),
{
    match hex_to_color(hex.as_str()) {
        Some(c) => c,
        None => d,
    }
}


/// Resolves the ANSI colors strictly, reporting the first that is not a hex color.
fn resolve_ansi(a: &crate::theme::Ansi) -> (r: Result<Ansi, TcaThemeError>)
    ensures
        r is Ok <==> all_colors(ansi_texts(*a)),
        r matches Ok(x) ==> x == resolved_ansi(*a),
        r matches Err(e) ==> exists|i: int|
            is_first_bad_color(ansi_texts(*a), i) && (e matches TcaThemeError::InvalidAnsi(v)
                && v@ == ansi_texts(*a)[i]),
{
    let ghost xs = ansi_texts(*a);
    let hs: [&String; 16] = [&a.black, &a.red, &a.green, &a.yellow, &a.blue, &a.magenta, &a.cyan, &a.white, &a.bright_black, &a.bright_red, &a.bright_green, &a.bright_yellow, &a.bright_blue, &a.bright_magenta, &a.bright_cyan, &a.bright_white];
    proof {
        assert(hs@[0]@ == xs[0]);
        assert(hs@[1]@ == xs[1]);
        assert(hs@[2]@ == xs[2]);
        assert(hs@[3]@ == xs[3]);
        assert(hs@[4]@ == xs[4]);
        assert(hs@[5]@ == xs[5]);
        assert(hs@[6]@ == xs[6]);
        assert(hs@[7]@ == xs[7]);
        assert(hs@[8]@ == xs[8]);
        assert(hs@[9]@ == xs[9]);
        assert(hs@[10]@ == xs[10]);
        assert(hs@[11]@ == xs[11]);
        assert(hs@[12]@ == xs[12]);
        assert(hs@[13]@ == xs[13]);
        assert(hs@[14]@ == xs[14]);
        assert(hs@[15]@ == xs[15]);
    }
    let mut cs: Vec<Color> = Vec::new();
    for i in 0..16
        invariant
            xs == ansi_texts(*a),
            forall|j: int| 0 <= j < 16 ==> #[trigger] hs@[j]@ == xs[j],
            cs.len() == i,
            forall|j: int| 0 <= j < i ==> color_of(#[trigger] xs[j]) == Some(cs@[j]),
    {
        assert(hs@[i as int]@ == xs[i as int]);
        match hex_to_color(hs[i].as_str()) {
            Some(c) => cs.push(c),
            None => {
                let e = TcaThemeError::InvalidAnsi(hs[i].clone());
                proof {
                    assert(is_first_bad_color(xs, i as int));
                }
                return Err(e);
            },
        }
    }
    let x = Ansi {
        black: cs[0],
        red: cs[1],
        green: cs[2],
        yellow: cs[3],
        blue: cs[4],
        magenta: cs[5],
        cyan: cs[6],
        white: cs[7],
        bright_black: cs[8],
        bright_red: cs[9],
        bright_green: cs[10],
        bright_yellow: cs[11],
        bright_blue: cs[12],
        bright_magenta: cs[13],
        bright_cyan: cs[14],
        bright_white: cs[15],
    };
    proof {
        assert(all_colors(xs)) by {
            assert forall|j: int| 0 <= j < xs.len() implies #[trigger] color_of(xs[j]) is Some by {
                assert(color_of(xs[j]) == Some(cs@[j]));
            }
        }
        assert(color_of(xs[0]) == Some(cs@[0]));
        assert(color_of(xs[1]) == Some(cs@[1]));
        assert(color_of(xs[2]) == Some(cs@[2]));
        assert(color_of(xs[3]) == Some(cs@[3]));
        assert(color_of(xs[4]) == Some(cs@[4]));
        assert(color_of(xs[5]) == Some(cs@[5]));
        assert(color_of(xs[6]) == Some(cs@[6]));
        assert(color_of(xs[7]) == Some(cs@[7]));
        assert(color_of(xs[8]) == Some(cs@[8]));
        assert(color_of(xs[9]) == Some(cs@[9]));
        assert(color_of(xs[10]) == Some(cs@[10]));
        assert(color_of(xs[11]) == Some(cs@[11]));
        assert(color_of(xs[12]) == Some(cs@[12]));
        assert(color_of(xs[13]) == Some(cs@[13]));
        assert(color_of(xs[14]) == Some(cs@[14]));
        assert(color_of(xs[15]) == Some(cs@[15]));
    }
    Ok(x)
}

/// Resolves the semantic colors, each falling back to its default.
fn resolve_semantic(s: &crate::theme::Semantic) -> (r: Semantic)
    ensures
        r == resolved_semantic(*s),
{
    let d = Semantic::default();
    Semantic {
        error: color_or_default(&s.error, d.error),
        warning: color_or_default(&s.warning, d.warning),
        info: color_or_default(&s.info, d.info),
        success: color_or_default(&s.success, d.success),
        highlight: color_or_default(&s.highlight, d.highlight),
        link: color_or_default(&s.link, d.link),
    }
}

/// Resolves the UI colors, each falling back to its default.
fn resolve_ui(u: &crate::theme::Ui) -> (r: Ui)
    ensures
        r == resolved_ui(*u),
{
    let d = Ui::default();
    Ui {
        bg_primary: color_or_default(&u.bg.primary, d.bg_primary),
        bg_secondary: color_or_default(&u.bg.secondary, d.bg_secondary),
        fg_primary: color_or_default(&u.fg.primary, d.fg_primary),
        fg_secondary: color_or_default(&u.fg.secondary, d.fg_secondary),
        fg_muted: color_or_default(&u.fg.muted, d.fg_muted),
        border_primary: color_or_default(&u.border.primary, d.border_primary),
        border_muted: color_or_default(&u.border.muted, d.border_muted),
        cursor_primary: color_or_default(&u.cursor.primary, d.cursor_primary),
        cursor_muted: color_or_default(&u.cursor.muted, d.cursor_muted),
        selection_bg: color_or_default(&u.selection.bg, d.selection_bg),
        selection_fg: color_or_default(&u.selection.fg, d.selection_fg),
    }
}

/// Resolves the base24 slots, each falling back to `Reset`.
fn resolve_slots(s: &crate::theme::Base24Slots) -> (r: [Color; 24])
    ensures
        r@ == resolved_slot_colors(s.values()),
{
    let mut r = [Color::Reset; 24];
    for i in 0..24
        invariant
            r@.len() == 24,
            forall|j: int| 0 <= j < i ==> #[trigger] r@[j] == color_or(s.values()[j], Color::Reset),
    {
        let c = color_or_default(s.slot(i), Color::Reset);
        r[i] = c;
    }
    assert(r@ =~= resolved_slot_colors(s.values()));
    r
}

impl TcaTheme {
    /// Resolves a theme to terminal colors.
    ///
    /// ANSI colors are parsed strictly: the first one (black first) that is
    /// not a hex color is reported. Semantic and UI colors that do not parse
    /// fall back to [`Semantic::default`] and [`Ui::default`], and base24 slots
    /// to `Reset`.
    pub fn from_theme(raw: Theme) -> (r: Result<TcaTheme, TcaThemeError>)
        ensures
            r is Ok <==> all_colors(ansi_texts(raw.ansi)),
            r matches Ok(t) ==> resolves(t, raw),
            r matches Err(e) ==> exists|i: int|
                is_first_bad_color(ansi_texts(raw.ansi), i) && (e matches TcaThemeError::InvalidAnsi(
                    v,
                ) && v@ == ansi_texts(raw.ansi)[i]),
    {
        let ansi = match resolve_ansi(&raw.ansi) {
            Ok(a) => a,
            Err(e) => return Err(e),
        };
        let semantic = resolve_semantic(&raw.semantic);
        let ui = resolve_ui(&raw.ui);
        let base24 = resolve_slots(&raw.base24);
        let meta = Meta { name: raw.meta.name, author: raw.meta.author, dark: raw.meta.dark };
        Ok(TcaTheme { meta, ansi, semantic, ui, base24 })
    }
}


/// Each ANSI color of a theme is the base24 slot of this index.
pub open spec fn ansi_slot(k: int) -> int {
    if k == 0 { 0 } else if k == 1 { 8 } else if k == 2 { 11 } else if k == 3 { 10 }
    else if k == 4 { 13 } else if k == 5 { 14 } else if k == 6 { 12 } else if k == 7 { 5 }
    else if k == 8 { 3 } else if k == 9 { 18 } else if k == 10 { 20 } else if k == 11 { 19 }
    else if k == 12 { 22 } else if k == 13 { 23 } else if k == 14 { 21 } else { 7 }
}

/// The ANSI slots of `vs` are all hex colors.
pub open spec fn ansi_slots_ok(vs: Seq<Seq<char>>) -> bool {
    forall|k: int| 0 <= k < 16 ==> #[trigger] color_of(vs[ansi_slot(k)]) is Some
}

/// `r` is the resolved theme of the theme with slots `vs`, name `name` and
/// author `author` (its other fields derived from the slots).
pub open spec fn resolves_slots(r: TcaTheme, vs: Seq<Seq<char>>, name: Seq<char>, author: Seq<char>) -> bool {
    &&& r.meta.name@ == name
    &&& r.meta.author@ == author
    &&& r.meta.dark == (brightness(vs[0]) < brightness(vs[7]))
    &&& r.ansi == Ansi {
        black: color_of(vs[0])->0,
        red: color_of(vs[8])->0,
        green: color_of(vs[11])->0,
        yellow: color_of(vs[10])->0,
        blue: color_of(vs[13])->0,
        magenta: color_of(vs[14])->0,
        cyan: color_of(vs[12])->0,
        white: color_of(vs[5])->0,
        bright_black: color_of(vs[3])->0,
        bright_red: color_of(vs[18])->0,
        bright_green: color_of(vs[20])->0,
        bright_yellow: color_of(vs[19])->0,
        bright_blue: color_of(vs[22])->0,
        bright_magenta: color_of(vs[23])->0,
        bright_cyan: color_of(vs[21])->0,
        bright_white: color_of(vs[7])->0,
    }
    &&& r.semantic == Semantic {
        error: color_or(vs[8], default_semantic().error),
        warning: color_or(vs[9], default_semantic().warning),
        info: color_or(vs[12], default_semantic().info),
        success: color_or(vs[11], default_semantic().success),
        highlight: color_or(vs[14], default_semantic().highlight),
        link: color_or(vs[13], default_semantic().link),
    }
    &&& r.ui == Ui {
        bg_primary: color_or(vs[0], default_ui().bg_primary),
        bg_secondary: color_or(vs[1], default_ui().bg_secondary),
        fg_primary: color_or(vs[5], default_ui().fg_primary),
        fg_secondary: color_or(vs[6], default_ui().fg_secondary),
        fg_muted: color_or(vs[4], default_ui().fg_muted),
        border_primary: color_or(vs[2], default_ui().border_primary),
        border_muted: color_or(vs[1], default_ui().border_muted),
        cursor_primary: color_or(vs[5], default_ui().cursor_primary),
        cursor_muted: color_or(vs[4], default_ui().cursor_muted),
        selection_bg: color_or(vs[2], default_ui().selection_bg),
        selection_fg: color_or(vs[5], default_ui().selection_fg),
    }
    &&& r.base24@ == resolved_slot_colors(vs)
}

/// [`TcaTheme::from_theme`] succeeds on a theme modelled by slots exactly
/// when its ANSI slots are hex colors, and then gives [`resolves_slots`].
pub proof fn lemma_models_resolve(t: Theme, vs: Seq<Seq<char>>, name: Seq<char>, author: Seq<char>)
    requires
        t.models(vs, name, author),
    ensures
        all_colors(ansi_texts(t.ansi)) <==> ansi_slots_ok(vs),
        forall|r: TcaTheme| resolves(r, t) ==> resolves_slots(r, vs, name, author),
{
    let xs = ansi_texts(t.ansi);
    assert(t.base24.values() == vs);
    assert forall|k: int| 0 <= k < 16 implies xs[k] == vs[ansi_slot(k)] by {
        assert(k == 0 || k == 1 || k == 2 || k == 3 || k == 4 || k == 5 || k == 6 || k == 7 || k == 8 || k == 9 || k == 10 || k == 11 || k == 12 || k == 13 || k == 14 || k == 15);
    }
    if all_colors(xs) {
        assert forall|k: int| 0 <= k < 16 implies #[trigger] color_of(vs[ansi_slot(k)]) is Some by {
            assert(color_of(xs[k]) is Some);
        }
    }
    if ansi_slots_ok(vs) {
        assert forall|j: int| 0 <= j < xs.len() implies #[trigger] color_of(xs[j]) is Some by {
            assert(color_of(vs[ansi_slot(j)]) is Some);
        }
    }
}



/// Slots that are normalized colors all denote RGB colors.
pub proof fn lemma_normalized_colors(vs: Seq<Seq<char>>)
    requires
        normalized_slots(vs),
    ensures
        forall|i: int| 0 <= i < 24 ==> #[trigger] color_of(vs[i]) is Some,
        ansi_slots_ok(vs),
{
    assert forall|i: int| 0 <= i < 24 implies #[trigger] color_of(vs[i]) is Some by {
        lemma_normalized(vs[i]);
        lemma_normalized_rgb(vs[i]);
    }
    assert forall|k: int| 0 <= k < 16 implies #[trigger] color_of(vs[ansi_slot(k)]) is Some by {
        assert(0 <= ansi_slot(k) < 24);
        assert(color_of(vs[ansi_slot(k)]) is Some);
    }
}

/// The theme chosen by name always has normalized slots.
pub proof fn lemma_named_model_normalized(
    name: Option<&str>,
    file_text: Option<&str>,
    configured: Option<&str>,
    mode: Option<ThemeMode>,
)
    ensures
        normalized_slots(named_model(name, file_text, configured, mode).0),
{
    if name is Some && usable_file(file_text) {
        lemma_resolved_normalized(scheme_map(file_text->0@));
    } else {
        lemma_builtin_slots_normalized(fallback_builtin(opt_view(name), opt_view(configured), mode));
    }
}

impl TcaTheme {
    /// The kebab-case slug of the theme name (`"Tokyo Night"` gives `"tokyo-night"`).
    pub fn name_slug(&self) -> (r: String)
        ensures
            r@ == kebab_case(self.meta.name@),
    {
        to_kebab_case(self.meta.name.as_str())
    }

    /// The canonical file name for the theme: its slug followed by `.yaml`
    /// (`"Tokyo Night"` gives `"tokyo-night.yaml"`).
    pub fn to_filename(&self) -> (r: String)
        ensures
            r@ == file_name_of(self.meta.name@),
    {
        crate::text::slug_file_name_str(self.meta.name.as_str(), ".yaml")
    }

    /// A copy of the theme.
    pub fn duplicate(&self) -> (r: TcaTheme)
        ensures
            r == *self,
    {
        TcaTheme {
            meta: Meta {
                name: self.meta.name.clone(),
                author: self.meta.author.clone(),
                dark: self.meta.dark,
            },
            ansi: self.ansi,
            semantic: self.semantic,
            ui: self.ui,
            base24: self.base24,
        }
    }

    /// Reads a theme from base24 YAML text and resolves it to terminal
    /// colors. Fails exactly when the text lacks a required slot or has one
    /// that is not a hex color (see [`Theme::from_base24_str`]).
    pub fn from_base24_str(src: &str) -> (r: Result<TcaTheme, TcaThemeError>)
        ensures
            r is Ok <==> slots_ok(scheme_map(src@)),
            r matches Ok(t) ==> resolves_slots(
                t,
                resolved_slots(scheme_map(src@)),
                scheme_name(scheme_map(src@)),
                scheme_author(scheme_map(src@)),
            ),
            r matches Err(e) ==> (e matches TcaThemeError::Theme(te) && exists|i: int|
                is_first_bad_slot(scheme_map(src@), i) && slot_error(scheme_map(src@), i, te)),
    {
        match Theme::from_base24_str(src) {
            Err(e) => Err(TcaThemeError::Theme(e)),
            Ok(t) => {
                let ghost m = scheme_map(src@);
                proof {
                    lemma_resolved_normalized(m);
                    lemma_normalized_colors(resolved_slots(m));
                    lemma_models_resolve(t, resolved_slots(m), scheme_name(m), scheme_author(m));
                }
                TcaTheme::from_theme(t)
            },
        }
    }

    /// The theme for an optional name, resolved to terminal colors. The name
    /// is matched in any common case style ("NordDark", "Nord Dark",
    /// "nord-dark"), searching the theme file `file_text` found for it, then
    /// the built-in themes, then the user's preference `configured`, then the
    /// built-in default for the terminal `mode` (see [`Theme::from_name`]).
    pub fn new(
        name: Option<&str>,
        file_text: Option<&str>,
        configured: Option<&str>,
        mode: Option<ThemeMode>,
    ) -> (r: TcaTheme)
        ensures
            ({
                let (vs, n, a) = named_model(name, file_text, configured, mode);
                resolves_slots(r, vs, n, a)
            }),
    {
        let t = Theme::from_name(name, file_text, configured, mode);
        let ghost (vs, n, a) = named_model(name, file_text, configured, mode);
        proof {
            lemma_named_model_normalized(name, file_text, configured, mode);
            lemma_normalized_colors(vs);
            lemma_models_resolve(t, vs, n, a);
        }
        match TcaTheme::from_theme(t) {
            Ok(x) => x,
            Err(_) => {
                proof {
                    assert(false);
                }
                TcaThemeBuilder::new().build()
            },
        }
    }

    /// The user's preferred light theme `configured_light` (looked up like
    /// [`TcaTheme::new`] on a light terminal, its theme file's text being
    /// `file_text`), or else the built-in default light theme.
    pub fn from_default_light_cfg(configured_light: Option<&str>, file_text: Option<&str>) -> (r:
        TcaTheme)
        ensures
            configured_light is Some ==> ({
                let (vs, n, a) = named_model(
                    configured_light,
                    file_text,
                    None,
                    Some(ThemeMode::Light),
                );
                resolves_slots(r, vs, n, a)
            }),
            configured_light is None ==> resolves_slots(
                r,
                builtin_slots(BuiltinTheme::SolarizedLight),
                builtin_name(BuiltinTheme::SolarizedLight),
                builtin_author(BuiltinTheme::SolarizedLight),
            ),
    {
        match configured_light {
            Some(n) => TcaTheme::new(Some(n), file_text, None, Some(ThemeMode::Light)),
            None => TcaTheme::new(None, None, None, Some(ThemeMode::Light)),
        }
    }
}

/// Builder for a [`TcaTheme`]; every section starts at its default.
#[derive(Debug, Clone)]
pub struct TcaThemeBuilder {
    meta: Meta,
    ansi: Ansi,
    semantic: Semantic,
    ui: Ui,
}

impl TcaThemeBuilder {
    /// The sections set so far: metadata, ANSI, semantic and UI colors.
    pub closed spec fn parts(&self) -> (Meta, Ansi, Semantic, Ui) {
        (self.meta, self.ansi, self.semantic, self.ui)
    }

    /// A builder with every section at its default.
    pub fn new() -> (b: Self)
        ensures
            b.parts().0.name@ == "Unnamed Theme"@,
            b.parts().0.author@ == Seq::<char>::empty(),
            !b.parts().0.dark,
            b.parts().1 == default_ansi(),
            b.parts().2 == default_semantic(),
            b.parts().3 == default_ui(),
    {
        TcaThemeBuilder {
            meta: Meta::default(),
            ansi: Ansi::default(),
            semantic: Semantic::default(),
            ui: Ui::default(),
        }
    }

    /// Sets the metadata.
    pub fn meta(self, meta: Meta) -> (b: Self)
        ensures
            b.parts() == (meta, self.parts().1, self.parts().2, self.parts().3),
    {
        TcaThemeBuilder { meta, ..self }
    }

    /// Sets the ANSI colors.
    pub fn ansi(self, ansi: Ansi) -> (b: Self)
        ensures
            b.parts() == (self.parts().0, ansi, self.parts().2, self.parts().3),
    {
        TcaThemeBuilder { ansi, ..self }
    }

    /// Sets the semantic colors.
    pub fn semantic(self, semantic: Semantic) -> (b: Self)
        ensures
            b.parts() == (self.parts().0, self.parts().1, semantic, self.parts().3),
    {
        TcaThemeBuilder { semantic, ..self }
    }

    /// Sets the UI colors.
    pub fn ui(self, ui: Ui) -> (b: Self)
        ensures
            b.parts() == (self.parts().0, self.parts().1, self.parts().2, ui),
    {
        TcaThemeBuilder { ui, ..self }
    }

    /// The theme built from the sections; every base24 slot is `Reset`.
    pub fn build(self) -> (t: TcaTheme)
        ensures
            t.meta == self.parts().0,
            t.ansi == self.parts().1,
            t.semantic == self.parts().2,
            t.ui == self.parts().3,
            t.base24@ == Seq::new(24, |i: int| Color::Reset),
    {
        let t = TcaTheme {
            meta: self.meta,
            ansi: self.ansi,
            semantic: self.semantic,
            ui: self.ui,
            base24: [Color::Reset; 24],
        };
        assert(t.base24@ =~= Seq::new(24, |i: int| Color::Reset));
        t
    }
}

impl Default for TcaThemeBuilder {
    /// A builder with every section at its default.
    fn default() -> (b: Self)
        ensures
            b.parts().0.name@ == "Unnamed Theme"@,
            b.parts().0.author@ == Seq::<char>::empty(),
            !b.parts().0.dark,
            b.parts().1 == default_ansi(),
            b.parts().2 == default_semantic(),
            b.parts().3 == default_ui(),
    {
        TcaThemeBuilder::new()
    }
}

/// The themes of `ts` whose ANSI colors are all hex colors, in order.
pub open spec fn convertible(ts: Seq<Theme>) -> Seq<Theme>
    decreases ts.len(),
{
    if ts.len() == 0 {
        Seq::empty()
    } else if all_colors(ansi_texts(ts.last().ansi)) {
        convertible(ts.drop_last()).push(ts.last())
    } else {
        convertible(ts.drop_last())
    }
}

/// `rs` are the resolutions of `ts`, one for one.
pub open spec fn resolve_each(rs: Seq<TcaTheme>, ts: Seq<Theme>) -> bool {
    &&& rs.len() == ts.len()
    &&& forall|i: int| 0 <= i < ts.len() ==> #[trigger] resolves(rs[i], ts[i])
}

/// Resolves each theme of `ts`, skipping those whose ANSI colors do not parse.
#[verifier::rlimit(60)]
fn resolve_themes(ts: Vec<Theme>) -> (r: Vec<TcaTheme>)
    ensures
        resolve_each(r@, convertible(ts@)),
{
    let ghost all = ts@;
    let mut rest = ts;
    let mut out: Vec<TcaTheme> = Vec::new();
    let ghost mut k: int = 0;
    proof {
        assert(all.skip(0) =~= all);
        assert(all.take(0) =~= Seq::<Theme>::empty());
    }
    while rest.len() > 0
        invariant
            0 <= k <= all.len(),
            rest@ == all.skip(k),
            resolve_each(out@, convertible(all.take(k))),
        decreases rest.len(),
    {
        let t = rest.remove(0);
        proof {
            assert(t == all[k]);
            assert(rest@ =~= all.skip(k + 1));
            assert(all.take(k + 1).drop_last() =~= all.take(k));
            assert(all.take(k + 1).last() == all[k]);
        }
        match TcaTheme::from_theme(t) {
            Ok(x) => {
                out.push(x);
            },
            Err(_) => {},
        }
        proof {
            k = k + 1;
        }
    }
    proof {
        assert(all.take(k) =~= all);
    }
    out
}

/// `i` is the first position in `ts` of a theme whose name has the slug `slug`.
pub open spec fn first_tca_with_slug(ts: Seq<TcaTheme>, slug: Seq<char>, i: int) -> bool {
    &&& 0 <= i < ts.len()
    &&& kebab_case(ts[i].meta.name@) == slug
    &&& forall|j: int| 0 <= j < i ==> kebab_case(#[trigger] ts[j].meta.name@) != slug
}

/// A cycling cursor over resolved themes.
pub struct TcaThemeCursor(ThemeCursor<TcaTheme>);

impl TcaThemeCursor {
    /// The themes of the cursor, in order.
    pub closed spec fn items(&self) -> Seq<TcaTheme> {
        self.0.items()
    }

    /// The position of the current theme.
    pub closed spec fn pos(&self) -> int {
        self.0.pos()
    }

    /// The position lies in the list, or is zero when the list is empty.
    pub open spec fn pos_ok(&self) -> bool {
        0 <= self.pos() < self.items().len() || (self.items().len() == 0 && self.pos() == 0)
    }

    /// A cursor over `themes`, starting at the first.
    pub fn new(themes: Vec<TcaTheme>) -> (c: Self)
        ensures
            c.items() == themes@,
            c.pos() == 0,
    {
        TcaThemeCursor(ThemeCursor::new(themes))
    }

    /// All built-in themes, resolved, in declaration order.
    pub fn with_builtins() -> (c: Self)
        ensures
            c.items().len() == all_builtins().len(),
            forall|i: int|
                0 <= i < c.items().len() ==> #[trigger] resolves_slots(
                    c.items()[i],
                    builtin_slots(all_builtins()[i]),
                    builtin_name(all_builtins()[i]),
                    builtin_author(all_builtins()[i]),
                ),
            c.pos() == 0,
    {
        let bs = builtin_themes();
        let ghost b = bs@;
        proof {
            lemma_builtins_convert(b);
        }
        let rs = resolve_themes(bs);
        proof {
            lemma_builtins_resolve(b, rs@);
        }
        TcaThemeCursor::new(rs)
    }

    /// The user's installed themes, resolved; those whose ANSI colors do not
    /// parse are skipped.
    pub fn with_user_themes(user: Vec<Theme>) -> (c: Self)
        ensures
            resolve_each(c.items(), convertible(user@)),
            c.pos() == 0,
    {
        TcaThemeCursor::new(resolve_themes(user))
    }

    /// The built-in themes and the user's themes, a user theme replacing the
    /// built-in theme of the same name, resolved; themes whose ANSI colors do
    /// not parse are skipped.
    pub fn with_all_themes(user: Vec<Theme>) -> (c: Self)
        ensures
            exists|bs: Seq<Theme>|
                builtin_seq(bs) && resolve_each(c.items(), convertible(merged_themes(user@, bs))),
            c.pos() == 0,
    {
        let ghost u = user@;
        let all = all_themes(user);
        proof {
            let bs = choose|bs: Seq<Theme>| builtin_seq(bs) && all@ == merged_themes(u, bs);
            law_user_themes_override(u, bs);
            lemma_builtins_convert(bs);
        }
        TcaThemeCursor::new(resolve_themes(all))
    }

    /// The current theme, without moving.
    pub fn peek(&self) -> (r: Option<&TcaTheme>)
        ensures
            r == (if self.items().len() == 0 { None } else { Some(&self.items()[self.pos()]) }),
    {
        self.0.peek()
    }

    /// Moves to the next theme (wrapping) and returns it; `None` when empty.
    pub fn next(&mut self) -> (r: Option<&TcaTheme>)
        ensures
            final(self).items() == old(self).items(),
            final(self).pos_ok(),
            old(self).items().len() == 0 ==> r is None && final(self).pos() == old(self).pos(),
            old(self).items().len() > 0 ==> {
                &&& final(self).pos() == next_pos(old(self).pos(), old(self).items().len() as int)
                &&& r == Some(&final(self).items()[final(self).pos()])
            },
    {
        self.0.next()
    }

    /// Moves to the previous theme (wrapping) and returns it; `None` when empty.
    pub fn prev(&mut self) -> (r: Option<&TcaTheme>)
        ensures
            final(self).items() == old(self).items(),
            final(self).pos_ok(),
            old(self).items().len() == 0 ==> r is None && final(self).pos() == old(self).pos(),
            old(self).items().len() > 0 ==> {
                &&& final(self).pos() == prev_pos(old(self).pos(), old(self).items().len() as int)
                &&& r == Some(&final(self).items()[final(self).pos()])
            },
    {
        self.0.prev()
    }

    /// All themes of the cursor, in order.
    pub fn themes(&self) -> (r: &[TcaTheme])
        ensures
            r@ == self.items(),
    {
        self.0.themes()
    }

    /// The number of themes.
    pub fn len(&self) -> (n: usize)
        ensures
            n == self.items().len(),
    {
        self.0.len()
    }

    /// Whether the cursor has no themes.
    pub fn is_empty(&self) -> (b: bool)
        ensures
            b == (self.items().len() == 0),
    {
        self.0.is_empty()
    }

    /// Moves to the first theme whose name has the kebab-case slug of `name`
    /// and returns it; `None`, leaving the cursor where it was, when none does.
    pub fn set_current(&mut self, name: &str) -> (r: Option<&TcaTheme>)
        ensures
            final(self).items() == old(self).items(),
            final(self).pos_ok(),
            r is Some ==> first_tca_with_slug(old(self).items(), kebab_case(name@), final(self).pos())
                && r == Some(&final(self).items()[final(self).pos()]),
            r is None ==> final(self).pos() == old(self).pos() && forall|j: int|
                0 <= j < old(self).items().len() ==> kebab_case(
                    #[trigger] old(self).items()[j].meta.name@,
                ) != kebab_case(name@),
    {
        let slug = to_kebab_case(name);
        let mut found: Option<usize> = None;
        {
            let ts = self.0.themes();
            for i in 0..ts.len()
                invariant
                    slug@ == kebab_case(name@),
                    found is None ==> forall|j: int| 0 <= j < i ==> kebab_case(
                        #[trigger] ts@[j].meta.name@,
                    ) != slug@,
                    found matches Some(k) ==> first_tca_with_slug(ts@, slug@, k as int),
            {
                if found.is_none() {
                    let s = ts[i].name_slug();
                    if s == slug {
                        found = Some(i);
                    }
                }
            }
        }
        match found {
            Some(k) => self.0.set_index(k),
            None => {
                let _ = self.0.position();
                None
            },
        }
    }
}

/// The resolutions of the built-in themes are their slots resolved.
proof fn lemma_builtins_resolve(bs: Seq<Theme>, rs: Seq<TcaTheme>)
    requires
        builtin_seq(bs),
        resolve_each(rs, bs),
    ensures
        forall|i: int|
            0 <= i < rs.len() ==> #[trigger] resolves_slots(
                rs[i],
                builtin_slots(all_builtins()[i]),
                builtin_name(all_builtins()[i]),
                builtin_author(all_builtins()[i]),
            ),
{
    assert forall|i: int| 0 <= i < rs.len() implies #[trigger] resolves_slots(
        rs[i],
        builtin_slots(all_builtins()[i]),
        builtin_name(all_builtins()[i]),
        builtin_author(all_builtins()[i]),
    ) by {
        let b = all_builtins()[i];
        lemma_builtin_slots_normalized(b);
        lemma_normalized_colors(builtin_slots(b));
        lemma_models_resolve(bs[i], builtin_slots(b), builtin_name(b), builtin_author(b));
        assert(resolves(rs[i], bs[i]));
    }
}

/// Every built-in theme can be resolved.
proof fn lemma_builtins_convert(bs: Seq<Theme>)
    requires
        builtin_seq(bs),
    ensures
        forall|i: int| 0 <= i < bs.len() ==> all_colors(ansi_texts(#[trigger] bs[i].ansi)),
        convertible(bs) == bs,
{
    assert forall|i: int| 0 <= i < bs.len() implies #[trigger] all_colors(ansi_texts(bs[i].ansi)) by {
        let b = all_builtins()[i];
        lemma_builtin_slots_normalized(b);
        lemma_normalized_colors(builtin_slots(b));
        lemma_models_resolve(bs[i], builtin_slots(b), builtin_name(b), builtin_author(b));
    }
    lemma_convertible_all(bs);
}

/// Keeping the convertible themes of a list whose themes all convert keeps them all.
proof fn lemma_convertible_all(ts: Seq<Theme>)
    requires
        forall|i: int| 0 <= i < ts.len() ==> all_colors(ansi_texts(#[trigger] ts[i].ansi)),
    ensures
        convertible(ts) == ts,
    decreases ts.len(),
{
    if ts.len() > 0 {
        let d = ts.drop_last();
        assert forall|i: int| 0 <= i < d.len() implies all_colors(ansi_texts(#[trigger] d[i].ansi)) by {
            assert(d[i] == ts[i]);
        }
        lemma_convertible_all(d);
        assert(all_colors(ansi_texts(ts[ts.len() - 1].ansi)));
        assert(d.push(ts.last()) =~= ts);
    }
}

/// A terminal text style: optional foreground and background colors.
#[derive(Debug, Clone, Copy, PartialEq, Eq, Structural)]
pub struct Style {
    /// The foreground color, if set.
    pub fg: Option<Color>,
    /// The background color, if set.
    pub bg: Option<Color>,
}

impl Default for Style {
    /// A style that sets no color.
    fn default() -> (s: Style)
        ensures
            s.fg is None,
            s.bg is None,
    {
        Style { fg: None, bg: None }
    }
}

impl Style {
    /// This style with foreground `c`.
    pub fn fg(self, c: Color) -> (s: Style)
        ensures
            s == (Style { fg: Some(c), bg: self.bg }),
    {
        Style { fg: Some(c), bg: self.bg }
    }

    /// This style with background `c`.
    pub fn bg(self, c: Color) -> (s: Style)
        ensures
            s == (Style { fg: self.fg, bg: Some(c) }),
    {
        Style { fg: self.fg, bg: Some(c) }
    }
}

/// The style with background `bg` and foreground `fg`.
pub open spec fn styled(bg: Color, fg: Color) -> Style {
    Style { fg: Some(fg), bg: Some(bg) }
}

/// Common styles built from a theme, plus named custom styles.
#[derive(Debug, Clone)]
pub struct StyleSet {
    /// Human-readable theme name.
    pub name: String,
    /// Theme author name or contact. Empty string if not specified.
    pub author: String,
    /// `true` for dark themes, `false` for light themes.
    pub is_dark: bool,
    /// The primary style for normal text and other elements.
    pub primary: Style,
    /// A secondary style, for sidebars or other secondary elements.
    pub secondary: Style,
    /// A muted style for disabled or deselected elements.
    pub muted: Style,
    /// A style for borders and other decorative elements.
    pub border: Style,
    /// A style for inactive borders and other decorative elements.
    pub border_muted: Style,
    /// A style for selected text or elements.
    pub selection: Style,
    /// A cursor style.
    pub cursor: Style,
    /// An inactive cursor style.
    pub cursor_muted: Style,
    /// A style for errors.
    pub error: Style,
    /// A style for warnings.
    pub warning: Style,
    /// A style for informative text or elements such as spinners.
    pub info: Style,
    /// A style for success.
    pub success: Style,
    /// A style for highlighted information or elements.
    pub highlight: Style,
    /// A style for URLs or other links.
    pub link: Style,
    /// Styles the application adds under names of its own.
    pub custom: CustomStyles,
}

/// Named styles, added with [`StyleSet::insert_custom`].
#[derive(Debug, Clone)]
pub struct CustomStyles {
    entries: Vec<(String, Style)>,
}

impl CustomStyles {
    /// The style stored under `key`, if any.
    pub closed spec fn style(&self, key: Seq<char>) -> Option<Style> {
        style_for(self.entries@, key)
    }
}

/// `i` is the first entry of `es` with key `key`.
pub open spec fn first_key(es: Seq<(String, Style)>, key: Seq<char>, i: int) -> bool {
    &&& 0 <= i < es.len()
    &&& es[i].0@ == key
    &&& forall|j: int| 0 <= j < i ==> (#[trigger] es[j]).0@ != key
}

/// The style stored under `key` in `es`: that of the first entry with that key.
pub open spec fn style_for(es: Seq<(String, Style)>, key: Seq<char>) -> Option<Style> {
    if exists|i: int| first_key(es, key, i) {
        Some(es[choose|i: int| first_key(es, key, i)].1)
    } else {
        None
    }
}

/// The first entry with a key is unique.
proof fn lemma_first_key_unique(es: Seq<(String, Style)>, key: Seq<char>, i: int)
    requires
        first_key(es, key, i),
    ensures
        style_for(es, key) == Some(es[i].1),
{
    let j = choose|j: int| first_key(es, key, j);
    assert(first_key(es, key, j));
    if j < i {
        assert(es[j].0@ != key);
    }
    if i < j {
        assert(es[i].0@ != key);
    }
}

/// `s` holds the styles of the theme `t`: its name, author and darkness,
/// each style pairing a foreground with the primary background, except
/// `secondary` (the secondary background) and `selection` (the selection
/// background), and no custom style.
pub open spec fn styles_of(s: StyleSet, t: TcaTheme) -> bool {
    &&& s.name@ == t.meta.name@
    &&& s.author@ == t.meta.author@
    &&& s.is_dark == t.meta.dark
    &&& s.primary == styled(t.ui.bg_primary, t.ui.fg_primary)
    &&& s.secondary == styled(t.ui.bg_secondary, t.ui.fg_secondary)
    &&& s.muted == styled(t.ui.bg_primary, t.ui.fg_muted)
    &&& s.border == styled(t.ui.bg_primary, t.ui.border_primary)
    &&& s.border_muted == styled(t.ui.bg_primary, t.ui.border_muted)
    &&& s.selection == styled(t.ui.selection_bg, t.ui.selection_fg)
    &&& s.cursor == styled(t.ui.bg_primary, t.ui.cursor_primary)
    &&& s.cursor_muted == styled(t.ui.bg_primary, t.ui.cursor_muted)
    &&& s.error == styled(t.ui.bg_primary, t.semantic.error)
    &&& s.warning == styled(t.ui.bg_primary, t.semantic.warning)
    &&& s.info == styled(t.ui.bg_primary, t.semantic.info)
    &&& s.success == styled(t.ui.bg_primary, t.semantic.success)
    &&& s.highlight == styled(t.ui.bg_primary, t.semantic.highlight)
    &&& s.link == styled(t.ui.bg_primary, t.semantic.link)
    &&& forall|k: Seq<char>| s.custom_style(k) is None
}

/// Resolving a theme to terminal colors turns each of its hex colors into
/// the RGB color of the same field, with the same channels, and keeps its
/// name, author and darkness.
pub proof fn law_resolved_colors(t: TcaTheme, raw: Theme)
    requires
        resolves(t, raw),
    ensures
        t.meta.name@ == raw.meta.name@,
        t.meta.author@ == raw.meta.author@,
        t.meta.dark == raw.meta.dark,
        spec_rgb(raw.ansi.black@) matches Some((r, g, b)) ==> t.ansi.black == Color::Rgb(r, g, b),
        spec_rgb(raw.ansi.red@) matches Some((r, g, b)) ==> t.ansi.red == Color::Rgb(r, g, b),
        spec_rgb(raw.ansi.green@) matches Some((r, g, b)) ==> t.ansi.green == Color::Rgb(r, g, b),
        spec_rgb(raw.ansi.yellow@) matches Some((r, g, b)) ==> t.ansi.yellow == Color::Rgb(r, g, b),
        spec_rgb(raw.ansi.blue@) matches Some((r, g, b)) ==> t.ansi.blue == Color::Rgb(r, g, b),
        spec_rgb(raw.ansi.magenta@) matches Some((r, g, b)) ==> t.ansi.magenta == Color::Rgb(r, g, b),
        spec_rgb(raw.ansi.cyan@) matches Some((r, g, b)) ==> t.ansi.cyan == Color::Rgb(r, g, b),
        spec_rgb(raw.ansi.white@) matches Some((r, g, b)) ==> t.ansi.white == Color::Rgb(r, g, b),
        spec_rgb(raw.ansi.bright_black@) matches Some((r, g, b)) ==> t.ansi.bright_black == Color::Rgb(r, g, b),
        spec_rgb(raw.ansi.bright_red@) matches Some((r, g, b)) ==> t.ansi.bright_red == Color::Rgb(r, g, b),
        spec_rgb(raw.ansi.bright_green@) matches Some((r, g, b)) ==> t.ansi.bright_green == Color::Rgb(r, g, b),
        spec_rgb(raw.ansi.bright_yellow@) matches Some((r, g, b)) ==> t.ansi.bright_yellow == Color::Rgb(r, g, b),
        spec_rgb(raw.ansi.bright_blue@) matches Some((r, g, b)) ==> t.ansi.bright_blue == Color::Rgb(r, g, b),
        spec_rgb(raw.ansi.bright_magenta@) matches Some((r, g, b)) ==> t.ansi.bright_magenta == Color::Rgb(r, g, b),
        spec_rgb(raw.ansi.bright_cyan@) matches Some((r, g, b)) ==> t.ansi.bright_cyan == Color::Rgb(r, g, b),
        spec_rgb(raw.ansi.bright_white@) matches Some((r, g, b)) ==> t.ansi.bright_white == Color::Rgb(r, g, b),
        spec_rgb(raw.semantic.error@) matches Some((r, g, b)) ==> t.semantic.error == Color::Rgb(r, g, b),
        spec_rgb(raw.semantic.warning@) matches Some((r, g, b)) ==> t.semantic.warning == Color::Rgb(r, g, b),
        spec_rgb(raw.semantic.info@) matches Some((r, g, b)) ==> t.semantic.info == Color::Rgb(r, g, b),
        spec_rgb(raw.semantic.success@) matches Some((r, g, b)) ==> t.semantic.success == Color::Rgb(r, g, b),
        spec_rgb(raw.semantic.highlight@) matches Some((r, g, b)) ==> t.semantic.highlight == Color::Rgb(r, g, b),
        spec_rgb(raw.semantic.link@) matches Some((r, g, b)) ==> t.semantic.link == Color::Rgb(r, g, b),
        spec_rgb(raw.ui.bg.primary@) matches Some((r, g, b)) ==> t.ui.bg_primary == Color::Rgb(r, g, b),
        spec_rgb(raw.ui.bg.secondary@) matches Some((r, g, b)) ==> t.ui.bg_secondary == Color::Rgb(r, g, b),
        spec_rgb(raw.ui.fg.primary@) matches Some((r, g, b)) ==> t.ui.fg_primary == Color::Rgb(r, g, b),
        spec_rgb(raw.ui.fg.secondary@) matches Some((r, g, b)) ==> t.ui.fg_secondary == Color::Rgb(r, g, b),
        spec_rgb(raw.ui.fg.muted@) matches Some((r, g, b)) ==> t.ui.fg_muted == Color::Rgb(r, g, b),
        spec_rgb(raw.ui.border.primary@) matches Some((r, g, b)) ==> t.ui.border_primary == Color::Rgb(r, g, b),
        spec_rgb(raw.ui.border.muted@) matches Some((r, g, b)) ==> t.ui.border_muted == Color::Rgb(r, g, b),
        spec_rgb(raw.ui.cursor.primary@) matches Some((r, g, b)) ==> t.ui.cursor_primary == Color::Rgb(r, g, b),
        spec_rgb(raw.ui.cursor.muted@) matches Some((r, g, b)) ==> t.ui.cursor_muted == Color::Rgb(r, g, b),
        spec_rgb(raw.ui.selection.bg@) matches Some((r, g, b)) ==> t.ui.selection_bg == Color::Rgb(r, g, b),
        spec_rgb(raw.ui.selection.fg@) matches Some((r, g, b)) ==> t.ui.selection_fg == Color::Rgb(r, g, b),
{
}

/// Each named style of a theme's style set is drawn in the theme color of
/// the same name: the semantic styles (`error` … `link`) in the semantic
/// colors, the others in the UI colors (`border` in the primary border
/// color, `cursor` in the primary cursor color), all on the primary
/// background except `secondary` (secondary background) and `selection`
/// (selection background).
pub proof fn law_style_colors(s: StyleSet, t: TcaTheme)
    requires
        styles_of(s, t),
    ensures
        s.primary.fg == Some(t.ui.fg_primary),
        s.secondary.fg == Some(t.ui.fg_secondary),
        s.muted.fg == Some(t.ui.fg_muted),
        s.border.fg == Some(t.ui.border_primary),
        s.border_muted.fg == Some(t.ui.border_muted),
        s.selection.fg == Some(t.ui.selection_fg),
        s.cursor.fg == Some(t.ui.cursor_primary),
        s.cursor_muted.fg == Some(t.ui.cursor_muted),
        s.error.fg == Some(t.semantic.error),
        s.warning.fg == Some(t.semantic.warning),
        s.info.fg == Some(t.semantic.info),
        s.success.fg == Some(t.semantic.success),
        s.highlight.fg == Some(t.semantic.highlight),
        s.link.fg == Some(t.semantic.link),
        s.secondary.bg == Some(t.ui.bg_secondary),
        s.selection.bg == Some(t.ui.selection_bg),
        s.primary.bg == Some(t.ui.bg_primary),
        s.muted.bg == Some(t.ui.bg_primary),
        s.border.bg == Some(t.ui.bg_primary),
        s.border_muted.bg == Some(t.ui.bg_primary),
        s.cursor.bg == Some(t.ui.bg_primary),
        s.cursor_muted.bg == Some(t.ui.bg_primary),
        s.error.bg == Some(t.ui.bg_primary),
        s.warning.bg == Some(t.ui.bg_primary),
        s.info.bg == Some(t.ui.bg_primary),
        s.success.bg == Some(t.ui.bg_primary),
        s.highlight.bg == Some(t.ui.bg_primary),
        s.link.bg == Some(t.ui.bg_primary),
        s.name@ == t.meta.name@,
        s.author@ == t.meta.author@,
        s.is_dark == t.meta.dark,
{
}

impl StyleSet {
    /// The custom style named `key`, if any.
    pub open spec fn custom_style(&self, key: Seq<char>) -> Option<Style> {
        self.custom.style(key)
    }

    /// The styles of a theme: each pairs a foreground with the primary
    /// background, except `secondary` (the secondary background) and
    /// `selection` (the selection background); no custom style.
    pub fn from_theme(value: TcaTheme) -> (s: StyleSet)
        ensures
            styles_of(s, value),
    {
        let ui = value.ui;
        let s = StyleSet {
            name: value.meta.name,
            author: value.meta.author,
            is_dark: value.meta.dark,
            primary: Style::default().bg(ui.bg_primary).fg(value.ui.fg_primary),
            secondary: Style::default().bg(ui.bg_secondary).fg(value.ui.fg_secondary),
            muted: Style::default().bg(ui.bg_primary).fg(value.ui.fg_muted),
            border: Style::default().bg(ui.bg_primary).fg(value.ui.border_primary),
            border_muted: Style::default().bg(ui.bg_primary).fg(value.ui.border_muted),
            selection: Style::default().bg(ui.selection_bg).fg(value.ui.selection_fg),
            cursor: Style::default().bg(ui.bg_primary).fg(value.ui.cursor_primary),
            cursor_muted: Style::default().bg(ui.bg_primary).fg(value.ui.cursor_muted),
            error: Style::default().bg(ui.bg_primary).fg(value.semantic.error),
            warning: Style::default().bg(ui.bg_primary).fg(value.semantic.warning),
            info: Style::default().bg(ui.bg_primary).fg(value.semantic.info),
            success: Style::default().bg(ui.bg_primary).fg(value.semantic.success),
            highlight: Style::default().bg(ui.bg_primary).fg(value.semantic.highlight),
            link: Style::default().bg(ui.bg_primary).fg(value.semantic.link),
            custom: CustomStyles { entries: Vec::new() },
        };
        assert forall|k: Seq<char>| s.custom_style(k) is None by {
            assert(!exists|i: int| first_key(s.custom.entries@, k, i));
        }
        s
    }

    /// The styles for an optional theme name, looked up as
    /// [`TcaTheme::new`] does.
    pub fn from_name(
        name: Option<&str>,
        file_text: Option<&str>,
        configured: Option<&str>,
        mode: Option<ThemeMode>,
    ) -> (s: StyleSet)
        ensures
            exists|t: TcaTheme|
                ({
                    let (vs, n, a) = named_model(name, file_text, configured, mode);
                    resolves_slots(t, vs, n, a)
                }) && styles_of(s, t),
    {
        let t = TcaTheme::new(name, file_text, configured, mode);
        StyleSet::from_theme(t)
    }

    /// The styles of the user's preferred light theme `configured_light`, or
    /// else of the built-in default light theme (see
    /// [`TcaTheme::from_default_light_cfg`]).
    pub fn from_default_light_cfg(configured_light: Option<&str>, file_text: Option<&str>) -> (s:
        StyleSet)
        ensures
            exists|t: TcaTheme|
                styles_of(s, t) && (configured_light is Some ==> ({
                    let (vs, n, a) = named_model(
                        configured_light,
                        file_text,
                        None,
                        Some(ThemeMode::Light),
                    );
                    resolves_slots(t, vs, n, a)
                })) && (configured_light is None ==> resolves_slots(
                    t,
                    builtin_slots(BuiltinTheme::SolarizedLight),
                    builtin_name(BuiltinTheme::SolarizedLight),
                    builtin_author(BuiltinTheme::SolarizedLight),
                )),
    {
        let t = TcaTheme::from_default_light_cfg(configured_light, file_text);
        StyleSet::from_theme(t)
    }

    /// Adds, or replaces, the custom style named `key`.
    pub fn insert_custom(&mut self, key: String, style: Style)
        ensures
            final(self).name == old(self).name,
            final(self).author == old(self).author,
            final(self).is_dark == old(self).is_dark,
            final(self).primary == old(self).primary,
            final(self).secondary == old(self).secondary,
            final(self).muted == old(self).muted,
            final(self).border == old(self).border,
            final(self).border_muted == old(self).border_muted,
            final(self).selection == old(self).selection,
            final(self).cursor == old(self).cursor,
            final(self).cursor_muted == old(self).cursor_muted,
            final(self).error == old(self).error,
            final(self).warning == old(self).warning,
            final(self).info == old(self).info,
            final(self).success == old(self).success,
            final(self).highlight == old(self).highlight,
            final(self).link == old(self).link,
            forall|k: Seq<char>|
                #[trigger] final(self).custom_style(k) == if k == key@ {
                    Some(style)
                } else {
                    old(self).custom_style(k)
                },
    {
        self.custom.insert(key, style);
    }

    /// The custom style named `key`, if any.
    pub fn get_custom(&self, key: &str) -> (r: Option<&Style>)
        ensures
            r matches Some(s) ==> self.custom_style(key@) == Some(*s),
            r is None ==> self.custom_style(key@) is None,
    {
        self.custom.get(key)
    }
}

impl CustomStyles {
    /// Adds, or replaces, the style named `key`.
    pub fn insert(&mut self, key: String, style: Style)
        ensures
            forall|k: Seq<char>|
                #[trigger] final(self).style(k) == if k == key@ {
                    Some(style)
                } else {
                    old(self).style(k)
                },
    {
        let ghost key_view = key@;
        let ghost es = self.entries@;
        let mut found: Option<usize> = None;
        for i in 0..self.entries.len()
            invariant
                es == self.entries@,
                key@ == key_view,
                found is None ==> forall|j: int| 0 <= j < i ==> (#[trigger] es[j]).0@ != key_view,
                found matches Some(p) ==> first_key(es, key_view, p as int),
        {
            if found.is_none() && self.entries[i].0 == key {
                found = Some(i);
            }
        }
        match found {
            Some(p) => {
                self.entries.set(p, (key, style));
                proof {
                    let ns = self.entries@;
                    assert forall|k: Seq<char>| #[trigger] style_for(ns, k) == if k == key_view {
                        Some(style)
                    } else {
                        style_for(es, k)
                    } by {
                        if k == key_view {
                            assert(first_key(ns, k, p as int));
                            lemma_first_key_unique(ns, k, p as int);
                        } else if exists|i: int| first_key(es, k, i) {
                            let i = choose|i: int| first_key(es, k, i);
                            assert(i != p);
                            assert(first_key(ns, k, i));
                            lemma_first_key_unique(ns, k, i);
                            lemma_first_key_unique(es, k, i);
                        } else {
                            if exists|i: int| first_key(ns, k, i) {
                                let i = choose|i: int| first_key(ns, k, i);
                                assert(i != p);
                                assert(es[i] == ns[i]);
                                assert forall|j: int| 0 <= j < i implies (#[trigger] es[j]).0@ != k by {
                                    if j != p {
                                        assert(es[j] == ns[j]);
                                    }
                                }
                                assert(first_key(es, k, i));
                            }
                        }
                    }
                }
            },
            None => {
                self.entries.push((key, style));
                proof {
                    let ns = self.entries@;
                    assert forall|k: Seq<char>| #[trigger] style_for(ns, k) == if k == key_view {
                        Some(style)
                    } else {
                        style_for(es, k)
                    } by {
                        if k == key_view {
                            assert(first_key(ns, k, es.len() as int));
                            lemma_first_key_unique(ns, k, es.len() as int);
                        } else if exists|i: int| first_key(es, k, i) {
                            let i = choose|i: int| first_key(es, k, i);
                            assert(first_key(ns, k, i));
                            lemma_first_key_unique(ns, k, i);
                            lemma_first_key_unique(es, k, i);
                        } else {
                            if exists|i: int| first_key(ns, k, i) {
                                let i = choose|i: int| first_key(ns, k, i);
                                assert(i < es.len());
                                assert(es[i] == ns[i]);
                                assert forall|j: int| 0 <= j < i implies (#[trigger] es[j]).0@ != k by {
                                    assert(es[j] == ns[j]);
                                }
                                assert(first_key(es, k, i));
                            }
                        }
                    }
                }
            },
        }
    }

    /// The style named `key`, if any.
    pub fn get(&self, key: &str) -> (r: Option<&Style>)
        ensures
            r matches Some(s) ==> self.style(key@) == Some(*s),
            r is None ==> self.style(key@) is None,
    {
        for i in 0..self.entries.len()
            invariant
                forall|j: int| 0 <= j < i ==> (#[trigger] self.entries@[j]).0@ != key@,
        {
            if same_text(self.entries[i].0.as_str(), key) {
                proof {
                    assert(first_key(self.entries@, key@, i as int));
                    lemma_first_key_unique(self.entries@, key@, i as int);
                }
                return Some(&self.entries[i].1);
            }
        }
        None
    }
}

/// A cycling cursor over style sets, backed by a cursor over resolved themes.
pub struct StyleSetCursor(TcaThemeCursor);

impl StyleSetCursor {
    /// The themes behind the cursor, in order.
    pub closed spec fn items(&self) -> Seq<TcaTheme> {
        self.0.items()
    }

    /// The position of the current theme.
    pub closed spec fn pos(&self) -> int {
        self.0.pos()
    }

    /// A cursor over `themes`, starting at the first.
    pub fn new(themes: Vec<TcaTheme>) -> (c: Self)
        ensures
            c.items() == themes@,
            c.pos() == 0,
    {
        StyleSetCursor(TcaThemeCursor::new(themes))
    }

    /// All built-in themes (see [`TcaThemeCursor::with_builtins`]).
    pub fn with_builtins() -> (c: Self)
        ensures
            c.items().len() == all_builtins().len(),
            forall|i: int|
                0 <= i < c.items().len() ==> #[trigger] resolves_slots(
                    c.items()[i],
                    builtin_slots(all_builtins()[i]),
                    builtin_name(all_builtins()[i]),
                    builtin_author(all_builtins()[i]),
                ),
            c.pos() == 0,
    {
        StyleSetCursor(TcaThemeCursor::with_builtins())
    }

    /// The user's installed themes (see [`TcaThemeCursor::with_user_themes`]).
    pub fn with_user_themes(user: Vec<Theme>) -> (c: Self)
        ensures
            resolve_each(c.items(), convertible(user@)),
            c.pos() == 0,
    {
        StyleSetCursor(TcaThemeCursor::with_user_themes(user))
    }

    /// Built-in and user themes (see [`TcaThemeCursor::with_all_themes`]).
    pub fn with_all_themes(user: Vec<Theme>) -> (c: Self)
        ensures
            exists|bs: Seq<Theme>|
                builtin_seq(bs) && resolve_each(c.items(), convertible(merged_themes(user@, bs))),
            c.pos() == 0,
    {
        StyleSetCursor(TcaThemeCursor::with_all_themes(user))
    }

    /// The styles of the current theme, without moving.
    pub fn peek(&self) -> (r: Option<StyleSet>)
        ensures
            r is Some <==> self.items().len() > 0,
            r matches Some(s) ==> styles_of(s, self.items()[self.pos()]),
    {
        match self.0.peek() {
            Some(t) => Some(StyleSet::from_theme(t.duplicate())),
            None => None,
        }
    }

    /// Moves to the next theme (wrapping) and returns its styles.
    pub fn next(&mut self) -> (r: Option<StyleSet>)
        ensures
            final(self).items() == old(self).items(),
            old(self).items().len() > 0 ==> final(self).pos() == next_pos(
                old(self).pos(),
                old(self).items().len() as int,
            ),
            r is Some <==> old(self).items().len() > 0,
            r matches Some(s) ==> styles_of(s, final(self).items()[final(self).pos()]),
    {
        match self.0.next() {
            Some(t) => Some(StyleSet::from_theme(t.duplicate())),
            None => None,
        }
    }

    /// Moves to the previous theme (wrapping) and returns its styles.
    pub fn prev(&mut self) -> (r: Option<StyleSet>)
        ensures
            final(self).items() == old(self).items(),
            old(self).items().len() > 0 ==> final(self).pos() == prev_pos(
                old(self).pos(),
                old(self).items().len() as int,
            ),
            r is Some <==> old(self).items().len() > 0,
            r matches Some(s) ==> styles_of(s, final(self).items()[final(self).pos()]),
    {
        match self.0.prev() {
            Some(t) => Some(StyleSet::from_theme(t.duplicate())),
            None => None,
        }
    }

    /// Moves to the theme matching `name` (slug-insensitive) and returns its
    /// styles (see [`TcaThemeCursor::set_current`]).
    pub fn set_current(&mut self, name: &str) -> (r: Option<StyleSet>)
        ensures
            final(self).items() == old(self).items(),
            r is Some ==> first_tca_with_slug(old(self).items(), kebab_case(name@), final(self).pos()),
            r matches Some(s) ==> styles_of(s, final(self).items()[final(self).pos()]),
            r is None ==> final(self).pos() == old(self).pos() && forall|j: int|
                0 <= j < old(self).items().len() ==> kebab_case(
                    #[trigger] old(self).items()[j].meta.name@,
                ) != kebab_case(name@),
    {
        match self.0.set_current(name) {
            Some(t) => Some(StyleSet::from_theme(t.duplicate())),
            None => None,
        }
    }

    /// The number of themes.
    pub fn len(&self) -> (n: usize)
        ensures
            n == self.items().len(),
    {
        self.0.len()
    }

    /// Whether the cursor has no themes.
    pub fn is_empty(&self) -> (b: bool)
        ensures
            b == (self.items().len() == 0),
    {
        self.0.is_empty()
    }
}

} // verus!
