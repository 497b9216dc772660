//! Built-in themes, available without any theme files.
use vstd::prelude::*;
use crate::hex::{
    digits_value, lemma_encode_len, radix16_value, spec_normalize,
    strip_hashes,
};
use crate::round_trip::normalized_slots;
use crate::text::{ascii_lower, eq_ignore_ascii_case};
use crate::theme::{Base24Slots, Theme};
use vstd::string::StringExecFns;
use vstd::utf8::is_ascii_chars;

verus! {

/// Whether the terminal shows dark or light colors.
#[derive(Debug, Clone, Copy, PartialEq, Eq, Structural)]
pub enum ThemeMode {
    /// Light text on a dark background.
    Dark,
    /// Dark text on a light background.
    Light,
}

/// The built-in themes, available without any theme files.
#[derive(Debug, Clone, Copy, PartialEq, Eq, Structural)]
pub enum BuiltinTheme {
    /// Catppuccin Mocha — dark, pastel-toned.
    CatppuccinMocha,
    /// Cyberpunk — high-contrast neon on dark.
    Cyberpunk,
    /// Dracula — the classic dark purple theme (default).
    Dracula,
    /// Everforest Dark — muted green forest tones.
    EverforestDark,
    /// Gruvbox Dark — warm retro earth tones.
    GruvboxDark,
    /// Mono — minimal monochrome.
    Mono,
    /// Nord — cool arctic blue palette.
    Nord,
    /// One Dark — Atom-inspired dark theme.
    OneDark,
    /// Rosé Pine — soho vibes, muted rose tones.
    RosePine,
    /// Solarized Light — the classic light theme.
    SolarizedLight,
    /// Tokyo Night — vibrant dark blues and purples.
    TokyoNight,
}

/// The kebab-case slug of a built-in theme.
pub open spec fn builtin_slug(b: BuiltinTheme) -> Seq<char> {
    match b {
        BuiltinTheme::CatppuccinMocha => "catppuccin-mocha"@,
        BuiltinTheme::Cyberpunk => "cyberpunk"@,
        BuiltinTheme::Dracula => "dracula"@,
        BuiltinTheme::EverforestDark => "everforest-dark"@,
        BuiltinTheme::GruvboxDark => "gruvbox-dark"@,
        BuiltinTheme::Mono => "mono"@,
        BuiltinTheme::Nord => "nord"@,
        BuiltinTheme::OneDark => "one-dark"@,
        BuiltinTheme::RosePine => "rose-pine"@,
        BuiltinTheme::SolarizedLight => "solarized-light"@,
        BuiltinTheme::TokyoNight => "tokyo-night"@,
    }
}

/// The display name of a built-in theme.
pub open spec fn builtin_name(b: BuiltinTheme) -> Seq<char> {
    match b {
        BuiltinTheme::CatppuccinMocha => "Catppuccin Mocha"@,
        BuiltinTheme::Cyberpunk => "Cyberpunk"@,
        BuiltinTheme::Dracula => "Dracula"@,
        BuiltinTheme::EverforestDark => "Everforest Dark"@,
        BuiltinTheme::GruvboxDark => "Gruvbox Dark"@,
        BuiltinTheme::Mono => "Mono"@,
        BuiltinTheme::Nord => "Nord"@,
        BuiltinTheme::OneDark => "One Dark"@,
        BuiltinTheme::RosePine => "Rose Pine"@,
        BuiltinTheme::SolarizedLight => "Solarized Light"@,
        BuiltinTheme::TokyoNight => "Tokyo Night"@,
    }
}

/// The author recorded for a built-in theme.
pub open spec fn builtin_author(b: BuiltinTheme) -> Seq<char> {
    match b {
        BuiltinTheme::CatppuccinMocha => "Catppuccin"@,
        BuiltinTheme::Cyberpunk => "TCA"@,
        BuiltinTheme::Dracula => "Zeno Rocha"@,
        BuiltinTheme::EverforestDark => "Sainnhe Park"@,
        BuiltinTheme::GruvboxDark => "Pavel Pertsev"@,
        BuiltinTheme::Mono => "TCA"@,
        BuiltinTheme::Nord => "Arctic Ice Studio"@,
        BuiltinTheme::OneDark => "Atom"@,
        BuiltinTheme::RosePine => "Rose Pine"@,
        BuiltinTheme::SolarizedLight => "Ethan Schoonover"@,
        BuiltinTheme::TokyoNight => "Enkia"@,
    }
}

/// The 24 base24 slots of a built-in theme.
pub open spec fn builtin_slots(b: BuiltinTheme) -> Seq<Seq<char>> {
    match b {
        BuiltinTheme::CatppuccinMocha => seq!["#1e1e2e"@, "#181825"@, "#313244"@, "#45475a"@, "#585b70"@, "#cdd6f4"@, "#f5e0dc"@, "#b4befe"@, "#f38ba8"@, "#fab387"@, "#f9e2af"@, "#a6e3a1"@, "#94e2d5"@, "#89b4fa"@, "#cba6f7"@, "#f2cdcd"@, "#181825"@, "#11111b"@, "#eba0ac"@, "#f5e0dc"@, "#a6e3a1"@, "#89dceb"@, "#74c7ec"@, "#f5c2e7"@],
        BuiltinTheme::Cyberpunk => seq!["#000b1e"@, "#0a1a3a"@, "#1e2a4a"@, "#4c5a7a"@, "#7b8bb0"@, "#0abdc6"@, "#8fd8e0"@, "#f0f0ff"@, "#ff0055"@, "#ff6e27"@, "#fcee0c"@, "#00ff9c"@, "#00e5ff"@, "#0a84ff"@, "#ea00d9"@, "#711c91"@, "#000510"@, "#000000"@, "#ff4d88"@, "#fff35c"@, "#5cffbe"@, "#5cefff"@, "#4da6ff"@, "#f24dff"@],
        BuiltinTheme::Dracula => seq!["#282a36"@, "#363447"@, "#44475a"@, "#6272a4"@, "#9ea8c7"@, "#f8f8f2"@, "#f0f1f4"@, "#ffffff"@, "#ff5555"@, "#ffb86c"@, "#f1fa8c"@, "#50fa7b"@, "#8be9fd"@, "#80bfff"@, "#ff79c6"@, "#bd93f9"@, "#1e2029"@, "#16171d"@, "#f28c8c"@, "#eef5a3"@, "#a3f5b8"@, "#baedf7"@, "#a3ccf5"@, "#f5a3d2"@],
        BuiltinTheme::EverforestDark => seq!["#2d353b"@, "#343f44"@, "#3d484d"@, "#475258"@, "#859289"@, "#d3c6aa"@, "#e6e2cc"@, "#fdf6e3"@, "#e67e80"@, "#e69875"@, "#dbbc7f"@, "#a7c080"@, "#83c092"@, "#7fbbb3"@, "#d699b6"@, "#9da9a0"@, "#232a2e"@, "#1e2326"@, "#f08b8d"@, "#e5c890"@, "#b5cc8f"@, "#93cca0"@, "#8fc9c1"@, "#e0a9c3"@],
        BuiltinTheme::GruvboxDark => seq!["#282828"@, "#3c3836"@, "#504945"@, "#665c54"@, "#bdae93"@, "#d5c4a1"@, "#ebdbb2"@, "#fbf1c7"@, "#fb4934"@, "#fe8019"@, "#fabd2f"@, "#b8bb26"@, "#8ec07c"@, "#83a598"@, "#d3869b"@, "#d65d0e"@, "#1d2021"@, "#101010"@, "#cc241d"@, "#d79921"@, "#98971a"@, "#689d6a"@, "#458588"@, "#b16286"@],
        BuiltinTheme::Mono => seq!["#1c1c1c"@, "#262626"@, "#303030"@, "#4e4e4e"@, "#808080"@, "#c6c6c6"@, "#dadada"@, "#eeeeee"@, "#d0d0d0"@, "#bcbcbc"@, "#e4e4e4"@, "#a8a8a8"@, "#9e9e9e"@, "#b2b2b2"@, "#8a8a8a"@, "#767676"@, "#121212"@, "#080808"@, "#e0e0e0"@, "#f0f0f0"@, "#c0c0c0"@, "#b0b0b0"@, "#cacaca"@, "#a0a0a0"@],
        BuiltinTheme::Nord => seq!["#2e3440"@, "#3b4252"@, "#434c5e"@, "#4c566a"@, "#d8dee9"@, "#e5e9f0"@, "#eceff4"@, "#8fbcbb"@, "#bf616a"@, "#d08770"@, "#ebcb8b"@, "#a3be8c"@, "#88c0d0"@, "#81a1c1"@, "#b48ead"@, "#5e81ac"@, "#2e3440"@, "#242933"@, "#bf616a"@, "#ebcb8b"@, "#a3be8c"@, "#8fbcbb"@, "#88c0d0"@, "#b48ead"@],
        BuiltinTheme::OneDark => seq!["#282c34"@, "#353b45"@, "#3e4451"@, "#545862"@, "#565c64"@, "#abb2bf"@, "#b6bdca"@, "#c8ccd4"@, "#e06c75"@, "#d19a66"@, "#e5c07b"@, "#98c379"@, "#56b6c2"@, "#61afef"@, "#c678dd"@, "#be5046"@, "#21252b"@, "#181a1f"@, "#ff7b86"@, "#efb074"@, "#b1e18b"@, "#63d4e0"@, "#67cdff"@, "#e48bff"@],
        BuiltinTheme::RosePine => seq!["#191724"@, "#1f1d2e"@, "#26233a"@, "#6e6a86"@, "#908caa"@, "#e0def4"@, "#e0def4"@, "#524f67"@, "#eb6f92"@, "#f6c177"@, "#ebbcba"@, "#31748f"@, "#9ccfd8"@, "#c4a7e7"@, "#f6c177"@, "#524f67"@, "#16141f"@, "#0f0d15"@, "#f07a9b"@, "#f9cc8c"@, "#4a8fa9"@, "#b0dde4"@, "#d2bbf0"@, "#f8d095"@],
        BuiltinTheme::SolarizedLight => seq!["#fdf6e3"@, "#eee8d5"@, "#93a1a1"@, "#839496"@, "#657b83"@, "#586e75"@, "#073642"@, "#002b36"@, "#dc322f"@, "#cb4b16"@, "#b58900"@, "#859900"@, "#2aa198"@, "#268bd2"@, "#6c71c4"@, "#d33682"@, "#fdf6e3"@, "#eee8d5"@, "#dc322f"@, "#b58900"@, "#859900"@, "#2aa198"@, "#268bd2"@, "#6c71c4"@],
        BuiltinTheme::TokyoNight => seq!["#1a1b26"@, "#16161e"@, "#2f3549"@, "#444b6a"@, "#787c99"@, "#a9b1d6"@, "#cbccd1"@, "#d5d6db"@, "#f7768e"@, "#ff9e64"@, "#e0af68"@, "#9ece6a"@, "#7dcfff"@, "#7aa2f7"@, "#bb9af7"@, "#f7768e"@, "#1a1b26"@, "#000000"@, "#ff7a93"@, "#ffd479"@, "#b9f27c"@, "#7da6ff"@, "#7da6ff"@, "#bb9af7"@],
    }
}

/// All built-in themes, in declaration order.
pub open spec fn all_builtins() -> Seq<BuiltinTheme> {
    seq![BuiltinTheme::CatppuccinMocha, BuiltinTheme::Cyberpunk, BuiltinTheme::Dracula, BuiltinTheme::EverforestDark, BuiltinTheme::GruvboxDark, BuiltinTheme::Mono, BuiltinTheme::Nord, BuiltinTheme::OneDark, BuiltinTheme::RosePine, BuiltinTheme::SolarizedLight, BuiltinTheme::TokyoNight]
}

/// `s` names built-in theme `b`: it is `b`'s slug up to ASCII case.
pub open spec fn slug_matches(s: Seq<char>, b: BuiltinTheme) -> bool {
    ascii_lower(s) == builtin_slug(b)
}

/// The first built-in theme, from position `k` of [`all_builtins`] on, that
/// `s` names.
pub open spec fn builtin_by_slug_from(s: Seq<char>, k: int) -> Option<BuiltinTheme>
    decreases all_builtins().len() - k,
{
    if k < 0 || k >= all_builtins().len() {
        None
    } else if slug_matches(s, all_builtins()[k]) {
        Some(all_builtins()[k])
    } else {
        builtin_by_slug_from(s, k + 1)
    }
}

/// The built-in theme that `s` names, if any (the first in declaration order).
pub open spec fn builtin_by_slug(s: Seq<char>) -> Option<BuiltinTheme> {
    builtin_by_slug_from(s, 0)
}

/// Every built-in theme is listed in [`all_builtins`].
proof fn lemma_in_all_builtins(b: BuiltinTheme)
    ensures
        exists|j: int| 0 <= j < all_builtins().len() && all_builtins()[j] == b,
{
    match b {
        BuiltinTheme::CatppuccinMocha => assert(all_builtins()[0] == b),
        BuiltinTheme::Cyberpunk => assert(all_builtins()[1] == b),
        BuiltinTheme::Dracula => assert(all_builtins()[2] == b),
        BuiltinTheme::EverforestDark => assert(all_builtins()[3] == b),
        BuiltinTheme::GruvboxDark => assert(all_builtins()[4] == b),
        BuiltinTheme::Mono => assert(all_builtins()[5] == b),
        BuiltinTheme::Nord => assert(all_builtins()[6] == b),
        BuiltinTheme::OneDark => assert(all_builtins()[7] == b),
        BuiltinTheme::RosePine => assert(all_builtins()[8] == b),
        BuiltinTheme::SolarizedLight => assert(all_builtins()[9] == b),
        BuiltinTheme::TokyoNight => assert(all_builtins()[10] == b),
    }
}

/// The slugs are already in lower case.
proof fn lemma_slugs_lower(b: BuiltinTheme)
    ensures
        ascii_lower(builtin_slug(b)) == builtin_slug(b),
{
    match b {
        BuiltinTheme::CatppuccinMocha => {
            reveal_strlit("catppuccin-mocha");
            assert(ascii_lower(builtin_slug(b)) =~= builtin_slug(b));
        },
        BuiltinTheme::Cyberpunk => {
            reveal_strlit("cyberpunk");
            assert(ascii_lower(builtin_slug(b)) =~= builtin_slug(b));
        },
        BuiltinTheme::Dracula => {
            reveal_strlit("dracula");
            assert(ascii_lower(builtin_slug(b)) =~= builtin_slug(b));
        },
        BuiltinTheme::EverforestDark => {
            reveal_strlit("everforest-dark");
            assert(ascii_lower(builtin_slug(b)) =~= builtin_slug(b));
        },
        BuiltinTheme::GruvboxDark => {
            reveal_strlit("gruvbox-dark");
            assert(ascii_lower(builtin_slug(b)) =~= builtin_slug(b));
        },
        BuiltinTheme::Mono => {
            reveal_strlit("mono");
            assert(ascii_lower(builtin_slug(b)) =~= builtin_slug(b));
        },
        BuiltinTheme::Nord => {
            reveal_strlit("nord");
            assert(ascii_lower(builtin_slug(b)) =~= builtin_slug(b));
        },
        BuiltinTheme::OneDark => {
            reveal_strlit("one-dark");
            assert(ascii_lower(builtin_slug(b)) =~= builtin_slug(b));
        },
        BuiltinTheme::RosePine => {
            reveal_strlit("rose-pine");
            assert(ascii_lower(builtin_slug(b)) =~= builtin_slug(b));
        },
        BuiltinTheme::SolarizedLight => {
            reveal_strlit("solarized-light");
            assert(ascii_lower(builtin_slug(b)) =~= builtin_slug(b));
        },
        BuiltinTheme::TokyoNight => {
            reveal_strlit("tokyo-night");
            assert(ascii_lower(builtin_slug(b)) =~= builtin_slug(b));
        },
    }
}

/// The length and first character of a built-in theme's slug.
spec fn slug_sig(b: BuiltinTheme) -> (int, char) {
    match b {
        BuiltinTheme::CatppuccinMocha => (16, 'c'),
        BuiltinTheme::Cyberpunk => (9, 'c'),
        BuiltinTheme::Dracula => (7, 'd'),
        BuiltinTheme::EverforestDark => (15, 'e'),
        BuiltinTheme::GruvboxDark => (12, 'g'),
        BuiltinTheme::Mono => (4, 'm'),
        BuiltinTheme::Nord => (4, 'n'),
        BuiltinTheme::OneDark => (8, 'o'),
        BuiltinTheme::RosePine => (9, 'r'),
        BuiltinTheme::SolarizedLight => (15, 's'),
        BuiltinTheme::TokyoNight => (11, 't'),
    }
}

proof fn lemma_slug_sig(b: BuiltinTheme)
    ensures
        builtin_slug(b).len() == slug_sig(b).0,
        builtin_slug(b)[0] == slug_sig(b).1,
{
    reveal_strlit("catppuccin-mocha");
    reveal_strlit("cyberpunk");
    reveal_strlit("dracula");
    reveal_strlit("everforest-dark");
    reveal_strlit("gruvbox-dark");
    reveal_strlit("mono");
    reveal_strlit("nord");
    reveal_strlit("one-dark");
    reveal_strlit("rose-pine");
    reveal_strlit("solarized-light");
    reveal_strlit("tokyo-night");
}

/// No two built-in themes share a slug.
proof fn lemma_slug_injective(a: BuiltinTheme, b: BuiltinTheme)
    requires
        builtin_slug(a) == builtin_slug(b),
    ensures
        a == b,
{
    lemma_slug_sig(a);
    lemma_slug_sig(b);
}

proof fn lemma_by_slug_from(b: BuiltinTheme, j: int, k: int)
    requires
        0 <= k <= j < all_builtins().len(),
        all_builtins()[j] == b,
    ensures
        builtin_by_slug_from(builtin_slug(b), k) == Some(b),
    decreases j - k,
{
    lemma_slugs_lower(b);
    if k < j {
        if slug_matches(builtin_slug(b), all_builtins()[k]) {
            lemma_slug_injective(b, all_builtins()[k]);
        }
        lemma_by_slug_from(b, j, k + 1);
    }
}

/// Each built-in theme's slug selects that theme.
pub proof fn lemma_slug_selects(b: BuiltinTheme)
    ensures
        builtin_by_slug(builtin_slug(b)) == Some(b),
{
    lemma_in_all_builtins(b);
    let j = choose|j: int| 0 <= j < all_builtins().len() && all_builtins()[j] == b;
    lemma_by_slug_from(b, j, 0);
}

fn slot_texts(b: BuiltinTheme) -> (r: [&'static str; 24])
    ensures
        forall|i: int| 0 <= i < 24 ==> #[trigger] r@[i]@ == builtin_slots(b)[i],
{
    match b {
        BuiltinTheme::CatppuccinMocha => ["#1e1e2e", "#181825", "#313244", "#45475a", "#585b70", "#cdd6f4", "#f5e0dc", "#b4befe", "#f38ba8", "#fab387", "#f9e2af", "#a6e3a1", "#94e2d5", "#89b4fa", "#cba6f7", "#f2cdcd", "#181825", "#11111b", "#eba0ac", "#f5e0dc", "#a6e3a1", "#89dceb", "#74c7ec", "#f5c2e7"],
        BuiltinTheme::Cyberpunk => ["#000b1e", "#0a1a3a", "#1e2a4a", "#4c5a7a", "#7b8bb0", "#0abdc6", "#8fd8e0", "#f0f0ff", "#ff0055", "#ff6e27", "#fcee0c", "#00ff9c", "#00e5ff", "#0a84ff", "#ea00d9", "#711c91", "#000510", "#000000", "#ff4d88", "#fff35c", "#5cffbe", "#5cefff", "#4da6ff", "#f24dff"],
        BuiltinTheme::Dracula => ["#282a36", "#363447", "#44475a", "#6272a4", "#9ea8c7", "#f8f8f2", "#f0f1f4", "#ffffff", "#ff5555", "#ffb86c", "#f1fa8c", "#50fa7b", "#8be9fd", "#80bfff", "#ff79c6", "#bd93f9", "#1e2029", "#16171d", "#f28c8c", "#eef5a3", "#a3f5b8", "#baedf7", "#a3ccf5", "#f5a3d2"],
        BuiltinTheme::EverforestDark => ["#2d353b", "#343f44", "#3d484d", "#475258", "#859289", "#d3c6aa", "#e6e2cc", "#fdf6e3", "#e67e80", "#e69875", "#dbbc7f", "#a7c080", "#83c092", "#7fbbb3", "#d699b6", "#9da9a0", "#232a2e", "#1e2326", "#f08b8d", "#e5c890", "#b5cc8f", "#93cca0", "#8fc9c1", "#e0a9c3"],
        BuiltinTheme::GruvboxDark => ["#282828", "#3c3836", "#504945", "#665c54", "#bdae93", "#d5c4a1", "#ebdbb2", "#fbf1c7", "#fb4934", "#fe8019", "#fabd2f", "#b8bb26", "#8ec07c", "#83a598", "#d3869b", "#d65d0e", "#1d2021", "#101010", "#cc241d", "#d79921", "#98971a", "#689d6a", "#458588", "#b16286"],
        BuiltinTheme::Mono => ["#1c1c1c", "#262626", "#303030", "#4e4e4e", "#808080", "#c6c6c6", "#dadada", "#eeeeee", "#d0d0d0", "#bcbcbc", "#e4e4e4", "#a8a8a8", "#9e9e9e", "#b2b2b2", "#8a8a8a", "#767676", "#121212", "#080808", "#e0e0e0", "#f0f0f0", "#c0c0c0", "#b0b0b0", "#cacaca", "#a0a0a0"],
        BuiltinTheme::Nord => ["#2e3440", "#3b4252", "#434c5e", "#4c566a", "#d8dee9", "#e5e9f0", "#eceff4", "#8fbcbb", "#bf616a", "#d08770", "#ebcb8b", "#a3be8c", "#88c0d0", "#81a1c1", "#b48ead", "#5e81ac", "#2e3440", "#242933", "#bf616a", "#ebcb8b", "#a3be8c", "#8fbcbb", "#88c0d0", "#b48ead"],
        BuiltinTheme::OneDark => ["#282c34", "#353b45", "#3e4451", "#545862", "#565c64", "#abb2bf", "#b6bdca", "#c8ccd4", "#e06c75", "#d19a66", "#e5c07b", "#98c379", "#56b6c2", "#61afef", "#c678dd", "#be5046", "#21252b", "#181a1f", "#ff7b86", "#efb074", "#b1e18b", "#63d4e0", "#67cdff", "#e48bff"],
        BuiltinTheme::RosePine => ["#191724", "#1f1d2e", "#26233a", "#6e6a86", "#908caa", "#e0def4", "#e0def4", "#524f67", "#eb6f92", "#f6c177", "#ebbcba", "#31748f", "#9ccfd8", "#c4a7e7", "#f6c177", "#524f67", "#16141f", "#0f0d15", "#f07a9b", "#f9cc8c", "#4a8fa9", "#b0dde4", "#d2bbf0", "#f8d095"],
        BuiltinTheme::SolarizedLight => ["#fdf6e3", "#eee8d5", "#93a1a1", "#839496", "#657b83", "#586e75", "#073642", "#002b36", "#dc322f", "#cb4b16", "#b58900", "#859900", "#2aa198", "#268bd2", "#6c71c4", "#d33682", "#fdf6e3", "#eee8d5", "#dc322f", "#b58900", "#859900", "#2aa198", "#268bd2", "#6c71c4"],
        BuiltinTheme::TokyoNight => ["#1a1b26", "#16161e", "#2f3549", "#444b6a", "#787c99", "#a9b1d6", "#cbccd1", "#d5d6db", "#f7768e", "#ff9e64", "#e0af68", "#9ece6a", "#7dcfff", "#7aa2f7", "#bb9af7", "#f7768e", "#1a1b26", "#000000", "#ff7a93", "#ffd479", "#b9f27c", "#7da6ff", "#7da6ff", "#bb9af7"],
    }
}

/// A lower-case hexadecimal digit.
spec fn is_lower_hex(c: char) -> bool {
    ('0' <= c <= '9') || ('a' <= c <= 'f')
}

/// A `#rrggbb` literal in lower case is a normalized color.
proof fn lemma_color_literal(s: Seq<char>)
    requires
        s.len() == 7,
        s[0] == '#',
        is_lower_hex(s[1]),
        is_lower_hex(s[2]),
        is_lower_hex(s[3]),
        is_lower_hex(s[4]),
        is_lower_hex(s[5]),
        is_lower_hex(s[6]),
    ensures
        spec_normalize(s) == Some(s),
{
    let h = s.drop_first();
    assert(strip_hashes(h) == h);
    assert(strip_hashes(s) == strip_hashes(h));
    assert(ascii_lower(h) =~= h);
    assert(seq!['#'] + h =~= s);
    reveal_with_fuel(digits_value, 7);
    assert(h.drop_last().drop_last().drop_last().drop_last().drop_last().drop_last()
        =~= Seq::<char>::empty());
    assert(radix16_value(h) is Some);
    assert(is_ascii_chars(h)) by {
        assert forall|i| 0 <= i < h.len() implies '\0' <= #[trigger] h[i] <= '\u{7f}' by {
            assert(h[i] == s[i + 1]);
        }
    }
    lemma_encode_len(h);
}

proof fn lemma_slots_catppuccin_mocha()
    ensures
        normalized_slots(builtin_slots(BuiltinTheme::CatppuccinMocha)),
{
    let s = builtin_slots(BuiltinTheme::CatppuccinMocha);
    reveal_strlit("#1e1e2e");
    lemma_color_literal(s[0]);
    reveal_strlit("#181825");
    lemma_color_literal(s[1]);
    reveal_strlit("#313244");
    lemma_color_literal(s[2]);
    reveal_strlit("#45475a");
    lemma_color_literal(s[3]);
    reveal_strlit("#585b70");
    lemma_color_literal(s[4]);
    reveal_strlit("#cdd6f4");
    lemma_color_literal(s[5]);
    reveal_strlit("#f5e0dc");
    lemma_color_literal(s[6]);
    reveal_strlit("#b4befe");
    lemma_color_literal(s[7]);
    reveal_strlit("#f38ba8");
    lemma_color_literal(s[8]);
    reveal_strlit("#fab387");
    lemma_color_literal(s[9]);
    reveal_strlit("#f9e2af");
    lemma_color_literal(s[10]);
    reveal_strlit("#a6e3a1");
    lemma_color_literal(s[11]);
    reveal_strlit("#94e2d5");
    lemma_color_literal(s[12]);
    reveal_strlit("#89b4fa");
    lemma_color_literal(s[13]);
    reveal_strlit("#cba6f7");
    lemma_color_literal(s[14]);
    reveal_strlit("#f2cdcd");
    lemma_color_literal(s[15]);
    reveal_strlit("#181825");
    lemma_color_literal(s[16]);
    reveal_strlit("#11111b");
    lemma_color_literal(s[17]);
    reveal_strlit("#eba0ac");
    lemma_color_literal(s[18]);
    reveal_strlit("#f5e0dc");
    lemma_color_literal(s[19]);
    reveal_strlit("#a6e3a1");
    lemma_color_literal(s[20]);
    reveal_strlit("#89dceb");
    lemma_color_literal(s[21]);
    reveal_strlit("#74c7ec");
    lemma_color_literal(s[22]);
    reveal_strlit("#f5c2e7");
    lemma_color_literal(s[23]);
    assert forall|i: int| 0 <= i < 24 implies spec_normalize(#[trigger] s[i]) == Some(s[i]) by {
        assert(i == 0 || i == 1 || i == 2 || i == 3 || i == 4 || i == 5 || i == 6 || i == 7 || i == 8 || i == 9 || i == 10 || i == 11 || i == 12 || i == 13 || i == 14 || i == 15 || i == 16 || i == 17 || i == 18 || i == 19 || i == 20 || i == 21 || i == 22 || i == 23);
    }
}

proof fn lemma_slots_cyberpunk()
    ensures
        normalized_slots(builtin_slots(BuiltinTheme::Cyberpunk)),
{
    let s = builtin_slots(BuiltinTheme::Cyberpunk);
    reveal_strlit("#000b1e");
    lemma_color_literal(s[0]);
    reveal_strlit("#0a1a3a");
    lemma_color_literal(s[1]);
    reveal_strlit("#1e2a4a");
    lemma_color_literal(s[2]);
    reveal_strlit("#4c5a7a");
    lemma_color_literal(s[3]);
    reveal_strlit("#7b8bb0");
    lemma_color_literal(s[4]);
    reveal_strlit("#0abdc6");
    lemma_color_literal(s[5]);
    reveal_strlit("#8fd8e0");
    lemma_color_literal(s[6]);
    reveal_strlit("#f0f0ff");
    lemma_color_literal(s[7]);
    reveal_strlit("#ff0055");
    lemma_color_literal(s[8]);
    reveal_strlit("#ff6e27");
    lemma_color_literal(s[9]);
    reveal_strlit("#fcee0c");
    lemma_color_literal(s[10]);
    reveal_strlit("#00ff9c");
    lemma_color_literal(s[11]);
    reveal_strlit("#00e5ff");
    lemma_color_literal(s[12]);
    reveal_strlit("#0a84ff");
    lemma_color_literal(s[13]);
    reveal_strlit("#ea00d9");
    lemma_color_literal(s[14]);
    reveal_strlit("#711c91");
    lemma_color_literal(s[15]);
    reveal_strlit("#000510");
    lemma_color_literal(s[16]);
    reveal_strlit("#000000");
    lemma_color_literal(s[17]);
    reveal_strlit("#ff4d88");
    lemma_color_literal(s[18]);
    reveal_strlit("#fff35c");
    lemma_color_literal(s[19]);
    reveal_strlit("#5cffbe");
    lemma_color_literal(s[20]);
    reveal_strlit("#5cefff");
    lemma_color_literal(s[21]);
    reveal_strlit("#4da6ff");
    lemma_color_literal(s[22]);
    reveal_strlit("#f24dff");
    lemma_color_literal(s[23]);
    assert forall|i: int| 0 <= i < 24 implies spec_normalize(#[trigger] s[i]) == Some(s[i]) by {
        assert(i == 0 || i == 1 || i == 2 || i == 3 || i == 4 || i == 5 || i == 6 || i == 7 || i == 8 || i == 9 || i == 10 || i == 11 || i == 12 || i == 13 || i == 14 || i == 15 || i == 16 || i == 17 || i == 18 || i == 19 || i == 20 || i == 21 || i == 22 || i == 23);
    }
}

proof fn lemma_slots_dracula()
    ensures
        normalized_slots(builtin_slots(BuiltinTheme::Dracula)),
{
    let s = builtin_slots(BuiltinTheme::Dracula);
    reveal_strlit("#282a36");
    lemma_color_literal(s[0]);
    reveal_strlit("#363447");
    lemma_color_literal(s[1]);
    reveal_strlit("#44475a");
    lemma_color_literal(s[2]);
    reveal_strlit("#6272a4");
    lemma_color_literal(s[3]);
    reveal_strlit("#9ea8c7");
    lemma_color_literal(s[4]);
    reveal_strlit("#f8f8f2");
    lemma_color_literal(s[5]);
    reveal_strlit("#f0f1f4");
    lemma_color_literal(s[6]);
    reveal_strlit("#ffffff");
    lemma_color_literal(s[7]);
    reveal_strlit("#ff5555");
    lemma_color_literal(s[8]);
    reveal_strlit("#ffb86c");
    lemma_color_literal(s[9]);
    reveal_strlit("#f1fa8c");
    lemma_color_literal(s[10]);
    reveal_strlit("#50fa7b");
    lemma_color_literal(s[11]);
    reveal_strlit("#8be9fd");
    lemma_color_literal(s[12]);
    reveal_strlit("#80bfff");
    lemma_color_literal(s[13]);
    reveal_strlit("#ff79c6");
    lemma_color_literal(s[14]);
    reveal_strlit("#bd93f9");
    lemma_color_literal(s[15]);
    reveal_strlit("#1e2029");
    lemma_color_literal(s[16]);
    reveal_strlit("#16171d");
    lemma_color_literal(s[17]);
    reveal_strlit("#f28c8c");
    lemma_color_literal(s[18]);
    reveal_strlit("#eef5a3");
    lemma_color_literal(s[19]);
    reveal_strlit("#a3f5b8");
    lemma_color_literal(s[20]);
    reveal_strlit("#baedf7");
    lemma_color_literal(s[21]);
    reveal_strlit("#a3ccf5");
    lemma_color_literal(s[22]);
    reveal_strlit("#f5a3d2");
    lemma_color_literal(s[23]);
    assert forall|i: int| 0 <= i < 24 implies spec_normalize(#[trigger] s[i]) == Some(s[i]) by {
        assert(i == 0 || i == 1 || i == 2 || i == 3 || i == 4 || i == 5 || i == 6 || i == 7 || i == 8 || i == 9 || i == 10 || i == 11 || i == 12 || i == 13 || i == 14 || i == 15 || i == 16 || i == 17 || i == 18 || i == 19 || i == 20 || i == 21 || i == 22 || i == 23);
    }
}

proof fn lemma_slots_everforest_dark()
    ensures
        normalized_slots(builtin_slots(BuiltinTheme::EverforestDark)),
{
    let s = builtin_slots(BuiltinTheme::EverforestDark);
    reveal_strlit("#2d353b");
    lemma_color_literal(s[0]);
    reveal_strlit("#343f44");
    lemma_color_literal(s[1]);
    reveal_strlit("#3d484d");
    lemma_color_literal(s[2]);
    reveal_strlit("#475258");
    lemma_color_literal(s[3]);
    reveal_strlit("#859289");
    lemma_color_literal(s[4]);
    reveal_strlit("#d3c6aa");
    lemma_color_literal(s[5]);
    reveal_strlit("#e6e2cc");
    lemma_color_literal(s[6]);
    reveal_strlit("#fdf6e3");
    lemma_color_literal(s[7]);
    reveal_strlit("#e67e80");
    lemma_color_literal(s[8]);
    reveal_strlit("#e69875");
    lemma_color_literal(s[9]);
    reveal_strlit("#dbbc7f");
    lemma_color_literal(s[10]);
    reveal_strlit("#a7c080");
    lemma_color_literal(s[11]);
    reveal_strlit("#83c092");
    lemma_color_literal(s[12]);
    reveal_strlit("#7fbbb3");
    lemma_color_literal(s[13]);
    reveal_strlit("#d699b6");
    lemma_color_literal(s[14]);
    reveal_strlit("#9da9a0");
    lemma_color_literal(s[15]);
    reveal_strlit("#232a2e");
    lemma_color_literal(s[16]);
    reveal_strlit("#1e2326");
    lemma_color_literal(s[17]);
    reveal_strlit("#f08b8d");
    lemma_color_literal(s[18]);
    reveal_strlit("#e5c890");
    lemma_color_literal(s[19]);
    reveal_strlit("#b5cc8f");
    lemma_color_literal(s[20]);
    reveal_strlit("#93cca0");
    lemma_color_literal(s[21]);
    reveal_strlit("#8fc9c1");
    lemma_color_literal(s[22]);
    reveal_strlit("#e0a9c3");
    lemma_color_literal(s[23]);
    assert forall|i: int| 0 <= i < 24 implies spec_normalize(#[trigger] s[i]) == Some(s[i]) by {
        assert(i == 0 || i == 1 || i == 2 || i == 3 || i == 4 || i == 5 || i == 6 || i == 7 || i == 8 || i == 9 || i == 10 || i == 11 || i == 12 || i == 13 || i == 14 || i == 15 || i == 16 || i == 17 || i == 18 || i == 19 || i == 20 || i == 21 || i == 22 || i == 23);
    }
}

proof fn lemma_slots_gruvbox_dark()
    ensures
        normalized_slots(builtin_slots(BuiltinTheme::GruvboxDark)),
{
    let s = builtin_slots(BuiltinTheme::GruvboxDark);
    reveal_strlit("#282828");
    lemma_color_literal(s[0]);
    reveal_strlit("#3c3836");
    lemma_color_literal(s[1]);
    reveal_strlit("#504945");
    lemma_color_literal(s[2]);
    reveal_strlit("#665c54");
    lemma_color_literal(s[3]);
    reveal_strlit("#bdae93");
    lemma_color_literal(s[4]);
    reveal_strlit("#d5c4a1");
    lemma_color_literal(s[5]);
    reveal_strlit("#ebdbb2");
    lemma_color_literal(s[6]);
    reveal_strlit("#fbf1c7");
    lemma_color_literal(s[7]);
    reveal_strlit("#fb4934");
    lemma_color_literal(s[8]);
    reveal_strlit("#fe8019");
    lemma_color_literal(s[9]);
    reveal_strlit("#fabd2f");
    lemma_color_literal(s[10]);
    reveal_strlit("#b8bb26");
    lemma_color_literal(s[11]);
    reveal_strlit("#8ec07c");
    lemma_color_literal(s[12]);
    reveal_strlit("#83a598");
    lemma_color_literal(s[13]);
    reveal_strlit("#d3869b");
    lemma_color_literal(s[14]);
    reveal_strlit("#d65d0e");
    lemma_color_literal(s[15]);
    reveal_strlit("#1d2021");
    lemma_color_literal(s[16]);
    reveal_strlit("#101010");
    lemma_color_literal(s[17]);
    reveal_strlit("#cc241d");
    lemma_color_literal(s[18]);
    reveal_strlit("#d79921");
    lemma_color_literal(s[19]);
    reveal_strlit("#98971a");
    lemma_color_literal(s[20]);
    reveal_strlit("#689d6a");
    lemma_color_literal(s[21]);
    reveal_strlit("#458588");
    lemma_color_literal(s[22]);
    reveal_strlit("#b16286");
    lemma_color_literal(s[23]);
    assert forall|i: int| 0 <= i < 24 implies spec_normalize(#[trigger] s[i]) == Some(s[i]) by {
        assert(i == 0 || i == 1 || i == 2 || i == 3 || i == 4 || i == 5 || i == 6 || i == 7 || i == 8 || i == 9 || i == 10 || i == 11 || i == 12 || i == 13 || i == 14 || i == 15 || i == 16 || i == 17 || i == 18 || i == 19 || i == 20 || i == 21 || i == 22 || i == 23);
    }
}

proof fn lemma_slots_mono()
    ensures
        normalized_slots(builtin_slots(BuiltinTheme::Mono)),
{
    let s = builtin_slots(BuiltinTheme::Mono);
    reveal_strlit("#1c1c1c");
    lemma_color_literal(s[0]);
    reveal_strlit("#262626");
    lemma_color_literal(s[1]);
    reveal_strlit("#303030");
    lemma_color_literal(s[2]);
    reveal_strlit("#4e4e4e");
    lemma_color_literal(s[3]);
    reveal_strlit("#808080");
    lemma_color_literal(s[4]);
    reveal_strlit("#c6c6c6");
    lemma_color_literal(s[5]);
    reveal_strlit("#dadada");
    lemma_color_literal(s[6]);
    reveal_strlit("#eeeeee");
    lemma_color_literal(s[7]);
    reveal_strlit("#d0d0d0");
    lemma_color_literal(s[8]);
    reveal_strlit("#bcbcbc");
    lemma_color_literal(s[9]);
    reveal_strlit("#e4e4e4");
    lemma_color_literal(s[10]);
    reveal_strlit("#a8a8a8");
    lemma_color_literal(s[11]);
    reveal_strlit("#9e9e9e");
    lemma_color_literal(s[12]);
    reveal_strlit("#b2b2b2");
    lemma_color_literal(s[13]);
    reveal_strlit("#8a8a8a");
    lemma_color_literal(s[14]);
    reveal_strlit("#767676");
    lemma_color_literal(s[15]);
    reveal_strlit("#121212");
    lemma_color_literal(s[16]);
    reveal_strlit("#080808");
    lemma_color_literal(s[17]);
    reveal_strlit("#e0e0e0");
    lemma_color_literal(s[18]);
    reveal_strlit("#f0f0f0");
    lemma_color_literal(s[19]);
    reveal_strlit("#c0c0c0");
    lemma_color_literal(s[20]);
    reveal_strlit("#b0b0b0");
    lemma_color_literal(s[21]);
    reveal_strlit("#cacaca");
    lemma_color_literal(s[22]);
    reveal_strlit("#a0a0a0");
    lemma_color_literal(s[23]);
    assert forall|i: int| 0 <= i < 24 implies spec_normalize(#[trigger] s[i]) == Some(s[i]) by {
        assert(i == 0 || i == 1 || i == 2 || i == 3 || i == 4 || i == 5 || i == 6 || i == 7 || i == 8 || i == 9 || i == 10 || i == 11 || i == 12 || i == 13 || i == 14 || i == 15 || i == 16 || i == 17 || i == 18 || i == 19 || i == 20 || i == 21 || i == 22 || i == 23);
    }
}

proof fn lemma_slots_nord()
    ensures
        normalized_slots(builtin_slots(BuiltinTheme::Nord)),
{
    let s = builtin_slots(BuiltinTheme::Nord);
    reveal_strlit("#2e3440");
    lemma_color_literal(s[0]);
    reveal_strlit("#3b4252");
    lemma_color_literal(s[1]);
    reveal_strlit("#434c5e");
    lemma_color_literal(s[2]);
    reveal_strlit("#4c566a");
    lemma_color_literal(s[3]);
    reveal_strlit("#d8dee9");
    lemma_color_literal(s[4]);
    reveal_strlit("#e5e9f0");
    lemma_color_literal(s[5]);
    reveal_strlit("#eceff4");
    lemma_color_literal(s[6]);
    reveal_strlit("#8fbcbb");
    lemma_color_literal(s[7]);
    reveal_strlit("#bf616a");
    lemma_color_literal(s[8]);
    reveal_strlit("#d08770");
    lemma_color_literal(s[9]);
    reveal_strlit("#ebcb8b");
    lemma_color_literal(s[10]);
    reveal_strlit("#a3be8c");
    lemma_color_literal(s[11]);
    reveal_strlit("#88c0d0");
    lemma_color_literal(s[12]);
    reveal_strlit("#81a1c1");
    lemma_color_literal(s[13]);
    reveal_strlit("#b48ead");
    lemma_color_literal(s[14]);
    reveal_strlit("#5e81ac");
    lemma_color_literal(s[15]);
    reveal_strlit("#2e3440");
    lemma_color_literal(s[16]);
    reveal_strlit("#242933");
    lemma_color_literal(s[17]);
    reveal_strlit("#bf616a");
    lemma_color_literal(s[18]);
    reveal_strlit("#ebcb8b");
    lemma_color_literal(s[19]);
    reveal_strlit("#a3be8c");
    lemma_color_literal(s[20]);
    reveal_strlit("#8fbcbb");
    lemma_color_literal(s[21]);
    reveal_strlit("#88c0d0");
    lemma_color_literal(s[22]);
    reveal_strlit("#b48ead");
    lemma_color_literal(s[23]);
    assert forall|i: int| 0 <= i < 24 implies spec_normalize(#[trigger] s[i]) == Some(s[i]) by {
        assert(i == 0 || i == 1 || i == 2 || i == 3 || i == 4 || i == 5 || i == 6 || i == 7 || i == 8 || i == 9 || i == 10 || i == 11 || i == 12 || i == 13 || i == 14 || i == 15 || i == 16 || i == 17 || i == 18 || i == 19 || i == 20 || i == 21 || i == 22 || i == 23);
    }
}

proof fn lemma_slots_one_dark()
    ensures
        normalized_slots(builtin_slots(BuiltinTheme::OneDark)),
{
    let s = builtin_slots(BuiltinTheme::OneDark);
    reveal_strlit("#282c34");
    lemma_color_literal(s[0]);
    reveal_strlit("#353b45");
    lemma_color_literal(s[1]);
    reveal_strlit("#3e4451");
    lemma_color_literal(s[2]);
    reveal_strlit("#545862");
    lemma_color_literal(s[3]);
    reveal_strlit("#565c64");
    lemma_color_literal(s[4]);
    reveal_strlit("#abb2bf");
    lemma_color_literal(s[5]);
    reveal_strlit("#b6bdca");
    lemma_color_literal(s[6]);
    reveal_strlit("#c8ccd4");
    lemma_color_literal(s[7]);
    reveal_strlit("#e06c75");
    lemma_color_literal(s[8]);
    reveal_strlit("#d19a66");
    lemma_color_literal(s[9]);
    reveal_strlit("#e5c07b");
    lemma_color_literal(s[10]);
    reveal_strlit("#98c379");
    lemma_color_literal(s[11]);
    reveal_strlit("#56b6c2");
    lemma_color_literal(s[12]);
    reveal_strlit("#61afef");
    lemma_color_literal(s[13]);
    reveal_strlit("#c678dd");
    lemma_color_literal(s[14]);
    reveal_strlit("#be5046");
    lemma_color_literal(s[15]);
    reveal_strlit("#21252b");
    lemma_color_literal(s[16]);
    reveal_strlit("#181a1f");
    lemma_color_literal(s[17]);
    reveal_strlit("#ff7b86");
    lemma_color_literal(s[18]);
    reveal_strlit("#efb074");
    lemma_color_literal(s[19]);
    reveal_strlit("#b1e18b");
    lemma_color_literal(s[20]);
    reveal_strlit("#63d4e0");
    lemma_color_literal(s[21]);
    reveal_strlit("#67cdff");
    lemma_color_literal(s[22]);
    reveal_strlit("#e48bff");
    lemma_color_literal(s[23]);
    assert forall|i: int| 0 <= i < 24 implies spec_normalize(#[trigger] s[i]) == Some(s[i]) by {
        assert(i == 0 || i == 1 || i == 2 || i == 3 || i == 4 || i == 5 || i == 6 || i == 7 || i == 8 || i == 9 || i == 10 || i == 11 || i == 12 || i == 13 || i == 14 || i == 15 || i == 16 || i == 17 || i == 18 || i == 19 || i == 20 || i == 21 || i == 22 || i == 23);
    }
}

proof fn lemma_slots_rose_pine()
    ensures
        normalized_slots(builtin_slots(BuiltinTheme::RosePine)),
{
    let s = builtin_slots(BuiltinTheme::RosePine);
    reveal_strlit("#191724");
    lemma_color_literal(s[0]);
    reveal_strlit("#1f1d2e");
    lemma_color_literal(s[1]);
    reveal_strlit("#26233a");
    lemma_color_literal(s[2]);
    reveal_strlit("#6e6a86");
    lemma_color_literal(s[3]);
    reveal_strlit("#908caa");
    lemma_color_literal(s[4]);
    reveal_strlit("#e0def4");
    lemma_color_literal(s[5]);
    reveal_strlit("#e0def4");
    lemma_color_literal(s[6]);
    reveal_strlit("#524f67");
    lemma_color_literal(s[7]);
    reveal_strlit("#eb6f92");
    lemma_color_literal(s[8]);
    reveal_strlit("#f6c177");
    lemma_color_literal(s[9]);
    reveal_strlit("#ebbcba");
    lemma_color_literal(s[10]);
    reveal_strlit("#31748f");
    lemma_color_literal(s[11]);
    reveal_strlit("#9ccfd8");
    lemma_color_literal(s[12]);
    reveal_strlit("#c4a7e7");
    lemma_color_literal(s[13]);
    reveal_strlit("#f6c177");
    lemma_color_literal(s[14]);
    reveal_strlit("#524f67");
    lemma_color_literal(s[15]);
    reveal_strlit("#16141f");
    lemma_color_literal(s[16]);
    reveal_strlit("#0f0d15");
    lemma_color_literal(s[17]);
    reveal_strlit("#f07a9b");
    lemma_color_literal(s[18]);
    reveal_strlit("#f9cc8c");
    lemma_color_literal(s[19]);
    reveal_strlit("#4a8fa9");
    lemma_color_literal(s[20]);
    reveal_strlit("#b0dde4");
    lemma_color_literal(s[21]);
    reveal_strlit("#d2bbf0");
    lemma_color_literal(s[22]);
    reveal_strlit("#f8d095");
    lemma_color_literal(s[23]);
    assert forall|i: int| 0 <= i < 24 implies spec_normalize(#[trigger] s[i]) == Some(s[i]) by {
        assert(i == 0 || i == 1 || i == 2 || i == 3 || i == 4 || i == 5 || i == 6 || i == 7 || i == 8 || i == 9 || i == 10 || i == 11 || i == 12 || i == 13 || i == 14 || i == 15 || i == 16 || i == 17 || i == 18 || i == 19 || i == 20 || i == 21 || i == 22 || i == 23);
    }
}

proof fn lemma_slots_solarized_light()
    ensures
        normalized_slots(builtin_slots(BuiltinTheme::SolarizedLight)),
{
    let s = builtin_slots(BuiltinTheme::SolarizedLight);
    reveal_strlit("#fdf6e3");
    lemma_color_literal(s[0]);
    reveal_strlit("#eee8d5");
    lemma_color_literal(s[1]);
    reveal_strlit("#93a1a1");
    lemma_color_literal(s[2]);
    reveal_strlit("#839496");
    lemma_color_literal(s[3]);
    reveal_strlit("#657b83");
    lemma_color_literal(s[4]);
    reveal_strlit("#586e75");
    lemma_color_literal(s[5]);
    reveal_strlit("#073642");
    lemma_color_literal(s[6]);
    reveal_strlit("#002b36");
    lemma_color_literal(s[7]);
    reveal_strlit("#dc322f");
    lemma_color_literal(s[8]);
    reveal_strlit("#cb4b16");
    lemma_color_literal(s[9]);
    reveal_strlit("#b58900");
    lemma_color_literal(s[10]);
    reveal_strlit("#859900");
    lemma_color_literal(s[11]);
    reveal_strlit("#2aa198");
    lemma_color_literal(s[12]);
    reveal_strlit("#268bd2");
    lemma_color_literal(s[13]);
    reveal_strlit("#6c71c4");
    lemma_color_literal(s[14]);
    reveal_strlit("#d33682");
    lemma_color_literal(s[15]);
    reveal_strlit("#fdf6e3");
    lemma_color_literal(s[16]);
    reveal_strlit("#eee8d5");
    lemma_color_literal(s[17]);
    reveal_strlit("#dc322f");
    lemma_color_literal(s[18]);
    reveal_strlit("#b58900");
    lemma_color_literal(s[19]);
    reveal_strlit("#859900");
    lemma_color_literal(s[20]);
    reveal_strlit("#2aa198");
    lemma_color_literal(s[21]);
    reveal_strlit("#268bd2");
    lemma_color_literal(s[22]);
    reveal_strlit("#6c71c4");
    lemma_color_literal(s[23]);
    assert forall|i: int| 0 <= i < 24 implies spec_normalize(#[trigger] s[i]) == Some(s[i]) by {
        assert(i == 0 || i == 1 || i == 2 || i == 3 || i == 4 || i == 5 || i == 6 || i == 7 || i == 8 || i == 9 || i == 10 || i == 11 || i == 12 || i == 13 || i == 14 || i == 15 || i == 16 || i == 17 || i == 18 || i == 19 || i == 20 || i == 21 || i == 22 || i == 23);
    }
}

proof fn lemma_slots_tokyo_night()
    ensures
        normalized_slots(builtin_slots(BuiltinTheme::TokyoNight)),
{
    let s = builtin_slots(BuiltinTheme::TokyoNight);
    reveal_strlit("#1a1b26");
    lemma_color_literal(s[0]);
    reveal_strlit("#16161e");
    lemma_color_literal(s[1]);
    reveal_strlit("#2f3549");
    lemma_color_literal(s[2]);
    reveal_strlit("#444b6a");
    lemma_color_literal(s[3]);
    reveal_strlit("#787c99");
    lemma_color_literal(s[4]);
    reveal_strlit("#a9b1d6");
    lemma_color_literal(s[5]);
    reveal_strlit("#cbccd1");
    lemma_color_literal(s[6]);
    reveal_strlit("#d5d6db");
    lemma_color_literal(s[7]);
    reveal_strlit("#f7768e");
    lemma_color_literal(s[8]);
    reveal_strlit("#ff9e64");
    lemma_color_literal(s[9]);
    reveal_strlit("#e0af68");
    lemma_color_literal(s[10]);
    reveal_strlit("#9ece6a");
    lemma_color_literal(s[11]);
    reveal_strlit("#7dcfff");
    lemma_color_literal(s[12]);
    reveal_strlit("#7aa2f7");
    lemma_color_literal(s[13]);
    reveal_strlit("#bb9af7");
    lemma_color_literal(s[14]);
    reveal_strlit("#f7768e");
    lemma_color_literal(s[15]);
    reveal_strlit("#1a1b26");
    lemma_color_literal(s[16]);
    reveal_strlit("#000000");
    lemma_color_literal(s[17]);
    reveal_strlit("#ff7a93");
    lemma_color_literal(s[18]);
    reveal_strlit("#ffd479");
    lemma_color_literal(s[19]);
    reveal_strlit("#b9f27c");
    lemma_color_literal(s[20]);
    reveal_strlit("#7da6ff");
    lemma_color_literal(s[21]);
    reveal_strlit("#7da6ff");
    lemma_color_literal(s[22]);
    reveal_strlit("#bb9af7");
    lemma_color_literal(s[23]);
    assert forall|i: int| 0 <= i < 24 implies spec_normalize(#[trigger] s[i]) == Some(s[i]) by {
        assert(i == 0 || i == 1 || i == 2 || i == 3 || i == 4 || i == 5 || i == 6 || i == 7 || i == 8 || i == 9 || i == 10 || i == 11 || i == 12 || i == 13 || i == 14 || i == 15 || i == 16 || i == 17 || i == 18 || i == 19 || i == 20 || i == 21 || i == 22 || i == 23);
    }
}

/// Every slot of a built-in theme is a normalized color.
pub proof fn lemma_builtin_slots_normalized(b: BuiltinTheme)
    ensures
        normalized_slots(builtin_slots(b)),
{
    match b {
        BuiltinTheme::CatppuccinMocha => lemma_slots_catppuccin_mocha(),
        BuiltinTheme::Cyberpunk => lemma_slots_cyberpunk(),
        BuiltinTheme::Dracula => lemma_slots_dracula(),
        BuiltinTheme::EverforestDark => lemma_slots_everforest_dark(),
        BuiltinTheme::GruvboxDark => lemma_slots_gruvbox_dark(),
        BuiltinTheme::Mono => lemma_slots_mono(),
        BuiltinTheme::Nord => lemma_slots_nord(),
        BuiltinTheme::OneDark => lemma_slots_one_dark(),
        BuiltinTheme::RosePine => lemma_slots_rose_pine(),
        BuiltinTheme::SolarizedLight => lemma_slots_solarized_light(),
        BuiltinTheme::TokyoNight => lemma_slots_tokyo_night(),
    }
}

impl BuiltinTheme {
    /// The kebab-case slug of the theme (`"tokyo-night"`).
    pub fn slug(self) -> (s: &'static str)
        ensures
            s@ == builtin_slug(self),
    {
        match self {
            BuiltinTheme::CatppuccinMocha => "catppuccin-mocha",
            BuiltinTheme::Cyberpunk => "cyberpunk",
            BuiltinTheme::Dracula => "dracula",
            BuiltinTheme::EverforestDark => "everforest-dark",
            BuiltinTheme::GruvboxDark => "gruvbox-dark",
            BuiltinTheme::Mono => "mono",
            BuiltinTheme::Nord => "nord",
            BuiltinTheme::OneDark => "one-dark",
            BuiltinTheme::RosePine => "rose-pine",
            BuiltinTheme::SolarizedLight => "solarized-light",
            BuiltinTheme::TokyoNight => "tokyo-night",
        }
    }

    fn name_text(self) -> (s: &'static str)
        ensures
            s@ == builtin_name(self),
    {
        match self {
            BuiltinTheme::CatppuccinMocha => "Catppuccin Mocha",
            BuiltinTheme::Cyberpunk => "Cyberpunk",
            BuiltinTheme::Dracula => "Dracula",
            BuiltinTheme::EverforestDark => "Everforest Dark",
            BuiltinTheme::GruvboxDark => "Gruvbox Dark",
            BuiltinTheme::Mono => "Mono",
            BuiltinTheme::Nord => "Nord",
            BuiltinTheme::OneDark => "One Dark",
            BuiltinTheme::RosePine => "Rose Pine",
            BuiltinTheme::SolarizedLight => "Solarized Light",
            BuiltinTheme::TokyoNight => "Tokyo Night",
        }
    }

    fn author_text(self) -> (s: &'static str)
        ensures
            s@ == builtin_author(self),
    {
        match self {
            BuiltinTheme::CatppuccinMocha => "Catppuccin",
            BuiltinTheme::Cyberpunk => "TCA",
            BuiltinTheme::Dracula => "Zeno Rocha",
            BuiltinTheme::EverforestDark => "Sainnhe Park",
            BuiltinTheme::GruvboxDark => "Pavel Pertsev",
            BuiltinTheme::Mono => "TCA",
            BuiltinTheme::Nord => "Arctic Ice Studio",
            BuiltinTheme::OneDark => "Atom",
            BuiltinTheme::RosePine => "Rose Pine",
            BuiltinTheme::SolarizedLight => "Ethan Schoonover",
            BuiltinTheme::TokyoNight => "Enkia",
        }
    }

    /// All the built-in themes, in declaration order.
    pub fn iter() -> (v: Vec<BuiltinTheme>)
        ensures
            v@ == all_builtins(),
    {
        let v = vec![BuiltinTheme::CatppuccinMocha, BuiltinTheme::Cyberpunk, BuiltinTheme::Dracula, BuiltinTheme::EverforestDark, BuiltinTheme::GruvboxDark, BuiltinTheme::Mono, BuiltinTheme::Nord, BuiltinTheme::OneDark, BuiltinTheme::RosePine, BuiltinTheme::SolarizedLight, BuiltinTheme::TokyoNight];
        assert(v@ =~= all_builtins());
        v
    }

    /// The theme itself: its slots, name and author, with every other field
    /// derived from the slots.
    pub fn theme(self) -> (t: Theme)
        ensures
            t.models(builtin_slots(self), builtin_name(self), builtin_author(self)),
    {
        let s = slot_texts(self);
        let slots = Base24Slots {
            base00: String::from_str(s[0]),
            base01: String::from_str(s[1]),
            base02: String::from_str(s[2]),
            base03: String::from_str(s[3]),
            base04: String::from_str(s[4]),
            base05: String::from_str(s[5]),
            base06: String::from_str(s[6]),
            base07: String::from_str(s[7]),
            base08: String::from_str(s[8]),
            base09: String::from_str(s[9]),
            base0a: String::from_str(s[10]),
            base0b: String::from_str(s[11]),
            base0c: String::from_str(s[12]),
            base0d: String::from_str(s[13]),
            base0e: String::from_str(s[14]),
            base0f: String::from_str(s[15]),
            base10: String::from_str(s[16]),
            base11: String::from_str(s[17]),
            base12: String::from_str(s[18]),
            base13: String::from_str(s[19]),
            base14: String::from_str(s[20]),
            base15: String::from_str(s[21]),
            base16: String::from_str(s[22]),
            base17: String::from_str(s[23]),
        };
        proof {
            assert(slots.values() =~= builtin_slots(self));
        }
        let mut t = Theme::from_base24_slots(slots);
        t.meta.name = String::from_str(self.name_text());
        t.meta.author = String::from_str(self.author_text());
        t
    }

    /// A nice default light theme.
    pub fn default_light() -> (b: BuiltinTheme)
        ensures
            b == BuiltinTheme::SolarizedLight,
    {
        BuiltinTheme::SolarizedLight
    }

    /// The built-in theme whose slug is `s`, ignoring ASCII case
    /// (`"Tokyo-Night"` gives [`BuiltinTheme::TokyoNight`]).
    pub fn from_slug(s: &str) -> (r: Option<BuiltinTheme>)
        ensures
            r == builtin_by_slug(s@),
            r matches Some(b) ==> slug_matches(s@, b),
            r is None ==> forall|b: BuiltinTheme| !slug_matches(s@, b),
    {
        let all = BuiltinTheme::iter();
        for k in 0..all.len()
            invariant
                all@ == all_builtins(),
                forall|j: int| 0 <= j < k ==> !slug_matches(s@, #[trigger] all@[j]),
                builtin_by_slug(s@) == builtin_by_slug_from(s@, k as int),
        {
            let b = all[k];
            if eq_ignore_ascii_case(s, b.slug()) {
                proof {
                    lemma_slugs_lower(b);
                }
                return Some(b);
            }
            proof {
                lemma_slugs_lower(b);
            }
        }
        proof {
            assert forall|b: BuiltinTheme| !slug_matches(s@, b) by {
                lemma_in_all_builtins(b);
            }
        }
        None
    }

    /// The default built-in theme for a terminal mode: the light default
    /// for a light terminal, and [`BuiltinTheme::Dracula`] otherwise.
    pub fn for_mode(mode: Option<ThemeMode>) -> (b: BuiltinTheme)
        ensures
            b == (if mode == Some(ThemeMode::Light) {
                BuiltinTheme::SolarizedLight
            } else {
                BuiltinTheme::Dracula
            }),
    {
        match mode {
            Some(ThemeMode::Light) => BuiltinTheme::default_light(),
            _ => BuiltinTheme::default(),
        }
    }
}

impl Default for BuiltinTheme {
    /// [`BuiltinTheme::Dracula`].
    fn default() -> (b: BuiltinTheme)
        ensures
            b == BuiltinTheme::Dracula,
    {
        BuiltinTheme::Dracula
    }
}

} // verus!
