//! The TCA theme model and its derivation from base24 slots.
use vstd::prelude::*;
use crate::base24::{
    Base24Error, RawSlots, lemma_lines_valid, lemma_same_entries, parse_base24, scheme_map,
};
use vstd::string::{StrSliceExecFns, StringSliceAdditionalSpecFns};
use crate::hex::{
    HexColorError, brightness, hex_bytes, is_dark,
    lemma_ascii_lower_props, lemma_encode_len, lemma_radix16_ascii_value, lemma_strip_hashes_first,
    normalize_hex, spec_normalize, strip_hashes, trim_hashes,
};
use crate::text::{slug_file_name, slug_file_name_str, ascii_lower, eq_ignore_ascii_case, ends_with, has_suffix, kebab_case, to_kebab_case, lowercase, to_lowercase};
use vstd::string::StringExecFns;
use vstd::utf8::is_ascii_chars;

verus! {

/// The raw base24 color slots (base00–base17) as `#rrggbb` hex strings.
///
/// These are the canonical values from which all TCA semantic fields are derived.
/// base16-only themes leave base10–base17 set to their spec-defined fallbacks.
#[derive(Debug, Clone, PartialEq, Eq)]
pub struct Base24Slots {
    /// Darkest background / ANSI black background.
    pub base00: String,
    /// Secondary background.
    pub base01: String,
    /// Selection / border background.
    pub base02: String,
    /// Comments / bright black (ANSI 8).
    pub base03: String,
    /// Muted / dark foreground.
    pub base04: String,
    /// Primary foreground / white (ANSI 7).
    pub base05: String,
    /// Secondary foreground.
    pub base06: String,
    /// Bright white (ANSI 15).
    pub base07: String,
    /// Red / error (ANSI 1).
    pub base08: String,
    /// Orange / warning.
    pub base09: String,
    /// Yellow (ANSI 3).
    pub base0a: String,
    /// Green / success (ANSI 2).
    pub base0b: String,
    /// Cyan / info (ANSI 6).
    pub base0c: String,
    /// Blue / link (ANSI 4).
    pub base0d: String,
    /// Magenta / highlight (ANSI 5).
    pub base0e: String,
    /// Brown / deprecated.
    pub base0f: String,
    /// True black (ANSI 0 terminal color). Fallback: base00.
    pub base10: String,
    /// Reserved. Fallback: base00.
    pub base11: String,
    /// Bright red (ANSI 9). Fallback: base08.
    pub base12: String,
    /// Bright yellow (ANSI 11). Fallback: base0a.
    pub base13: String,
    /// Bright green (ANSI 10). Fallback: base0b.
    pub base14: String,
    /// Bright cyan (ANSI 14). Fallback: base0c.
    pub base15: String,
    /// Bright blue (ANSI 12). Fallback: base0d.
    pub base16: String,
    /// Bright magenta (ANSI 13). Fallback: base0e.
    pub base17: String,
}

impl Base24Slots {
    /// The 24 slot values in order, base00 first.
    pub open spec fn values(&self) -> Seq<Seq<char>> {
        seq![
            self.base00@, self.base01@, self.base02@, self.base03@,
            self.base04@, self.base05@, self.base06@, self.base07@,
            self.base08@, self.base09@, self.base0a@, self.base0b@,
            self.base0c@, self.base0d@, self.base0e@, self.base0f@,
            self.base10@, self.base11@, self.base12@, self.base13@,
            self.base14@, self.base15@, self.base16@, self.base17@,
        ]
    }
}

/// Theme metadata.
#[derive(Debug, Clone, PartialEq, Eq)]
pub struct Meta {
    /// Human-readable theme name.
    pub name: String,
    /// Theme author name or contact. Empty string if not specified.
    pub author: String,
    /// `true` for dark themes, `false` for light themes.
    ///
    /// Derived from the brightness of base00 against base07.
    pub dark: bool,
}

/// ANSI 16-color definitions, derived from base24 slots per the TCA spec.
#[derive(Debug, Clone, PartialEq, Eq)]
pub struct Ansi {
    /// ANSI color 0 — black.
    pub black: String,
    /// ANSI color 1 — red.
    pub red: String,
    /// ANSI color 2 — green.
    pub green: String,
    /// ANSI color 3 — yellow.
    pub yellow: String,
    /// ANSI color 4 — blue.
    pub blue: String,
    /// ANSI color 5 — magenta.
    pub magenta: String,
    /// ANSI color 6 — cyan.
    pub cyan: String,
    /// ANSI color 7 — white.
    pub white: String,
    /// ANSI color 8 — bright black (dark gray).
    pub bright_black: String,
    /// ANSI color 9 — bright red.
    pub bright_red: String,
    /// ANSI color 10 — bright green.
    pub bright_green: String,
    /// ANSI color 11 — bright yellow.
    pub bright_yellow: String,
    /// ANSI color 12 — bright blue.
    pub bright_blue: String,
    /// ANSI color 13 — bright magenta.
    pub bright_magenta: String,
    /// ANSI color 14 — bright cyan.
    pub bright_cyan: String,
    /// ANSI color 15 — bright white.
    pub bright_white: String,
}

/// Semantic color roles.
#[derive(Debug, Clone, PartialEq, Eq)]
pub struct Semantic {
    /// Color for error states.
    pub error: String,
    /// Color for warning states.
    pub warning: String,
    /// Color for informational states.
    pub info: String,
    /// Color for success states.
    pub success: String,
    /// Color for highlighted text.
    pub highlight: String,
    /// Color for hyperlinks.
    pub link: String,
}

/// Background colors.
#[derive(Debug, Clone, PartialEq, Eq)]
pub struct UiBg {
    /// Primary application background.
    pub primary: String,
    /// Secondary / sidebar background.
    pub secondary: String,
}

/// Foreground colors.
#[derive(Debug, Clone, PartialEq, Eq)]
pub struct UiFg {
    /// Primary text color.
    pub primary: String,
    /// Secondary text color.
    pub secondary: String,
    /// De-emphasized / placeholder text color.
    pub muted: String,
}

/// Border colors.
#[derive(Debug, Clone, PartialEq, Eq)]
pub struct UiBorder {
    /// Active / focused border color.
    pub primary: String,
    /// Inactive / de-emphasized border color.
    pub muted: String,
}

/// Cursor colors.
#[derive(Debug, Clone, PartialEq, Eq)]
pub struct UiCursor {
    /// Active cursor color.
    pub primary: String,
    /// Inactive cursor color.
    pub muted: String,
}

/// Selection colors.
#[derive(Debug, Clone, PartialEq, Eq)]
pub struct UiSelection {
    /// Selection background.
    pub bg: String,
    /// Selection foreground.
    pub fg: String,
}

/// UI element colors.
#[derive(Debug, Clone, PartialEq, Eq)]
pub struct Ui {
    /// Background colors.
    pub bg: UiBg,
    /// Foreground / text colors.
    pub fg: UiFg,
    /// Border colors.
    pub border: UiBorder,
    /// Cursor colors.
    pub cursor: UiCursor,
    /// Selection colors.
    pub selection: UiSelection,
}

/// A complete TCA theme definition.
///
/// All color fields contain resolved `#rrggbb` hex strings.
#[derive(Debug, Clone)]
pub struct Theme {
    /// Theme metadata.
    pub meta: Meta,
    /// ANSI 16-color definitions derived from base24 slots.
    pub ansi: Ansi,
    /// Semantic color roles derived from base24 slots.
    pub semantic: Semantic,
    /// UI element colors derived from base24 slots.
    pub ui: Ui,
    /// Raw base24 color slots for direct interoperability.
    pub base24: Base24Slots,
}

impl Theme {
    /// The ANSI, semantic, UI and `dark` fields are those that the base24
    /// mapping of the TCA specification derives from `self.base24`.
    pub open spec fn is_derived(&self) -> bool {
        let s = self.base24;
        &&& self.meta.dark == (brightness(s.base00@) < brightness(s.base07@))
        &&& self.ansi.black@ == s.base00@
        &&& self.ansi.red@ == s.base08@
        &&& self.ansi.green@ == s.base0b@
        &&& self.ansi.yellow@ == s.base0a@
        &&& self.ansi.blue@ == s.base0d@
        &&& self.ansi.magenta@ == s.base0e@
        &&& self.ansi.cyan@ == s.base0c@
        &&& self.ansi.white@ == s.base05@
        &&& self.ansi.bright_black@ == s.base03@
        &&& self.ansi.bright_red@ == s.base12@
        &&& self.ansi.bright_green@ == s.base14@
        &&& self.ansi.bright_yellow@ == s.base13@
        &&& self.ansi.bright_blue@ == s.base16@
        &&& self.ansi.bright_magenta@ == s.base17@
        &&& self.ansi.bright_cyan@ == s.base15@
        &&& self.ansi.bright_white@ == s.base07@
        &&& self.semantic.error@ == s.base08@
        &&& self.semantic.warning@ == s.base09@
        &&& self.semantic.info@ == s.base0c@
        &&& self.semantic.success@ == s.base0b@
        &&& self.semantic.highlight@ == s.base0e@
        &&& self.semantic.link@ == s.base0d@
        &&& self.ui.bg.primary@ == s.base00@
        &&& self.ui.bg.secondary@ == s.base01@
        &&& self.ui.fg.primary@ == s.base05@
        &&& self.ui.fg.secondary@ == s.base06@
        &&& self.ui.fg.muted@ == s.base04@
        &&& self.ui.border.primary@ == s.base02@
        &&& self.ui.border.muted@ == s.base01@
        &&& self.ui.cursor.primary@ == s.base05@
        &&& self.ui.cursor.muted@ == s.base04@
        &&& self.ui.selection.bg@ == s.base02@
        &&& self.ui.selection.fg@ == s.base05@
    }

    /// The theme has slots `slots`, name `name` and author `author`, and its
    /// other fields are derived from the slots.
    pub open spec fn models(&self, slots: Seq<Seq<char>>, name: Seq<char>, author: Seq<char>) -> bool {
        &&& self.base24.values() == slots
        &&& self.meta.name@ == name
        &&& self.meta.author@ == author
        &&& self.is_derived()
    }

    /// Construct a `Theme` by deriving all fields from a set of base24 slots.
    ///
    /// The name and author are left empty.
    pub fn from_base24_slots(slots: Base24Slots) -> (t: Theme)
        ensures
            t.base24 == slots,
            t.meta.name@ == Seq::<char>::empty(),
            t.meta.author@ == Seq::<char>::empty(),
            t.is_derived(),
    {
        let dark = is_dark(slots.base00.as_str(), slots.base07.as_str());
        Theme {
            meta: Meta { name: String::new(), author: String::new(), dark },
            ansi: Ansi {
                black: slots.base00.clone(),
                red: slots.base08.clone(),
                green: slots.base0b.clone(),
                yellow: slots.base0a.clone(),
                blue: slots.base0d.clone(),
                magenta: slots.base0e.clone(),
                cyan: slots.base0c.clone(),
                white: slots.base05.clone(),
                bright_black: slots.base03.clone(),
                bright_red: slots.base12.clone(),
                bright_green: slots.base14.clone(),
                bright_yellow: slots.base13.clone(),
                bright_blue: slots.base16.clone(),
                bright_magenta: slots.base17.clone(),
                bright_cyan: slots.base15.clone(),
                bright_white: slots.base07.clone(),
            },
            semantic: Semantic {
                error: slots.base08.clone(),
                warning: slots.base09.clone(),
                info: slots.base0c.clone(),
                success: slots.base0b.clone(),
                highlight: slots.base0e.clone(),
                link: slots.base0d.clone(),
            },
            ui: Ui {
                fg: UiFg {
                    primary: slots.base05.clone(),
                    secondary: slots.base06.clone(),
                    muted: slots.base04.clone(),
                },
                bg: UiBg { primary: slots.base00.clone(), secondary: slots.base01.clone() },
                border: UiBorder { primary: slots.base02.clone(), muted: slots.base01.clone() },
                cursor: UiCursor { primary: slots.base05.clone(), muted: slots.base04.clone() },
                selection: UiSelection { bg: slots.base02.clone(), fg: slots.base05.clone() },
            },
            base24: slots,
        }
    }
}


/// The key of base24 slot `i`: `"base00"` … `"base17"` (lower case).
pub open spec fn slot_key(i: int) -> Seq<char> {
    if i == 0 {
        "base00"@
    } else if i == 1 {
        "base01"@
    } else if i == 2 {
        "base02"@
    } else if i == 3 {
        "base03"@
    } else if i == 4 {
        "base04"@
    } else if i == 5 {
        "base05"@
    } else if i == 6 {
        "base06"@
    } else if i == 7 {
        "base07"@
    } else if i == 8 {
        "base08"@
    } else if i == 9 {
        "base09"@
    } else if i == 10 {
        "base0a"@
    } else if i == 11 {
        "base0b"@
    } else if i == 12 {
        "base0c"@
    } else if i == 13 {
        "base0d"@
    } else if i == 14 {
        "base0e"@
    } else if i == 15 {
        "base0f"@
    } else if i == 16 {
        "base10"@
    } else if i == 17 {
        "base11"@
    } else if i == 18 {
        "base12"@
    } else if i == 19 {
        "base13"@
    } else if i == 20 {
        "base14"@
    } else if i == 21 {
        "base15"@
    } else if i == 22 {
        "base16"@
    } else {
        "base17"@
    }
}

/// The key of base24 slot `i`.
pub fn slot_key_str(i: usize) -> (k: &'static str)
    requires
        i < 24,
    ensures
        k@ == slot_key(i as int),
{
    if i == 0 {
        "base00"
    } else if i == 1 {
        "base01"
    } else if i == 2 {
        "base02"
    } else if i == 3 {
        "base03"
    } else if i == 4 {
        "base04"
    } else if i == 5 {
        "base05"
    } else if i == 6 {
        "base06"
    } else if i == 7 {
        "base07"
    } else if i == 8 {
        "base08"
    } else if i == 9 {
        "base09"
    } else if i == 10 {
        "base0a"
    } else if i == 11 {
        "base0b"
    } else if i == 12 {
        "base0c"
    } else if i == 13 {
        "base0d"
    } else if i == 14 {
        "base0e"
    } else if i == 15 {
        "base0f"
    } else if i == 16 {
        "base10"
    } else if i == 17 {
        "base11"
    } else if i == 18 {
        "base12"
    } else if i == 19 {
        "base13"
    } else if i == 20 {
        "base14"
    } else if i == 21 {
        "base15"
    } else if i == 22 {
        "base16"
    } else {
        "base17"
    }
}

/// The fallback slot that a base16-only scheme uses for slot `i`.
pub open spec fn fallback_slot(i: int) -> int {
    if i == 16 || i == 17 {
        0
    } else if i == 18 {
        8
    } else if 19 <= i <= 23 {
        i - 9
    } else {
        i
    }
}

/// The normalized value of slot `i` in the text map `m`, if present and valid.
pub open spec fn normalized_slot(m: Map<Seq<char>, Seq<char>>, i: int) -> Option<Seq<char>> {
    if m.contains_key(slot_key(i)) {
        spec_normalize(m[slot_key(i)])
    } else {
        None
    }
}

/// How many slots a scheme must provide: 24 when it has `base10`, else 16.
pub open spec fn required_slots(m: Map<Seq<char>, Seq<char>>) -> int {
    if m.contains_key("base10"@) {
        24
    } else {
        16
    }
}

/// Every required slot is present and is a valid hex color.
pub open spec fn slots_ok(m: Map<Seq<char>, Seq<char>>) -> bool {
    forall|i: int| 0 <= i < required_slots(m) ==> #[trigger] normalized_slot(m, i) is Some
}

/// The value of slot `i` after normalization and base16 fallbacks.
pub open spec fn resolved_slot(m: Map<Seq<char>, Seq<char>>, i: int) -> Seq<char> {
    if i < required_slots(m) {
        normalized_slot(m, i)->0
    } else {
        normalized_slot(m, fallback_slot(i))->0
    }
}

/// The 24 resolved slot values.
pub open spec fn resolved_slots(m: Map<Seq<char>, Seq<char>>) -> Seq<Seq<char>> {
    Seq::new(24, |i: int| resolved_slot(m, i))
}

/// A base16 scheme (one without `base10`) keeps its sixteen slots, and the
/// eight base24 slots fall back as the TCA specification lays down: base10
/// and base11 (true black, reserved) to base00, base12 (bright red) to base08,
/// and base13–base17 (bright yellow, green, cyan, blue, magenta) to base0A–base0E
/// (yellow, green, cyan, blue, magenta).
pub proof fn law_base16_fallbacks(m: Map<Seq<char>, Seq<char>>)
    requires
        !m.contains_key("base10"@),
    ensures
        forall|i: int| 0 <= i < 16 ==> #[trigger] resolved_slots(m)[i] == normalized_slot(m, i)->0,
        resolved_slots(m)[16] == normalized_slot(m, 0)->0,
        resolved_slots(m)[17] == normalized_slot(m, 0)->0,
        resolved_slots(m)[18] == normalized_slot(m, 8)->0,
        resolved_slots(m)[19] == normalized_slot(m, 10)->0,
        resolved_slots(m)[20] == normalized_slot(m, 11)->0,
        resolved_slots(m)[21] == normalized_slot(m, 12)->0,
        resolved_slots(m)[22] == normalized_slot(m, 13)->0,
        resolved_slots(m)[23] == normalized_slot(m, 14)->0,
{
}

/// In a theme read from a base16 scheme (one without `base10`), each bright
/// ANSI color is its normal color: bright red is red, bright yellow is
/// yellow, and so on for green, cyan, blue and magenta.
pub proof fn law_base16_bright_colors(
    t: Theme,
    m: Map<Seq<char>, Seq<char>>,
    name: Seq<char>,
    author: Seq<char>,
)
    requires
        !m.contains_key("base10"@),
        t.models(resolved_slots(m), name, author),
    ensures
        t.ansi.bright_red@ == t.ansi.red@,
        t.ansi.bright_yellow@ == t.ansi.yellow@,
        t.ansi.bright_green@ == t.ansi.green@,
        t.ansi.bright_cyan@ == t.ansi.cyan@,
        t.ansi.bright_blue@ == t.ansi.blue@,
        t.ansi.bright_magenta@ == t.ansi.magenta@,
{
    law_base16_fallbacks(m);
    assert(t.base24.values()[8] == t.base24.base08@);
}

/// In a theme derived from its slots, the semantic and interface colors
/// agree with the ANSI colors: errors are red, successes green, information
/// cyan, links blue and highlights magenta; the primary background is black
/// and the primary foreground, the primary cursor and the selection's text
/// are white; borders share the selection and secondary backgrounds, and the
/// muted cursor is the muted foreground. The theme is dark exactly when its
/// background is less bright than its bright white.
pub proof fn law_derived_relations(t: Theme)
    requires
        t.is_derived(),
    ensures
        t.semantic.error@ == t.ansi.red@,
        t.semantic.success@ == t.ansi.green@,
        t.semantic.info@ == t.ansi.cyan@,
        t.semantic.link@ == t.ansi.blue@,
        t.semantic.highlight@ == t.ansi.magenta@,
        t.ui.bg.primary@ == t.ansi.black@,
        t.ui.fg.primary@ == t.ansi.white@,
        t.ui.cursor.primary@ == t.ansi.white@,
        t.ui.selection.fg@ == t.ansi.white@,
        t.ui.border.primary@ == t.ui.selection.bg@,
        t.ui.border.muted@ == t.ui.bg.secondary@,
        t.ui.cursor.muted@ == t.ui.fg.muted@,
        t.meta.dark == (brightness(t.ui.bg.primary@) < brightness(t.ansi.bright_white@)),
{
}

/// A base24 scheme (one with `base10`) keeps all twenty-four of its slots.
pub proof fn law_base24_slots_kept(m: Map<Seq<char>, Seq<char>>)
    requires
        m.contains_key("base10"@),
    ensures
        forall|i: int| 0 <= i < 24 ==> #[trigger] resolved_slots(m)[i] == normalized_slot(m, i)->0,
{
}

/// The theme name: `scheme`, else `name`, else `"Imported Theme"`.
pub open spec fn scheme_name(m: Map<Seq<char>, Seq<char>>) -> Seq<char> {
    if m.contains_key("scheme"@) {
        m["scheme"@]
    } else if m.contains_key("name"@) {
        m["name"@]
    } else {
        "Imported Theme"@
    }
}

/// The theme author: `author`, else empty.
pub open spec fn scheme_author(m: Map<Seq<char>, Seq<char>>) -> Seq<char> {
    if m.contains_key("author"@) {
        m["author"@]
    } else {
        Seq::empty()
    }
}

/// `i` is the first required slot that is missing or invalid.
pub open spec fn is_first_bad_slot(m: Map<Seq<char>, Seq<char>>, i: int) -> bool {
    &&& 0 <= i < required_slots(m)
    &&& normalized_slot(m, i) is None
    &&& forall|j: int| 0 <= j < i ==> #[trigger] normalized_slot(m, j) is Some
}

/// Errors from building a [`Theme`] out of scheme text.
#[derive(Debug, PartialEq, Eq)]
pub enum ThemeError {
    /// The scheme text could not be read.
    Parse(Base24Error),
    /// A required slot is absent; holds its key.
    MissingSlot(String),
    /// A required slot is not a hex color; holds its key and the reason.
    InvalidSlot(String, HexColorError),
}

/// `e` is the error reported for bad slot `i` of `m`.
pub open spec fn slot_error(m: Map<Seq<char>, Seq<char>>, i: int, e: ThemeError) -> bool {
    if m.contains_key(slot_key(i)) {
        e matches ThemeError::InvalidSlot(k, he) && k@ == slot_key(i) && (if hex_bytes(
            m[slot_key(i)],
        ).len() == 6 {
            he is InvalidHex
        } else {
            he == HexColorError::InvalidLength(hex_bytes(m[slot_key(i)]).len() as usize)
        })
    } else {
        e matches ThemeError::MissingSlot(k) && k@ == slot_key(i)
    }
}

/// The text view of a map of strings.
pub open spec fn text_map(m: Map<Seq<char>, String>) -> Map<Seq<char>, Seq<char>> {
    m.map_values(|v: String| v@)
}

/// Looks up and normalizes slot `i`.
fn lookup_slot(slots: &RawSlots, i: usize) -> (r: Result<String, ThemeError>)
    requires
        i < 24,
    ensures
        r is Ok <==> normalized_slot(text_map(slots@), i as int) is Some,
        r matches Ok(v) ==> normalized_slot(text_map(slots@), i as int) == Some(v@),
        r matches Err(e) ==> slot_error(text_map(slots@), i as int, e),
{
    let key = slot_key_str(i);
    let ghost m = text_map(slots@);
    match slots.get(key) {
        None => Err(ThemeError::MissingSlot(String::from_str(key))),
        Some(raw) => {
            assert(m[key@] == raw@);
            match normalize_hex(raw.as_str()) {
                Ok(v) => Ok(v),
                Err(e) => Err(ThemeError::InvalidSlot(String::from_str(key), e)),
            }
        },
    }
}

/// Looks up an optional text entry.
fn lookup_text(slots: &RawSlots, key: &str) -> (r: Option<String>)
    ensures
        r is Some <==> text_map(slots@).contains_key(key@),
        r matches Some(v) ==> v@ == text_map(slots@)[key@],
{
    match slots.get(key) {
        None => None,
        Some(v) => Some(v.clone()),
    }
}

impl Theme {
    /// Build a `Theme` from a parsed scheme map (e.g. from [`parse_base24`]).
    ///
    /// Slots base00–base0f are required; base10–base17 are required when the
    /// scheme has `base10`, and otherwise fall back to their base16
    /// equivalents. Each slot is normalized with [`normalize_hex`]; the first
    /// missing or invalid slot is reported. The name is `scheme` (else `name`,
    /// else `"Imported Theme"`) and the author `author` (else empty).
    pub fn from_raw_slots(slots: &RawSlots) -> (r: Result<Theme, ThemeError>)
        ensures
            r is Ok <==> slots_ok(text_map(slots@)),
            r matches Ok(t) ==> {
                &&& t.base24.values() == resolved_slots(text_map(slots@))
                &&& t.meta.name@ == scheme_name(text_map(slots@))
                &&& t.meta.author@ == scheme_author(text_map(slots@))
                &&& t.is_derived()
            },
            r matches Err(e) ==> exists|i: int|
                is_first_bad_slot(text_map(slots@), i) && slot_error(text_map(slots@), i, e),
    {
        let ghost m = text_map(slots@);
        let is_base24 = slots.contains_key("base10");
        let count: usize = if is_base24 {
            24
        } else {
            16
        };
        assert(count == required_slots(m));
        let mut vals: Vec<String> = Vec::new();
        for i in 0..count
            invariant
                count == required_slots(m),
                m == text_map(slots@),
                vals.len() == i,
                forall|j: int| 0 <= j < i ==> #[trigger] normalized_slot(m, j) == Some(vals[j]@),
        {
            match lookup_slot(slots, i) {
                Ok(v) => vals.push(v),
                Err(e) => {
                    assert(is_first_bad_slot(m, i as int)) by {
                        assert forall|j: int| 0 <= j < i implies #[trigger] normalized_slot(m, j) is Some by {
                            assert(normalized_slot(m, j) == Some(vals[j]@));
                        }
                    }
                    return Err(e);
                },
            }
        }
        if !is_base24 {
            let v0 = vals[0].clone();
            let v1 = vals[0].clone();
            let v2 = vals[8].clone();
            let v3 = vals[10].clone();
            let v4 = vals[11].clone();
            let v5 = vals[12].clone();
            let v6 = vals[13].clone();
            let v7 = vals[14].clone();
            vals.push(v0);
            vals.push(v1);
            vals.push(v2);
            vals.push(v3);
            vals.push(v4);
            vals.push(v5);
            vals.push(v6);
            vals.push(v7);
        }
        assert(vals.len() == 24);
        assert forall|j: int| 0 <= j < 24 implies #[trigger] vals[j]@ == resolved_slot(m, j) by {
            if j >= count {
                assert(normalized_slot(m, fallback_slot(j)) == Some(vals[fallback_slot(j)]@));
            } else {
                assert(normalized_slot(m, j) == Some(vals[j]@));
            }
        }
        assert(slots_ok(m)) by {
            assert forall|j: int| 0 <= j < required_slots(m) implies #[trigger] normalized_slot(m, j) is Some by {
                assert(normalized_slot(m, j) == Some(vals[j]@));
            }
        }
        let raw = Base24Slots {
            base00: vals[0].clone(),
            base01: vals[1].clone(),
            base02: vals[2].clone(),
            base03: vals[3].clone(),
            base04: vals[4].clone(),
            base05: vals[5].clone(),
            base06: vals[6].clone(),
            base07: vals[7].clone(),
            base08: vals[8].clone(),
            base09: vals[9].clone(),
            base0a: vals[10].clone(),
            base0b: vals[11].clone(),
            base0c: vals[12].clone(),
            base0d: vals[13].clone(),
            base0e: vals[14].clone(),
            base0f: vals[15].clone(),
            base10: vals[16].clone(),
            base11: vals[17].clone(),
            base12: vals[18].clone(),
            base13: vals[19].clone(),
            base14: vals[20].clone(),
            base15: vals[21].clone(),
            base16: vals[22].clone(),
            base17: vals[23].clone(),
        };
        proof {
            assert(normalized_slot(m, 0) == Some(vals[0]@));
            assert(normalized_slot(m, 7) == Some(vals[7]@));
            lemma_normalized(m[slot_key(0)]);
            lemma_normalized(m[slot_key(7)]);
            assert(raw.values() =~= resolved_slots(m));
        }
        let name = match lookup_text(slots, "scheme") {
            Some(n) => n,
            None => match lookup_text(slots, "name") {
                Some(n) => n,
                None => String::from_str("Imported Theme"),
            },
        };
        let author = match lookup_text(slots, "author") {
            Some(a) => a,
            None => String::new(),
        };
        let mut theme = Theme::from_base24_slots(raw);
        theme.meta.name = name;
        theme.meta.author = author;
        Ok(theme)
    }
}

impl Theme {
    /// Parse a base24 YAML string and construct a `Theme`.
    ///
    /// Accepts the flat `key: "value"` YAML subset used by base16/24 scheme
    /// files (see [`parse_base24`]) and builds the theme as
    /// [`Theme::from_raw_slots`] does.
    pub fn from_base24_str(src: &str) -> (r: Result<Theme, ThemeError>)
        ensures
            r is Ok <==> slots_ok(scheme_map(src@)),
            r matches Ok(t) ==> {
                &&& t.base24.values() == resolved_slots(scheme_map(src@))
                &&& t.meta.name@ == scheme_name(scheme_map(src@))
                &&& t.meta.author@ == scheme_author(scheme_map(src@))
                &&& t.is_derived()
            },
            r matches Err(e) ==> exists|i: int|
                is_first_bad_slot(scheme_map(src@), i) && slot_error(scheme_map(src@), i, e),
    {
        proof {
            vstd::utf8::encode_utf8_valid_utf8(src@);
            lemma_lines_valid(src.spec_bytes());
        }
        match parse_base24(src.as_bytes()) {
            Err(e) => Err(ThemeError::Parse(e)),
            Ok(slots) => {
                proof {
                    lemma_same_entries(slots@, scheme_map(src@));
                }
                Self::from_raw_slots(&slots)
            },
        }
    }
}


/// The key that [`Theme::to_base24_str`] writes for slot `i`: `"base00"` …
/// `"base0F"` … `"base17"` (hex digits in upper case).
pub open spec fn out_key(i: int) -> Seq<char> {
    if i == 0 {
        "base00"@
    } else if i == 1 {
        "base01"@
    } else if i == 2 {
        "base02"@
    } else if i == 3 {
        "base03"@
    } else if i == 4 {
        "base04"@
    } else if i == 5 {
        "base05"@
    } else if i == 6 {
        "base06"@
    } else if i == 7 {
        "base07"@
    } else if i == 8 {
        "base08"@
    } else if i == 9 {
        "base09"@
    } else if i == 10 {
        "base0A"@
    } else if i == 11 {
        "base0B"@
    } else if i == 12 {
        "base0C"@
    } else if i == 13 {
        "base0D"@
    } else if i == 14 {
        "base0E"@
    } else if i == 15 {
        "base0F"@
    } else if i == 16 {
        "base10"@
    } else if i == 17 {
        "base11"@
    } else if i == 18 {
        "base12"@
    } else if i == 19 {
        "base13"@
    } else if i == 20 {
        "base14"@
    } else if i == 21 {
        "base15"@
    } else if i == 22 {
        "base16"@
    } else {
        "base17"@
    }
}

fn out_key_str(i: usize) -> (k: &'static str)
    requires
        i < 24,
    ensures
        k@ == out_key(i as int),
{
    if i == 0 {
        "base00"
    } else if i == 1 {
        "base01"
    } else if i == 2 {
        "base02"
    } else if i == 3 {
        "base03"
    } else if i == 4 {
        "base04"
    } else if i == 5 {
        "base05"
    } else if i == 6 {
        "base06"
    } else if i == 7 {
        "base07"
    } else if i == 8 {
        "base08"
    } else if i == 9 {
        "base09"
    } else if i == 10 {
        "base0A"
    } else if i == 11 {
        "base0B"
    } else if i == 12 {
        "base0C"
    } else if i == 13 {
        "base0D"
    } else if i == 14 {
        "base0E"
    } else if i == 15 {
        "base0F"
    } else if i == 16 {
        "base10"
    } else if i == 17 {
        "base11"
    } else if i == 18 {
        "base12"
    } else if i == 19 {
        "base13"
    } else if i == 20 {
        "base14"
    } else if i == 21 {
        "base15"
    } else if i == 22 {
        "base16"
    } else {
        "base17"
    }
}

impl Base24Slots {
    /// Slot `i`.
    pub fn slot(&self, i: usize) -> (r: &String)
        requires
            i < 24,
        ensures
            r@ == self.values()[i as int],
    {
        if i == 0 {
            &self.base00
        } else if i == 1 {
            &self.base01
        } else if i == 2 {
            &self.base02
        } else if i == 3 {
            &self.base03
        } else if i == 4 {
            &self.base04
        } else if i == 5 {
            &self.base05
        } else if i == 6 {
            &self.base06
        } else if i == 7 {
            &self.base07
        } else if i == 8 {
            &self.base08
        } else if i == 9 {
            &self.base09
        } else if i == 10 {
            &self.base0a
        } else if i == 11 {
            &self.base0b
        } else if i == 12 {
            &self.base0c
        } else if i == 13 {
            &self.base0d
        } else if i == 14 {
            &self.base0e
        } else if i == 15 {
            &self.base0f
        } else if i == 16 {
            &self.base10
        } else if i == 17 {
            &self.base11
        } else if i == 18 {
            &self.base12
        } else if i == 19 {
            &self.base13
        } else if i == 20 {
            &self.base14
        } else if i == 21 {
            &self.base15
        } else if i == 22 {
            &self.base16
        } else {
            &self.base17
        }
    }
}

/// How a slot value is written: without leading `#`s, lower-cased.
pub open spec fn slot_text(v: Seq<char>) -> Seq<char> {
    lowercase(strip_hashes(v))
}

/// A `key: "value"` line, without its line break.
pub open spec fn entry_line(key: Seq<char>, value: Seq<char>) -> Seq<char> {
    key + ": \""@ + value + "\""@
}

/// The lines `ls`, each followed by a line break.
pub open spec fn joined(ls: Seq<Seq<char>>) -> Seq<char>
    decreases ls.len(),
{
    if ls.len() == 0 {
        Seq::empty()
    } else {
        joined(ls.drop_last()) + ls.last() + "\n"@
    }
}

/// The `variant` value written for a theme.
pub open spec fn variant_text(dark: bool) -> Seq<char> {
    if dark {
        "dark"@
    } else {
        "light"@
    }
}

/// The lines written before the slots: scheme, author and variant.
pub open spec fn header_lines(name: Seq<char>, author: Seq<char>, dark: bool) -> Seq<Seq<char>> {
    seq![
        entry_line("scheme"@, name),
        entry_line("author"@, author),
        entry_line("variant"@, variant_text(dark)),
    ]
}

/// The lines written for the slots `vs`, slot `i` under key [`out_key`]`(i)`.
pub open spec fn slot_entry_lines(vs: Seq<Seq<char>>) -> Seq<Seq<char>> {
    Seq::new(vs.len(), |i: int| entry_line(out_key(i), slot_text(vs[i])))
}

/// The base24 YAML text of a theme with the given metadata and slots.
pub open spec fn base24_text(
    name: Seq<char>,
    author: Seq<char>,
    dark: bool,
    vs: Seq<Seq<char>>,
) -> Seq<char> {
    joined(header_lines(name, author, dark) + slot_entry_lines(vs))
}

/// Appends `key: "value"` and a line break to `out`.
fn push_entry(out: &mut String, key: &str, value: &str)
    ensures
        final(out)@ == old(out)@ + entry_line(key@, value@) + "\n"@,
{
    out.append(key);
    out.append(": \"");
    out.append(value);
    out.append("\"");
    out.append("\n");
    assert(final(out)@ =~= old(out)@ + entry_line(key@, value@) + "\n"@);
}

impl Theme {
    /// Serialize this theme to a base24 YAML string.
    ///
    /// The output is a flat `key: "value"` file compatible with the base24
    /// format. Slot values are written without a leading `#`, lower-cased.
    pub fn to_base24_str(&self) -> (r: String)
        ensures
            r@ == base24_text(
                self.meta.name@,
                self.meta.author@,
                self.meta.dark,
                self.base24.values(),
            ),
    {
        let mut out = String::new();
        let variant = if self.meta.dark {
            "dark"
        } else {
            "light"
        };
        push_entry(&mut out, "scheme", self.meta.name.as_str());
        push_entry(&mut out, "author", self.meta.author.as_str());
        push_entry(&mut out, "variant", variant);
        let ghost hs = header_lines(self.meta.name@, self.meta.author@, self.meta.dark);
        let ghost ls = slot_entry_lines(self.base24.values());
        proof {
            reveal_with_fuel(joined, 4);
            assert(hs.drop_last().drop_last().drop_last() =~= Seq::<Seq<char>>::empty());
            assert(out@ =~= joined(hs));
            assert(hs + ls.take(0) =~= hs);
        }
        for i in 0..24
            invariant
                ls == slot_entry_lines(self.base24.values()),
                ls.len() == 24,
                out@ == joined(hs + ls.take(i as int)),
        {
            let v = self.base24.slot(i);
            let text = to_lowercase(trim_hashes(v.as_str()));
            push_entry(&mut out, out_key_str(i), text.as_str());
            proof {
                assert((hs + ls.take(i + 1)).drop_last() =~= hs + ls.take(i as int));
                assert((hs + ls.take(i + 1)).last() == ls[i as int]);
            }
        }
        proof {
            assert(ls.take(24) =~= ls);
        }
        out
    }
}

/// A normalized color is `#` followed by six lower-case ASCII hex characters,
/// and normalizing it again (with or without its `#`) gives it back.
pub proof fn lemma_normalized(v: Seq<char>)
    requires
        spec_normalize(v) is Some,
    ensures
        ({
            let o = spec_normalize(v)->0;
            &&& o.len() == 7
            &&& o[0] == '#'
            &&& is_ascii_chars(o)
            &&& strip_hashes(o) == o.drop_first()
            &&& ascii_lower(o.drop_first()) == o.drop_first()
            &&& spec_normalize(o) == Some(o)
            &&& spec_normalize(o.drop_first()) == Some(o)
        }),
{
    let h = strip_hashes(v);
    let l = ascii_lower(h);
    let o = seq!['#'] + l;
    lemma_strip_hashes_first(v);
    lemma_radix16_ascii_value(h);
    lemma_encode_len(h);
    lemma_ascii_lower_props(h);
    assert(o.drop_first() =~= l);
    assert(strip_hashes(o) == strip_hashes(l));
    assert(strip_hashes(l) == l);
    assert(is_ascii_chars(o)) by {
        assert forall|i| 0 <= i < o.len() implies '\0' <= #[trigger] o[i] <= '\u{7f}' by {
            if i > 0 {
                assert(o[i] == l[i - 1]);
            }
        }
    }
    lemma_encode_len(l);
    lemma_ascii_lower_props(l);
    assert(strip_hashes(l) == l);
}

/// The file name for a theme named `name`: its kebab-case slug followed by
/// `.yaml` (see [`slug_file_name`]).
pub open spec fn file_name_of(name: Seq<char>) -> Seq<char> {
    slug_file_name(name, ".yaml"@)
}

impl Theme {
    /// The kebab-case slug of the theme name (`"Tokyo Night"` gives `"tokyo-night"`).
    pub fn name_slug(&self) -> (r: String)
        ensures
            r@ == kebab_case(self.meta.name@),
    {
        to_kebab_case(self.meta.name.as_str())
    }

    /// The canonical file name for the theme (`"Tokyo Night"` gives
    /// `"tokyo-night.yaml"`).
    pub fn to_filename(&self) -> (r: String)
        ensures
            r@ == file_name_of(self.meta.name@),
    {
        slug_file_name_str(self.meta.name.as_str(), ".yaml")
    }
}

/// `v` names base24 slot `i`: it is `base24.` and the slot's key, in any
/// ASCII case.
pub open spec fn slot_ref(v: Seq<char>, i: int) -> bool {
    &&& v.len() >= 7
    &&& ascii_lower(v.take(7)) == "base24."@
    &&& ascii_lower(v.skip(7)) == ascii_lower(slot_key(i))
}

/// `i` is the first slot that `v` names.
pub open spec fn first_slot_ref(v: Seq<char>, i: int) -> bool {
    &&& 0 <= i < 24
    &&& slot_ref(v, i)
    &&& forall|j: int| 0 <= j < i ==> !slot_ref(v, j)
}

/// Two slots that are both the first one named by `v` are the same slot.
pub proof fn lemma_first_slot_ref_unique(v: Seq<char>, i: int, j: int)
    requires
        first_slot_ref(v, i),
        first_slot_ref(v, j),
    ensures
        i == j,
{
}

/// The color that the reference `v` stands for, given the slot values
/// `slots`: a value starting with `#` stands for itself, and
/// `base24.<slot>` (any ASCII case) for the first slot it names.
pub open spec fn ref_color(slots: Seq<Seq<char>>, v: Seq<char>) -> Option<Seq<char>> {
    if v.len() > 0 && v[0] == '#' {
        Some(v)
    } else if exists|i: int| first_slot_ref(v, i) {
        Some(slots[choose|i: int| first_slot_ref(v, i)])
    } else {
        None
    }
}

impl Theme {
    /// The color that a color reference stands for: a value starting with
    /// `#` stands for itself, and `base24.<slot>` (any ASCII case, as in
    /// `base24.BASE0E`) for that slot's color. `None` for anything else.
    pub fn resolve(&self, value: &str) -> (r: Option<String>)
        ensures
            match r {
                Some(s) => ref_color(self.base24.values(), value@) == Some(s@),
                None => ref_color(self.base24.values(), value@) is None,
            },
    {
        let n = value.unicode_len();
        if n > 0 && value.get_char(0) == '#' {
            return Some(String::from_str(value));
        }
        if n < 7 {
            assert forall|k: int| !first_slot_ref(value@, k) by {}
            return None;
        }
        let prefix = value.substring_char(0, 7);
        let rest = value.substring_char(7, n);
        proof {
            reveal_strlit("base24.");
            assert(ascii_lower("base24."@) =~= "base24."@);
            assert(prefix@ =~= value@.take(7));
            assert(rest@ =~= value@.skip(7));
        }
        if !eq_ignore_ascii_case(prefix, "base24.") {
            assert forall|k: int| !first_slot_ref(value@, k) by {}
            return None;
        }
        for i in 0..24
            invariant
                rest@ == value@.skip(7),
                value@.len() >= 7,
                ascii_lower(value@.take(7)) == "base24."@,
                !(value@.len() > 0 && value@[0] == '#'),
                forall|j: int| 0 <= j < i ==> !slot_ref(value@, j),
        {
            if eq_ignore_ascii_case(rest, slot_key_str(i)) {
                let s = self.base24.slot(i).clone();
                proof {
                    assert(slot_ref(value@, i as int));
                    assert(first_slot_ref(value@, i as int));
                    let c = choose|k: int| first_slot_ref(value@, k);
                    lemma_first_slot_ref_unique(value@, c, i as int);
                }
                return Some(s);
            }
        }
        proof {
            assert forall|k: int| !first_slot_ref(value@, k) by {
                if first_slot_ref(value@, k) {
                    assert(!slot_ref(value@, k));
                }
            }
        }
        None
    }
}

} // verus!
