//! Rendering a theme as the color configuration of other programs: kitty,
//! alacritty, vim, helix, starship, tmux and base16 as text; VS Code as
//! the name/value pairs of its color theme; iTerm2 as a property list.
use vstd::prelude::*;
use crate::hex::{hex_to_rgb, spec_rgb};
use crate::order::texts;
use crate::theme::{Ansi, Theme, ref_color};
use crate::tui::ansi_texts;
use vstd::string::StringExecFns;

verus! {

/// Why a theme could not be exported.
#[derive(Debug, Clone, PartialEq, Eq)]
pub enum ExportError {
    /// A color reference that is neither a `#` color nor a base24 slot.
    Unresolved(String),
    /// A color that is not a `#RRGGBB` hex color.
    InvalidHex(String),
    /// A format name that is not one of the known formats.
    UnknownFormat(String),
}

// ---------------------------------------------------------------------------
// Color references
// ---------------------------------------------------------------------------

/// Every reference of `refs` stands for a color of `t`.
pub open spec fn refs_resolve(t: Theme, refs: Seq<Seq<char>>) -> bool {
    forall|i: int| 0 <= i < refs.len() ==> #[trigger] ref_color(t.base24.values(), refs[i]) is Some
}

/// The colors that the references `refs` stand for in `t`.
pub open spec fn resolved(t: Theme, refs: Seq<Seq<char>>) -> Seq<Seq<char>> {
    Seq::new(refs.len(), |i: int| ref_color(t.base24.values(), refs[i])->0)
}

/// `k` is the first reference of `refs` that stands for no color of `t`.
pub open spec fn first_unresolved(t: Theme, refs: Seq<Seq<char>>, k: int) -> bool {
    &&& 0 <= k < refs.len()
    &&& ref_color(t.base24.values(), refs[k]) is None
    &&& forall|j: int| 0 <= j < k ==> #[trigger] ref_color(t.base24.values(), refs[j]) is Some
}

/// `e` reports the first reference of `refs` that stands for no color of `t`.
pub open spec fn unresolved_error(t: Theme, refs: Seq<Seq<char>>, e: ExportError) -> bool {
    exists|k: int|
        first_unresolved(t, refs, k) && (e matches ExportError::Unresolved(x) && x@ == refs[k])
}

/// Resolves each reference of `refs`, in order, stopping at the first one
/// that stands for no color.
fn resolve_refs(theme: &Theme, refs: &Vec<String>) -> (r: Result<Vec<String>, ExportError>)
    ensures
        r is Ok <==> refs_resolve(*theme, texts(refs@)),
        r matches Ok(cs) ==> texts(cs@) == resolved(*theme, texts(refs@)),
        r matches Ok(cs) ==> cs@.len() == refs@.len() && forall|i: int| 0 <= i < cs@.len()
            ==> #[trigger] cs@[i]@ == resolved(*theme, texts(refs@))[i],
        r matches Err(e) ==> unresolved_error(*theme, texts(refs@), e),
{
    let ghost rs = texts(refs@);
    let mut cs: Vec<String> = Vec::new();
    for i in 0..refs.len()
        invariant
            rs == texts(refs@),
            texts(cs@) == resolved(*theme, rs).take(i as int),
            forall|j: int| 0 <= j < i ==> #[trigger] ref_color(theme.base24.values(), rs[j]) is Some,
    {
        assert(rs[i as int] == refs@[i as int]@);
        match theme.resolve(refs[i].as_str()) {
            Some(c) => {
                let ghost old_cs = cs@;
                assert(texts(old_cs).len() == old_cs.len());
                cs.push(c);
                proof {
                    assert(texts(cs@).len() == cs@.len());
                    assert(cs@ == old_cs.push(c));
                    assert(texts(cs@)[i as int] == c@);
                    assert(texts(cs@) =~= resolved(*theme, rs).take(i + 1));
                }
            },
            None => {
                let e = ExportError::Unresolved(refs[i].clone());
                proof {
                    assert(first_unresolved(*theme, rs, i as int));
                    assert(!refs_resolve(*theme, rs));
                }
                return Err(e);
            },
        }
    }
    proof {
        assert(texts(cs@) =~= resolved(*theme, rs));
        assert(texts(cs@).len() == cs@.len());
        assert forall|i: int| 0 <= i < cs@.len() implies #[trigger] cs@[i]@ == resolved(*theme, rs)[i] by {
            assert(texts(cs@)[i] == cs@[i]@);
        }
    }
    Ok(cs)
}

// ---------------------------------------------------------------------------
// Lines
// ---------------------------------------------------------------------------

/// One line: `open`, `key`, `mid`, `val` and `close`, then a line break.
pub open spec fn kv_line(
    open: Seq<char>,
    key: Seq<char>,
    mid: Seq<char>,
    val: Seq<char>,
    close: Seq<char>,
) -> Seq<char> {
    open + key + mid + val + close + "\n"@
}

/// Appends [`kv_line`] to `out`.
fn push_kv(out: &mut String, open: &str, key: &str, mid: &str, val: &str, close: &str)
    ensures
        final(out)@ == old(out)@ + kv_line(open@, key@, mid@, val@, close@),
{
    out.append(open);
    out.append(key);
    out.append(mid);
    out.append(val);
    out.append(close);
    out.append("\n");
    assert(final(out)@ =~= old(out)@ + kv_line(open@, key@, mid@, val@, close@));
}

/// Appends `text` to `out`.
fn push_text(out: &mut String, text: &str)
    ensures
        final(out)@ == old(out)@ + text@,
{
    out.append(text);
}

// ---------------------------------------------------------------------------
// ANSI color lines
// ---------------------------------------------------------------------------

/// How the sixteen ANSI colors are named in an output format.
#[derive(Debug, Clone, Copy, PartialEq, Eq)]
pub enum AnsiKeys {
    /// `color0` … `color15`.
    Kitty,
    /// `0` … `15`.
    Index,
    /// `black` … `white`, the bright ones under the same names.
    Names,
    /// `black` … `white`, then `bright-black` … `bright-white`.
    Helix,
    /// `black` … `white`, then `bright_black` … `bright_white`.
    Starship,
    /// `terminal.ansiBlack` … `terminal.ansiBrightWhite`.
    Vscode,
    /// `Ansi 0 Color` … `Ansi 15 Color`.
    Iterm,
}

/// The name of the color `i` (0–7) of a row of eight ANSI colors.
pub open spec fn base_name(i: int) -> Seq<char> {
    if i == 0 { "black"@ } else if i == 1 { "red"@ } else if i == 2 { "green"@ }
    else if i == 3 { "yellow"@ } else if i == 4 { "blue"@ } else if i == 5 { "magenta"@ }
    else if i == 6 { "cyan"@ } else { "white"@ }
}

/// [`base_name`] with a capital letter.
pub open spec fn cap_name(i: int) -> Seq<char> {
    if i == 0 { "Black"@ } else if i == 1 { "Red"@ } else if i == 2 { "Green"@ }
    else if i == 3 { "Yellow"@ } else if i == 4 { "Blue"@ } else if i == 5 { "Magenta"@ }
    else if i == 6 { "Cyan"@ } else { "White"@ }
}

/// The decimal digits of `i` (0–15).
pub open spec fn index_text(i: int) -> Seq<char> {
    if i == 0 { "0"@ } else if i == 1 { "1"@ } else if i == 2 { "2"@ } else if i == 3 { "3"@ }
    else if i == 4 { "4"@ } else if i == 5 { "5"@ } else if i == 6 { "6"@ } else if i == 7 { "7"@ }
    else if i == 8 { "8"@ } else if i == 9 { "9"@ } else if i == 10 { "10"@ } else if i == 11 { "11"@ }
    else if i == 12 { "12"@ } else if i == 13 { "13"@ } else if i == 14 { "14"@ } else { "15"@ }
}

/// The name of ANSI color `i` (0–15) in the naming `keys`.
pub open spec fn ansi_key(keys: AnsiKeys, i: int) -> Seq<char> {
    match keys {
        AnsiKeys::Kitty => "color"@ + index_text(i),
        AnsiKeys::Index => index_text(i),
        AnsiKeys::Names => base_name(i % 8),
        AnsiKeys::Helix => if i < 8 { base_name(i) } else { "bright-"@ + base_name(i - 8) },
        AnsiKeys::Starship => if i < 8 { base_name(i) } else { "bright_"@ + base_name(i - 8) },
        AnsiKeys::Vscode => if i < 8 {
            "terminal.ansi"@ + cap_name(i)
        } else {
            "terminal.ansiBright"@ + cap_name(i - 8)
        },
        AnsiKeys::Iterm => "Ansi "@ + index_text(i) + " Color"@,
    }
}

fn base_name_str(i: usize) -> (r: &'static str)
    requires
        i < 8,
    ensures
        r@ == base_name(i as int),
{
    if i == 0 { "black" } else if i == 1 { "red" } else if i == 2 { "green" }
    else if i == 3 { "yellow" } else if i == 4 { "blue" } else if i == 5 { "magenta" }
    else if i == 6 { "cyan" } else { "white" }
}

fn cap_name_str(i: usize) -> (r: &'static str)
    requires
        i < 8,
    ensures
        r@ == cap_name(i as int),
{
    if i == 0 { "Black" } else if i == 1 { "Red" } else if i == 2 { "Green" }
    else if i == 3 { "Yellow" } else if i == 4 { "Blue" } else if i == 5 { "Magenta" }
    else if i == 6 { "Cyan" } else { "White" }
}

fn index_str(i: usize) -> (r: &'static str)
    requires
        i < 16,
    ensures
        r@ == index_text(i as int),
{
    if i == 0 { "0" } else if i == 1 { "1" } else if i == 2 { "2" } else if i == 3 { "3" }
    else if i == 4 { "4" } else if i == 5 { "5" } else if i == 6 { "6" } else if i == 7 { "7" }
    else if i == 8 { "8" } else if i == 9 { "9" } else if i == 10 { "10" } else if i == 11 { "11" }
    else if i == 12 { "12" } else if i == 13 { "13" } else if i == 14 { "14" } else { "15" }
}

/// `a` followed by `b`.
fn concat(a: &str, b: &str) -> (r: String)
    ensures
        r@ == a@ + b@,
{
    let mut s = String::from_str(a);
    s.append(b);
    s
}

/// The name of ANSI color `i` in the naming `keys`.
pub fn ansi_key_string(keys: AnsiKeys, i: usize) -> (r: String)
    requires
        i < 16,
    ensures
        r@ == ansi_key(keys, i as int),
{
    match keys {
        AnsiKeys::Kitty => concat("color", index_str(i)),
        AnsiKeys::Index => String::from_str(index_str(i)),
        AnsiKeys::Names => String::from_str(base_name_str(i % 8)),
        AnsiKeys::Helix => if i < 8 {
            String::from_str(base_name_str(i))
        } else {
            concat("bright-", base_name_str(i - 8))
        },
        AnsiKeys::Starship => if i < 8 {
            String::from_str(base_name_str(i))
        } else {
            concat("bright_", base_name_str(i - 8))
        },
        AnsiKeys::Vscode => if i < 8 {
            concat("terminal.ansi", cap_name_str(i))
        } else {
            concat("terminal.ansiBright", cap_name_str(i - 8))
        },
        AnsiKeys::Iterm => {
            let s = concat("Ansi ", index_str(i));
            let r = concat(s.as_str(), " Color");
            proof {
                assert(r@ =~= ansi_key(keys, i as int));
            }
            r
        },
    }
}

/// ANSI color `i` (0–15) of `a`, black first and bright white last.
pub fn ansi_color(a: &Ansi, i: usize) -> (r: &String)
    requires
        i < 16,
    ensures
        r@ == ansi_texts(*a)[i as int],
{
    if i == 0 { &a.black } else if i == 1 { &a.red } else if i == 2 { &a.green }
    else if i == 3 { &a.yellow } else if i == 4 { &a.blue } else if i == 5 { &a.magenta }
    else if i == 6 { &a.cyan } else if i == 7 { &a.white } else if i == 8 { &a.bright_black }
    else if i == 9 { &a.bright_red } else if i == 10 { &a.bright_green }
    else if i == 11 { &a.bright_yellow } else if i == 12 { &a.bright_blue }
    else if i == 13 { &a.bright_magenta } else if i == 14 { &a.bright_cyan }
    else { &a.bright_white }
}

/// The lines for ANSI colors `from` up to (not including) `to` of `colors`,
/// each a [`kv_line`] with the color's name in the naming `keys`.
pub open spec fn ansi_lines(
    colors: Seq<Seq<char>>,
    keys: AnsiKeys,
    from: int,
    to: int,
    open: Seq<char>,
    mid: Seq<char>,
    close: Seq<char>,
) -> Seq<char>
    decreases to - from,
{
    if to <= from {
        Seq::empty()
    } else {
        ansi_lines(colors, keys, from, to - 1, open, mid, close)
            + kv_line(open, ansi_key(keys, to - 1), mid, colors[to - 1], close)
    }
}

/// Appends [`ansi_lines`] for the ANSI colors of `a` to `out`.
fn push_ansi_lines(
    out: &mut String,
    a: &Ansi,
    keys: AnsiKeys,
    from: usize,
    to: usize,
    open: &str,
    mid: &str,
    close: &str,
)
    requires
        from <= to <= 16,
    ensures
        final(out)@ == old(out)@ + ansi_lines(ansi_texts(*a), keys, from as int, to as int, open@, mid@, close@),
{
    let ghost start = out@;
    let ghost cs = ansi_texts(*a);
    for i in from..to
        invariant
            from <= to <= 16,
            cs == ansi_texts(*a),
            out@ == start + ansi_lines(cs, keys, from as int, i as int, open@, mid@, close@),
    {
        let key = ansi_key_string(keys, i);
        push_kv(out, open, key.as_str(), mid, ansi_color(a, i).as_str(), close);
        proof {
            assert(out@ =~= start + ansi_lines(cs, keys, from as int, i + 1, open@, mid@, close@));
        }
    }
}

// ---------------------------------------------------------------------------
// kitty
// ---------------------------------------------------------------------------

/// The references that a kitty configuration resolves: foreground,
/// background, cursor, selection background and selection foreground.
pub open spec fn kitty_refs(t: Theme) -> Seq<Seq<char>> {
    seq![t.ui.fg.primary@, t.ui.bg.primary@, t.ui.cursor.primary@, t.ui.selection.bg@, t.ui.selection.fg@]
}

/// The kitty configuration for a theme named `name` with ANSI colors
/// `ansi` and the resolved [`kitty_refs`] `c`.
pub open spec fn kitty_text(name: Seq<char>, ansi: Seq<Seq<char>>, c: Seq<Seq<char>>) -> Seq<char> {
    "# "@ + name + "\n"@ + "# Generated from TCA theme\n\n"@
        + ansi_lines(ansi, AnsiKeys::Kitty, 0, 16, ""@, " "@, ""@)
        + "\n# UI Colors\n"@
        + kv_line(""@, "foreground"@, " "@, c[0], ""@)
        + kv_line(""@, "background"@, " "@, c[1], ""@)
        + kv_line(""@, "cursor"@, " "@, c[2], ""@)
        + kv_line(""@, "selection_background"@, " "@, c[3], ""@)
        + kv_line(""@, "selection_foreground"@, " "@, c[4], ""@)
}

/// Exports `theme` as a kitty color configuration.
#[verifier::spinoff_prover]
pub fn export_kitty(theme: &Theme) -> (r: Result<String, ExportError>)
    ensures
        r is Ok <==> refs_resolve(*theme, kitty_refs(*theme)),
        r matches Ok(s) ==> s@ == kitty_text(
            theme.meta.name@,
            ansi_texts(theme.ansi),
            resolved(*theme, kitty_refs(*theme)),
        ),
        r matches Err(e) ==> unresolved_error(*theme, kitty_refs(*theme), e),
{
    let mut refs: Vec<String> = Vec::new();
    refs.push(theme.ui.fg.primary.clone());
    refs.push(theme.ui.bg.primary.clone());
    refs.push(theme.ui.cursor.primary.clone());
    refs.push(theme.ui.selection.bg.clone());
    refs.push(theme.ui.selection.fg.clone());
    assert(texts(refs@) =~= kitty_refs(*theme));
    let c = match resolve_refs(theme, &refs) {
        Ok(c) => c,
        Err(e) => return Err(e),
    };
    let ghost cv = resolved(*theme, kitty_refs(*theme));
    assert(c@[0]@ == cv[0] && c@[1]@ == cv[1] && c@[2]@ == cv[2] && c@[3]@ == cv[3] && c@[4]@ == cv[4]);
    let mut out = String::new();
    push_text(&mut out, "# ");
    push_text(&mut out, theme.meta.name.as_str());
    push_text(&mut out, "\n");
    push_text(&mut out, "# Generated from TCA theme\n\n");
    push_ansi_lines(&mut out, &theme.ansi, AnsiKeys::Kitty, 0, 16, "", " ", "");
    push_text(&mut out, "\n# UI Colors\n");
    push_kv(&mut out, "", "foreground", " ", c[0].as_str(), "");
    push_kv(&mut out, "", "background", " ", c[1].as_str(), "");
    push_kv(&mut out, "", "cursor", " ", c[2].as_str(), "");
    push_kv(&mut out, "", "selection_background", " ", c[3].as_str(), "");
    push_kv(&mut out, "", "selection_foreground", " ", c[4].as_str(), "");
    assert(out@ =~= kitty_text(theme.meta.name@, ansi_texts(theme.ansi), cv));
    Ok(out)
}


// ---------------------------------------------------------------------------
// alacritty
// ---------------------------------------------------------------------------

/// The references that an alacritty configuration resolves: foreground and
/// background.
pub open spec fn fg_bg_refs(t: Theme) -> Seq<Seq<char>> {
    seq![t.ui.fg.primary@, t.ui.bg.primary@]
}

/// The alacritty configuration for a theme named `name` with ANSI colors
/// `ansi` and the resolved [`fg_bg_refs`] `c`.
pub open spec fn alacritty_text(name: Seq<char>, ansi: Seq<Seq<char>>, c: Seq<Seq<char>>) -> Seq<char> {
    "# "@ + name + "\n"@ + "# Generated from TCA theme\n\n"@ + "[colors.primary]\n"@
        + kv_line(""@, "foreground"@, " = '"@, c[0], "'"@)
        + kv_line(""@, "background"@, " = '"@, c[1], "'"@)
        + "\n[colors.normal]\n"@
        + ansi_lines(ansi, AnsiKeys::Names, 0, 8, ""@, " = '"@, "'"@)
        + "\n[colors.bright]\n"@
        + ansi_lines(ansi, AnsiKeys::Names, 8, 16, ""@, " = '"@, "'"@)
}

/// Exports `theme` as an alacritty color configuration.
#[verifier::spinoff_prover]
pub fn export_alacritty(theme: &Theme) -> (r: Result<String, ExportError>)
    ensures
        r is Ok <==> refs_resolve(*theme, fg_bg_refs(*theme)),
        r matches Ok(s) ==> s@ == alacritty_text(
            theme.meta.name@,
            ansi_texts(theme.ansi),
            resolved(*theme, fg_bg_refs(*theme)),
        ),
        r matches Err(e) ==> unresolved_error(*theme, fg_bg_refs(*theme), e),
{
    let mut refs: Vec<String> = Vec::new();
    refs.push(theme.ui.fg.primary.clone());
    refs.push(theme.ui.bg.primary.clone());
    assert(texts(refs@) =~= fg_bg_refs(*theme));
    let c = match resolve_refs(theme, &refs) {
        Ok(c) => c,
        Err(e) => return Err(e),
    };
    let ghost cv = resolved(*theme, fg_bg_refs(*theme));
    assert(c@[0]@ == cv[0] && c@[1]@ == cv[1]);
    let mut out = String::new();
    push_text(&mut out, "# ");
    push_text(&mut out, theme.meta.name.as_str());
    push_text(&mut out, "\n");
    push_text(&mut out, "# Generated from TCA theme\n\n");
    push_text(&mut out, "[colors.primary]\n");
    push_kv(&mut out, "", "foreground", " = '", c[0].as_str(), "'");
    push_kv(&mut out, "", "background", " = '", c[1].as_str(), "'");
    push_text(&mut out, "\n[colors.normal]\n");
    push_ansi_lines(&mut out, &theme.ansi, AnsiKeys::Names, 0, 8, "", " = '", "'");
    push_text(&mut out, "\n[colors.bright]\n");
    push_ansi_lines(&mut out, &theme.ansi, AnsiKeys::Names, 8, 16, "", " = '", "'");
    assert(out@ =~= alacritty_text(theme.meta.name@, ansi_texts(theme.ansi), cv));
    Ok(out)
}

// ---------------------------------------------------------------------------
// vim
// ---------------------------------------------------------------------------

/// `s` without its spaces.
pub open spec fn without_spaces(s: Seq<char>) -> Seq<char> {
    s.filter(|c: char| c != ' ')
}

/// `s` without its spaces.
pub fn remove_spaces(s: &str) -> (r: String)
    ensures
        r@ == without_spaces(s@),
{
    let n = s.unicode_len();
    let mut out = String::new();
    for i in 0..n
        invariant
            n == s@.len(),
            out@ == without_spaces(s@.take(i as int)),
    {
        let c = s.get_char(i);
        proof {
            let t = s@.take(i + 1);
            assert(t =~= s@.take(i as int).push(c));
            s@.take(i as int).lemma_filter_push(c, |c: char| c != ' ');
            assert(without_spaces(t) == if c != ' ' {
                without_spaces(s@.take(i as int)).push(c)
            } else {
                without_spaces(s@.take(i as int))
            });
        }
        if c != ' ' {
            let piece = s.substring_char(i, i + 1);
            out.append(piece);
            proof {
                assert(piece@ =~= seq![c]);
                assert(out@ =~= without_spaces(s@.take(i + 1)));
            }
        }
    }
    proof {
        assert(s@.take(n as int) =~= s@);
    }
    out
}

/// `dark` or `light`, as the theme is dark or not.
pub open spec fn background_word(dark: bool) -> Seq<char> {
    if dark { "dark"@ } else { "light"@ }
}

/// The references that a vim color scheme resolves: background, then
/// foreground.
pub open spec fn bg_fg_refs(t: Theme) -> Seq<Seq<char>> {
    seq![t.ui.bg.primary@, t.ui.fg.primary@]
}

/// The vim color scheme for a theme named `name`, dark or not, with ANSI
/// colors `ansi` and the resolved [`bg_fg_refs`] `c`.
pub open spec fn vim_text(name: Seq<char>, dark: bool, ansi: Seq<Seq<char>>, c: Seq<Seq<char>>) -> Seq<char> {
    "\" "@ + name + "\n"@ + "\" Generated from TCA theme\n\n"@
        + "set background="@ + background_word(dark) + "\n"@
        + "hi clear\n"@ + "if exists('syntax_on')\n"@ + "  syntax reset\n"@ + "endif\n"@
        + "let g:colors_name = '"@ + without_spaces(name) + "'\n\n"@
        + ansi_lines(ansi, AnsiKeys::Index, 0, 16, "let g:terminal_color_"@, " = '"@, "'"@)
        + "\n\" UI colors\n"@
        + kv_line("hi Normal guifg="@, c[1], " guibg="@, c[0], ""@)
}

/// Exports `theme` as a vim color scheme.
#[verifier::spinoff_prover]
pub fn export_vim(theme: &Theme) -> (r: Result<String, ExportError>)
    ensures
        r is Ok <==> refs_resolve(*theme, bg_fg_refs(*theme)),
        r matches Ok(s) ==> s@ == vim_text(
            theme.meta.name@,
            theme.meta.dark,
            ansi_texts(theme.ansi),
            resolved(*theme, bg_fg_refs(*theme)),
        ),
        r matches Err(e) ==> unresolved_error(*theme, bg_fg_refs(*theme), e),
{
    let name = remove_spaces(theme.meta.name.as_str());
    let background = if theme.meta.dark { "dark" } else { "light" };
    let mut refs: Vec<String> = Vec::new();
    refs.push(theme.ui.bg.primary.clone());
    refs.push(theme.ui.fg.primary.clone());
    assert(texts(refs@) =~= bg_fg_refs(*theme));
    let c = match resolve_refs(theme, &refs) {
        Ok(c) => c,
        Err(e) => return Err(e),
    };
    let ghost cv = resolved(*theme, bg_fg_refs(*theme));
    assert(c@[0]@ == cv[0] && c@[1]@ == cv[1]);
    let mut out = String::new();
    push_text(&mut out, "\" ");
    push_text(&mut out, theme.meta.name.as_str());
    push_text(&mut out, "\n");
    push_text(&mut out, "\" Generated from TCA theme\n\n");
    push_text(&mut out, "set background=");
    push_text(&mut out, background);
    push_text(&mut out, "\n");
    push_text(&mut out, "hi clear\n");
    push_text(&mut out, "if exists('syntax_on')\n");
    push_text(&mut out, "  syntax reset\n");
    push_text(&mut out, "endif\n");
    push_text(&mut out, "let g:colors_name = '");
    push_text(&mut out, name.as_str());
    push_text(&mut out, "'\n\n");
    push_ansi_lines(&mut out, &theme.ansi, AnsiKeys::Index, 0, 16, "let g:terminal_color_", " = '", "'");
    push_text(&mut out, "\n\" UI colors\n");
    push_kv(&mut out, "hi Normal guifg=", c[1].as_str(), " guibg=", c[0].as_str(), "");
    assert(out@ =~= vim_text(theme.meta.name@, theme.meta.dark, ansi_texts(theme.ansi), cv));
    Ok(out)
}

// ---------------------------------------------------------------------------
// helix
// ---------------------------------------------------------------------------

/// The helix theme for a theme named `name` with ANSI colors `ansi` and the
/// resolved [`bg_fg_refs`] `c`.
pub open spec fn helix_text(name: Seq<char>, ansi: Seq<Seq<char>>, c: Seq<Seq<char>>) -> Seq<char> {
    "# "@ + name + "\n"@ + "# Generated from TCA theme\n\n"@ + "[ui]\n"@
        + kv_line(""@, "background"@, " = \""@, c[0], "\""@)
        + kv_line(""@, "foreground"@, " = \""@, c[1], "\""@)
        + "\n[palette]\n"@
        + ansi_lines(ansi, AnsiKeys::Helix, 0, 16, ""@, " = \""@, "\""@)
}

/// Exports `theme` as a helix theme.
#[verifier::spinoff_prover]
pub fn export_helix(theme: &Theme) -> (r: Result<String, ExportError>)
    ensures
        r is Ok <==> refs_resolve(*theme, bg_fg_refs(*theme)),
        r matches Ok(s) ==> s@ == helix_text(
            theme.meta.name@,
            ansi_texts(theme.ansi),
            resolved(*theme, bg_fg_refs(*theme)),
        ),
        r matches Err(e) ==> unresolved_error(*theme, bg_fg_refs(*theme), e),
{
    let mut refs: Vec<String> = Vec::new();
    refs.push(theme.ui.bg.primary.clone());
    refs.push(theme.ui.fg.primary.clone());
    assert(texts(refs@) =~= bg_fg_refs(*theme));
    let c = match resolve_refs(theme, &refs) {
        Ok(c) => c,
        Err(e) => return Err(e),
    };
    let ghost cv = resolved(*theme, bg_fg_refs(*theme));
    assert(c@[0]@ == cv[0] && c@[1]@ == cv[1]);
    let mut out = String::new();
    push_text(&mut out, "# ");
    push_text(&mut out, theme.meta.name.as_str());
    push_text(&mut out, "\n");
    push_text(&mut out, "# Generated from TCA theme\n\n");
    push_text(&mut out, "[ui]\n");
    push_kv(&mut out, "", "background", " = \"", c[0].as_str(), "\"");
    push_kv(&mut out, "", "foreground", " = \"", c[1].as_str(), "\"");
    push_text(&mut out, "\n[palette]\n");
    push_ansi_lines(&mut out, &theme.ansi, AnsiKeys::Helix, 0, 16, "", " = \"", "\"");
    assert(out@ =~= helix_text(theme.meta.name@, ansi_texts(theme.ansi), cv));
    Ok(out)
}

// ---------------------------------------------------------------------------
// starship
// ---------------------------------------------------------------------------

/// The starship palette for a theme named `name` with ANSI colors `ansi`.
pub open spec fn starship_text(name: Seq<char>, ansi: Seq<Seq<char>>) -> Seq<char> {
    "# Starship configuration for "@ + name + "\n"@ + "# Generated from TCA theme\n"@
        + "# Add this to your starship.toml\n\n"@ + "[palettes.tca]\n"@
        + ansi_lines(ansi, AnsiKeys::Starship, 0, 16, ""@, " = \""@, "\""@)
        + "\n# Enable the palette\npalette = \"tca\"\n"@
}

/// Exports `theme` as a starship palette. It names the ANSI colors only,
/// so it cannot fail.
#[verifier::spinoff_prover]
pub fn export_starship(theme: &Theme) -> (r: String)
    ensures
        r@ == starship_text(theme.meta.name@, ansi_texts(theme.ansi)),
{
    let mut out = String::new();
    push_text(&mut out, "# Starship configuration for ");
    push_text(&mut out, theme.meta.name.as_str());
    push_text(&mut out, "\n");
    push_text(&mut out, "# Generated from TCA theme\n");
    push_text(&mut out, "# Add this to your starship.toml\n\n");
    push_text(&mut out, "[palettes.tca]\n");
    push_ansi_lines(&mut out, &theme.ansi, AnsiKeys::Starship, 0, 16, "", " = \"", "\"");
    push_text(&mut out, "\n# Enable the palette\npalette = \"tca\"\n");
    assert(out@ =~= starship_text(theme.meta.name@, ansi_texts(theme.ansi)));
    out
}

// ---------------------------------------------------------------------------
// tmux
// ---------------------------------------------------------------------------

/// The references that a tmux configuration resolves: background,
/// foreground, muted foreground and selection background.
pub open spec fn tmux_refs(t: Theme) -> Seq<Seq<char>> {
    seq![t.ui.bg.primary@, t.ui.fg.primary@, t.ui.fg.muted@, t.ui.selection.bg@]
}

/// A tmux option line setting `option` to background `bg` and foreground
/// `fg`.
pub open spec fn style_line(option: Seq<char>, bg: Seq<char>, fg: Seq<char>) -> Seq<char> {
    kv_line(option + " \"bg="@, bg, ",fg="@, fg, "\""@)
}

/// Appends [`style_line`] to `out`.
fn push_style(out: &mut String, option: &str, bg: &str, fg: &str)
    ensures
        final(out)@ == old(out)@ + style_line(option@, bg@, fg@),
{
    let open = concat(option, " \"bg=");
    push_kv(out, open.as_str(), bg, ",fg=", fg, "\"");
}

/// The status bar section of a tmux configuration.
pub open spec fn tmux_status(bg: Seq<char>, fg: Seq<char>) -> Seq<char> {
    "# Status bar\n"@
        + style_line("set-option -g status-style"@, bg, fg)
        + style_line("set-option -g status-left-style"@, bg, fg)
        + style_line("set-option -g status-right-style"@, bg, fg)
        + "\n"@
}

/// The window status section of a tmux configuration.
pub open spec fn tmux_window(bg: Seq<char>, fg: Seq<char>, muted: Seq<char>, sel: Seq<char>) -> Seq<char> {
    "# Window status\n"@
        + style_line("set-option -g window-status-style"@, bg, muted)
        + style_line("set-option -g window-status-current-style"@, sel, fg)
        + "\n"@
}

/// The pane border section of a tmux configuration.
pub open spec fn tmux_panes(border: Seq<char>, active: Seq<char>) -> Seq<char> {
    "# Pane borders\n"@
        + kv_line("set-option -g pane-border-style \"fg="@, border, ""@, ""@, "\""@)
        + kv_line("set-option -g pane-active-border-style \"fg="@, active, ""@, ""@, "\""@)
        + "\n"@
}

/// The message and copy mode sections of a tmux configuration.
pub open spec fn tmux_messages(bg: Seq<char>, fg: Seq<char>, sel: Seq<char>) -> Seq<char> {
    "# Message style\n"@
        + style_line("set-option -g message-style"@, sel, fg)
        + style_line("set-option -g message-command-style"@, bg, fg)
        + "\n"@ + "# Copy mode\n"@
        + style_line("set-window-option -g mode-style"@, sel, fg)
}

/// The tmux configuration for a theme named `name` with ANSI colors `ansi`
/// and the resolved [`tmux_refs`] `c`.
pub open spec fn tmux_text(name: Seq<char>, ansi: Seq<Seq<char>>, c: Seq<Seq<char>>) -> Seq<char> {
    "# TCA Theme: "@ + name + "\n"@ + "# Generated by tca-export\n"@
        + "# Usage: source this file in your tmux.conf\n\n"@
        + tmux_status(c[0], c[1])
        + tmux_window(c[0], c[1], c[2], c[3])
        + tmux_panes(ansi[8], ansi[4])
        + tmux_messages(c[0], c[1], c[3])
}

fn push_tmux_status(out: &mut String, bg: &str, fg: &str)
    ensures
        final(out)@ == old(out)@ + tmux_status(bg@, fg@),
{
    let ghost start = out@;
    push_text(out, "# Status bar\n");
    push_style(out, "set-option -g status-style", bg, fg);
    push_style(out, "set-option -g status-left-style", bg, fg);
    push_style(out, "set-option -g status-right-style", bg, fg);
    push_text(out, "\n");
    assert(out@ =~= start + tmux_status(bg@, fg@));
}

fn push_tmux_window(out: &mut String, bg: &str, fg: &str, muted: &str, sel: &str)
    ensures
        final(out)@ == old(out)@ + tmux_window(bg@, fg@, muted@, sel@),
{
    let ghost start = out@;
    push_text(out, "# Window status\n");
    push_style(out, "set-option -g window-status-style", bg, muted);
    push_style(out, "set-option -g window-status-current-style", sel, fg);
    push_text(out, "\n");
    assert(out@ =~= start + tmux_window(bg@, fg@, muted@, sel@));
}

fn push_tmux_panes(out: &mut String, border: &str, active: &str)
    ensures
        final(out)@ == old(out)@ + tmux_panes(border@, active@),
{
    let ghost start = out@;
    push_text(out, "# Pane borders\n");
    push_kv(out, "set-option -g pane-border-style \"fg=", border, "", "", "\"");
    push_kv(out, "set-option -g pane-active-border-style \"fg=", active, "", "", "\"");
    push_text(out, "\n");
    assert(out@ =~= start + tmux_panes(border@, active@));
}

fn push_tmux_messages(out: &mut String, bg: &str, fg: &str, sel: &str)
    ensures
        final(out)@ == old(out)@ + tmux_messages(bg@, fg@, sel@),
{
    let ghost start = out@;
    push_text(out, "# Message style\n");
    push_style(out, "set-option -g message-style", sel, fg);
    push_style(out, "set-option -g message-command-style", bg, fg);
    push_text(out, "\n");
    push_text(out, "# Copy mode\n");
    push_style(out, "set-window-option -g mode-style", sel, fg);
    assert(out@ =~= start + tmux_messages(bg@, fg@, sel@));
}

/// Exports `theme` as a tmux configuration: the pane borders in the ANSI
/// bright black and blue, the rest in the theme's interface colors.
#[verifier::spinoff_prover]
pub fn export_tmux(theme: &Theme) -> (r: Result<String, ExportError>)
    ensures
        r is Ok <==> refs_resolve(*theme, tmux_refs(*theme)),
        r matches Ok(s) ==> s@ == tmux_text(
            theme.meta.name@,
            ansi_texts(theme.ansi),
            resolved(*theme, tmux_refs(*theme)),
        ),
        r matches Err(e) ==> unresolved_error(*theme, tmux_refs(*theme), e),
{
    let mut refs: Vec<String> = Vec::new();
    refs.push(theme.ui.bg.primary.clone());
    refs.push(theme.ui.fg.primary.clone());
    refs.push(theme.ui.fg.muted.clone());
    refs.push(theme.ui.selection.bg.clone());
    assert(texts(refs@) =~= tmux_refs(*theme));
    let c = match resolve_refs(theme, &refs) {
        Ok(c) => c,
        Err(e) => return Err(e),
    };
    let ghost cv = resolved(*theme, tmux_refs(*theme));
    assert(c@[0]@ == cv[0] && c@[1]@ == cv[1] && c@[2]@ == cv[2] && c@[3]@ == cv[3]);
    let bg = c[0].as_str();
    let fg = c[1].as_str();
    let muted = c[2].as_str();
    let sel = c[3].as_str();
    let mut out = String::new();
    push_text(&mut out, "# TCA Theme: ");
    push_text(&mut out, theme.meta.name.as_str());
    push_text(&mut out, "\n");
    push_text(&mut out, "# Generated by tca-export\n");
    push_text(&mut out, "# Usage: source this file in your tmux.conf\n\n");
    push_tmux_status(&mut out, bg, fg);
    push_tmux_window(&mut out, bg, fg, muted, sel);
    push_tmux_panes(&mut out, theme.ansi.bright_black.as_str(), theme.ansi.blue.as_str());
    push_tmux_messages(&mut out, bg, fg, sel);
    assert(out@ =~= tmux_text(theme.meta.name@, ansi_texts(theme.ansi), cv));
    Ok(out)
}



/// `line` stands somewhere in `text`.
pub open spec fn has_line(text: Seq<char>, line: Seq<char>) -> bool {
    exists|a: Seq<char>, b: Seq<char>| text == a + line + b
}

/// The color that the reference `v` stands for in `t` (see [`ref_color`]).
pub open spec fn color_for(t: Theme, v: Seq<char>) -> Seq<char> {
    ref_color(t.base24.values(), v)->0
}

/// A kitty configuration sets `foreground`, `background`, `cursor`,
/// `selection_background` and `selection_foreground` to the colors that the
/// theme's primary foreground, primary background, primary cursor and
/// selection background and foreground stand for.
pub proof fn law_kitty_colors(t: Theme)
    ensures
        has_line(kitty_text(t.meta.name@, ansi_texts(t.ansi), resolved(t, kitty_refs(t))), ""@ + "foreground"@ + " "@ + color_for(t, t.ui.fg.primary@) + ""@ + "\n"@),
        has_line(kitty_text(t.meta.name@, ansi_texts(t.ansi), resolved(t, kitty_refs(t))), ""@ + "background"@ + " "@ + color_for(t, t.ui.bg.primary@) + ""@ + "\n"@),
        has_line(kitty_text(t.meta.name@, ansi_texts(t.ansi), resolved(t, kitty_refs(t))), ""@ + "cursor"@ + " "@ + color_for(t, t.ui.cursor.primary@) + ""@ + "\n"@),
        has_line(kitty_text(t.meta.name@, ansi_texts(t.ansi), resolved(t, kitty_refs(t))), ""@ + "selection_background"@ + " "@ + color_for(t, t.ui.selection.bg@) + ""@ + "\n"@),
        has_line(kitty_text(t.meta.name@, ansi_texts(t.ansi), resolved(t, kitty_refs(t))), ""@ + "selection_foreground"@ + " "@ + color_for(t, t.ui.selection.fg@) + ""@ + "\n"@),
{

    assert(kitty_text(t.meta.name@, ansi_texts(t.ansi), resolved(t, kitty_refs(t))) =~= "# "@ + t.meta.name@ + "\n"@ + "# Generated from TCA theme\n\n"@ + ansi_lines(ansi_texts(t.ansi), AnsiKeys::Kitty, 0, 16, ""@, " "@, ""@) + "\n# UI Colors\n"@ + kv_line(""@, "foreground"@, " "@, resolved(t, kitty_refs(t))[0], ""@) + kv_line(""@, "background"@, " "@, resolved(t, kitty_refs(t))[1], ""@) + kv_line(""@, "cursor"@, " "@, resolved(t, kitty_refs(t))[2], ""@) + kv_line(""@, "selection_background"@, " "@, resolved(t, kitty_refs(t))[3], ""@) + kv_line(""@, "selection_foreground"@, " "@, resolved(t, kitty_refs(t))[4], ""@));
    assert(resolved(t, kitty_refs(t))[0] == color_for(t, t.ui.fg.primary@));
    assert(kitty_text(t.meta.name@, ansi_texts(t.ansi), resolved(t, kitty_refs(t))) =~= ("# "@ + t.meta.name@ + "\n"@ + "# Generated from TCA theme\n\n"@ + ansi_lines(ansi_texts(t.ansi), AnsiKeys::Kitty, 0, 16, ""@, " "@, ""@) + "\n# UI Colors\n"@) + (""@ + "foreground"@ + " "@ + color_for(t, t.ui.fg.primary@) + ""@ + "\n"@) + (kv_line(""@, "background"@, " "@, resolved(t, kitty_refs(t))[1], ""@) + kv_line(""@, "cursor"@, " "@, resolved(t, kitty_refs(t))[2], ""@) + kv_line(""@, "selection_background"@, " "@, resolved(t, kitty_refs(t))[3], ""@) + kv_line(""@, "selection_foreground"@, " "@, resolved(t, kitty_refs(t))[4], ""@)));
    assert(resolved(t, kitty_refs(t))[1] == color_for(t, t.ui.bg.primary@));
    assert(kitty_text(t.meta.name@, ansi_texts(t.ansi), resolved(t, kitty_refs(t))) =~= ("# "@ + t.meta.name@ + "\n"@ + "# Generated from TCA theme\n\n"@ + ansi_lines(ansi_texts(t.ansi), AnsiKeys::Kitty, 0, 16, ""@, " "@, ""@) + "\n# UI Colors\n"@ + kv_line(""@, "foreground"@, " "@, resolved(t, kitty_refs(t))[0], ""@)) + (""@ + "background"@ + " "@ + color_for(t, t.ui.bg.primary@) + ""@ + "\n"@) + (kv_line(""@, "cursor"@, " "@, resolved(t, kitty_refs(t))[2], ""@) + kv_line(""@, "selection_background"@, " "@, resolved(t, kitty_refs(t))[3], ""@) + kv_line(""@, "selection_foreground"@, " "@, resolved(t, kitty_refs(t))[4], ""@)));
    assert(resolved(t, kitty_refs(t))[2] == color_for(t, t.ui.cursor.primary@));
    assert(kitty_text(t.meta.name@, ansi_texts(t.ansi), resolved(t, kitty_refs(t))) =~= ("# "@ + t.meta.name@ + "\n"@ + "# Generated from TCA theme\n\n"@ + ansi_lines(ansi_texts(t.ansi), AnsiKeys::Kitty, 0, 16, ""@, " "@, ""@) + "\n# UI Colors\n"@ + kv_line(""@, "foreground"@, " "@, resolved(t, kitty_refs(t))[0], ""@) + kv_line(""@, "background"@, " "@, resolved(t, kitty_refs(t))[1], ""@)) + (""@ + "cursor"@ + " "@ + color_for(t, t.ui.cursor.primary@) + ""@ + "\n"@) + (kv_line(""@, "selection_background"@, " "@, resolved(t, kitty_refs(t))[3], ""@) + kv_line(""@, "selection_foreground"@, " "@, resolved(t, kitty_refs(t))[4], ""@)));
    assert(resolved(t, kitty_refs(t))[3] == color_for(t, t.ui.selection.bg@));
    assert(kitty_text(t.meta.name@, ansi_texts(t.ansi), resolved(t, kitty_refs(t))) =~= ("# "@ + t.meta.name@ + "\n"@ + "# Generated from TCA theme\n\n"@ + ansi_lines(ansi_texts(t.ansi), AnsiKeys::Kitty, 0, 16, ""@, " "@, ""@) + "\n# UI Colors\n"@ + kv_line(""@, "foreground"@, " "@, resolved(t, kitty_refs(t))[0], ""@) + kv_line(""@, "background"@, " "@, resolved(t, kitty_refs(t))[1], ""@) + kv_line(""@, "cursor"@, " "@, resolved(t, kitty_refs(t))[2], ""@)) + (""@ + "selection_background"@ + " "@ + color_for(t, t.ui.selection.bg@) + ""@ + "\n"@) + (kv_line(""@, "selection_foreground"@, " "@, resolved(t, kitty_refs(t))[4], ""@)));
    assert(resolved(t, kitty_refs(t))[4] == color_for(t, t.ui.selection.fg@));
    assert(kitty_text(t.meta.name@, ansi_texts(t.ansi), resolved(t, kitty_refs(t))) =~= ("# "@ + t.meta.name@ + "\n"@ + "# Generated from TCA theme\n\n"@ + ansi_lines(ansi_texts(t.ansi), AnsiKeys::Kitty, 0, 16, ""@, " "@, ""@) + "\n# UI Colors\n"@ + kv_line(""@, "foreground"@, " "@, resolved(t, kitty_refs(t))[0], ""@) + kv_line(""@, "background"@, " "@, resolved(t, kitty_refs(t))[1], ""@) + kv_line(""@, "cursor"@, " "@, resolved(t, kitty_refs(t))[2], ""@) + kv_line(""@, "selection_background"@, " "@, resolved(t, kitty_refs(t))[3], ""@)) + (""@ + "selection_foreground"@ + " "@ + color_for(t, t.ui.selection.fg@) + ""@ + "\n"@) + (Seq::<char>::empty()));
}

/// An alacritty configuration sets the primary `foreground` and `background`
/// to the colors that the theme's primary foreground and background stand for.
pub proof fn law_alacritty_colors(t: Theme)
    ensures
        has_line(alacritty_text(t.meta.name@, ansi_texts(t.ansi), resolved(t, fg_bg_refs(t))), ""@ + "foreground"@ + " = '"@ + color_for(t, t.ui.fg.primary@) + "'"@ + "\n"@),
        has_line(alacritty_text(t.meta.name@, ansi_texts(t.ansi), resolved(t, fg_bg_refs(t))), ""@ + "background"@ + " = '"@ + color_for(t, t.ui.bg.primary@) + "'"@ + "\n"@),
{

    assert(alacritty_text(t.meta.name@, ansi_texts(t.ansi), resolved(t, fg_bg_refs(t))) =~= "# "@ + t.meta.name@ + "\n"@ + "# Generated from TCA theme\n\n"@ + "[colors.primary]\n"@ + kv_line(""@, "foreground"@, " = '"@, resolved(t, fg_bg_refs(t))[0], "'"@) + kv_line(""@, "background"@, " = '"@, resolved(t, fg_bg_refs(t))[1], "'"@) + "\n[colors.normal]\n"@ + ansi_lines(ansi_texts(t.ansi), AnsiKeys::Names, 0, 8, ""@, " = '"@, "'"@) + "\n[colors.bright]\n"@ + ansi_lines(ansi_texts(t.ansi), AnsiKeys::Names, 8, 16, ""@, " = '"@, "'"@));
    assert(resolved(t, fg_bg_refs(t))[0] == color_for(t, t.ui.fg.primary@));
    assert(alacritty_text(t.meta.name@, ansi_texts(t.ansi), resolved(t, fg_bg_refs(t))) =~= ("# "@ + t.meta.name@ + "\n"@ + "# Generated from TCA theme\n\n"@ + "[colors.primary]\n"@) + (""@ + "foreground"@ + " = '"@ + color_for(t, t.ui.fg.primary@) + "'"@ + "\n"@) + (kv_line(""@, "background"@, " = '"@, resolved(t, fg_bg_refs(t))[1], "'"@) + "\n[colors.normal]\n"@ + ansi_lines(ansi_texts(t.ansi), AnsiKeys::Names, 0, 8, ""@, " = '"@, "'"@) + "\n[colors.bright]\n"@ + ansi_lines(ansi_texts(t.ansi), AnsiKeys::Names, 8, 16, ""@, " = '"@, "'"@)));
    assert(resolved(t, fg_bg_refs(t))[1] == color_for(t, t.ui.bg.primary@));
    assert(alacritty_text(t.meta.name@, ansi_texts(t.ansi), resolved(t, fg_bg_refs(t))) =~= ("# "@ + t.meta.name@ + "\n"@ + "# Generated from TCA theme\n\n"@ + "[colors.primary]\n"@ + kv_line(""@, "foreground"@, " = '"@, resolved(t, fg_bg_refs(t))[0], "'"@)) + (""@ + "background"@ + " = '"@ + color_for(t, t.ui.bg.primary@) + "'"@ + "\n"@) + ("\n[colors.normal]\n"@ + ansi_lines(ansi_texts(t.ansi), AnsiKeys::Names, 0, 8, ""@, " = '"@, "'"@) + "\n[colors.bright]\n"@ + ansi_lines(ansi_texts(t.ansi), AnsiKeys::Names, 8, 16, ""@, " = '"@, "'"@)));
}

/// A vim color scheme sets `background=dark` for a dark theme and
/// `background=light` for a light one.
pub proof fn law_vim_background(t: Theme)
    ensures
        has_line(
            vim_text(t.meta.name@, t.meta.dark, ansi_texts(t.ansi), resolved(t, bg_fg_refs(t))),
            "set background="@ + (if t.meta.dark { "dark"@ } else { "light"@ }) + "\n"@,
        ),
{
    let text = vim_text(t.meta.name@, t.meta.dark, ansi_texts(t.ansi), resolved(t, bg_fg_refs(t)));
    let a = "\" "@ + t.meta.name@ + "\n"@ + "\" Generated from TCA theme\n\n"@;
    let l = "set background="@ + (if t.meta.dark { "dark"@ } else { "light"@ }) + "\n"@;
    assert(background_word(t.meta.dark) == (if t.meta.dark { "dark"@ } else { "light"@ }));
    let b = text.skip((a.len() + l.len()) as int);
    assert(text =~= a + l + b);
}

/// A helix theme sets `background` and `foreground` under `[ui]` to the
/// colors that the theme's primary background and foreground stand for.
pub proof fn law_helix_colors(t: Theme)
    ensures
        has_line(helix_text(t.meta.name@, ansi_texts(t.ansi), resolved(t, bg_fg_refs(t))), ""@ + "background"@ + " = \""@ + color_for(t, t.ui.bg.primary@) + "\""@ + "\n"@),
        has_line(helix_text(t.meta.name@, ansi_texts(t.ansi), resolved(t, bg_fg_refs(t))), ""@ + "foreground"@ + " = \""@ + color_for(t, t.ui.fg.primary@) + "\""@ + "\n"@),
{

    assert(helix_text(t.meta.name@, ansi_texts(t.ansi), resolved(t, bg_fg_refs(t))) =~= "# "@ + t.meta.name@ + "\n"@ + "# Generated from TCA theme\n\n"@ + "[ui]\n"@ + kv_line(""@, "background"@, " = \""@, resolved(t, bg_fg_refs(t))[0], "\""@) + kv_line(""@, "foreground"@, " = \""@, resolved(t, bg_fg_refs(t))[1], "\""@) + "\n[palette]\n"@ + ansi_lines(ansi_texts(t.ansi), AnsiKeys::Helix, 0, 16, ""@, " = \""@, "\""@));
    assert(resolved(t, bg_fg_refs(t))[0] == color_for(t, t.ui.bg.primary@));
    assert(helix_text(t.meta.name@, ansi_texts(t.ansi), resolved(t, bg_fg_refs(t))) =~= ("# "@ + t.meta.name@ + "\n"@ + "# Generated from TCA theme\n\n"@ + "[ui]\n"@) + (""@ + "background"@ + " = \""@ + color_for(t, t.ui.bg.primary@) + "\""@ + "\n"@) + (kv_line(""@, "foreground"@, " = \""@, resolved(t, bg_fg_refs(t))[1], "\""@) + "\n[palette]\n"@ + ansi_lines(ansi_texts(t.ansi), AnsiKeys::Helix, 0, 16, ""@, " = \""@, "\""@)));
    assert(resolved(t, bg_fg_refs(t))[1] == color_for(t, t.ui.fg.primary@));
    assert(helix_text(t.meta.name@, ansi_texts(t.ansi), resolved(t, bg_fg_refs(t))) =~= ("# "@ + t.meta.name@ + "\n"@ + "# Generated from TCA theme\n\n"@ + "[ui]\n"@ + kv_line(""@, "background"@, " = \""@, resolved(t, bg_fg_refs(t))[0], "\""@)) + (""@ + "foreground"@ + " = \""@ + color_for(t, t.ui.fg.primary@) + "\""@ + "\n"@) + ("\n[palette]\n"@ + ansi_lines(ansi_texts(t.ansi), AnsiKeys::Helix, 0, 16, ""@, " = \""@, "\""@)));
}

/// A vim color scheme draws `Normal` text in the color that the theme's
/// primary foreground stands for, on the color its primary background
/// stands for.
pub proof fn law_vim_colors(t: Theme)
    ensures
        has_line(vim_text(t.meta.name@, t.meta.dark, ansi_texts(t.ansi), resolved(t, bg_fg_refs(t))), "hi Normal guifg="@ + color_for(t, t.ui.fg.primary@) + " guibg="@ + color_for(t, t.ui.bg.primary@) + ""@ + "\n"@),
{

    assert(vim_text(t.meta.name@, t.meta.dark, ansi_texts(t.ansi), resolved(t, bg_fg_refs(t))) =~= "\" "@ + t.meta.name@ + "\n"@ + "\" Generated from TCA theme\n\n"@ + "set background="@ + background_word(t.meta.dark) + "\n"@ + "hi clear\n"@ + "if exists('syntax_on')\n"@ + "  syntax reset\n"@ + "endif\n"@ + "let g:colors_name = '"@ + without_spaces(t.meta.name@) + "'\n\n"@ + ansi_lines(ansi_texts(t.ansi), AnsiKeys::Index, 0, 16, "let g:terminal_color_"@, " = '"@, "'"@) + "\n\" UI colors\n"@ + kv_line("hi Normal guifg="@, resolved(t, bg_fg_refs(t))[1], " guibg="@, resolved(t, bg_fg_refs(t))[0], ""@));
    assert(resolved(t, bg_fg_refs(t))[0] == color_for(t, t.ui.bg.primary@));
    assert(resolved(t, bg_fg_refs(t))[1] == color_for(t, t.ui.fg.primary@));
    assert(vim_text(t.meta.name@, t.meta.dark, ansi_texts(t.ansi), resolved(t, bg_fg_refs(t))) =~= ("\" "@ + t.meta.name@ + "\n"@ + "\" Generated from TCA theme\n\n"@ + "set background="@ + background_word(t.meta.dark) + "\n"@ + "hi clear\n"@ + "if exists('syntax_on')\n"@ + "  syntax reset\n"@ + "endif\n"@ + "let g:colors_name = '"@ + without_spaces(t.meta.name@) + "'\n\n"@ + ansi_lines(ansi_texts(t.ansi), AnsiKeys::Index, 0, 16, "let g:terminal_color_"@, " = '"@, "'"@) + "\n\" UI colors\n"@) + ("hi Normal guifg="@ + color_for(t, t.ui.fg.primary@) + " guibg="@ + color_for(t, t.ui.bg.primary@) + ""@ + "\n"@) + (Seq::<char>::empty()));
}

/// A line in a part of a text is a line of the whole text.
pub proof fn lemma_has_line_in(p: Seq<char>, x: Seq<char>, q: Seq<char>, line: Seq<char>)
    requires
        has_line(x, line),
    ensures
        has_line(p + x + q, line),
{
    let (a, b) = choose|a: Seq<char>, b: Seq<char>| x == a + line + b;
    assert(p + x + q =~= (p + a) + line + (b + q));
}

/// A tmux configuration puts the status bar in the colors that the theme's
/// primary foreground and background stand for, inactive windows in the
/// muted foreground, the current window, messages and copy mode on the
/// selection background, inactive pane borders in ANSI bright black and the
/// active one in ANSI blue.
pub proof fn law_tmux_colors(t: Theme)
    ensures
        has_line(tmux_text(t.meta.name@, ansi_texts(t.ansi), resolved(t, tmux_refs(t))), "set-option -g status-style"@ + " \"bg="@ + color_for(t, t.ui.bg.primary@) + ",fg="@ + color_for(t, t.ui.fg.primary@) + "\""@ + "\n"@),
        has_line(tmux_text(t.meta.name@, ansi_texts(t.ansi), resolved(t, tmux_refs(t))), "set-option -g window-status-style"@ + " \"bg="@ + color_for(t, t.ui.bg.primary@) + ",fg="@ + color_for(t, t.ui.fg.muted@) + "\""@ + "\n"@),
        has_line(tmux_text(t.meta.name@, ansi_texts(t.ansi), resolved(t, tmux_refs(t))), "set-option -g window-status-current-style"@ + " \"bg="@ + color_for(t, t.ui.selection.bg@) + ",fg="@ + color_for(t, t.ui.fg.primary@) + "\""@ + "\n"@),
        has_line(tmux_text(t.meta.name@, ansi_texts(t.ansi), resolved(t, tmux_refs(t))), "set-option -g pane-border-style \"fg="@ + t.ansi.bright_black@ + "\""@ + "\n"@),
        has_line(tmux_text(t.meta.name@, ansi_texts(t.ansi), resolved(t, tmux_refs(t))), "set-option -g pane-active-border-style \"fg="@ + t.ansi.blue@ + "\""@ + "\n"@),
        has_line(tmux_text(t.meta.name@, ansi_texts(t.ansi), resolved(t, tmux_refs(t))), "set-option -g message-style"@ + " \"bg="@ + color_for(t, t.ui.selection.bg@) + ",fg="@ + color_for(t, t.ui.fg.primary@) + "\""@ + "\n"@),
        has_line(tmux_text(t.meta.name@, ansi_texts(t.ansi), resolved(t, tmux_refs(t))), "set-window-option -g mode-style"@ + " \"bg="@ + color_for(t, t.ui.selection.bg@) + ",fg="@ + color_for(t, t.ui.fg.primary@) + "\""@ + "\n"@),
{
    let cv = resolved(t, tmux_refs(t));
    assert(cv[0] == color_for(t, t.ui.bg.primary@));
    assert(cv[1] == color_for(t, t.ui.fg.primary@));
    assert(cv[2] == color_for(t, t.ui.fg.muted@));
    assert(cv[3] == color_for(t, t.ui.selection.bg@));
    let head = "# TCA Theme: "@ + t.meta.name@ + "\n"@ + "# Generated by tca-export\n"@
        + "# Usage: source this file in your tmux.conf\n\n"@;
    let st = tmux_status(cv[0], cv[1]);
    let wi = tmux_window(cv[0], cv[1], cv[2], cv[3]);
    let pa = tmux_panes(ansi_texts(t.ansi)[8], ansi_texts(t.ansi)[4]);
    let me = tmux_messages(cv[0], cv[1], cv[3]);
    let text = tmux_text(t.meta.name@, ansi_texts(t.ansi), cv);
    assert(text =~= head + st + wi + pa + me);
    // status bar
    let l = "set-option -g status-style"@ + " \"bg="@ + color_for(t, t.ui.bg.primary@) + ",fg="@ + color_for(t, t.ui.fg.primary@) + "\""@ + "\n"@;
    assert(st =~= "# Status bar\n"@ + l + (style_line("set-option -g status-left-style"@, cv[0], cv[1])
        + style_line("set-option -g status-right-style"@, cv[0], cv[1]) + "\n"@));
    lemma_has_line_in(head, st, wi + pa + me, l);
    assert(head + st + (wi + pa + me) =~= text);
    // window status
    let l1 = "set-option -g window-status-style"@ + " \"bg="@ + color_for(t, t.ui.bg.primary@) + ",fg="@ + color_for(t, t.ui.fg.muted@) + "\""@ + "\n"@;
    let l2 = "set-option -g window-status-current-style"@ + " \"bg="@ + color_for(t, t.ui.selection.bg@) + ",fg="@ + color_for(t, t.ui.fg.primary@) + "\""@ + "\n"@;
    assert(wi =~= "# Window status\n"@ + l1 + (l2 + "\n"@));
    assert(wi =~= ("# Window status\n"@ + l1) + l2 + "\n"@);
    lemma_has_line_in(head + st, wi, pa + me, l1);
    lemma_has_line_in(head + st, wi, pa + me, l2);
    assert((head + st) + wi + (pa + me) =~= text);
    // pane borders
    let l3 = "set-option -g pane-border-style \"fg="@ + t.ansi.bright_black@ + "\""@ + "\n"@;
    let l4 = "set-option -g pane-active-border-style \"fg="@ + t.ansi.blue@ + "\""@ + "\n"@;
    reveal_strlit("");
    assert(ansi_texts(t.ansi)[8] == t.ansi.bright_black@);
    assert(ansi_texts(t.ansi)[4] == t.ansi.blue@);
    assert(pa =~= "# Pane borders\n"@ + l3 + (l4 + "\n"@));
    assert(pa =~= ("# Pane borders\n"@ + l3) + l4 + "\n"@);
    lemma_has_line_in(head + st + wi, pa, me, l3);
    lemma_has_line_in(head + st + wi, pa, me, l4);
    assert((head + st + wi) + pa + me =~= text);
    // messages and copy mode
    let l5 = "set-option -g message-style"@ + " \"bg="@ + color_for(t, t.ui.selection.bg@) + ",fg="@ + color_for(t, t.ui.fg.primary@) + "\""@ + "\n"@;
    let l6 = "set-window-option -g mode-style"@ + " \"bg="@ + color_for(t, t.ui.selection.bg@) + ",fg="@ + color_for(t, t.ui.fg.primary@) + "\""@ + "\n"@;
    let rest = style_line("set-option -g message-command-style"@, cv[0], cv[1]) + "\n"@ + "# Copy mode\n"@;
    assert(me =~= "# Message style\n"@ + l5 + (rest + l6));
    assert(me =~= ("# Message style\n"@ + l5 + rest) + l6 + Seq::<char>::empty());
    lemma_has_line_in(head + st + wi + pa, me, Seq::<char>::empty(), l5);
    lemma_has_line_in(head + st + wi + pa, me, Seq::<char>::empty(), l6);
    assert((head + st + wi + pa) + me + Seq::<char>::empty() =~= text);
}

// ---------------------------------------------------------------------------
// base16
// ---------------------------------------------------------------------------

/// The upper-case hexadecimal digit of `i` (0–15).
pub open spec fn upper_hex_digit(i: int) -> Seq<char> {
    if i < 10 { index_text(i) } else if i == 10 { "A"@ } else if i == 11 { "B"@ }
    else if i == 12 { "C"@ } else if i == 13 { "D"@ } else if i == 14 { "E"@ } else { "F"@ }
}

fn upper_hex_digit_str(i: usize) -> (r: &'static str)
    requires
        i < 16,
    ensures
        r@ == upper_hex_digit(i as int),
{
    if i < 10 { index_str(i) } else if i == 10 { "A" } else if i == 11 { "B" }
    else if i == 12 { "C" } else if i == 13 { "D" } else if i == 14 { "E" } else { "F" }
}

/// The author written into a base16 scheme: `Unknown` for a theme without one.
pub open spec fn author_or_unknown(author: Seq<char>) -> Seq<char> {
    if author.len() == 0 { "Unknown"@ } else { author }
}

/// The lines for the first `n` base16 slots of `slots`: `base0X: "rrggbb"`,
/// the slot's digit upper case and its color without the leading `#`.
pub open spec fn base16_lines(slots: Seq<Seq<char>>, n: int) -> Seq<char>
    decreases n,
{
    if n <= 0 {
        Seq::empty()
    } else {
        base16_lines(slots, n - 1)
            + kv_line("base0"@, upper_hex_digit(n - 1), ": \""@, crate::hex::strip_hashes(slots[n - 1]), "\""@)
    }
}

/// The base16 scheme for a theme named `name` by `author` with base24 slots
/// `slots`: the scheme and author lines, then the first sixteen slots.
pub open spec fn base16_text(name: Seq<char>, author: Seq<char>, slots: Seq<Seq<char>>) -> Seq<char> {
    kv_line("scheme: \""@, name, ""@, ""@, "\""@)
        + kv_line("author: \""@, author_or_unknown(author), ""@, ""@, "\""@)
        + base16_lines(slots, 16)
}

/// Exports `theme` as a base16 scheme: its first sixteen base24 slots are
/// the base16 colors.
pub fn export_base16(theme: &Theme) -> (r: String)
    ensures
        r@ == base16_text(theme.meta.name@, theme.meta.author@, theme.base24.values()),
{
    let author = if theme.meta.author.unicode_len() == 0 {
        "Unknown"
    } else {
        theme.meta.author.as_str()
    };
    let mut out = String::new();
    push_kv(&mut out, "scheme: \"", theme.meta.name.as_str(), "", "", "\"");
    push_kv(&mut out, "author: \"", author, "", "", "\"");
    let ghost start = out@;
    let ghost slots = theme.base24.values();
    for i in 0..16
        invariant
            slots == theme.base24.values(),
            out@ == start + base16_lines(slots, i as int),
    {
        let hex = crate::hex::trim_hashes(theme.base24.slot(i).as_str());
        push_kv(&mut out, "base0", upper_hex_digit_str(i), ": \"", hex, "\"");
        proof {
            assert(out@ =~= start + base16_lines(slots, i + 1));
        }
    }
    assert(out@ =~= base16_text(theme.meta.name@, theme.meta.author@, slots));
    out
}

// ---------------------------------------------------------------------------
// VS Code
// ---------------------------------------------------------------------------

/// The references that a VS Code color theme resolves, in order: the two
/// backgrounds, the three foregrounds, the selection background and
/// foreground, the cursor, the two borders, then the error, warning, info
/// and link colors.
pub open spec fn vscode_refs(t: Theme) -> Seq<Seq<char>> {
    seq![
        t.ui.bg.primary@, t.ui.bg.secondary@,
        t.ui.fg.primary@, t.ui.fg.secondary@, t.ui.fg.muted@,
        t.ui.selection.bg@, t.ui.selection.fg@, t.ui.cursor.primary@,
        t.ui.border.primary@, t.ui.border.muted@,
        t.semantic.error@, t.semantic.warning@, t.semantic.info@, t.semantic.link@,
    ]
}

/// The name of interface color `i` of a VS Code color theme, and the
/// position in [`vscode_refs`] of the reference it takes its color from.
pub open spec fn vscode_ui(i: int) -> (Seq<char>, int) {
    if i == 0 { ("editor.background"@, 0) }
    else if i == 1 { ("editor.foreground"@, 2) }
    else if i == 2 { ("editor.selectionBackground"@, 5) }
    else if i == 3 { ("editor.selectionForeground"@, 6) }
    else if i == 4 { ("editor.lineHighlightBackground"@, 1) }
    else if i == 5 { ("editorCursor.foreground"@, 7) }
    else if i == 6 { ("editorLineNumber.foreground"@, 4) }
    else if i == 7 { ("editorLineNumber.activeForeground"@, 2) }
    else if i == 8 { ("focusBorder"@, 8) }
    else if i == 9 { ("editorGroup.border"@, 8) }
    else if i == 10 { ("panel.border"@, 8) }
    else if i == 11 { ("sideBar.background"@, 1) }
    else if i == 12 { ("sideBar.foreground"@, 3) }
    else if i == 13 { ("sideBar.border"@, 9) }
    else if i == 14 { ("activityBar.background"@, 0) }
    else if i == 15 { ("activityBar.foreground"@, 2) }
    else if i == 16 { ("activityBar.border"@, 9) }
    else if i == 17 { ("statusBar.background"@, 0) }
    else if i == 18 { ("statusBar.foreground"@, 2) }
    else if i == 19 { ("tab.activeBackground"@, 0) }
    else if i == 20 { ("tab.activeForeground"@, 2) }
    else if i == 21 { ("tab.inactiveBackground"@, 1) }
    else if i == 22 { ("tab.inactiveForeground"@, 4) }
    else if i == 23 { ("editorGroupHeader.tabsBackground"@, 1) }
    else if i == 24 { ("panel.background"@, 1) }
    else if i == 25 { ("editorError.foreground"@, 10) }
    else if i == 26 { ("editorWarning.foreground"@, 11) }
    else if i == 27 { ("editorInfo.foreground"@, 12) }
    else { ("editorLink.activeForeground"@, 13) }
}

fn vscode_ui_entry(i: usize) -> (r: (&'static str, usize))
    requires
        i < 29,
    ensures
        r.0@ == vscode_ui(i as int).0,
        r.1 as int == vscode_ui(i as int).1,
{
    if i == 0 { ("editor.background", 0) }
    else if i == 1 { ("editor.foreground", 2) }
    else if i == 2 { ("editor.selectionBackground", 5) }
    else if i == 3 { ("editor.selectionForeground", 6) }
    else if i == 4 { ("editor.lineHighlightBackground", 1) }
    else if i == 5 { ("editorCursor.foreground", 7) }
    else if i == 6 { ("editorLineNumber.foreground", 4) }
    else if i == 7 { ("editorLineNumber.activeForeground", 2) }
    else if i == 8 { ("focusBorder", 8) }
    else if i == 9 { ("editorGroup.border", 8) }
    else if i == 10 { ("panel.border", 8) }
    else if i == 11 { ("sideBar.background", 1) }
    else if i == 12 { ("sideBar.foreground", 3) }
    else if i == 13 { ("sideBar.border", 9) }
    else if i == 14 { ("activityBar.background", 0) }
    else if i == 15 { ("activityBar.foreground", 2) }
    else if i == 16 { ("activityBar.border", 9) }
    else if i == 17 { ("statusBar.background", 0) }
    else if i == 18 { ("statusBar.foreground", 2) }
    else if i == 19 { ("tab.activeBackground", 0) }
    else if i == 20 { ("tab.activeForeground", 2) }
    else if i == 21 { ("tab.inactiveBackground", 1) }
    else if i == 22 { ("tab.inactiveForeground", 4) }
    else if i == 23 { ("editorGroupHeader.tabsBackground", 1) }
    else if i == 24 { ("panel.background", 1) }
    else if i == 25 { ("editorError.foreground", 10) }
    else if i == 26 { ("editorWarning.foreground", 11) }
    else if i == 27 { ("editorInfo.foreground", 12) }
    else { ("editorLink.activeForeground", 13) }
}

/// The colors of a VS Code color theme with ANSI colors `ansi` and the
/// resolved [`vscode_refs`] `c`: the interface colors, then the sixteen
/// terminal colors.
pub open spec fn vscode_colors(ansi: Seq<Seq<char>>, c: Seq<Seq<char>>) -> Seq<(Seq<char>, Seq<char>)> {
    Seq::new(29, |i: int| (vscode_ui(i).0, c[vscode_ui(i).1]))
        + Seq::new(16, |i: int| (ansi_key(AnsiKeys::Vscode, i), ansi[i]))
}

/// A VS Code color theme gives each interface color the color that the
/// theme field it is drawn from stands for (`editor.background` the primary
/// background, `sideBar.background` the secondary background,
/// `editorCursor.foreground` the primary cursor, `editorError.foreground` the
/// error color, and so on), then each terminal color its ANSI color.
pub proof fn law_vscode_colors(t: Theme, p: Seq<(Seq<char>, Seq<char>)>)
    requires
        p == vscode_colors(ansi_texts(t.ansi), resolved(t, vscode_refs(t))),
    ensures
        p.len() == 45,
        p[0] == ("editor.background"@, color_for(t, t.ui.bg.primary@)),
        p[1] == ("editor.foreground"@, color_for(t, t.ui.fg.primary@)),
        p[2] == ("editor.selectionBackground"@, color_for(t, t.ui.selection.bg@)),
        p[3] == ("editor.selectionForeground"@, color_for(t, t.ui.selection.fg@)),
        p[4] == ("editor.lineHighlightBackground"@, color_for(t, t.ui.bg.secondary@)),
        p[5] == ("editorCursor.foreground"@, color_for(t, t.ui.cursor.primary@)),
        p[6] == ("editorLineNumber.foreground"@, color_for(t, t.ui.fg.muted@)),
        p[7] == ("editorLineNumber.activeForeground"@, color_for(t, t.ui.fg.primary@)),
        p[8] == ("focusBorder"@, color_for(t, t.ui.border.primary@)),
        p[9] == ("editorGroup.border"@, color_for(t, t.ui.border.primary@)),
        p[10] == ("panel.border"@, color_for(t, t.ui.border.primary@)),
        p[11] == ("sideBar.background"@, color_for(t, t.ui.bg.secondary@)),
        p[12] == ("sideBar.foreground"@, color_for(t, t.ui.fg.secondary@)),
        p[13] == ("sideBar.border"@, color_for(t, t.ui.border.muted@)),
        p[14] == ("activityBar.background"@, color_for(t, t.ui.bg.primary@)),
        p[15] == ("activityBar.foreground"@, color_for(t, t.ui.fg.primary@)),
        p[16] == ("activityBar.border"@, color_for(t, t.ui.border.muted@)),
        p[17] == ("statusBar.background"@, color_for(t, t.ui.bg.primary@)),
        p[18] == ("statusBar.foreground"@, color_for(t, t.ui.fg.primary@)),
        p[19] == ("tab.activeBackground"@, color_for(t, t.ui.bg.primary@)),
        p[20] == ("tab.activeForeground"@, color_for(t, t.ui.fg.primary@)),
        p[21] == ("tab.inactiveBackground"@, color_for(t, t.ui.bg.secondary@)),
        p[22] == ("tab.inactiveForeground"@, color_for(t, t.ui.fg.muted@)),
        p[23] == ("editorGroupHeader.tabsBackground"@, color_for(t, t.ui.bg.secondary@)),
        p[24] == ("panel.background"@, color_for(t, t.ui.bg.secondary@)),
        p[25] == ("editorError.foreground"@, color_for(t, t.semantic.error@)),
        p[26] == ("editorWarning.foreground"@, color_for(t, t.semantic.warning@)),
        p[27] == ("editorInfo.foreground"@, color_for(t, t.semantic.info@)),
        p[28] == ("editorLink.activeForeground"@, color_for(t, t.semantic.link@)),
        forall|i: int| 0 <= i < 16 ==> #[trigger] p[29 + i] == (ansi_key(AnsiKeys::Vscode, i), ansi_texts(t.ansi)[i]),
{
    assert forall|i: int| 0 <= i < 16 implies #[trigger] p[29 + i] == (ansi_key(AnsiKeys::Vscode, i), ansi_texts(t.ansi)[i]) by {}
}

/// A VS Code color theme: its name, its type (`dark` or `light`) and its
/// colors by name.
#[derive(Debug, Clone, PartialEq, Eq)]
pub struct VscodeTheme {
    /// The theme's name.
    pub name: String,
    /// `dark` or `light`.
    pub kind: String,
    /// The colors, each under its VS Code name.
    pub colors: Vec<(String, String)>,
}

/// The texts of a list of text pairs.
pub open spec fn pair_texts(v: Seq<(String, String)>) -> Seq<(Seq<char>, Seq<char>)> {
    v.map_values(|p: (String, String)| (p.0@, p.1@))
}

impl VscodeTheme {
    /// The color named `key`, if the theme has one.
    pub fn color(&self, key: &str) -> (r: Option<&String>)
        ensures
            match r {
                Some(v) => exists|i: int| 0 <= i < self.colors@.len()
                    && self.colors@[i].0@ == key@ && self.colors@[i].1@ == v@
                    && forall|j: int| 0 <= j < i ==> self.colors@[j].0@ != key@,
                None => forall|i: int| 0 <= i < self.colors@.len() ==> self.colors@[i].0@ != key@,
            },
    {
        for i in 0..self.colors.len()
            invariant
                forall|j: int| 0 <= j < i ==> self.colors@[j].0@ != key@,
        {
            if crate::text::same_text(self.colors[i].0.as_str(), key) {
                return Some(&self.colors[i].1);
            }
        }
        None
    }
}

/// Exports `theme` as a VS Code color theme.
#[verifier::spinoff_prover]
pub fn export_vscode(theme: &Theme) -> (r: Result<VscodeTheme, ExportError>)
    ensures
        r is Ok <==> refs_resolve(*theme, vscode_refs(*theme)),
        r matches Ok(v) ==> {
            &&& v.name@ == theme.meta.name@
            &&& v.kind@ == background_word(theme.meta.dark)
            &&& pair_texts(v.colors@) == vscode_colors(
                ansi_texts(theme.ansi),
                resolved(*theme, vscode_refs(*theme)),
            )
        },
        r matches Err(e) ==> unresolved_error(*theme, vscode_refs(*theme), e),
{
    let mut refs: Vec<String> = Vec::new();
    refs.push(theme.ui.bg.primary.clone());
    refs.push(theme.ui.bg.secondary.clone());
    refs.push(theme.ui.fg.primary.clone());
    refs.push(theme.ui.fg.secondary.clone());
    refs.push(theme.ui.fg.muted.clone());
    refs.push(theme.ui.selection.bg.clone());
    refs.push(theme.ui.selection.fg.clone());
    refs.push(theme.ui.cursor.primary.clone());
    refs.push(theme.ui.border.primary.clone());
    refs.push(theme.ui.border.muted.clone());
    refs.push(theme.semantic.error.clone());
    refs.push(theme.semantic.warning.clone());
    refs.push(theme.semantic.info.clone());
    refs.push(theme.semantic.link.clone());
    assert(texts(refs@) =~= vscode_refs(*theme));
    let c = match resolve_refs(theme, &refs) {
        Ok(c) => c,
        Err(e) => return Err(e),
    };
    let ghost cv = resolved(*theme, vscode_refs(*theme));
    let ghost want = vscode_colors(ansi_texts(theme.ansi), cv);
    let mut colors: Vec<(String, String)> = Vec::new();
    for i in 0..29
        invariant
            c@.len() == 14,
            forall|k: int| 0 <= k < 14 ==> #[trigger] c@[k]@ == cv[k],
            want == vscode_colors(ansi_texts(theme.ansi), cv),
            pair_texts(colors@) == want.take(i as int),
    {
        let (key, src) = vscode_ui_entry(i);
        let ghost before = colors@;
        colors.push((String::from_str(key), c[src].clone()));
        proof {
            assert(pair_texts(colors@) =~= want.take(i + 1)) by {
                assert(pair_texts(before).len() == before.len());
                assert(pair_texts(colors@).len() == colors@.len());
                assert forall|k: int| 0 <= k < i + 1 implies #[trigger] pair_texts(colors@)[k] == want[k] by {
                    if k < i {
                        assert(pair_texts(before)[k] == want.take(i as int)[k]);
                    }
                }
            }
        }
    }
    for i in 0..16
        invariant
            want == vscode_colors(ansi_texts(theme.ansi), cv),
            pair_texts(colors@) == want.take(29 + i),
    {
        let ghost before = colors@;
        colors.push((ansi_key_string(AnsiKeys::Vscode, i), ansi_color(&theme.ansi, i).clone()));
        proof {
            assert(pair_texts(colors@) =~= want.take(29 + i + 1)) by {
                assert(pair_texts(before).len() == before.len());
                assert(pair_texts(colors@).len() == colors@.len());
                assert forall|k: int| 0 <= k < 29 + i + 1 implies #[trigger] pair_texts(colors@)[k] == want[k] by {
                    if k < 29 + i {
                        assert(pair_texts(before)[k] == want.take(29 + i)[k]);
                    }
                }
            }
        }
    }
    assert(want.take(45) =~= want);
    let kind = if theme.meta.dark { "dark" } else { "light" };
    Ok(VscodeTheme { name: theme.meta.name.clone(), kind: String::from_str(kind), colors })
}


// ---------------------------------------------------------------------------
// iTerm2
// ---------------------------------------------------------------------------

/// The references that an iTerm2 color preset resolves: background,
/// foreground and cursor.
pub open spec fn iterm_refs(t: Theme) -> Seq<Seq<char>> {
    seq![t.ui.bg.primary@, t.ui.fg.primary@, t.ui.cursor.primary@]
}

/// `s` is a hex color with three channels.
pub open spec fn rgb_ok(s: Seq<char>) -> bool {
    spec_rgb(s) is Some
}

/// The colors of `vs` before position `i` are all hex colors.
pub open spec fn rgb_ok_before(vs: Seq<Seq<char>>, i: int) -> bool {
    forall|j: int| 0 <= j < i ==> #[trigger] rgb_ok(vs[j])
}

/// `k` is the first color of `vs` that is not a hex color.
pub open spec fn first_bad_rgb(vs: Seq<Seq<char>>, k: int) -> bool {
    &&& 0 <= k < vs.len()
    &&& !rgb_ok(vs[k])
    &&& rgb_ok_before(vs, k)
}

/// One color of an iTerm2 color preset: its key and its channels.
#[derive(Debug, Clone, PartialEq, Eq)]
pub struct ItermColor {
    /// The preset key, such as `Ansi 0 Color`.
    pub key: String,
    /// The red channel.
    pub red: u8,
    /// The green channel.
    pub green: u8,
    /// The blue channel.
    pub blue: u8,
}

/// The keys and channels of a list of preset colors.
pub open spec fn iterm_views(v: Seq<ItermColor>) -> Seq<(Seq<char>, (u8, u8, u8))> {
    v.map_values(|c: ItermColor| (c.key@, (c.red, c.green, c.blue)))
}

/// The key of color `i` of an iTerm2 preset: the sixteen ANSI colors, then
/// background, foreground and cursor.
pub open spec fn iterm_key(i: int) -> Seq<char> {
    if i < 16 {
        ansi_key(AnsiKeys::Iterm, i)
    } else if i == 16 {
        "Background Color"@
    } else if i == 17 {
        "Foreground Color"@
    } else {
        "Cursor Color"@
    }
}

/// The keys and channels of an iTerm2 preset with the colors `vals`.
pub open spec fn iterm_entries(vals: Seq<Seq<char>>) -> Seq<(Seq<char>, (u8, u8, u8))> {
    Seq::new(vals.len(), |i: int| (iterm_key(i), spec_rgb(vals[i])->0))
}

/// Reads `hex` into channels and appends them to `out` under `key`.
fn push_rgb(out: &mut Vec<ItermColor>, key: String, hex: &String) -> (r: Result<(), ExportError>)
    ensures
        r is Ok <==> rgb_ok(hex@),
        r is Ok ==> iterm_views(final(out)@) == iterm_views(old(out)@).push((key@, spec_rgb(hex@)->0)),
        r matches Err(e) ==> (e matches ExportError::InvalidHex(x) && x@ == hex@),
        r is Err ==> final(out)@ == old(out)@,
{
    match hex_to_rgb(hex.as_str()) {
        Ok((red, green, blue)) => {
            let ghost before = out@;
            out.push(ItermColor { key, red, green, blue });
            proof {
                assert(iterm_views(out@) =~= iterm_views(before).push((key@, spec_rgb(hex@)->0)));
            }
            Ok(())
        },
        Err(_) => Err(ExportError::InvalidHex(hex.clone())),
    }
}

/// Exports the colors of `theme` as an iTerm2 color preset: the sixteen
/// ANSI colors, then background, foreground and cursor, each read into its
/// channels. Fails at the first ANSI color that is not a hex color, else at
/// the first reference that stands for no color, else at the first resolved
/// color that is not a hex color.
#[verifier::spinoff_prover]
pub fn export_iterm2(theme: &Theme) -> (r: Result<Vec<ItermColor>, ExportError>)
    ensures
        r is Ok <==> {
            &&& rgb_ok_before(ansi_texts(theme.ansi), 16)
            &&& refs_resolve(*theme, iterm_refs(*theme))
            &&& rgb_ok_before(resolved(*theme, iterm_refs(*theme)), 3)
        },
        r matches Ok(v) ==> iterm_views(v@) == iterm_entries(
            ansi_texts(theme.ansi) + resolved(*theme, iterm_refs(*theme)),
        ),
        r matches Err(e) ==> if !rgb_ok_before(ansi_texts(theme.ansi), 16) {
            exists|k: int| first_bad_rgb(ansi_texts(theme.ansi), k)
                && (e matches ExportError::InvalidHex(x) && x@ == ansi_texts(theme.ansi)[k])
        } else if !refs_resolve(*theme, iterm_refs(*theme)) {
            unresolved_error(*theme, iterm_refs(*theme), e)
        } else {
            exists|k: int| first_bad_rgb(resolved(*theme, iterm_refs(*theme)), k)
                && (e matches ExportError::InvalidHex(x) && x@ == resolved(*theme, iterm_refs(*theme))[k])
        },
{
    let ghost a = ansi_texts(theme.ansi);
    let ghost rv = resolved(*theme, iterm_refs(*theme));
    let ghost vals = a + rv;
    let mut out: Vec<ItermColor> = Vec::new();
    for i in 0..16
        invariant
            a == ansi_texts(theme.ansi),
            vals == a + rv,
            rgb_ok_before(a, i as int),
            iterm_views(out@) == iterm_entries(vals).take(i as int),
    {
        let v = ansi_color(&theme.ansi, i);
        let key = ansi_key_string(AnsiKeys::Iterm, i);
        match push_rgb(&mut out, key, v) {
            Ok(()) => {
                proof {
                    assert(vals[i as int] == a[i as int]);
                    assert(iterm_views(out@) =~= iterm_entries(vals).take(i + 1));
                }
            },
            Err(e) => {
                proof {
                    assert(first_bad_rgb(a, i as int));
                    assert(!rgb_ok_before(a, 16));
                }
                return Err(e);
            },
        }
    }
    let mut refs: Vec<String> = Vec::new();
    refs.push(theme.ui.bg.primary.clone());
    refs.push(theme.ui.fg.primary.clone());
    refs.push(theme.ui.cursor.primary.clone());
    assert(texts(refs@) =~= iterm_refs(*theme));
    let c = match resolve_refs(theme, &refs) {
        Ok(c) => c,
        Err(e) => return Err(e),
    };
    for i in 0..3
        invariant
            c@.len() == 3,
            forall|k: int| 0 <= k < 3 ==> #[trigger] c@[k]@ == rv[k],
            rv == resolved(*theme, iterm_refs(*theme)),
            a == ansi_texts(theme.ansi),
            vals == a + rv,
            rgb_ok_before(a, 16),
            refs_resolve(*theme, iterm_refs(*theme)),
            rgb_ok_before(rv, i as int),
            iterm_views(out@) == iterm_entries(vals).take(16 + i),
    {
        let key = if i == 0 {
            String::from_str("Background Color")
        } else if i == 1 {
            String::from_str("Foreground Color")
        } else {
            String::from_str("Cursor Color")
        };
        match push_rgb(&mut out, key, &c[i]) {
            Ok(()) => {
                proof {
                    assert(vals[16 + i] == rv[i as int]);
                    assert(iterm_views(out@) =~= iterm_entries(vals).take(16 + i + 1));
                }
            },
            Err(e) => {
                proof {
                    assert(first_bad_rgb(rv, i as int));
                    assert(!rgb_ok_before(rv, 3));
                }
                return Err(e);
            },
        }
    }
    assert(iterm_entries(vals).take(19) =~= iterm_entries(vals));
    Ok(out)
}

/// An iTerm2 preset holds the sixteen ANSI colors under `Ansi 0 Color` …
/// `Ansi 15 Color`, each with the channels of that ANSI color, then
/// `Background Color`, `Foreground Color` and `Cursor Color` with the channels
/// of the colors that the primary background, the primary foreground and the
/// primary cursor stand for.
pub proof fn law_iterm2_entries(t: Theme, v: Seq<ItermColor>)
    requires
        iterm_views(v) == iterm_entries(ansi_texts(t.ansi) + resolved(t, iterm_refs(t))),
    ensures
        v.len() == 19,
        forall|i: int| 0 <= i < 16 ==> #[trigger] v[i].key@ == "Ansi "@ + index_text(i) + " Color"@
            && (v[i].red, v[i].green, v[i].blue) == spec_rgb(ansi_texts(t.ansi)[i])->0,
        v[16].key@ == "Background Color"@,
        (v[16].red, v[16].green, v[16].blue) == spec_rgb(ref_color(t.base24.values(), t.ui.bg.primary@)->0)->0,
        v[17].key@ == "Foreground Color"@,
        (v[17].red, v[17].green, v[17].blue) == spec_rgb(ref_color(t.base24.values(), t.ui.fg.primary@)->0)->0,
        v[18].key@ == "Cursor Color"@,
        (v[18].red, v[18].green, v[18].blue) == spec_rgb(ref_color(t.base24.values(), t.ui.cursor.primary@)->0)->0,
{
    let vals = ansi_texts(t.ansi) + resolved(t, iterm_refs(t));
    assert(iterm_views(v).len() == v.len());
    assert forall|i: int| 0 <= i < 16 implies #[trigger] v[i].key@ == "Ansi "@ + index_text(i) + " Color"@
        && (v[i].red, v[i].green, v[i].blue) == spec_rgb(ansi_texts(t.ansi)[i])->0 by {
        assert(iterm_views(v)[i] == iterm_entries(vals)[i]);
        assert(vals[i] == ansi_texts(t.ansi)[i]);
    }
    assert(iterm_views(v)[16] == iterm_entries(vals)[16]);
    assert(iterm_views(v)[17] == iterm_entries(vals)[17]);
    assert(iterm_views(v)[18] == iterm_entries(vals)[18]);
    assert(vals[16] == resolved(t, iterm_refs(t))[0]);
    assert(vals[17] == resolved(t, iterm_refs(t))[1]);
    assert(vals[18] == resolved(t, iterm_refs(t))[2]);
}

/// One color of an iTerm2 preset as text: its key and the decimal text of
/// each channel's fraction of full intensity.
#[derive(Debug, Clone, PartialEq, Eq)]
pub struct ItermComponents {
    /// The preset key, such as `Ansi 0 Color`.
    pub key: String,
    /// The red component.
    pub red: String,
    /// The green component.
    pub green: String,
    /// The blue component.
    pub blue: String,
}

/// The property-list entry for one preset color.
pub open spec fn iterm_entry_text(c: ItermComponents) -> Seq<char> {
    kv_line("\t<key>"@, c.key@, "</key>"@, ""@, ""@)
        + "\t<dict>\n"@
        + "\t\t<key>Color Space</key><string>sRGB</string>\n"@
        + kv_line("\t\t<key>Red Component</key><real>"@, c.red@, "</real>"@, ""@, ""@)
        + kv_line("\t\t<key>Green Component</key><real>"@, c.green@, "</real>"@, ""@, ""@)
        + kv_line("\t\t<key>Blue Component</key><real>"@, c.blue@, "</real>"@, ""@, ""@)
        + "\t</dict>\n"@
}

/// The property-list entries for the first `n` colors of `cs`.
pub open spec fn iterm_body(cs: Seq<ItermComponents>, n: int) -> Seq<char>
    decreases n,
{
    if n <= 0 {
        Seq::empty()
    } else {
        iterm_body(cs, n - 1) + iterm_entry_text(cs[n - 1])
    }
}

/// The opening of an iTerm2 property list.
pub open spec fn plist_header() -> Seq<char> {
    "<?xml version=\"1.0\" encoding=\"UTF-8\"?>\n"@
        + "<!DOCTYPE plist PUBLIC \"-//Apple//DTD PLIST 1.0//EN\" \"http://www.apple.com/DTDs/PropertyList-1.0.dtd\">\n"@
        + "<plist version=\"1.0\">\n"@
        + "<dict>\n"@
}

/// The iTerm2 property list holding the colors `cs`.
pub open spec fn plist_text(cs: Seq<ItermComponents>) -> Seq<char> {
    plist_header() + iterm_body(cs, cs.len() as int) + "</dict>\n</plist>\n"@
}

/// Appends the property-list entry for `c` to `out`.
fn push_iterm_entry(out: &mut String, c: &ItermComponents)
    ensures
        final(out)@ == old(out)@ + iterm_entry_text(*c),
{
    let ghost start = out@;
    push_kv(out, "\t<key>", c.key.as_str(), "</key>", "", "");
    push_text(out, "\t<dict>\n");
    push_text(out, "\t\t<key>Color Space</key><string>sRGB</string>\n");
    push_kv(out, "\t\t<key>Red Component</key><real>", c.red.as_str(), "</real>", "", "");
    push_kv(out, "\t\t<key>Green Component</key><real>", c.green.as_str(), "</real>", "", "");
    push_kv(out, "\t\t<key>Blue Component</key><real>", c.blue.as_str(), "</real>", "", "");
    push_text(out, "\t</dict>\n");
    assert(out@ =~= start + iterm_entry_text(*c));
}

/// Writes the iTerm2 property list holding the colors `cs`.
pub fn iterm2_plist(cs: &Vec<ItermComponents>) -> (r: String)
    ensures
        r@ == plist_text(cs@),
{
    let mut out = String::new();
    push_text(&mut out, "<?xml version=\"1.0\" encoding=\"UTF-8\"?>\n");
    push_text(&mut out, "<!DOCTYPE plist PUBLIC \"-//Apple//DTD PLIST 1.0//EN\" \"http://www.apple.com/DTDs/PropertyList-1.0.dtd\">\n");
    push_text(&mut out, "<plist version=\"1.0\">\n");
    push_text(&mut out, "<dict>\n");
    let ghost start = out@;
    assert(start =~= plist_header());
    for i in 0..cs.len()
        invariant
            out@ == start + iterm_body(cs@, i as int),
    {
        push_iterm_entry(&mut out, &cs[i]);
        proof {
            assert(out@ =~= start + iterm_body(cs@, i + 1));
        }
    }
    push_text(&mut out, "</dict>\n</plist>\n");
    assert(out@ =~= plist_text(cs@));
    out
}


// ---------------------------------------------------------------------------
// Formats and messages
// ---------------------------------------------------------------------------

/// The formats a theme can be exported to.
#[derive(Debug, Clone, Copy, PartialEq, Eq)]
pub enum ExportFormat {
    /// A base16 scheme ([`export_base16`]).
    Base16,
    /// A kitty configuration ([`export_kitty`]).
    Kitty,
    /// An alacritty configuration ([`export_alacritty`]).
    Alacritty,
    /// A vim color scheme ([`export_vim`]).
    Vim,
    /// A helix theme ([`export_helix`]).
    Helix,
    /// A starship palette ([`export_starship`]).
    Starship,
    /// A VS Code color theme ([`export_vscode`]).
    Vscode,
    /// An iTerm2 color preset ([`export_iterm2`]).
    Iterm2,
    /// A tmux configuration ([`export_tmux`]).
    Tmux,
}

/// The format named exactly `s`, if any.
pub open spec fn format_named(s: Seq<char>) -> Option<ExportFormat> {
    if s == "base16"@ { Some(ExportFormat::Base16) }
    else if s == "kitty"@ { Some(ExportFormat::Kitty) }
    else if s == "alacritty"@ { Some(ExportFormat::Alacritty) }
    else if s == "vim"@ { Some(ExportFormat::Vim) }
    else if s == "helix"@ { Some(ExportFormat::Helix) }
    else if s == "starship"@ { Some(ExportFormat::Starship) }
    else if s == "vscode"@ { Some(ExportFormat::Vscode) }
    else if s == "iterm2"@ { Some(ExportFormat::Iterm2) }
    else if s == "tmux"@ { Some(ExportFormat::Tmux) }
    else { None }
}

impl ExportFormat {
    /// The format a user named: the name's lower-case form is one of
    /// `base16`, `kitty`, `alacritty`, `vim`, `helix`, `starship`,
    /// `vscode`, `iterm2` or `tmux`. Any other name is an unknown format.
    pub fn parse(name: &str) -> (r: Result<ExportFormat, ExportError>)
        ensures
            match format_named(crate::text::unicode_lower(name@)) {
                Some(f) => r == Ok::<ExportFormat, ExportError>(f),
                None => r matches Err(ExportError::UnknownFormat(x)) && x@ == name@,
            },
    {
        let lower = crate::text::to_lowercase(name);
        let l = lower.as_str();
        if crate::text::same_text(l, "base16") {
            Ok(ExportFormat::Base16)
        } else if crate::text::same_text(l, "kitty") {
            Ok(ExportFormat::Kitty)
        } else if crate::text::same_text(l, "alacritty") {
            Ok(ExportFormat::Alacritty)
        } else if crate::text::same_text(l, "vim") {
            Ok(ExportFormat::Vim)
        } else if crate::text::same_text(l, "helix") {
            Ok(ExportFormat::Helix)
        } else if crate::text::same_text(l, "starship") {
            Ok(ExportFormat::Starship)
        } else if crate::text::same_text(l, "vscode") {
            Ok(ExportFormat::Vscode)
        } else if crate::text::same_text(l, "iterm2") {
            Ok(ExportFormat::Iterm2)
        } else if crate::text::same_text(l, "tmux") {
            Ok(ExportFormat::Tmux)
        } else {
            Err(ExportError::UnknownFormat(String::from_str(name)))
        }
    }
}

/// The message that reports `e`.
pub open spec fn error_text(e: ExportError) -> Seq<char> {
    match e {
        ExportError::Unresolved(r) => "Could not resolve color reference: '"@ + r@ + "'"@,
        ExportError::InvalidHex(h) => "Invalid hex color: "@ + h@,
        ExportError::UnknownFormat(f) => "Unknown format: "@ + f@
            + ". Available formats: base16, kitty, alacritty, vim, helix, starship, vscode, iterm2, tmux"@,
    }
}

impl ExportError {
    /// The message that reports this error.
    pub fn message(&self) -> (r: String)
        ensures
            r@ == error_text(*self),
    {
        match self {
            ExportError::Unresolved(x) => {
                let mut s = String::from_str("Could not resolve color reference: '");
                s.append(x.as_str());
                s.append("'");
                s
            },
            ExportError::InvalidHex(x) => concat("Invalid hex color: ", x.as_str()),
            ExportError::UnknownFormat(x) => {
                let mut s = String::from_str("Unknown format: ");
                s.append(x.as_str());
                s.append(". Available formats: base16, kitty, alacritty, vim, helix, starship, vscode, iterm2, tmux");
                s
            },
        }
    }
}

} // verus!
