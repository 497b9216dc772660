//! Finding a theme by name: theme files first, then built-in themes, then
//! the user's preference, then a default for the terminal's mode.
use vstd::prelude::*;
use crate::base24::scheme_map;
use crate::builtin::{
    BuiltinTheme, ThemeMode, builtin_author, builtin_by_slug, builtin_name, builtin_slots, builtin_slug,
};
use crate::text::{kebab_case, to_kebab_case};
use crate::theme::{Theme, resolved_slots, scheme_author, scheme_name, slots_ok};

verus! {

/// The built-in theme named `name` in any common case style (`"Tokyo Night"`,
/// `"tokyo-night"` and `"TokyoNight"` all name the same theme).
pub open spec fn builtin_named(name: Seq<char>) -> Option<BuiltinTheme> {
    builtin_by_slug(kebab_case(name))
}

/// The built-in theme named `name` in any common case style.
pub fn builtin_for_name(name: &str) -> (r: Option<BuiltinTheme>)
    ensures
        r == builtin_named(name@),
{
    let slug = to_kebab_case(name);
    BuiltinTheme::from_slug(slug.as_str())
}

/// The built-in theme chosen when no theme file is used: the one `name`
/// names, else the one the user's preference `configured` names (its slug, in
/// any ASCII case), else the default for the terminal mode.
pub open spec fn fallback_builtin(
    name: Option<Seq<char>>,
    configured: Option<Seq<char>>,
    mode: Option<ThemeMode>,
) -> BuiltinTheme {
    if name is Some && builtin_named(name->0) is Some {
        builtin_named(name->0)->0
    } else if configured is Some && builtin_by_slug(configured->0) is Some {
        builtin_by_slug(configured->0)->0
    } else if mode == Some(ThemeMode::Light) {
        BuiltinTheme::SolarizedLight
    } else {
        BuiltinTheme::Dracula
    }
}

/// The text of a theme file that reads as a complete theme.
pub open spec fn usable_file(text: Option<&str>) -> bool {
    text is Some && slots_ok(scheme_map(text->0@))
}

/// The view of an optional string slice.
pub open spec fn opt_view(s: Option<&str>) -> Option<Seq<char>> {
    match s {
        Some(t) => Some(t@),
        None => None,
    }
}

/// The slots, name and author of the theme that [`Theme::from_name`] gives.
pub open spec fn named_model(
    name: Option<&str>,
    file_text: Option<&str>,
    configured: Option<&str>,
    mode: Option<ThemeMode>,
) -> (Seq<Seq<char>>, Seq<char>, Seq<char>) {
    if name is Some && usable_file(file_text) {
        let m = scheme_map(file_text->0@);
        (resolved_slots(m), scheme_name(m), scheme_author(m))
    } else {
        let b = fallback_builtin(opt_view(name), opt_view(configured), mode);
        (builtin_slots(b), builtin_name(b), builtin_author(b))
    }
}

impl Theme {
    /// The theme for an optional name, searching in order:
    ///
    /// 1. The theme file found for the name, whose text is `file_text`.
    /// 2. The built-in theme of that name, in any common case style.
    /// 3. The built-in theme that the user's preference `configured` names.
    /// 4. The built-in default for the terminal `mode`: the light default on a
    ///    light terminal, else the dark default.
    pub fn from_name(
        name: Option<&str>,
        file_text: Option<&str>,
        configured: Option<&str>,
        mode: Option<ThemeMode>,
    ) -> (r: Theme)
        ensures
            name is Some && usable_file(file_text) ==> r.models(
                resolved_slots(scheme_map(file_text->0@)),
                scheme_name(scheme_map(file_text->0@)),
                scheme_author(scheme_map(file_text->0@)),
            ),
            !(name is Some && usable_file(file_text)) ==> ({
                let b = fallback_builtin(opt_view(name), opt_view(configured), mode);
                r.models(builtin_slots(b), builtin_name(b), builtin_author(b))
            }),
            ({
                let (vs, n, a) = named_model(name, file_text, configured, mode);
                r.models(vs, n, a)
            }),
    {
        if let Some(n) = name {
            if let Some(text) = file_text {
                if let Ok(t) = Theme::from_base24_str(text) {
                    return t;
                }
            }
            if let Some(b) = builtin_for_name(n) {
                return b.theme();
            }
        }
        if let Some(c) = configured {
            if let Some(b) = BuiltinTheme::from_slug(c) {
                return b.theme();
            }
        }
        BuiltinTheme::for_mode(mode).theme()
    }
}

/// A name whose kebab-case slug is a built-in theme's slug, with no usable
/// theme file, selects that built-in theme: [`Theme::from_name`] gives it
/// (its slots, name and author) whatever the preference and mode, so
/// `Tokyo Night`, `tokyo-night` and `TokyoNight` all give Tokyo Night.
pub proof fn law_builtin_by_name(
    name: &str,
    file_text: Option<&str>,
    configured: Option<&str>,
    mode: Option<ThemeMode>,
    b: BuiltinTheme,
)
    requires
        !usable_file(file_text),
        kebab_case(name@) == builtin_slug(b),
    ensures
        named_model(Some(name), file_text, configured, mode) == (
            builtin_slots(b),
            builtin_name(b),
            builtin_author(b),
        ),
{
    crate::builtin::lemma_slug_selects(b);
}

/// With no usable theme file and no built-in theme of the given name (or no
/// name at all), the user's preference, when it is the slug of a built-in
/// theme, selects that theme whatever the terminal mode.
pub proof fn law_configured_preference(
    name: Option<&str>,
    file_text: Option<&str>,
    configured: &str,
    mode: Option<ThemeMode>,
    b: BuiltinTheme,
)
    requires
        !usable_file(file_text),
        name matches Some(n) ==> builtin_by_slug(kebab_case(n@)) is None,
        builtin_by_slug(configured@) == Some(b),
    ensures
        named_model(name, file_text, Some(configured), mode) == (
            builtin_slots(b),
            builtin_name(b),
            builtin_author(b),
        ),
{
}

/// With no usable theme file, no built-in of the given name and no usable
/// preference, the theme is the terminal mode's default: Solarized Light on
/// a light terminal, Dracula otherwise.
pub proof fn law_mode_default(
    name: Option<&str>,
    file_text: Option<&str>,
    configured: Option<&str>,
    mode: Option<ThemeMode>,
)
    requires
        !usable_file(file_text),
        name matches Some(n) ==> builtin_by_slug(kebab_case(n@)) is None,
        configured matches Some(c) ==> builtin_by_slug(c@) is None,
    ensures
        mode == Some(ThemeMode::Light) ==> named_model(name, file_text, configured, mode) == (
            builtin_slots(BuiltinTheme::SolarizedLight),
            builtin_name(BuiltinTheme::SolarizedLight),
            builtin_author(BuiltinTheme::SolarizedLight),
        ),
        mode != Some(ThemeMode::Light) ==> named_model(name, file_text, configured, mode) == (
            builtin_slots(BuiltinTheme::Dracula),
            builtin_name(BuiltinTheme::Dracula),
            builtin_author(BuiltinTheme::Dracula),
        ),
{
}

/// A theme file that reads as a complete theme wins whenever a name is given:
/// the theme is the one the file's text describes.
pub proof fn law_file_first(
    name: &str,
    file_text: &str,
    configured: Option<&str>,
    mode: Option<ThemeMode>,
)
    requires
        slots_ok(scheme_map(file_text@)),
    ensures
        named_model(Some(name), Some(file_text), configured, mode) == (
            resolved_slots(scheme_map(file_text@)),
            scheme_name(scheme_map(file_text@)),
            scheme_author(scheme_map(file_text@)),
        ),
{
}

} // verus!
