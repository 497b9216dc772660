use tca::builtin::ThemeMode;
use tca::lookup::builtin_for_name;
use tca::theme::Theme;
use tca::BuiltinTheme;

const FILE: &str = "scheme: \"From File\"\nbase00: \"000000\"\nbase01: \"111111\"\nbase02: \"222222\"\nbase03: \"333333\"\nbase04: \"444444\"\nbase05: \"555555\"\nbase06: \"666666\"\nbase07: \"777777\"\nbase08: \"888888\"\nbase09: \"999999\"\nbase0a: \"aaaaaa\"\nbase0b: \"bbbbbb\"\nbase0c: \"cccccc\"\nbase0d: \"dddddd\"\nbase0e: \"eeeeee\"\nbase0f: \"ffffff\"\n";

#[test]
fn name_in_any_case_style_finds_builtin() {
    assert_eq!(builtin_for_name("Tokyo Night"), Some(BuiltinTheme::TokyoNight));
    assert_eq!(builtin_for_name("tokyo-night"), Some(BuiltinTheme::TokyoNight));
    assert_eq!(builtin_for_name("TokyoNight"), Some(BuiltinTheme::TokyoNight));
    assert_eq!(builtin_for_name("Unknown Theme"), None);
}

#[test]
fn from_name_prefers_theme_file() {
    let t = Theme::from_name(Some("nord"), Some(FILE), None, None);
    assert_eq!(t.meta.name, "From File");
    assert_eq!(t.base24.base10, "#000000");
}

#[test]
fn from_name_falls_back_to_builtin_when_file_is_bad() {
    let t = Theme::from_name(Some("Nord"), Some("scheme: \"Broken\"\n"), None, None);
    assert_eq!(t.meta.name, "Nord");
}

#[test]
fn from_name_uses_configured_then_mode() {
    let t = Theme::from_name(None, None, Some("gruvbox-dark"), Some(ThemeMode::Light));
    assert_eq!(t.meta.name, "Gruvbox Dark");
    let t = Theme::from_name(Some("no such theme"), None, Some("Gruvbox Dark"), None);
    assert_eq!(t.meta.name, "Dracula");
    let t = Theme::from_name(None, None, None, Some(ThemeMode::Light));
    assert_eq!(t.meta.name, "Solarized Light");
    let t = Theme::from_name(None, None, None, None);
    assert_eq!(t.meta.name, "Dracula");
}

#[test]
fn from_name_ignores_file_without_name() {
    let t = Theme::from_name(None, Some(FILE), None, Some(ThemeMode::Dark));
    assert_eq!(t.meta.name, "Dracula");
}

#[test]
fn builtin_names_in_any_case_style_select_the_builtin() {
    let want = BuiltinTheme::TokyoNight.theme();
    for n in ["Tokyo Night", "tokyo-night", "TokyoNight", "tokyo_night"] {
        let t = Theme::from_name(Some(n), None, Some("nord"), Some(ThemeMode::Light));
        assert_eq!(t.meta.name, want.meta.name);
        assert_eq!(t.base24, want.base24);
        assert_eq!(t.ui.bg.primary, want.ui.bg.primary);
    }
}
