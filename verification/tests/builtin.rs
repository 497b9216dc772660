use tca::builtin::{BuiltinTheme, ThemeMode};

#[test]
fn all_builtin_themes_load_without_panic() {
    for variant in BuiltinTheme::iter() {
        let theme = variant.theme();
        assert!(!theme.meta.name.is_empty(), "{variant:?} has empty name");
    }
}

#[test]
fn builtin_list_and_slugs() {
    let all = BuiltinTheme::iter();
    assert_eq!(all.len(), 11);
    let slugs: Vec<&str> = all.iter().map(|b| b.slug()).collect();
    assert_eq!(
        slugs,
        vec![
            "catppuccin-mocha", "cyberpunk", "dracula", "everforest-dark", "gruvbox-dark", "mono",
            "nord", "one-dark", "rose-pine", "solarized-light", "tokyo-night"
        ]
    );
}

#[test]
fn builtin_styles_match_documentation() {
    for b in BuiltinTheme::iter() {
        let t = b.theme();
        assert_eq!(t.meta.dark, b != BuiltinTheme::SolarizedLight, "{b:?}");
    }
}

#[test]
fn tokyo_night_matches_documented_colors() {
    let t = BuiltinTheme::TokyoNight.theme();
    assert_eq!(t.meta.name, "Tokyo Night");
    assert_eq!(t.meta.author, "Enkia");
    assert_eq!(t.semantic.error, "#f7768e");
    assert_eq!(t.semantic.warning, "#ff9e64");
    assert_eq!(t.semantic.info, "#7dcfff");
    assert_eq!(t.semantic.success, "#9ece6a");
    assert_eq!(t.semantic.link, "#7aa2f7");
    assert_eq!(t.ui.bg.primary, "#1a1b26");
    assert_eq!(t.base24.base08, "#f7768e");
    assert_eq!(t.base24.base17, "#bb9af7");
}

#[test]
fn from_slug_ignores_ascii_case() {
    assert_eq!(BuiltinTheme::from_slug("tokyo-night"), Some(BuiltinTheme::TokyoNight));
    assert_eq!(BuiltinTheme::from_slug("Tokyo-Night"), Some(BuiltinTheme::TokyoNight));
    assert_eq!(BuiltinTheme::from_slug("NORD"), Some(BuiltinTheme::Nord));
    assert_eq!(BuiltinTheme::from_slug("tokyo night"), None);
    assert_eq!(BuiltinTheme::from_slug(""), None);
}

#[test]
fn defaults() {
    assert_eq!(BuiltinTheme::default(), BuiltinTheme::Dracula);
    assert_eq!(BuiltinTheme::default_light(), BuiltinTheme::SolarizedLight);
    assert_eq!(BuiltinTheme::for_mode(Some(ThemeMode::Light)), BuiltinTheme::SolarizedLight);
    assert_eq!(BuiltinTheme::for_mode(Some(ThemeMode::Dark)), BuiltinTheme::Dracula);
    assert_eq!(BuiltinTheme::for_mode(None), BuiltinTheme::Dracula);
}

#[test]
fn builtin_round_trips_through_base24_text() {
    for b in BuiltinTheme::iter() {
        let t = b.theme();
        let back = tca::theme::Theme::from_base24_str(&t.to_base24_str()).unwrap();
        assert_eq!(back.base24, t.base24);
        assert_eq!(back.meta.name, t.meta.name);
        assert_eq!(back.meta.author, t.meta.author);
        assert_eq!(back.meta.dark, t.meta.dark);
    }
}
