use tca::builtin::ThemeMode;
use tca::theme::Theme;
use tca::tui::{
    Ansi, Color, ColorRamp, Meta, Semantic, Style, StyleSet, StyleSetCursor, TcaTheme,
    TcaThemeBuilder, TcaThemeCursor, TcaThemeError, Ui,
};
use tca::BuiltinTheme;

#[test]
fn test_color_ramp_get() {
    let ramp = ColorRamp {
        colors: vec![Color::Rgb(10, 10, 10), Color::Rgb(128, 128, 128), Color::Rgb(245, 245, 245)],
    };
    assert_eq!(ramp.get(0), Some(Color::Rgb(10, 10, 10)));
    assert_eq!(ramp.get(1), Some(Color::Rgb(128, 128, 128)));
    assert_eq!(ramp.get(2), Some(Color::Rgb(245, 245, 245)));
    assert_eq!(ramp.get(3), None);
}

#[test]
fn test_color_ramp_len() {
    let ramp = ColorRamp { colors: vec![Color::Red, Color::DarkGray, Color::White] };
    assert_eq!(ramp.len(), 3);
}

#[test]
fn test_color_ramp_empty() {
    let ramp = ColorRamp::default();
    assert!(ramp.is_empty());
    assert_eq!(ramp.get(0), None);
    assert_eq!(ramp.len(), 0);
}

#[test]
fn test_ansi_default() {
    let ansi = Ansi::default();
    assert_eq!(ansi.red, Color::Red);
    assert_eq!(ansi.green, Color::Green);
    assert_eq!(ansi.blue, Color::Blue);
    assert_eq!(ansi.black, Color::Black);
    assert_eq!(ansi.bright_white, Color::White);
}

#[test]
fn test_semantic_default() {
    let s = Semantic::default();
    assert_eq!(s.error, Color::Red);
    assert_eq!(s.warning, Color::Yellow);
    assert_eq!(s.info, Color::Blue);
    assert_eq!(s.success, Color::Green);
    assert_eq!(s.highlight, Color::Cyan);
    assert_eq!(s.link, Color::Blue);
}

#[test]
fn test_ui_default() {
    let ui = Ui::default();
    assert_eq!(ui.bg_primary, Color::Black);
    assert_eq!(ui.bg_secondary, Color::Black);
    assert_eq!(ui.fg_primary, Color::White);
    assert_eq!(ui.fg_secondary, Color::Gray);
    assert_eq!(ui.fg_muted, Color::DarkGray);
    assert_eq!(ui.border_primary, Color::White);
    assert_eq!(ui.border_muted, Color::DarkGray);
    assert_eq!(ui.cursor_primary, Color::White);
    assert_eq!(ui.cursor_muted, Color::Gray);
    assert_eq!(ui.selection_bg, Color::DarkGray);
    assert_eq!(ui.selection_fg, Color::White);
}

#[test]
fn test_builder_defaults() {
    let theme = TcaThemeBuilder::new().build();
    assert_eq!(theme.meta.name, "Unnamed Theme");
    assert_eq!(theme.semantic.error, Color::Red);
    assert_eq!(theme.ui.bg_primary, Color::Black);
    assert_eq!(theme.base24[0], Color::Reset);
}

#[test]
fn test_builder_override_semantic() {
    let theme = TcaThemeBuilder::new()
        .semantic(Semantic { error: Color::Rgb(255, 80, 80), ..Default::default() })
        .build();
    assert_eq!(theme.semantic.error, Color::Rgb(255, 80, 80));
    assert_eq!(theme.semantic.warning, Color::Yellow);
}

#[test]
fn test_builder_override_meta() {
    let theme = TcaThemeBuilder::new()
        .meta(Meta { name: "Custom".to_string(), dark: false, ..Default::default() })
        .build();
    assert_eq!(theme.meta.name, "Custom");
    assert!(!theme.meta.dark);
}

#[test]
fn test_theme_author() {
    let theme_with_author = TcaThemeBuilder::new()
        .meta(Meta {
            name: "Nord Dark".to_string(),
            author: "Arctic Ice Studio".to_string(),
            ..Default::default()
        })
        .build();
    assert_eq!(theme_with_author.meta.name, "Nord Dark");
    assert_eq!(theme_with_author.meta.author, "Arctic Ice Studio");

    let theme_no_author = TcaThemeBuilder::new().build();
    assert_eq!(theme_no_author.meta.author, "");
}

fn nord_yaml() -> &'static str {
    r#"
scheme: "Nord Dark"
author: "Arctic Ice Studio / TCA Project"
variant: "dark"
base00: "2e3440"
base01: "3b4252"
base02: "434c5e"
base03: "434c5e"
base04: "434c5e"
base05: "eceff4"
base06: "d8dee9"
base07: "eceff4"
base08: "bf616a"
base09: "ebcb8b"
base0A: "ebcb8b"
base0B: "a3be8c"
base0C: "8fbcbb"
base0D: "5e81ac"
base0E: "b48ead"
base0F: "bf616a"
base10: "2e3440"
base11: "000000"
base12: "bf616a"
base13: "ebcb8b"
base14: "a3be8c"
base15: "88c0d0"
base16: "81a1c1"
base17: "b48ead"
"#
}

#[test]
fn test_load_from_yaml_meta() {
    let theme = TcaTheme::from_base24_str(nord_yaml()).unwrap();
    assert_eq!(theme.meta.name, "Nord Dark");
    assert!(theme.meta.dark);
}

#[test]
fn test_load_ansi_hex_resolved() {
    let theme = TcaTheme::from_base24_str(nord_yaml()).unwrap();
    assert_eq!(theme.ansi.black, Color::Rgb(46, 52, 64));
    assert_eq!(theme.ansi.red, Color::Rgb(191, 97, 106));
}

#[test]
fn test_load_semantic() {
    let theme = TcaTheme::from_base24_str(nord_yaml()).unwrap();
    assert_eq!(theme.semantic.error, Color::Rgb(191, 97, 106));
    assert_eq!(theme.semantic.warning, Color::Rgb(235, 203, 139));
}

#[test]
fn test_load_ui() {
    let theme = TcaTheme::from_base24_str(nord_yaml()).unwrap();
    assert_eq!(theme.ui.bg_primary, Color::Rgb(46, 52, 64));
    assert_eq!(theme.ui.fg_primary, Color::Rgb(236, 239, 244));
}

#[test]
fn test_load_base24_slots() {
    let theme = TcaTheme::from_base24_str(nord_yaml()).unwrap();
    assert_eq!(theme.base24[0], Color::Rgb(46, 52, 64));
    assert_eq!(theme.base24[8], Color::Rgb(191, 97, 106));
    assert_eq!(theme.base24.len(), 24);
}

#[test]
fn test_load_invalid_yaml_errors() {
    let yaml = r#"
scheme: "Bad"
variant: "dark"
base00: "zzzzzz"
base01: "3b4252"
base02: "434c5e"
base03: "4c566a"
base04: "d8dee9"
base05: "e5e9f0"
base06: "eceff4"
base07: "8fbcbb"
base08: "bf616a"
base09: "d08770"
base0A: "ebcb8b"
base0B: "a3be8c"
base0C: "88c0d0"
base0D: "81a1c1"
base0E: "b48ead"
base0F: "5e81ac"
base10: "2e3440"
base11: "3b4252"
base12: "bf616a"
base13: "ebcb8b"
base14: "a3be8c"
base15: "88c0d0"
base16: "81a1c1"
base17: "b48ead"
"#;
    assert!(TcaTheme::from_base24_str(yaml).is_err());
}

#[test]
fn ansi_get_by_name() {
    let a = Ansi::default();
    assert_eq!(a.get("red"), Some(Color::Red));
    assert_eq!(a.get("bright_black"), Some(Color::DarkGray));
    assert_eq!(a.get("purple"), None);
}

#[test]
fn from_theme_rejects_bad_ansi_and_defaults_others() {
    let mut raw: Theme = BuiltinTheme::Nord.theme();
    raw.semantic.info = "not a color".to_string();
    raw.base24.base03 = "#12".to_string();
    let t = TcaTheme::from_theme(raw.clone()).unwrap();
    assert_eq!(t.semantic.info, Color::Blue);
    assert_eq!(t.base24[3], Color::Reset);
    raw.ansi.green = "#xyzxyz".to_string();
    raw.ansi.blue = "oops".to_string();
    match TcaTheme::from_theme(raw) {
        Err(TcaThemeError::InvalidAnsi(v)) => assert_eq!(v, "#xyzxyz"),
        _ => panic!("expected the first bad ANSI color"),
    }
}

#[test]
fn tca_theme_slug_and_file_name() {
    let t = TcaTheme::from_base24_str(nord_yaml()).unwrap();
    assert_eq!(t.name_slug(), "nord-dark");
    assert_eq!(t.to_filename(), "nord-dark.yaml");
}

#[test]
fn tca_theme_new_and_light_default() {
    let t = TcaTheme::new(Some("tokyo-night"), None, None, None);
    assert_eq!(t.meta.name, "Tokyo Night");
    assert_eq!(t.ui.bg_primary, Color::Rgb(0x1a, 0x1b, 0x26));
    let t = TcaTheme::from_default_light_cfg(None, None);
    assert_eq!(t.meta.name, "Solarized Light");
    assert!(!t.meta.dark);
    let t = TcaTheme::new(None, None, None, Some(ThemeMode::Dark));
    assert_eq!(t.meta.name, "Dracula");
}

#[test]
fn tca_cursor_over_builtins() {
    let mut c = TcaThemeCursor::with_builtins();
    assert_eq!(c.len(), 11);
    assert_eq!(c.peek().unwrap().meta.name, "Catppuccin Mocha");
    assert_eq!(c.prev().unwrap().meta.name, "Tokyo Night");
    assert_eq!(c.set_current("RosePine").unwrap().meta.name, "Rose Pine");
    assert!(c.set_current("nothing").is_none());
    assert_eq!(c.peek().unwrap().meta.name, "Rose Pine");
}

#[test]
fn style_set_from_theme() {
    let t = TcaTheme::from_base24_str(nord_yaml()).unwrap();
    let s = StyleSet::from_theme(t.clone());
    assert_eq!(s.name, "Nord Dark");
    assert!(s.is_dark);
    assert_eq!(s.primary, Style { fg: Some(t.ui.fg_primary), bg: Some(t.ui.bg_primary) });
    assert_eq!(s.secondary, Style { fg: Some(t.ui.fg_secondary), bg: Some(t.ui.bg_secondary) });
    assert_eq!(s.selection, Style { fg: Some(t.ui.selection_fg), bg: Some(t.ui.selection_bg) });
    assert_eq!(s.error, Style { fg: Some(t.semantic.error), bg: Some(t.ui.bg_primary) });
    assert!(s.get_custom("anything").is_none());
}

#[test]
fn style_set_custom_styles() {
    let mut s = StyleSet::from_theme(TcaThemeBuilder::new().build());
    let a = Style::default().fg(Color::Red);
    let b = Style::default().bg(Color::Blue);
    s.insert_custom("title".to_string(), a);
    s.insert_custom("status".to_string(), b);
    assert_eq!(s.get_custom("title"), Some(&a));
    s.insert_custom("title".to_string(), b);
    assert_eq!(s.get_custom("title"), Some(&b));
    assert_eq!(s.get_custom("status"), Some(&b));
    assert_eq!(s.get_custom("missing"), None);
}

#[test]
fn style_set_cursor_cycles() {
    let mut c = StyleSetCursor::with_builtins();
    assert_eq!(c.len(), 11);
    assert!(!c.is_empty());
    assert_eq!(c.peek().unwrap().name, "Catppuccin Mocha");
    assert_eq!(c.next().unwrap().name, "Cyberpunk");
    assert_eq!(c.prev().unwrap().name, "Catppuccin Mocha");
    assert_eq!(c.set_current("solarized light").unwrap().name, "Solarized Light");
    let empty = StyleSetCursor::new(vec![]);
    assert!(empty.is_empty());
    assert!(empty.peek().is_none());
}

#[test]
fn style_set_from_name() {
    let s = StyleSet::from_name(Some("Tokyo Night"), None, None, None);
    assert_eq!(s.name, "Tokyo Night");
}

#[test]
fn style_set_for_default_light_config() {
    let s = StyleSet::from_default_light_cfg(None, None);
    let t = TcaTheme::from_theme(BuiltinTheme::SolarizedLight.theme()).unwrap();
    assert_eq!(s.name, t.meta.name);
    assert_eq!(s.author, t.meta.author);
    assert!(!s.is_dark);
    assert_eq!(s.primary, Style::default().bg(t.ui.bg_primary).fg(t.ui.fg_primary));
    assert_eq!(s.selection, Style::default().bg(t.ui.selection_bg).fg(t.ui.selection_fg));
    let s = StyleSet::from_default_light_cfg(Some("Nord"), None);
    assert_eq!(s.name, BuiltinTheme::Nord.theme().meta.name);
}

#[test]
fn style_set_from_name_has_every_style() {
    let s = StyleSet::from_name(Some("Dracula"), None, None, None);
    let t = TcaTheme::from_theme(BuiltinTheme::Dracula.theme()).unwrap();
    assert_eq!(s.author, t.meta.author);
    assert_eq!(s.secondary, Style::default().bg(t.ui.bg_secondary).fg(t.ui.fg_secondary));
    assert_eq!(s.warning, Style::default().bg(t.ui.bg_primary).fg(t.semantic.warning));
    assert!(s.get_custom("anything").is_none());
}
