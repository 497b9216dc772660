use tca::theme::{Base24Slots, Theme, ThemeError};
use tca::HexColorError;

const MINIMAL_BASE24: &str = r#"
scheme: "Test Theme"
author: "Test Author"
base00: "1a1a1a"
base01: "222222"
base02: "333333"
base03: "666666"
base04: "888888"
base05: "fafafa"
base06: "e0e0e0"
base07: "ffffff"
base08: "cc0000"
base09: "ff8800"
base0a: "ffff00"
base0b: "00ff00"
base0c: "00ffff"
base0d: "0000ff"
base0e: "ff00ff"
base0f: "aa5500"
base10: "1a1a1a"
base11: "000000"
base12: "ff5555"
base13: "ffff55"
base14: "55ff55"
base15: "55ffff"
base16: "5555ff"
base17: "ff55ff"
"#;

fn test_theme() -> Theme {
    Theme::from_base24_str(MINIMAL_BASE24).unwrap()
}

#[test]
fn test_from_base24_str_name_and_author() {
    let t = test_theme();
    assert_eq!(t.meta.name, "Test Theme");
    assert_eq!(t.meta.author, "Test Author");
}

#[test]
fn test_from_base24_str_dark_detection() {
    let t = test_theme();
    assert!(t.meta.dark, "dark bg should be detected as dark theme");
}

#[test]
fn test_ansi_mapping() {
    let t = test_theme();
    assert_eq!(t.ansi.black, "#1a1a1a");
    assert_eq!(t.ansi.red, "#cc0000");
    assert_eq!(t.ansi.white, "#fafafa");
    assert_eq!(t.ansi.bright_black, "#666666");
    assert_eq!(t.ansi.bright_red, "#ff5555");
}

#[test]
fn test_semantic_mapping() {
    let t = test_theme();
    assert_eq!(t.semantic.error, "#cc0000");
    assert_eq!(t.semantic.warning, "#ff8800");
    assert_eq!(t.semantic.info, "#00ffff");
    assert_eq!(t.semantic.success, "#00ff00");
    assert_eq!(t.semantic.link, "#0000ff");
}

#[test]
fn test_ui_mapping() {
    let t = test_theme();
    assert_eq!(t.ui.bg.primary, "#1a1a1a");
    assert_eq!(t.ui.bg.secondary, "#222222");
    assert_eq!(t.ui.fg.primary, "#fafafa");
    assert_eq!(t.ui.fg.secondary, "#e0e0e0");
    assert_eq!(t.ui.fg.muted, "#888888");
    assert_eq!(t.ui.border.primary, "#333333");
    assert_eq!(t.ui.border.muted, "#222222");
    assert_eq!(t.ui.cursor.primary, "#fafafa");
    assert_eq!(t.ui.cursor.muted, "#888888");
    assert_eq!(t.ui.selection.bg, "#333333");
    assert_eq!(t.ui.selection.fg, "#fafafa");
}

#[test]
fn test_base16_fallbacks() {
    let src = MINIMAL_BASE24
        .lines()
        .filter(|l| !l.starts_with("base1"))
        .collect::<Vec<_>>()
        .join("\n");
    let t = Theme::from_base24_str(&src).unwrap();
    assert_eq!(t.ansi.bright_red, t.ansi.red);
}

#[test]
fn test_name_slug() {
    let t = test_theme();
    assert_eq!(t.name_slug(), "test-theme");
}

#[test]
fn test_to_filename() {
    let t = test_theme();
    assert_eq!(t.to_filename(), "test-theme.yaml");
}

#[test]
fn test_to_base24_str_round_trip() {
    let original = test_theme();
    let yaml = original.to_base24_str();
    let reloaded = Theme::from_base24_str(&yaml).unwrap();
    assert_eq!(reloaded.meta.name, original.meta.name);
    assert_eq!(reloaded.meta.dark, original.meta.dark);
    assert_eq!(reloaded.base24.base08, original.base24.base08);
    assert_eq!(reloaded.ansi.red, original.ansi.red);
    assert_eq!(reloaded.semantic.error, original.semantic.error);
}

#[test]
fn test_to_base24_str_format() {
    let t = test_theme();
    let yaml = t.to_base24_str();
    assert!(yaml.contains("scheme: \"Test Theme\""));
    assert!(yaml.contains("base00:"));
    assert!(yaml.contains("base17:"));
    assert!(!yaml.contains(": \"#"));
}

#[test]
fn base24_text_is_exact() {
    let t = test_theme();
    let yaml = t.to_base24_str();
    let mut lines = yaml.lines();
    assert_eq!(lines.next(), Some("scheme: \"Test Theme\""));
    assert_eq!(lines.next(), Some("author: \"Test Author\""));
    assert_eq!(lines.next(), Some("variant: \"dark\""));
    assert_eq!(lines.next(), Some("base00: \"1a1a1a\""));
    assert!(yaml.contains("base0A: \"ffff00\"\n"));
    assert!(yaml.contains("base0F: \"aa5500\"\n"));
    assert!(yaml.ends_with("base17: \"ff55ff\"\n"));
    assert_eq!(yaml.lines().count(), 27);
}

#[test]
fn round_trip_keeps_every_slot_and_author() {
    let original = test_theme();
    let reloaded = Theme::from_base24_str(&original.to_base24_str()).unwrap();
    assert_eq!(reloaded.base24, original.base24);
    assert_eq!(reloaded.meta.author, original.meta.author);
    assert_eq!(reloaded.ui.fg.muted, original.ui.fg.muted);
}

#[test]
fn round_trip_with_non_ascii_name() {
    let mut t = test_theme();
    t.meta.name = "Rosé Pine # dawn".to_string();
    let reloaded = Theme::from_base24_str(&t.to_base24_str()).unwrap();
    assert_eq!(reloaded.meta.name, "Rosé Pine # dawn");
}

#[test]
fn slots_are_normalized() {
    let src = MINIMAL_BASE24.replace("\"1a1a1a\"", "\"#1A1A1A\"");
    let t = Theme::from_base24_str(&src).unwrap();
    assert_eq!(t.base24.base00, "#1a1a1a");
    assert_eq!(t.ui.bg.primary, "#1a1a1a");
}

#[test]
fn missing_slot_is_reported() {
    let src = MINIMAL_BASE24.replace("base05: \"fafafa\"\n", "");
    match Theme::from_base24_str(&src) {
        Err(ThemeError::MissingSlot(k)) => assert_eq!(k, "base05"),
        other => panic!("unexpected: {:?}", other.map(|t| t.meta.name)),
    }
}

#[test]
fn invalid_slot_is_reported() {
    let src = MINIMAL_BASE24.replace("\"cc0000\"", "\"zz0000\"");
    match Theme::from_base24_str(&src) {
        Err(ThemeError::InvalidSlot(k, e)) => {
            assert_eq!(k, "base08");
            assert!(matches!(e, HexColorError::InvalidHex(_)));
        }
        other => panic!("unexpected: {:?}", other.map(|t| t.meta.name)),
    }
    let src = MINIMAL_BASE24.replace("\"cc0000\"", "\"cc00\"");
    match Theme::from_base24_str(&src) {
        Err(ThemeError::InvalidSlot(k, e)) => {
            assert_eq!(k, "base08");
            assert_eq!(e, HexColorError::InvalidLength(4));
        }
        other => panic!("unexpected: {:?}", other.map(|t| t.meta.name)),
    }
}

#[test]
fn name_defaults() {
    let src = MINIMAL_BASE24.replace("scheme: \"Test Theme\"\n", "name: \"Other\"\n");
    assert_eq!(Theme::from_base24_str(&src).unwrap().meta.name, "Other");
    let src = MINIMAL_BASE24
        .replace("scheme: \"Test Theme\"\n", "")
        .replace("author: \"Test Author\"\n", "");
    let t = Theme::from_base24_str(&src).unwrap();
    assert_eq!(t.meta.name, "Imported Theme");
    assert_eq!(t.meta.author, "");
}

#[test]
fn from_base24_slots_derives_fields() {
    let s = |h: &str| h.to_string();
    let slots = Base24Slots {
        base00: s("#fdf6e3"), base01: s("#eee8d5"), base02: s("#93a1a1"), base03: s("#839496"),
        base04: s("#657b83"), base05: s("#586e75"), base06: s("#073642"), base07: s("#002b36"),
        base08: s("#dc322f"), base09: s("#cb4b16"), base0a: s("#b58900"), base0b: s("#859900"),
        base0c: s("#2aa198"), base0d: s("#268bd2"), base0e: s("#6c71c4"), base0f: s("#d33682"),
        base10: s("#fdf6e3"), base11: s("#eee8d5"), base12: s("#dc322f"), base13: s("#b58900"),
        base14: s("#859900"), base15: s("#2aa198"), base16: s("#268bd2"), base17: s("#6c71c4"),
    };
    let t = Theme::from_base24_slots(slots);
    assert!(!t.meta.dark);
    assert_eq!(t.meta.name, "");
    assert_eq!(t.ansi.bright_blue, "#268bd2");
    assert_eq!(t.semantic.highlight, "#6c71c4");
    assert_eq!(t.ui.selection.bg, "#93a1a1");
}
