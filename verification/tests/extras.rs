use tca::hex::{hex_to_rgb, normalize_hex, HexColorError};
use tca::config::{TcaConfig, TcaSection};
use tca::theme::Theme;
use tca::theme_order::sort_themes;
use tca::util::{has_extension, select_repo_entries, theme_file_name, RepoEntry};
use tca::BuiltinTheme;

fn renamed(name: &str) -> Theme {
    let mut t = BuiltinTheme::Mono.theme();
    t.meta.name = name.to_string();
    t
}

#[test]
fn themes_compare_by_slug() {
    assert!(renamed("Nord Dark") == renamed("nord-dark"));
    assert!(renamed("Nord Dark") != renamed("Nord"));
    assert!(renamed("Alpha") < renamed("beta"));
    assert!(renamed("Zeta") > renamed("alpha"));
}

#[test]
fn sort_themes_orders_by_slug_and_keeps_all() {
    let sorted = sort_themes(vec![renamed("Tokyo Night"), renamed("Alpha"), renamed("nord"), renamed("alpha")]);
    let names: Vec<&str> = sorted.iter().map(|t| t.meta.name.as_str()).collect();
    assert_eq!(names, vec!["Alpha", "alpha", "nord", "Tokyo Night"]);
}

#[test]
fn config_summary_and_set() {
    let mut c = TcaConfig { tca: TcaSection { default_theme: None, default_dark_theme: None, default_light_theme: None } };
    assert!(c.set("default_dark", "nord".to_string()));
    assert!(!c.set("favourite", "x".to_string()));
    assert_eq!(c.tca.default_dark_theme.as_deref(), Some("nord"));
    assert_eq!(
        c.summary(),
        "default: \"None\"\ndefault_dark: \"nord\"\ndefault_light: \"None\""
    );
    assert!(c.set("default", "Say \"hi\"".to_string()));
    assert!(c.summary().starts_with("default: \"Say \\\"hi\\\"\"\n"));
}

#[test]
fn theme_file_names() {
    assert_eq!(theme_file_name("Tokyo Night"), "tokyo-night.yaml");
    assert_eq!(theme_file_name("tokyoNight"), "tokyo-night.yaml");
    assert_eq!(theme_file_name("nord.yaml"), "nord.yaml");
    assert_eq!(theme_file_name("nord.toml"), "nord-toml.yaml");
    assert!(has_extension("a.yaml", "yaml"));
    assert!(!has_extension(".yaml", "yaml"));
    assert!(!has_extension("a.yml", "yaml"));
}

#[test]
fn repo_selection() {
    let e = |n: &str, f: bool| RepoEntry { name: n.to_string(), is_file: f };
    let entries = vec![e("nord.yaml", true), e("dir", false), e("dracula.yaml", true), e("extra.yaml", true)];
    let wanted = vec!["dracula.yaml".to_string(), "nord.yaml".to_string(), "missing.yaml".to_string(), "missing.yaml".to_string()];
    let s = select_repo_entries(&entries, &wanted);
    assert_eq!(s.save, vec![0, 2]);
    assert_eq!(s.not_found, vec!["missing.yaml".to_string()]);
}

#[test]
fn resolve_color_references() {
    let t = BuiltinTheme::TokyoNight.theme();
    assert_eq!(t.resolve("#ff0000").as_deref(), Some("#ff0000"));
    assert_eq!(t.resolve("base24.base08").as_deref(), Some("#f7768e"));
    assert_eq!(t.resolve("base24.BASE0E").as_deref(), Some("#bb9af7"));
    assert_eq!(t.resolve("Base24.base17").as_deref(), Some("#bb9af7"));
    assert_eq!(t.resolve("base24.unknown"), None);
    assert_eq!(t.resolve("red"), None);
}

#[test]
fn non_hex_characters_are_invalid_hex() {
    assert!(matches!(hex_to_rgb("+f+f+f"), Err(HexColorError::InvalidHex(_))));
    assert!(matches!(hex_to_rgb("#+f+f+f"), Err(HexColorError::InvalidHex(_))));
    assert!(matches!(hex_to_rgb("aé123"), Err(HexColorError::InvalidHex(_))));
    assert!(matches!(normalize_hex("+fffff"), Err(HexColorError::InvalidHex(_))));
    assert!(matches!(normalize_hex("aé123"), Err(HexColorError::InvalidHex(_))));
    assert_eq!(hex_to_rgb("#0a0B0c"), Ok((10, 11, 12)));
    let mut t = BuiltinTheme::Nord.theme();
    t.ansi.red = "aé234".to_string();
    assert!(tca::tui::TcaTheme::from_theme(t).is_err());
}
