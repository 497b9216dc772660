use tca::loader::{find_theme_file_name, list_theme_names, list_themes, load_all_from_theme_dir};
use tca::util::ThemeFile;

fn names(v: &[&str]) -> Vec<String> {
    v.iter().map(|s| s.to_string()).collect()
}

#[test]
fn test_list_theme_names() {
    let names = list_theme_names(names(&["nord.toml", "tokyo-night.toml", "notes.txt"]));
    // Theme names should not have file extensions
    for name in names {
        assert!(!name.contains('.'));
    }
}

#[test]
fn test_list_themes() {
    let themes = list_themes(names(&["b.toml", "a.yaml", "a.toml", ".toml", "c.TOML"]));
    for theme_path in &themes {
        assert!(theme_path.ends_with(".toml"));
    }
    assert_eq!(themes, names(&["a.toml", "b.toml"]));
}

#[test]
fn theme_names_are_sorted_stems() {
    let got = list_theme_names(names(&["zeta.toml", "Alpha.toml", "alpha.toml", "a.b.toml"]));
    assert_eq!(got, names(&["Alpha", "a.b", "alpha", "zeta"]));
}

#[test]
fn find_theme_file_name_is_kebab_with_extension() {
    assert_eq!(find_theme_file_name("Nord Dark"), "nord-dark.toml");
    assert_eq!(find_theme_file_name("TokyoNight"), "tokyo-night.toml");
    assert_eq!(find_theme_file_name("nord.toml"), "nord.toml");
    assert_eq!(find_theme_file_name("Nord Dark.toml"), "nord-dark.toml");
}

#[test]
fn load_all_keeps_readable_toml_files() {
    let good = tca::BuiltinTheme::Nord.theme().to_base24_str();
    let files = vec![
        ThemeFile { name: "nord.toml".to_string(), text: good.clone() },
        ThemeFile { name: "nord.yaml".to_string(), text: good.clone() },
        ThemeFile { name: "broken.toml".to_string(), text: "scheme: \"x\"".to_string() },
    ];
    let themes = load_all_from_theme_dir(&files);
    assert_eq!(themes.len(), 1);
    assert_eq!(themes[0].meta.name, "Nord");
}
