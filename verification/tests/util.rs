use tca::theme::Theme;
use tca::util::{all_from_dir, all_themes, builtin_themes, merge_themes, ThemeFile};
use tca::BuiltinTheme;

fn named(b: BuiltinTheme, name: &str, author: &str) -> Theme {
    let mut t = b.theme();
    t.meta.name = name.to_string();
    t.meta.author = author.to_string();
    t
}

#[test]
fn builtin_themes_in_declaration_order() {
    let ts = builtin_themes();
    assert_eq!(ts.len(), 11);
    assert_eq!(ts[0].meta.name, "Catppuccin Mocha");
    assert_eq!(ts[10].meta.name, "Tokyo Night");
}

#[test]
fn last_user_theme_of_a_name_wins() {
    let user = vec![
        named(BuiltinTheme::Nord, "Mine", "first"),
        named(BuiltinTheme::Nord, "Other", "x"),
        named(BuiltinTheme::Nord, "Mine", "second"),
    ];
    let merged = merge_themes(user, vec![]);
    let names: Vec<(&str, &str)> =
        merged.iter().map(|t| (t.meta.name.as_str(), t.meta.author.as_str())).collect();
    assert_eq!(names, vec![("Other", "x"), ("Mine", "second")]);
}

#[test]
fn user_theme_overrides_builtin_of_same_name() {
    let user = vec![named(BuiltinTheme::Mono, "Nord", "me")];
    let all = all_themes(user);
    assert_eq!(all.len(), 11);
    let nords: Vec<&Theme> = all.iter().filter(|t| t.meta.name == "Nord").collect();
    assert_eq!(nords.len(), 1);
    assert_eq!(nords[0].meta.author, "me");
}

#[test]
fn all_from_dir_reads_yaml_files_only() {
    let text = BuiltinTheme::Dracula.theme().to_base24_str();
    let files = vec![
        ThemeFile { name: "dracula.yaml".to_string(), text: text.clone() },
        ThemeFile { name: "dracula.toml".to_string(), text: text.clone() },
        ThemeFile { name: ".yaml".to_string(), text: text.clone() },
        ThemeFile { name: "bad.yaml".to_string(), text: "nope".to_string() },
    ];
    let ts = all_from_dir(&files);
    assert_eq!(ts.len(), 1);
    assert_eq!(ts[0].meta.name, "Dracula");
}
