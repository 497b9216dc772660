use tca::cursor::ThemeCursor;
use tca::theme::Theme;

fn make_theme(name: &str) -> Theme {
    let yaml = format!(
        r#"scheme: "{name}"
author: "test"
base00: "1c1c1c"
base01: "2c2c2c"
base02: "3c3c3c"
base03: "555753"
base04: "888a85"
base05: "eeeeec"
base06: "d3d7cf"
base07: "eeeeec"
base08: "cc0000"
base09: "c4a000"
base0A: "c4a000"
base0B: "4e9a06"
base0C: "06989a"
base0D: "3465a4"
base0E: "75507b"
base0F: "cc0000"
base10: "1c1c1c"
base11: "000000"
base12: "ef2929"
base13: "fce94f"
base14: "8ae234"
base15: "34e2e2"
base16: "729fcf"
base17: "ad7fa8"
"#
    );
    Theme::from_base24_str(&yaml).expect("test theme YAML is invalid")
}

fn cursor_with_names(names: &[&str]) -> ThemeCursor<Theme> {
    ThemeCursor::new(names.iter().map(|n| make_theme(n)).collect())
}

fn name(t: Option<&Theme>) -> &str {
    t.map(|t| t.meta.name.as_str()).unwrap_or("<none>")
}

#[test]
fn empty_cursor() {
    let mut c = ThemeCursor::<Theme>::new(vec![]);
    assert_eq!(c.len(), 0);
    assert!(c.is_empty());
    assert!(c.peek().is_none());
    assert!(c.next().is_none());
    assert!(c.prev().is_none());
    assert!(c.themes().is_empty());
}

#[test]
fn single_peek_returns_only_theme() {
    let c = cursor_with_names(&["Alpha"]);
    assert_eq!(name(c.peek()), "Alpha");
}

#[test]
fn single_next_wraps_to_itself() {
    let mut c = cursor_with_names(&["Alpha"]);
    assert_eq!(name(c.next()), "Alpha");
    assert_eq!(name(c.next()), "Alpha");
}

#[test]
fn single_prev_wraps_to_itself() {
    let mut c = cursor_with_names(&["Alpha"]);
    assert_eq!(name(c.prev()), "Alpha");
    assert_eq!(name(c.prev()), "Alpha");
}

#[test]
fn peek_returns_first_on_creation() {
    let c = cursor_with_names(&["Alpha", "Beta", "Gamma"]);
    assert_eq!(name(c.peek()), "Alpha");
}

#[test]
fn next_advances_through_all_themes() {
    let mut c = cursor_with_names(&["Alpha", "Beta", "Gamma"]);
    assert_eq!(name(c.next()), "Beta");
    assert_eq!(name(c.next()), "Gamma");
}

#[test]
fn next_wraps_from_last_to_first() {
    let mut c = cursor_with_names(&["Alpha", "Beta", "Gamma"]);
    c.next();
    c.next();
    assert_eq!(name(c.next()), "Alpha");
}

#[test]
fn prev_wraps_from_first_to_last() {
    let mut c = cursor_with_names(&["Alpha", "Beta", "Gamma"]);
    assert_eq!(name(c.prev()), "Gamma");
}

#[test]
fn prev_retreats_in_order() {
    let mut c = cursor_with_names(&["Alpha", "Beta", "Gamma"]);
    c.next();
    c.next();
    assert_eq!(name(c.prev()), "Beta");
    assert_eq!(name(c.prev()), "Alpha");
}

#[test]
fn next_then_prev_returns_to_start() {
    let mut c = cursor_with_names(&["Alpha", "Beta", "Gamma"]);
    c.next();
    c.prev();
    assert_eq!(name(c.peek()), "Alpha");
}

#[test]
fn full_cycle_forward_returns_to_start() {
    let mut c = cursor_with_names(&["Alpha", "Beta", "Gamma"]);
    c.next();
    c.next();
    c.next();
    assert_eq!(name(c.peek()), "Alpha");
}

#[test]
fn full_cycle_backward_returns_to_start() {
    let mut c = cursor_with_names(&["Alpha", "Beta", "Gamma"]);
    c.prev();
    c.prev();
    c.prev();
    assert_eq!(name(c.peek()), "Alpha");
}

#[test]
fn themes_returns_all_in_order() {
    let c = cursor_with_names(&["Alpha", "Beta", "Gamma"]);
    let names: Vec<&str> = c.themes().iter().map(|t| t.meta.name.as_str()).collect();
    assert_eq!(names, vec!["Alpha", "Beta", "Gamma"]);
}

#[test]
fn with_builtins_is_non_empty() {
    let c = ThemeCursor::with_builtins();
    assert!(!c.is_empty());
    assert!(c.peek().is_some());
}

#[test]
fn with_builtins_can_cycle() {
    let mut c = ThemeCursor::with_builtins();
    let first = c.peek().unwrap().meta.name.clone();
    for _ in 0..c.len() {
        c.next();
    }
    assert_eq!(c.peek().unwrap().meta.name, first);
}

#[test]
fn set_index_moves_and_rejects_out_of_range() {
    let mut c = cursor_with_names(&["Alpha", "Beta", "Gamma"]);
    assert_eq!(name(c.set_index(2)), "Gamma");
    assert!(c.set_index(3).is_none());
    assert_eq!(name(c.peek()), "Gamma");
    assert_eq!(c.position(), 2);
}

#[test]
fn set_current_matches_any_case_style() {
    let mut c = cursor_with_names(&["Nord Dark", "Tokyo Night", "One Dark"]);
    assert_eq!(name(c.set_current("tokyo-night")), "Tokyo Night");
    assert_eq!(name(c.set_current("NordDark")), "Nord Dark");
    assert_eq!(name(c.set_current("one dark")), "One Dark");
    assert!(c.set_current("solarized").is_none());
    assert_eq!(name(c.peek()), "One Dark");
}

#[test]
fn with_user_themes_keeps_order() {
    let c = ThemeCursor::with_user_themes(vec![make_theme("B"), make_theme("A")]);
    assert_eq!(name(c.peek()), "B");
    assert_eq!(c.len(), 2);
}

#[test]
fn with_all_themes_user_overrides_builtin() {
    let c = ThemeCursor::with_all_themes(vec![make_theme("Dracula"), make_theme("Mine")]);
    assert_eq!(c.len(), 12);
    let draculas: Vec<&Theme> = c.themes().iter().filter(|t| t.meta.name == "Dracula").collect();
    assert_eq!(draculas.len(), 1);
    assert_eq!(draculas[0].meta.author, "test");
    assert!(c.themes().iter().any(|t| t.meta.name == "Mine"));
}
