use tca::theme::Theme;
use tca::validate::{
    contrast_checks, validate_ansi_hex, ValidationIssue, ValidationOutcome, ValidationResult,
};
use tca::BuiltinTheme;

#[test]
fn result_outcomes() {
    let mut r = ValidationResult::new();
    assert!(!r.has_errors());
    assert_eq!(r.outcome(), ValidationOutcome::Passed);
    r.add_warning("low".to_string());
    assert!(!r.has_errors());
    assert_eq!(r.outcome(), ValidationOutcome::PassedWithWarnings);
    r.add_error("bad".to_string());
    assert!(r.has_errors());
    assert_eq!(r.outcome(), ValidationOutcome::Failed);
    assert_eq!(r.issues.len(), 2);
}

#[test]
fn extend_appends_in_order() {
    let mut a = ValidationResult::new();
    a.add_warning("w1".to_string());
    let mut b = ValidationResult::new();
    b.add_error("e1".to_string());
    b.add_warning("w2".to_string());
    a.extend(b);
    let msgs: Vec<String> = a
        .issues
        .iter()
        .map(|i| match i {
            ValidationIssue::Error(m) => format!("E:{m}"),
            ValidationIssue::Warning(m) => format!("W:{m}"),
        })
        .collect();
    assert_eq!(msgs, vec!["W:w1", "E:e1", "W:w2"]);
}

#[test]
fn contrast_checks_follow_the_specification() {
    let t = BuiltinTheme::Nord.theme();
    let cs = contrast_checks(&t);
    assert_eq!(cs.len(), 15);
    assert_eq!(cs[0].label, "ui.fg.primary / bg.primary");
    assert_eq!(cs[0].fg, t.ui.fg.primary);
    assert_eq!(cs[0].bg, t.ui.bg.primary);
    assert_eq!((cs[0].warn_below, cs[0].error_below), (35, 30));
    assert_eq!(cs[3].label, "ui.fg.muted / bg.primary");
    assert_eq!((cs[3].warn_below, cs[3].error_below), (25, 20));
    assert_eq!(cs[8].bg, t.ui.selection.bg);
    assert_eq!(cs[14].label, "semantic.link / bg.primary");
    assert_eq!(cs[14].fg, t.semantic.link);
}

#[test]
fn ansi_hex_checks() {
    let t: Theme = BuiltinTheme::Dracula.theme();
    assert!(validate_ansi_hex(&t).issues.is_empty());
    let mut bad = t.clone();
    bad.ansi.red = "ff5555".to_string();
    bad.ansi.bright_white = "#fff".to_string();
    let r = validate_ansi_hex(&bad);
    assert_eq!(r.issues.len(), 2);
    match &r.issues[0] {
        ValidationIssue::Error(m) => {
            assert_eq!(m, "ANSI red must be a direct hex color, got 'ff5555'")
        }
        _ => panic!("expected an error"),
    }
    match &r.issues[1] {
        ValidationIssue::Error(m) => {
            assert_eq!(m, "ANSI bright_white invalid hex '#fff' (must be #RRGGBB)")
        }
        _ => panic!("expected an error"),
    }
}

#[test]
fn references_that_resolve_pass() {
    let t = tca::BuiltinTheme::Nord.theme();
    assert!(tca::validate::validate_references(&t).issues.is_empty());
    let mut t = tca::BuiltinTheme::Nord.theme();
    t.ui.bg.primary = "base24.BASE00".to_string();
    t.semantic.link = "base24.base0d".to_string();
    assert!(tca::validate::validate_references(&t).issues.is_empty());
}

#[test]
fn unresolvable_references_are_errors_in_order() {
    let mut t = tca::BuiltinTheme::Nord.theme();
    t.ui.selection.fg = "palette.red".to_string();
    t.semantic.warning = "base24.base18".to_string();
    let r = tca::validate::validate_references(&t);
    let msgs: Vec<String> = r
        .issues
        .iter()
        .map(|i| match i {
            tca::validate::ValidationIssue::Error(m) => m.clone(),
            tca::validate::ValidationIssue::Warning(m) => format!("warning: {}", m),
        })
        .collect();
    assert_eq!(
        msgs,
        vec![
            "Unresolvable reference in semantic.warning: 'base24.base18'".to_string(),
            "Unresolvable reference in ui.selection.fg: 'palette.red'".to_string(),
        ]
    );
}
