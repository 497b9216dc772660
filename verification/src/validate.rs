//! Validating a theme: which color pairs must contrast, and the issues found.
use vstd::prelude::*;
use crate::theme::{Theme, ref_color};
use vstd::string::{StrSliceExecFns, StringExecFns, StringSliceAdditionalSpecFns};
use vstd::utf8::encode_utf8;

verus! {

broadcast use vstd::string::group_string_axioms;

/// One problem found in a theme.
#[derive(Debug)]
pub enum ValidationIssue {
    /// A problem that makes the theme fail validation.
    Error(String),
    /// A problem worth reporting that does not fail validation.
    Warning(String),
}

/// The problems found in a theme, in the order they were found.
#[derive(Debug)]
pub struct ValidationResult {
    /// The issues, in order.
    pub issues: Vec<ValidationIssue>,
}

/// How a validation ends.
#[derive(Debug, Clone, Copy, PartialEq, Eq, Structural)]
pub enum ValidationOutcome {
    /// No issue was found.
    Passed,
    /// Only warnings were found.
    PassedWithWarnings,
    /// At least one error was found.
    Failed,
}

/// Some issue of `issues` is an error.
pub open spec fn has_error(issues: Seq<ValidationIssue>) -> bool {
    exists|i: int| 0 <= i < issues.len() && #[trigger] issues[i] is Error
}

impl ValidationResult {
    /// An empty result.
    pub fn new() -> (r: Self)
        ensures
            r.issues@ == Seq::<ValidationIssue>::empty(),
    {
        ValidationResult { issues: Vec::new() }
    }

    /// Records an error.
    pub fn add_error(&mut self, message: String)
        ensures
            final(self).issues@ == old(self).issues@.push(ValidationIssue::Error(message)),
    {
        self.issues.push(ValidationIssue::Error(message));
    }

    /// Records a warning.
    pub fn add_warning(&mut self, message: String)
        ensures
            final(self).issues@ == old(self).issues@.push(ValidationIssue::Warning(message)),
    {
        self.issues.push(ValidationIssue::Warning(message));
    }

    /// Appends the issues of `other`, in order.
    pub fn extend(&mut self, other: ValidationResult)
        ensures
            final(self).issues@ == old(self).issues@ + other.issues@,
    {
        let mut rest = other.issues;
        let ghost start = self.issues@;
        let ghost all = rest@;
        let ghost mut k: int = 0;
        proof {
            assert(all.skip(0) =~= all);
            assert(all.take(0) =~= Seq::<ValidationIssue>::empty());
            assert(start + all.take(0) =~= start);
        }
        while rest.len() > 0
            invariant
                0 <= k <= all.len(),
                rest@ == all.skip(k),
                self.issues@ == start + all.take(k),
            decreases rest.len(),
        {
            let issue = rest.remove(0);
            proof {
                assert(issue == all[k]);
                assert(rest@ =~= all.skip(k + 1));
            }
            self.issues.push(issue);
            proof {
                assert(self.issues@ =~= start + all.take(k + 1));
                k = k + 1;
            }
        }
        proof {
            assert(all.take(k) =~= all);
        }
    }

    /// Whether any issue is an error.
    pub fn has_errors(&self) -> (b: bool)
        ensures
            b == has_error(self.issues@),
    {
        for i in 0..self.issues.len()
            invariant
                forall|j: int| 0 <= j < i ==> !(#[trigger] self.issues@[j] is Error),
        {
            if let ValidationIssue::Error(_) = &self.issues[i] {
                return true;
            }
        }
        false
    }

    /// How the validation ends: passed when there is no issue, failed when
    /// some issue is an error, and passed with warnings otherwise.
    pub fn outcome(&self) -> (o: ValidationOutcome)
        ensures
            o == (if self.issues@.len() == 0 {
                ValidationOutcome::Passed
            } else if has_error(self.issues@) {
                ValidationOutcome::Failed
            } else {
                ValidationOutcome::PassedWithWarnings
            }),
    {
        if self.issues.len() == 0 {
            ValidationOutcome::Passed
        } else if self.has_errors() {
            ValidationOutcome::Failed
        } else {
            ValidationOutcome::PassedWithWarnings
        }
    }
}

/// A pair of colors that must contrast, with its thresholds in tenths: a
/// contrast ratio below `error_below / 10` is an error, one below
/// `warn_below / 10` a warning.
#[derive(Debug, Clone)]
pub struct ContrastCheck {
    /// What the pair is, as reported.
    pub label: String,
    /// The foreground color.
    pub fg: String,
    /// The background color.
    pub bg: String,
    /// The ratio, in tenths, below which a warning is reported.
    pub warn_below: u32,
    /// The ratio, in tenths, below which an error is reported.
    pub error_below: u32,
}

/// The check of `fg` on `bg` labelled `label` with thresholds `warn` and `error`.
pub open spec fn check_is(
    c: ContrastCheck,
    label: Seq<char>,
    fg: Seq<char>,
    bg: Seq<char>,
    warn: u32,
    error: u32,
) -> bool {
    &&& c.label@ == label
    &&& c.fg@ == fg
    &&& c.bg@ == bg
    &&& c.warn_below == warn
    &&& c.error_below == error
}

/// Builds a contrast check.
fn check(label: &str, fg: &String, bg: &String, warn_below: u32, error_below: u32) -> (c:
    ContrastCheck)
    ensures
        check_is(c, label@, fg@, bg@, warn_below, error_below),
{
    ContrastCheck {
        label: String::from_str(label),
        fg: fg.clone(),
        bg: bg.clone(),
        warn_below,
        error_below,
    }
}

/// The contrast checks of the TCA specification for `t`, in order: text,
/// cursor, border and selection colors against their backgrounds, then the
/// semantic colors against the primary background. Body text and semantic
/// colors warn below 3.5 and fail below 3.0; muted text, cursors, borders and
/// selections warn below 2.5 and fail below 2.0.
pub open spec fn contrast_plan(t: Theme, cs: Seq<ContrastCheck>) -> bool {
    let bg = t.ui.bg.primary@;
    &&& cs.len() == 15
    &&& check_is(cs[0], "ui.fg.primary / bg.primary"@, t.ui.fg.primary@, bg, 35, 30)
    &&& check_is(cs[1], "ui.fg.primary / bg.secondary"@, t.ui.fg.primary@, t.ui.bg.secondary@, 35, 30)
    &&& check_is(cs[2], "ui.fg.secondary / bg.primary"@, t.ui.fg.secondary@, bg, 35, 30)
    &&& check_is(cs[3], "ui.fg.muted / bg.primary"@, t.ui.fg.muted@, bg, 25, 20)
    &&& check_is(cs[4], "ui.cursor.primary / bg.primary"@, t.ui.cursor.primary@, bg, 35, 30)
    &&& check_is(cs[5], "ui.cursor.muted / bg.primary"@, t.ui.cursor.muted@, bg, 25, 20)
    &&& check_is(cs[6], "ui.border.primary / bg.primary"@, t.ui.border.primary@, bg, 25, 20)
    &&& check_is(cs[7], "ui.border.muted / bg.primary"@, t.ui.border.muted@, bg, 25, 20)
    &&& check_is(cs[8], "ui.selection.fg / selection.bg"@, t.ui.selection.fg@, t.ui.selection.bg@, 25, 20)
    &&& check_is(cs[9], "semantic.error / bg.primary"@, t.semantic.error@, bg, 35, 30)
    &&& check_is(cs[10], "semantic.warning / bg.primary"@, t.semantic.warning@, bg, 35, 30)
    &&& check_is(cs[11], "semantic.info / bg.primary"@, t.semantic.info@, bg, 35, 30)
    &&& check_is(cs[12], "semantic.success / bg.primary"@, t.semantic.success@, bg, 35, 30)
    &&& check_is(cs[13], "semantic.highlight / bg.primary"@, t.semantic.highlight@, bg, 35, 30)
    &&& check_is(cs[14], "semantic.link / bg.primary"@, t.semantic.link@, bg, 35, 30)
}

/// The contrast checks to run on `theme` (see [`contrast_plan`]).
pub fn contrast_checks(theme: &Theme) -> (r: Vec<ContrastCheck>)
    ensures
        contrast_plan(*theme, r@),
{
    let bg = &theme.ui.bg.primary;
    let mut v: Vec<ContrastCheck> = Vec::new();
    v.push(check("ui.fg.primary / bg.primary", &theme.ui.fg.primary, bg, 35, 30));
    v.push(check("ui.fg.primary / bg.secondary", &theme.ui.fg.primary, &theme.ui.bg.secondary, 35, 30));
    v.push(check("ui.fg.secondary / bg.primary", &theme.ui.fg.secondary, bg, 35, 30));
    v.push(check("ui.fg.muted / bg.primary", &theme.ui.fg.muted, bg, 25, 20));
    v.push(check("ui.cursor.primary / bg.primary", &theme.ui.cursor.primary, bg, 35, 30));
    v.push(check("ui.cursor.muted / bg.primary", &theme.ui.cursor.muted, bg, 25, 20));
    v.push(check("ui.border.primary / bg.primary", &theme.ui.border.primary, bg, 25, 20));
    v.push(check("ui.border.muted / bg.primary", &theme.ui.border.muted, bg, 25, 20));
    v.push(check("ui.selection.fg / selection.bg", &theme.ui.selection.fg, &theme.ui.selection.bg, 25, 20));
    v.push(check("semantic.error / bg.primary", &theme.semantic.error, bg, 35, 30));
    v.push(check("semantic.warning / bg.primary", &theme.semantic.warning, bg, 35, 30));
    v.push(check("semantic.info / bg.primary", &theme.semantic.info, bg, 35, 30));
    v.push(check("semantic.success / bg.primary", &theme.semantic.success, bg, 35, 30));
    v.push(check("semantic.highlight / bg.primary", &theme.semantic.highlight, bg, 35, 30));
    v.push(check("semantic.link / bg.primary", &theme.semantic.link, bg, 35, 30));
    v
}

/// The color field of `t` at the dotted path `path` (`ui.fg.primary`,
/// `semantic.link`, …), if `path` names one.
pub open spec fn field_at(t: Theme, path: Seq<char>) -> Option<Seq<char>> {
    if path == "ui.bg.primary"@ {
        Some(t.ui.bg.primary@)
    } else if path == "ui.bg.secondary"@ {
        Some(t.ui.bg.secondary@)
    } else if path == "ui.fg.primary"@ {
        Some(t.ui.fg.primary@)
    } else if path == "ui.fg.secondary"@ {
        Some(t.ui.fg.secondary@)
    } else if path == "ui.fg.muted"@ {
        Some(t.ui.fg.muted@)
    } else if path == "ui.border.primary"@ {
        Some(t.ui.border.primary@)
    } else if path == "ui.border.muted"@ {
        Some(t.ui.border.muted@)
    } else if path == "ui.cursor.primary"@ {
        Some(t.ui.cursor.primary@)
    } else if path == "ui.cursor.muted"@ {
        Some(t.ui.cursor.muted@)
    } else if path == "ui.selection.bg"@ {
        Some(t.ui.selection.bg@)
    } else if path == "ui.selection.fg"@ {
        Some(t.ui.selection.fg@)
    } else if path == "semantic.error"@ {
        Some(t.semantic.error@)
    } else if path == "semantic.warning"@ {
        Some(t.semantic.warning@)
    } else if path == "semantic.info"@ {
        Some(t.semantic.info@)
    } else if path == "semantic.success"@ {
        Some(t.semantic.success@)
    } else if path == "semantic.highlight"@ {
        Some(t.semantic.highlight@)
    } else if path == "semantic.link"@ {
        Some(t.semantic.link@)
    } else {
        None
    }
}

/// Check `c` compares exactly the two fields its label names: the label is
/// `a / b`, the foreground is the field at `a` and the background the UI
/// field at `b`.
pub open spec fn names_its_fields(t: Theme, c: ContrastCheck) -> bool {
    exists|a: Seq<char>, b: Seq<char>|
        c.label@ == a + " / "@ + b && field_at(t, a) == Some(c.fg@) && field_at(t, "ui."@ + b) == Some(c.bg@)
}


proof fn lemma_check_names_0(t: Theme, cs: Seq<ContrastCheck>)
    requires
        contrast_plan(t, cs),
    ensures
        names_its_fields(t, cs[0]),
{
    reveal_strlit(" / ");
    reveal_strlit("bg.primary");
    reveal_strlit("semantic.error");
    reveal_strlit("semantic.highlight");
    reveal_strlit("semantic.info");
    reveal_strlit("semantic.link");
    reveal_strlit("semantic.success");
    reveal_strlit("semantic.warning");
    reveal_strlit("ui.");
    reveal_strlit("ui.bg.primary");
    reveal_strlit("ui.bg.secondary");
    reveal_strlit("ui.border.muted");
    reveal_strlit("ui.border.primary");
    reveal_strlit("ui.cursor.muted");
    reveal_strlit("ui.cursor.primary");
    reveal_strlit("ui.fg.muted");
    reveal_strlit("ui.fg.primary");
    reveal_strlit("ui.fg.primary / bg.primary");
    reveal_strlit("ui.fg.secondary");
    reveal_strlit("ui.selection.bg");
    reveal_strlit("ui.selection.fg");
    let a = "ui.fg.primary"@;
    let b = "bg.primary"@;
    assert(cs[0].label@ =~= a + " / "@ + b);
    assert("ui."@ + b =~= "ui.bg.primary"@);
    assert("ui.fg.primary"@[3] != "ui.bg.primary"@[3]);
    assert("ui.fg.primary"@.len() != "ui.bg.secondary"@.len());
    assert(field_at(t, a) == Some(cs[0].fg@));
    assert(field_at(t, "ui."@ + b) == Some(cs[0].bg@));
}


proof fn lemma_check_names_1(t: Theme, cs: Seq<ContrastCheck>)
    requires
        contrast_plan(t, cs),
    ensures
        names_its_fields(t, cs[1]),
{
    reveal_strlit(" / ");
    reveal_strlit("bg.secondary");
    reveal_strlit("semantic.error");
    reveal_strlit("semantic.highlight");
    reveal_strlit("semantic.info");
    reveal_strlit("semantic.link");
    reveal_strlit("semantic.success");
    reveal_strlit("semantic.warning");
    reveal_strlit("ui.");
    reveal_strlit("ui.bg.primary");
    reveal_strlit("ui.bg.secondary");
    reveal_strlit("ui.border.muted");
    reveal_strlit("ui.border.primary");
    reveal_strlit("ui.cursor.muted");
    reveal_strlit("ui.cursor.primary");
    reveal_strlit("ui.fg.muted");
    reveal_strlit("ui.fg.primary");
    reveal_strlit("ui.fg.primary / bg.secondary");
    reveal_strlit("ui.fg.secondary");
    reveal_strlit("ui.selection.bg");
    reveal_strlit("ui.selection.fg");
    let a = "ui.fg.primary"@;
    let b = "bg.secondary"@;
    assert(cs[1].label@ =~= a + " / "@ + b);
    assert("ui."@ + b =~= "ui.bg.secondary"@);
    assert("ui.fg.primary"@[3] != "ui.bg.primary"@[3]);
    assert("ui.fg.primary"@.len() != "ui.bg.secondary"@.len());
    assert("ui.bg.secondary"@.len() != "ui.bg.primary"@.len());
    assert(field_at(t, a) == Some(cs[1].fg@));
    assert(field_at(t, "ui."@ + b) == Some(cs[1].bg@));
}


proof fn lemma_check_names_2(t: Theme, cs: Seq<ContrastCheck>)
    requires
        contrast_plan(t, cs),
    ensures
        names_its_fields(t, cs[2]),
{
    reveal_strlit(" / ");
    reveal_strlit("bg.primary");
    reveal_strlit("semantic.error");
    reveal_strlit("semantic.highlight");
    reveal_strlit("semantic.info");
    reveal_strlit("semantic.link");
    reveal_strlit("semantic.success");
    reveal_strlit("semantic.warning");
    reveal_strlit("ui.");
    reveal_strlit("ui.bg.primary");
    reveal_strlit("ui.bg.secondary");
    reveal_strlit("ui.border.muted");
    reveal_strlit("ui.border.primary");
    reveal_strlit("ui.cursor.muted");
    reveal_strlit("ui.cursor.primary");
    reveal_strlit("ui.fg.muted");
    reveal_strlit("ui.fg.primary");
    reveal_strlit("ui.fg.secondary");
    reveal_strlit("ui.fg.secondary / bg.primary");
    reveal_strlit("ui.selection.bg");
    reveal_strlit("ui.selection.fg");
    let a = "ui.fg.secondary"@;
    let b = "bg.primary"@;
    assert(cs[2].label@ =~= a + " / "@ + b);
    assert("ui."@ + b =~= "ui.bg.primary"@);
    assert("ui.fg.secondary"@.len() != "ui.bg.primary"@.len());
    assert("ui.fg.secondary"@[3] != "ui.bg.secondary"@[3]);
    assert("ui.fg.secondary"@.len() != "ui.fg.primary"@.len());
    assert(field_at(t, a) == Some(cs[2].fg@));
    assert(field_at(t, "ui."@ + b) == Some(cs[2].bg@));
}


proof fn lemma_check_names_3(t: Theme, cs: Seq<ContrastCheck>)
    requires
        contrast_plan(t, cs),
    ensures
        names_its_fields(t, cs[3]),
{
    reveal_strlit(" / ");
    reveal_strlit("bg.primary");
    reveal_strlit("semantic.error");
    reveal_strlit("semantic.highlight");
    reveal_strlit("semantic.info");
    reveal_strlit("semantic.link");
    reveal_strlit("semantic.success");
    reveal_strlit("semantic.warning");
    reveal_strlit("ui.");
    reveal_strlit("ui.bg.primary");
    reveal_strlit("ui.bg.secondary");
    reveal_strlit("ui.border.muted");
    reveal_strlit("ui.border.primary");
    reveal_strlit("ui.cursor.muted");
    reveal_strlit("ui.cursor.primary");
    reveal_strlit("ui.fg.muted");
    reveal_strlit("ui.fg.muted / bg.primary");
    reveal_strlit("ui.fg.primary");
    reveal_strlit("ui.fg.secondary");
    reveal_strlit("ui.selection.bg");
    reveal_strlit("ui.selection.fg");
    let a = "ui.fg.muted"@;
    let b = "bg.primary"@;
    assert(cs[3].label@ =~= a + " / "@ + b);
    assert("ui."@ + b =~= "ui.bg.primary"@);
    assert("ui.fg.muted"@.len() != "ui.bg.primary"@.len());
    assert("ui.fg.muted"@.len() != "ui.bg.secondary"@.len());
    assert("ui.fg.muted"@.len() != "ui.fg.primary"@.len());
    assert("ui.fg.muted"@.len() != "ui.fg.secondary"@.len());
    assert(field_at(t, a) == Some(cs[3].fg@));
    assert(field_at(t, "ui."@ + b) == Some(cs[3].bg@));
}


proof fn lemma_check_names_4(t: Theme, cs: Seq<ContrastCheck>)
    requires
        contrast_plan(t, cs),
    ensures
        names_its_fields(t, cs[4]),
{
    reveal_strlit(" / ");
    reveal_strlit("bg.primary");
    reveal_strlit("semantic.error");
    reveal_strlit("semantic.highlight");
    reveal_strlit("semantic.info");
    reveal_strlit("semantic.link");
    reveal_strlit("semantic.success");
    reveal_strlit("semantic.warning");
    reveal_strlit("ui.");
    reveal_strlit("ui.bg.primary");
    reveal_strlit("ui.bg.secondary");
    reveal_strlit("ui.border.muted");
    reveal_strlit("ui.border.primary");
    reveal_strlit("ui.cursor.muted");
    reveal_strlit("ui.cursor.primary");
    reveal_strlit("ui.cursor.primary / bg.primary");
    reveal_strlit("ui.fg.muted");
    reveal_strlit("ui.fg.primary");
    reveal_strlit("ui.fg.secondary");
    reveal_strlit("ui.selection.bg");
    reveal_strlit("ui.selection.fg");
    let a = "ui.cursor.primary"@;
    let b = "bg.primary"@;
    assert(cs[4].label@ =~= a + " / "@ + b);
    assert("ui."@ + b =~= "ui.bg.primary"@);
    assert("ui.cursor.primary"@.len() != "ui.bg.primary"@.len());
    assert("ui.cursor.primary"@.len() != "ui.bg.secondary"@.len());
    assert("ui.cursor.primary"@.len() != "ui.fg.primary"@.len());
    assert("ui.cursor.primary"@.len() != "ui.fg.secondary"@.len());
    assert("ui.cursor.primary"@.len() != "ui.fg.muted"@.len());
    assert("ui.cursor.primary"@[3] != "ui.border.primary"@[3]);
    assert("ui.cursor.primary"@.len() != "ui.border.muted"@.len());
    assert(field_at(t, a) == Some(cs[4].fg@));
    assert(field_at(t, "ui."@ + b) == Some(cs[4].bg@));
}


proof fn lemma_check_names_5(t: Theme, cs: Seq<ContrastCheck>)
    requires
        contrast_plan(t, cs),
    ensures
        names_its_fields(t, cs[5]),
{
    reveal_strlit(" / ");
    reveal_strlit("bg.primary");
    reveal_strlit("semantic.error");
    reveal_strlit("semantic.highlight");
    reveal_strlit("semantic.info");
    reveal_strlit("semantic.link");
    reveal_strlit("semantic.success");
    reveal_strlit("semantic.warning");
    reveal_strlit("ui.");
    reveal_strlit("ui.bg.primary");
    reveal_strlit("ui.bg.secondary");
    reveal_strlit("ui.border.muted");
    reveal_strlit("ui.border.primary");
    reveal_strlit("ui.cursor.muted");
    reveal_strlit("ui.cursor.muted / bg.primary");
    reveal_strlit("ui.cursor.primary");
    reveal_strlit("ui.fg.muted");
    reveal_strlit("ui.fg.primary");
    reveal_strlit("ui.fg.secondary");
    reveal_strlit("ui.selection.bg");
    reveal_strlit("ui.selection.fg");
    let a = "ui.cursor.muted"@;
    let b = "bg.primary"@;
    assert(cs[5].label@ =~= a + " / "@ + b);
    assert("ui."@ + b =~= "ui.bg.primary"@);
    assert("ui.cursor.muted"@.len() != "ui.bg.primary"@.len());
    assert("ui.cursor.muted"@[3] != "ui.bg.secondary"@[3]);
    assert("ui.cursor.muted"@.len() != "ui.fg.primary"@.len());
    assert("ui.cursor.muted"@[3] != "ui.fg.secondary"@[3]);
    assert("ui.cursor.muted"@.len() != "ui.fg.muted"@.len());
    assert("ui.cursor.muted"@.len() != "ui.border.primary"@.len());
    assert("ui.cursor.muted"@[3] != "ui.border.muted"@[3]);
    assert("ui.cursor.muted"@.len() != "ui.cursor.primary"@.len());
    assert(field_at(t, a) == Some(cs[5].fg@));
    assert(field_at(t, "ui."@ + b) == Some(cs[5].bg@));
}


proof fn lemma_check_names_6(t: Theme, cs: Seq<ContrastCheck>)
    requires
        contrast_plan(t, cs),
    ensures
        names_its_fields(t, cs[6]),
{
    reveal_strlit(" / ");
    reveal_strlit("bg.primary");
    reveal_strlit("semantic.error");
    reveal_strlit("semantic.highlight");
    reveal_strlit("semantic.info");
    reveal_strlit("semantic.link");
    reveal_strlit("semantic.success");
    reveal_strlit("semantic.warning");
    reveal_strlit("ui.");
    reveal_strlit("ui.bg.primary");
    reveal_strlit("ui.bg.secondary");
    reveal_strlit("ui.border.muted");
    reveal_strlit("ui.border.primary");
    reveal_strlit("ui.border.primary / bg.primary");
    reveal_strlit("ui.cursor.muted");
    reveal_strlit("ui.cursor.primary");
    reveal_strlit("ui.fg.muted");
    reveal_strlit("ui.fg.primary");
    reveal_strlit("ui.fg.secondary");
    reveal_strlit("ui.selection.bg");
    reveal_strlit("ui.selection.fg");
    let a = "ui.border.primary"@;
    let b = "bg.primary"@;
    assert(cs[6].label@ =~= a + " / "@ + b);
    assert("ui."@ + b =~= "ui.bg.primary"@);
    assert("ui.border.primary"@.len() != "ui.bg.primary"@.len());
    assert("ui.border.primary"@.len() != "ui.bg.secondary"@.len());
    assert("ui.border.primary"@.len() != "ui.fg.primary"@.len());
    assert("ui.border.primary"@.len() != "ui.fg.secondary"@.len());
    assert("ui.border.primary"@.len() != "ui.fg.muted"@.len());
    assert(field_at(t, a) == Some(cs[6].fg@));
    assert(field_at(t, "ui."@ + b) == Some(cs[6].bg@));
}


proof fn lemma_check_names_7(t: Theme, cs: Seq<ContrastCheck>)
    requires
        contrast_plan(t, cs),
    ensures
        names_its_fields(t, cs[7]),
{
    reveal_strlit(" / ");
    reveal_strlit("bg.primary");
    reveal_strlit("semantic.error");
    reveal_strlit("semantic.highlight");
    reveal_strlit("semantic.info");
    reveal_strlit("semantic.link");
    reveal_strlit("semantic.success");
    reveal_strlit("semantic.warning");
    reveal_strlit("ui.");
    reveal_strlit("ui.bg.primary");
    reveal_strlit("ui.bg.secondary");
    reveal_strlit("ui.border.muted");
    reveal_strlit("ui.border.muted / bg.primary");
    reveal_strlit("ui.border.primary");
    reveal_strlit("ui.cursor.muted");
    reveal_strlit("ui.cursor.primary");
    reveal_strlit("ui.fg.muted");
    reveal_strlit("ui.fg.primary");
    reveal_strlit("ui.fg.secondary");
    reveal_strlit("ui.selection.bg");
    reveal_strlit("ui.selection.fg");
    let a = "ui.border.muted"@;
    let b = "bg.primary"@;
    assert(cs[7].label@ =~= a + " / "@ + b);
    assert("ui."@ + b =~= "ui.bg.primary"@);
    assert("ui.border.muted"@.len() != "ui.bg.primary"@.len());
    assert("ui.border.muted"@[4] != "ui.bg.secondary"@[4]);
    assert("ui.border.muted"@.len() != "ui.fg.primary"@.len());
    assert("ui.border.muted"@[3] != "ui.fg.secondary"@[3]);
    assert("ui.border.muted"@.len() != "ui.fg.muted"@.len());
    assert("ui.border.muted"@.len() != "ui.border.primary"@.len());
    assert(field_at(t, a) == Some(cs[7].fg@));
    assert(field_at(t, "ui."@ + b) == Some(cs[7].bg@));
}


proof fn lemma_check_names_8(t: Theme, cs: Seq<ContrastCheck>)
    requires
        contrast_plan(t, cs),
    ensures
        names_its_fields(t, cs[8]),
{
    reveal_strlit(" / ");
    reveal_strlit("selection.bg");
    reveal_strlit("semantic.error");
    reveal_strlit("semantic.highlight");
    reveal_strlit("semantic.info");
    reveal_strlit("semantic.link");
    reveal_strlit("semantic.success");
    reveal_strlit("semantic.warning");
    reveal_strlit("ui.");
    reveal_strlit("ui.bg.primary");
    reveal_strlit("ui.bg.secondary");
    reveal_strlit("ui.border.muted");
    reveal_strlit("ui.border.primary");
    reveal_strlit("ui.cursor.muted");
    reveal_strlit("ui.cursor.primary");
    reveal_strlit("ui.fg.muted");
    reveal_strlit("ui.fg.primary");
    reveal_strlit("ui.fg.secondary");
    reveal_strlit("ui.selection.bg");
    reveal_strlit("ui.selection.fg");
    reveal_strlit("ui.selection.fg / selection.bg");
    let a = "ui.selection.fg"@;
    let b = "selection.bg"@;
    assert(cs[8].label@ =~= a + " / "@ + b);
    assert("ui."@ + b =~= "ui.selection.bg"@);
    assert("ui.selection.fg"@.len() != "ui.bg.primary"@.len());
    assert("ui.selection.fg"@[3] != "ui.bg.secondary"@[3]);
    assert("ui.selection.fg"@.len() != "ui.fg.primary"@.len());
    assert("ui.selection.fg"@[3] != "ui.fg.secondary"@[3]);
    assert("ui.selection.fg"@.len() != "ui.fg.muted"@.len());
    assert("ui.selection.fg"@.len() != "ui.border.primary"@.len());
    assert("ui.selection.fg"@[3] != "ui.border.muted"@[3]);
    assert("ui.selection.fg"@.len() != "ui.cursor.primary"@.len());
    assert("ui.selection.fg"@[3] != "ui.cursor.muted"@[3]);
    assert("ui.selection.fg"@[13] != "ui.selection.bg"@[13]);
    assert("ui.selection.bg"@.len() != "ui.bg.primary"@.len());
    assert("ui.selection.bg"@[3] != "ui.bg.secondary"@[3]);
    assert("ui.selection.bg"@.len() != "ui.fg.primary"@.len());
    assert("ui.selection.bg"@[3] != "ui.fg.secondary"@[3]);
    assert("ui.selection.bg"@.len() != "ui.fg.muted"@.len());
    assert("ui.selection.bg"@.len() != "ui.border.primary"@.len());
    assert("ui.selection.bg"@[3] != "ui.border.muted"@[3]);
    assert("ui.selection.bg"@.len() != "ui.cursor.primary"@.len());
    assert("ui.selection.bg"@[3] != "ui.cursor.muted"@[3]);
    assert(field_at(t, a) == Some(cs[8].fg@));
    assert(field_at(t, "ui."@ + b) == Some(cs[8].bg@));
}


proof fn lemma_check_names_9(t: Theme, cs: Seq<ContrastCheck>)
    requires
        contrast_plan(t, cs),
    ensures
        names_its_fields(t, cs[9]),
{
    reveal_strlit(" / ");
    reveal_strlit("bg.primary");
    reveal_strlit("semantic.error");
    reveal_strlit("semantic.error / bg.primary");
    reveal_strlit("semantic.highlight");
    reveal_strlit("semantic.info");
    reveal_strlit("semantic.link");
    reveal_strlit("semantic.success");
    reveal_strlit("semantic.warning");
    reveal_strlit("ui.");
    reveal_strlit("ui.bg.primary");
    reveal_strlit("ui.bg.secondary");
    reveal_strlit("ui.border.muted");
    reveal_strlit("ui.border.primary");
    reveal_strlit("ui.cursor.muted");
    reveal_strlit("ui.cursor.primary");
    reveal_strlit("ui.fg.muted");
    reveal_strlit("ui.fg.primary");
    reveal_strlit("ui.fg.secondary");
    reveal_strlit("ui.selection.bg");
    reveal_strlit("ui.selection.fg");
    let a = "semantic.error"@;
    let b = "bg.primary"@;
    assert(cs[9].label@ =~= a + " / "@ + b);
    assert("ui."@ + b =~= "ui.bg.primary"@);
    assert("semantic.error"@.len() != "ui.bg.primary"@.len());
    assert("semantic.error"@.len() != "ui.bg.secondary"@.len());
    assert("semantic.error"@.len() != "ui.fg.primary"@.len());
    assert("semantic.error"@.len() != "ui.fg.secondary"@.len());
    assert("semantic.error"@.len() != "ui.fg.muted"@.len());
    assert("semantic.error"@.len() != "ui.border.primary"@.len());
    assert("semantic.error"@.len() != "ui.border.muted"@.len());
    assert("semantic.error"@.len() != "ui.cursor.primary"@.len());
    assert("semantic.error"@.len() != "ui.cursor.muted"@.len());
    assert("semantic.error"@.len() != "ui.selection.bg"@.len());
    assert("semantic.error"@.len() != "ui.selection.fg"@.len());
    assert(field_at(t, a) == Some(cs[9].fg@));
    assert(field_at(t, "ui."@ + b) == Some(cs[9].bg@));
}


proof fn lemma_check_names_10(t: Theme, cs: Seq<ContrastCheck>)
    requires
        contrast_plan(t, cs),
    ensures
        names_its_fields(t, cs[10]),
{
    reveal_strlit(" / ");
    reveal_strlit("bg.primary");
    reveal_strlit("semantic.error");
    reveal_strlit("semantic.highlight");
    reveal_strlit("semantic.info");
    reveal_strlit("semantic.link");
    reveal_strlit("semantic.success");
    reveal_strlit("semantic.warning");
    reveal_strlit("semantic.warning / bg.primary");
    reveal_strlit("ui.");
    reveal_strlit("ui.bg.primary");
    reveal_strlit("ui.bg.secondary");
    reveal_strlit("ui.border.muted");
    reveal_strlit("ui.border.primary");
    reveal_strlit("ui.cursor.muted");
    reveal_strlit("ui.cursor.primary");
    reveal_strlit("ui.fg.muted");
    reveal_strlit("ui.fg.primary");
    reveal_strlit("ui.fg.secondary");
    reveal_strlit("ui.selection.bg");
    reveal_strlit("ui.selection.fg");
    let a = "semantic.warning"@;
    let b = "bg.primary"@;
    assert(cs[10].label@ =~= a + " / "@ + b);
    assert("ui."@ + b =~= "ui.bg.primary"@);
    assert("semantic.warning"@.len() != "ui.bg.primary"@.len());
    assert("semantic.warning"@.len() != "ui.bg.secondary"@.len());
    assert("semantic.warning"@.len() != "ui.fg.primary"@.len());
    assert("semantic.warning"@.len() != "ui.fg.secondary"@.len());
    assert("semantic.warning"@.len() != "ui.fg.muted"@.len());
    assert("semantic.warning"@.len() != "ui.border.primary"@.len());
    assert("semantic.warning"@.len() != "ui.border.muted"@.len());
    assert("semantic.warning"@.len() != "ui.cursor.primary"@.len());
    assert("semantic.warning"@.len() != "ui.cursor.muted"@.len());
    assert("semantic.warning"@.len() != "ui.selection.bg"@.len());
    assert("semantic.warning"@.len() != "ui.selection.fg"@.len());
    assert("semantic.warning"@.len() != "semantic.error"@.len());
    assert(field_at(t, a) == Some(cs[10].fg@));
    assert(field_at(t, "ui."@ + b) == Some(cs[10].bg@));
}


proof fn lemma_check_names_11(t: Theme, cs: Seq<ContrastCheck>)
    requires
        contrast_plan(t, cs),
    ensures
        names_its_fields(t, cs[11]),
{
    reveal_strlit(" / ");
    reveal_strlit("bg.primary");
    reveal_strlit("semantic.error");
    reveal_strlit("semantic.highlight");
    reveal_strlit("semantic.info");
    reveal_strlit("semantic.info / bg.primary");
    reveal_strlit("semantic.link");
    reveal_strlit("semantic.success");
    reveal_strlit("semantic.warning");
    reveal_strlit("ui.");
    reveal_strlit("ui.bg.primary");
    reveal_strlit("ui.bg.secondary");
    reveal_strlit("ui.border.muted");
    reveal_strlit("ui.border.primary");
    reveal_strlit("ui.cursor.muted");
    reveal_strlit("ui.cursor.primary");
    reveal_strlit("ui.fg.muted");
    reveal_strlit("ui.fg.primary");
    reveal_strlit("ui.fg.secondary");
    reveal_strlit("ui.selection.bg");
    reveal_strlit("ui.selection.fg");
    let a = "semantic.info"@;
    let b = "bg.primary"@;
    assert(cs[11].label@ =~= a + " / "@ + b);
    assert("ui."@ + b =~= "ui.bg.primary"@);
    assert("semantic.info"@[0] != "ui.bg.primary"@[0]);
    assert("semantic.info"@.len() != "ui.bg.secondary"@.len());
    assert("semantic.info"@[0] != "ui.fg.primary"@[0]);
    assert("semantic.info"@.len() != "ui.fg.secondary"@.len());
    assert("semantic.info"@.len() != "ui.fg.muted"@.len());
    assert("semantic.info"@.len() != "ui.border.primary"@.len());
    assert("semantic.info"@.len() != "ui.border.muted"@.len());
    assert("semantic.info"@.len() != "ui.cursor.primary"@.len());
    assert("semantic.info"@.len() != "ui.cursor.muted"@.len());
    assert("semantic.info"@.len() != "ui.selection.bg"@.len());
    assert("semantic.info"@.len() != "ui.selection.fg"@.len());
    assert("semantic.info"@.len() != "semantic.error"@.len());
    assert("semantic.info"@.len() != "semantic.warning"@.len());
    assert(field_at(t, a) == Some(cs[11].fg@));
    assert(field_at(t, "ui."@ + b) == Some(cs[11].bg@));
}


proof fn lemma_check_names_12(t: Theme, cs: Seq<ContrastCheck>)
    requires
        contrast_plan(t, cs),
    ensures
        names_its_fields(t, cs[12]),
{
    reveal_strlit(" / ");
    reveal_strlit("bg.primary");
    reveal_strlit("semantic.error");
    reveal_strlit("semantic.highlight");
    reveal_strlit("semantic.info");
    reveal_strlit("semantic.link");
    reveal_strlit("semantic.success");
    reveal_strlit("semantic.success / bg.primary");
    reveal_strlit("semantic.warning");
    reveal_strlit("ui.");
    reveal_strlit("ui.bg.primary");
    reveal_strlit("ui.bg.secondary");
    reveal_strlit("ui.border.muted");
    reveal_strlit("ui.border.primary");
    reveal_strlit("ui.cursor.muted");
    reveal_strlit("ui.cursor.primary");
    reveal_strlit("ui.fg.muted");
    reveal_strlit("ui.fg.primary");
    reveal_strlit("ui.fg.secondary");
    reveal_strlit("ui.selection.bg");
    reveal_strlit("ui.selection.fg");
    let a = "semantic.success"@;
    let b = "bg.primary"@;
    assert(cs[12].label@ =~= a + " / "@ + b);
    assert("ui."@ + b =~= "ui.bg.primary"@);
    assert("semantic.success"@.len() != "ui.bg.primary"@.len());
    assert("semantic.success"@.len() != "ui.bg.secondary"@.len());
    assert("semantic.success"@.len() != "ui.fg.primary"@.len());
    assert("semantic.success"@.len() != "ui.fg.secondary"@.len());
    assert("semantic.success"@.len() != "ui.fg.muted"@.len());
    assert("semantic.success"@.len() != "ui.border.primary"@.len());
    assert("semantic.success"@.len() != "ui.border.muted"@.len());
    assert("semantic.success"@.len() != "ui.cursor.primary"@.len());
    assert("semantic.success"@.len() != "ui.cursor.muted"@.len());
    assert("semantic.success"@.len() != "ui.selection.bg"@.len());
    assert("semantic.success"@.len() != "ui.selection.fg"@.len());
    assert("semantic.success"@.len() != "semantic.error"@.len());
    assert("semantic.success"@[9] != "semantic.warning"@[9]);
    assert("semantic.success"@.len() != "semantic.info"@.len());
    assert(field_at(t, a) == Some(cs[12].fg@));
    assert(field_at(t, "ui."@ + b) == Some(cs[12].bg@));
}


proof fn lemma_check_names_13(t: Theme, cs: Seq<ContrastCheck>)
    requires
        contrast_plan(t, cs),
    ensures
        names_its_fields(t, cs[13]),
{
    reveal_strlit(" / ");
    reveal_strlit("bg.primary");
    reveal_strlit("semantic.error");
    reveal_strlit("semantic.highlight");
    reveal_strlit("semantic.highlight / bg.primary");
    reveal_strlit("semantic.info");
    reveal_strlit("semantic.link");
    reveal_strlit("semantic.success");
    reveal_strlit("semantic.warning");
    reveal_strlit("ui.");
    reveal_strlit("ui.bg.primary");
    reveal_strlit("ui.bg.secondary");
    reveal_strlit("ui.border.muted");
    reveal_strlit("ui.border.primary");
    reveal_strlit("ui.cursor.muted");
    reveal_strlit("ui.cursor.primary");
    reveal_strlit("ui.fg.muted");
    reveal_strlit("ui.fg.primary");
    reveal_strlit("ui.fg.secondary");
    reveal_strlit("ui.selection.bg");
    reveal_strlit("ui.selection.fg");
    let a = "semantic.highlight"@;
    let b = "bg.primary"@;
    assert(cs[13].label@ =~= a + " / "@ + b);
    assert("ui."@ + b =~= "ui.bg.primary"@);
    assert("semantic.highlight"@.len() != "ui.bg.primary"@.len());
    assert("semantic.highlight"@.len() != "ui.bg.secondary"@.len());
    assert("semantic.highlight"@.len() != "ui.fg.primary"@.len());
    assert("semantic.highlight"@.len() != "ui.fg.secondary"@.len());
    assert("semantic.highlight"@.len() != "ui.fg.muted"@.len());
    assert("semantic.highlight"@.len() != "ui.border.primary"@.len());
    assert("semantic.highlight"@.len() != "ui.border.muted"@.len());
    assert("semantic.highlight"@.len() != "ui.cursor.primary"@.len());
    assert("semantic.highlight"@.len() != "ui.cursor.muted"@.len());
    assert("semantic.highlight"@.len() != "ui.selection.bg"@.len());
    assert("semantic.highlight"@.len() != "ui.selection.fg"@.len());
    assert("semantic.highlight"@.len() != "semantic.error"@.len());
    assert("semantic.highlight"@.len() != "semantic.warning"@.len());
    assert("semantic.highlight"@.len() != "semantic.info"@.len());
    assert("semantic.highlight"@.len() != "semantic.success"@.len());
    assert(field_at(t, a) == Some(cs[13].fg@));
    assert(field_at(t, "ui."@ + b) == Some(cs[13].bg@));
}


proof fn lemma_check_names_14(t: Theme, cs: Seq<ContrastCheck>)
    requires
        contrast_plan(t, cs),
    ensures
        names_its_fields(t, cs[14]),
{
    reveal_strlit(" / ");
    reveal_strlit("bg.primary");
    reveal_strlit("semantic.error");
    reveal_strlit("semantic.highlight");
    reveal_strlit("semantic.info");
    reveal_strlit("semantic.link");
    reveal_strlit("semantic.link / bg.primary");
    reveal_strlit("semantic.success");
    reveal_strlit("semantic.warning");
    reveal_strlit("ui.");
    reveal_strlit("ui.bg.primary");
    reveal_strlit("ui.bg.secondary");
    reveal_strlit("ui.border.muted");
    reveal_strlit("ui.border.primary");
    reveal_strlit("ui.cursor.muted");
    reveal_strlit("ui.cursor.primary");
    reveal_strlit("ui.fg.muted");
    reveal_strlit("ui.fg.primary");
    reveal_strlit("ui.fg.secondary");
    reveal_strlit("ui.selection.bg");
    reveal_strlit("ui.selection.fg");
    let a = "semantic.link"@;
    let b = "bg.primary"@;
    assert(cs[14].label@ =~= a + " / "@ + b);
    assert("ui."@ + b =~= "ui.bg.primary"@);
    assert("semantic.link"@[0] != "ui.bg.primary"@[0]);
    assert("semantic.link"@.len() != "ui.bg.secondary"@.len());
    assert("semantic.link"@[0] != "ui.fg.primary"@[0]);
    assert("semantic.link"@.len() != "ui.fg.secondary"@.len());
    assert("semantic.link"@.len() != "ui.fg.muted"@.len());
    assert("semantic.link"@.len() != "ui.border.primary"@.len());
    assert("semantic.link"@.len() != "ui.border.muted"@.len());
    assert("semantic.link"@.len() != "ui.cursor.primary"@.len());
    assert("semantic.link"@.len() != "ui.cursor.muted"@.len());
    assert("semantic.link"@.len() != "ui.selection.bg"@.len());
    assert("semantic.link"@.len() != "ui.selection.fg"@.len());
    assert("semantic.link"@.len() != "semantic.error"@.len());
    assert("semantic.link"@.len() != "semantic.warning"@.len());
    assert("semantic.link"@[9] != "semantic.info"@[9]);
    assert("semantic.link"@.len() != "semantic.success"@.len());
    assert("semantic.link"@.len() != "semantic.highlight"@.len());
    assert(field_at(t, a) == Some(cs[14].fg@));
    assert(field_at(t, "ui."@ + b) == Some(cs[14].bg@));
}


/// Body text, the primary cursor and the semantic colors must reach a
/// contrast of 3.0 (warning below 3.5); muted text, the muted cursor, borders
/// and the selection must reach 2.0 (warning below 2.5). Every warning
/// threshold is half a point above its error threshold.
pub proof fn law_contrast_thresholds(t: Theme, cs: Seq<ContrastCheck>)
    requires
        contrast_plan(t, cs),
    ensures
        forall|i: int| 0 <= i < cs.len() ==> #[trigger] cs[i].warn_below == cs[i].error_below + 5,
        cs[0].error_below == 30,
        cs[1].error_below == 30,
        cs[2].error_below == 30,
        cs[4].error_below == 30,
        cs[9].error_below == 30,
        cs[10].error_below == 30,
        cs[11].error_below == 30,
        cs[12].error_below == 30,
        cs[13].error_below == 30,
        cs[14].error_below == 30,
        cs[3].error_below == 20,
        cs[5].error_below == 20,
        cs[6].error_below == 20,
        cs[7].error_below == 20,
        cs[8].error_below == 20,
{
}

/// Every contrast check compares exactly the two theme colors its label
/// names: the check labelled `ui.fg.primary / bg.secondary` puts
/// `ui.fg.primary` on `ui.bg.secondary`, and likewise for each label.
pub proof fn law_contrast_labels(t: Theme, cs: Seq<ContrastCheck>)
    requires
        contrast_plan(t, cs),
    ensures
        cs.len() == 15,
        forall|i: int| 0 <= i < cs.len() ==> #[trigger] names_its_fields(t, cs[i]),
{
    lemma_check_names_0(t, cs);
    lemma_check_names_1(t, cs);
    lemma_check_names_2(t, cs);
    lemma_check_names_3(t, cs);
    lemma_check_names_4(t, cs);
    lemma_check_names_5(t, cs);
    lemma_check_names_6(t, cs);
    lemma_check_names_7(t, cs);
    lemma_check_names_8(t, cs);
    lemma_check_names_9(t, cs);
    lemma_check_names_10(t, cs);
    lemma_check_names_11(t, cs);
    lemma_check_names_12(t, cs);
    lemma_check_names_13(t, cs);
    lemma_check_names_14(t, cs);
    assert forall|i: int| 0 <= i < cs.len() implies #[trigger] names_its_fields(t, cs[i]) by {
        assert(i == 0 || i == 1 || i == 2 || i == 3 || i == 4 || i == 5 || i == 6 || i == 7 || i == 8 || i == 9 || i == 10 || i == 11 || i == 12 || i == 13 || i == 14);
    }
}

/// The message reported for an ANSI color without a leading `#`.
pub open spec fn not_direct_message(name: Seq<char>, value: Seq<char>) -> Seq<char> {
    "ANSI "@ + name + " must be a direct hex color, got '"@ + value + "'"@
}

/// The message reported for an ANSI color of the wrong length.
pub open spec fn bad_length_message(name: Seq<char>, value: Seq<char>) -> Seq<char> {
    "ANSI "@ + name + " invalid hex '"@ + value + "' (must be #RRGGBB)"@
}

/// `issue` is what checking ANSI color `value` named `name` reports.
pub open spec fn ansi_check(name: Seq<char>, value: Seq<char>, issue: Option<ValidationIssue>) -> bool {
    if value.len() == 0 || value[0] != '#' {
        issue matches Some(ValidationIssue::Error(m)) && m@ == not_direct_message(name, value)
    } else if encode_utf8(value).len() != 7 {
        issue matches Some(ValidationIssue::Error(m)) && m@ == bad_length_message(name, value)
    } else {
        issue is None
    }
}

/// Checks one ANSI color.
fn check_ansi(name: &str, value: &String) -> (r: Option<ValidationIssue>)
    ensures
        ansi_check(name@, value@, r),
{
    let starts_with_hash = value.as_str().unicode_len() > 0 && value.as_str().get_char(0) == '#';
    if !starts_with_hash {
        let mut m = String::from_str("ANSI ");
        m.append(name);
        m.append(" must be a direct hex color, got '");
        m.append(value.as_str());
        m.append("'");
        assert(m@ =~= not_direct_message(name@, value@));
        Some(ValidationIssue::Error(m))
    } else if value.as_str().as_bytes().len() != 7 {
        let mut m = String::from_str("ANSI ");
        m.append(name);
        m.append(" invalid hex '");
        m.append(value.as_str());
        m.append("' (must be #RRGGBB)");
        assert(m@ =~= bad_length_message(name@, value@));
        Some(ValidationIssue::Error(m))
    } else {
        None
    }
}

/// An ANSI color value that validation rejects: it does not start with `#`,
/// or it is not 7 bytes long.
pub open spec fn bad_ansi(value: Seq<char>) -> bool {
    value.len() == 0 || value[0] != '#' || encode_utf8(value).len() != 7
}

/// `issues` are the issues reported for the named ANSI colors `fields`, in order.
pub open spec fn ansi_issues(fields: Seq<(Seq<char>, Seq<char>)>, issues: Seq<ValidationIssue>) -> bool
    decreases fields.len(),
{
    if fields.len() == 0 {
        issues.len() == 0
    } else {
        let (n, v) = fields.last();
        if bad_ansi(v) {
            &&& issues.len() > 0
            &&& ansi_check(n, v, Some(issues.last()))
            &&& ansi_issues(fields.drop_last(), issues.drop_last())
        } else {
            ansi_issues(fields.drop_last(), issues)
        }
    }
}

/// The sixteen ANSI colors of `t` with their names, black first.
pub open spec fn ansi_fields(t: Theme) -> Seq<(Seq<char>, Seq<char>)> {
    seq![
        ("black"@, t.ansi.black@),
        ("red"@, t.ansi.red@),
        ("green"@, t.ansi.green@),
        ("yellow"@, t.ansi.yellow@),
        ("blue"@, t.ansi.blue@),
        ("magenta"@, t.ansi.magenta@),
        ("cyan"@, t.ansi.cyan@),
        ("white"@, t.ansi.white@),
        ("bright_black"@, t.ansi.bright_black@),
        ("bright_red"@, t.ansi.bright_red@),
        ("bright_green"@, t.ansi.bright_green@),
        ("bright_yellow"@, t.ansi.bright_yellow@),
        ("bright_blue"@, t.ansi.bright_blue@),
        ("bright_magenta"@, t.ansi.bright_magenta@),
        ("bright_cyan"@, t.ansi.bright_cyan@),
        ("bright_white"@, t.ansi.bright_white@),
    ]
}

/// Checks one ANSI color and records its issue.
fn push_ansi_issue(
    result: &mut ValidationResult,
    name: &str,
    value: &String,
    Ghost(done): Ghost<Seq<(Seq<char>, Seq<char>)>>,
)
    requires
        ansi_issues(done, old(result).issues@),
    ensures
        ansi_issues(done.push((name@, value@)), final(result).issues@),
{
    let issue = check_ansi(name, value);
    let ghost all = done.push((name@, value@));
    proof {
        assert(all.drop_last() =~= done);
    }
    if let Some(i) = issue {
        result.issues.push(i);
        proof {
            assert(final(result).issues@.drop_last() =~= old(result).issues@);
        }
    }
}

/// Checks that every ANSI color of `theme` is a direct `#RRGGBB` hex color:
/// an error for each that does not start with `#`, and for each that is not
/// 7 bytes long.
pub fn validate_ansi_hex(theme: &Theme) -> (r: ValidationResult)
    ensures
        ansi_issues(ansi_fields(*theme), r.issues@),
{
    let mut result = ValidationResult::new();
    let a = &theme.ansi;
    let ghost f = ansi_fields(*theme);
    proof {
        assert(f.take(0) =~= Seq::<(Seq<char>, Seq<char>)>::empty());
    }
    push_ansi_issue(&mut result, "black", &a.black, Ghost(f.take(0)));
    assert(f.take(0).push(("black"@, a.black@)) =~= f.take(1));
    push_ansi_issue(&mut result, "red", &a.red, Ghost(f.take(1)));
    assert(f.take(1).push(("red"@, a.red@)) =~= f.take(2));
    push_ansi_issue(&mut result, "green", &a.green, Ghost(f.take(2)));
    assert(f.take(2).push(("green"@, a.green@)) =~= f.take(3));
    push_ansi_issue(&mut result, "yellow", &a.yellow, Ghost(f.take(3)));
    assert(f.take(3).push(("yellow"@, a.yellow@)) =~= f.take(4));
    push_ansi_issue(&mut result, "blue", &a.blue, Ghost(f.take(4)));
    assert(f.take(4).push(("blue"@, a.blue@)) =~= f.take(5));
    push_ansi_issue(&mut result, "magenta", &a.magenta, Ghost(f.take(5)));
    assert(f.take(5).push(("magenta"@, a.magenta@)) =~= f.take(6));
    push_ansi_issue(&mut result, "cyan", &a.cyan, Ghost(f.take(6)));
    assert(f.take(6).push(("cyan"@, a.cyan@)) =~= f.take(7));
    push_ansi_issue(&mut result, "white", &a.white, Ghost(f.take(7)));
    assert(f.take(7).push(("white"@, a.white@)) =~= f.take(8));
    push_ansi_issue(&mut result, "bright_black", &a.bright_black, Ghost(f.take(8)));
    assert(f.take(8).push(("bright_black"@, a.bright_black@)) =~= f.take(9));
    push_ansi_issue(&mut result, "bright_red", &a.bright_red, Ghost(f.take(9)));
    assert(f.take(9).push(("bright_red"@, a.bright_red@)) =~= f.take(10));
    push_ansi_issue(&mut result, "bright_green", &a.bright_green, Ghost(f.take(10)));
    assert(f.take(10).push(("bright_green"@, a.bright_green@)) =~= f.take(11));
    push_ansi_issue(&mut result, "bright_yellow", &a.bright_yellow, Ghost(f.take(11)));
    assert(f.take(11).push(("bright_yellow"@, a.bright_yellow@)) =~= f.take(12));
    push_ansi_issue(&mut result, "bright_blue", &a.bright_blue, Ghost(f.take(12)));
    assert(f.take(12).push(("bright_blue"@, a.bright_blue@)) =~= f.take(13));
    push_ansi_issue(&mut result, "bright_magenta", &a.bright_magenta, Ghost(f.take(13)));
    assert(f.take(13).push(("bright_magenta"@, a.bright_magenta@)) =~= f.take(14));
    push_ansi_issue(&mut result, "bright_cyan", &a.bright_cyan, Ghost(f.take(14)));
    assert(f.take(14).push(("bright_cyan"@, a.bright_cyan@)) =~= f.take(15));
    push_ansi_issue(&mut result, "bright_white", &a.bright_white, Ghost(f.take(15)));
    assert(f.take(15).push(("bright_white"@, a.bright_white@)) =~= f.take(16));
    assert(f.take(16) =~= f);
    result
}


/// `v` is a color reference that stands for no color: it does not start
/// with `#` and names no base24 slot of `slots`.
pub open spec fn unresolvable(slots: Seq<Seq<char>>, v: Seq<char>) -> bool {
    &&& !(v.len() > 0 && v[0] == '#')
    &&& ref_color(slots, v) is None
}

/// The message for the reference `value` of the field `label`.
pub open spec fn ref_message(label: Seq<char>, value: Seq<char>) -> Seq<char> {
    "Unresolvable reference in "@ + label + ": '"@ + value + "'"@
}

/// `issues` holds, in order, one error for each field of `fields` whose
/// value is [`unresolvable`] against `slots`, and nothing else.
pub open spec fn ref_issues(
    slots: Seq<Seq<char>>,
    fields: Seq<(Seq<char>, Seq<char>)>,
    issues: Seq<ValidationIssue>,
) -> bool
    decreases fields.len(),
{
    if fields.len() == 0 {
        issues.len() == 0
    } else {
        let (n, v) = fields.last();
        if unresolvable(slots, v) {
            &&& issues.len() > 0
            &&& (issues.last() matches ValidationIssue::Error(m) && m@ == ref_message(n, v))
            &&& ref_issues(slots, fields.drop_last(), issues.drop_last())
        } else {
            ref_issues(slots, fields.drop_last(), issues)
        }
    }
}

/// The semantic and UI color fields of `t` with their labels, in the order
/// they are checked.
pub open spec fn ref_fields(t: Theme) -> Seq<(Seq<char>, Seq<char>)> {
    seq![
        ("semantic.error"@, t.semantic.error@),
        ("semantic.warning"@, t.semantic.warning@),
        ("semantic.info"@, t.semantic.info@),
        ("semantic.success"@, t.semantic.success@),
        ("semantic.highlight"@, t.semantic.highlight@),
        ("semantic.link"@, t.semantic.link@),
        ("ui.bg.primary"@, t.ui.bg.primary@),
        ("ui.bg.secondary"@, t.ui.bg.secondary@),
        ("ui.fg.primary"@, t.ui.fg.primary@),
        ("ui.fg.secondary"@, t.ui.fg.secondary@),
        ("ui.fg.muted"@, t.ui.fg.muted@),
        ("ui.border.primary"@, t.ui.border.primary@),
        ("ui.border.muted"@, t.ui.border.muted@),
        ("ui.cursor.primary"@, t.ui.cursor.primary@),
        ("ui.cursor.muted"@, t.ui.cursor.muted@),
        ("ui.selection.bg"@, t.ui.selection.bg@),
        ("ui.selection.fg"@, t.ui.selection.fg@),
    ]
}

/// Checks one reference and records its issue.
fn push_ref_issue(
    result: &mut ValidationResult,
    theme: &Theme,
    label: &str,
    value: &String,
    Ghost(done): Ghost<Seq<(Seq<char>, Seq<char>)>>,
)
    requires
        ref_issues(theme.base24.values(), done, old(result).issues@),
    ensures
        ref_issues(theme.base24.values(), done.push((label@, value@)), final(result).issues@),
{
    let ghost all = done.push((label@, value@));
    proof {
        assert(all.drop_last() =~= done);
    }
    let v = value.as_str();
    let direct = v.unicode_len() > 0 && v.get_char(0) == '#';
    if !direct && theme.resolve(v).is_none() {
        let mut m = String::from_str("Unresolvable reference in ");
        m.append(label);
        m.append(": '");
        m.append(v);
        m.append("'");
        assert(m@ =~= ref_message(label@, value@));
        result.issues.push(ValidationIssue::Error(m));
        proof {
            assert(final(result).issues@.drop_last() =~= old(result).issues@);
        }
    }
}

/// Checks that every semantic and UI color of `theme` is a direct `#` color
/// or a reference that resolves against its base24 slots: an error
/// `Unresolvable reference in {label}: '{value}'` for each that is not.
pub fn validate_references(theme: &Theme) -> (r: ValidationResult)
    ensures
        ref_issues(theme.base24.values(), ref_fields(*theme), r.issues@),
{
    let mut result = ValidationResult::new();
    let ghost f = ref_fields(*theme);
    proof {
        assert(f.take(0) =~= Seq::<(Seq<char>, Seq<char>)>::empty());
    }

    push_ref_issue(&mut result, theme, "semantic.error", &theme.semantic.error, Ghost(f.take(0)));
    assert(f.take(0).push(("semantic.error"@, theme.semantic.error@)) =~= f.take(1));
    push_ref_issue(&mut result, theme, "semantic.warning", &theme.semantic.warning, Ghost(f.take(1)));
    assert(f.take(1).push(("semantic.warning"@, theme.semantic.warning@)) =~= f.take(2));
    push_ref_issue(&mut result, theme, "semantic.info", &theme.semantic.info, Ghost(f.take(2)));
    assert(f.take(2).push(("semantic.info"@, theme.semantic.info@)) =~= f.take(3));
    push_ref_issue(&mut result, theme, "semantic.success", &theme.semantic.success, Ghost(f.take(3)));
    assert(f.take(3).push(("semantic.success"@, theme.semantic.success@)) =~= f.take(4));
    push_ref_issue(&mut result, theme, "semantic.highlight", &theme.semantic.highlight, Ghost(f.take(4)));
    assert(f.take(4).push(("semantic.highlight"@, theme.semantic.highlight@)) =~= f.take(5));
    push_ref_issue(&mut result, theme, "semantic.link", &theme.semantic.link, Ghost(f.take(5)));
    assert(f.take(5).push(("semantic.link"@, theme.semantic.link@)) =~= f.take(6));
    push_ref_issue(&mut result, theme, "ui.bg.primary", &theme.ui.bg.primary, Ghost(f.take(6)));
    assert(f.take(6).push(("ui.bg.primary"@, theme.ui.bg.primary@)) =~= f.take(7));
    push_ref_issue(&mut result, theme, "ui.bg.secondary", &theme.ui.bg.secondary, Ghost(f.take(7)));
    assert(f.take(7).push(("ui.bg.secondary"@, theme.ui.bg.secondary@)) =~= f.take(8));
    push_ref_issue(&mut result, theme, "ui.fg.primary", &theme.ui.fg.primary, Ghost(f.take(8)));
    assert(f.take(8).push(("ui.fg.primary"@, theme.ui.fg.primary@)) =~= f.take(9));
    push_ref_issue(&mut result, theme, "ui.fg.secondary", &theme.ui.fg.secondary, Ghost(f.take(9)));
    assert(f.take(9).push(("ui.fg.secondary"@, theme.ui.fg.secondary@)) =~= f.take(10));
    push_ref_issue(&mut result, theme, "ui.fg.muted", &theme.ui.fg.muted, Ghost(f.take(10)));
    assert(f.take(10).push(("ui.fg.muted"@, theme.ui.fg.muted@)) =~= f.take(11));
    push_ref_issue(&mut result, theme, "ui.border.primary", &theme.ui.border.primary, Ghost(f.take(11)));
    assert(f.take(11).push(("ui.border.primary"@, theme.ui.border.primary@)) =~= f.take(12));
    push_ref_issue(&mut result, theme, "ui.border.muted", &theme.ui.border.muted, Ghost(f.take(12)));
    assert(f.take(12).push(("ui.border.muted"@, theme.ui.border.muted@)) =~= f.take(13));
    push_ref_issue(&mut result, theme, "ui.cursor.primary", &theme.ui.cursor.primary, Ghost(f.take(13)));
    assert(f.take(13).push(("ui.cursor.primary"@, theme.ui.cursor.primary@)) =~= f.take(14));
    push_ref_issue(&mut result, theme, "ui.cursor.muted", &theme.ui.cursor.muted, Ghost(f.take(14)));
    assert(f.take(14).push(("ui.cursor.muted"@, theme.ui.cursor.muted@)) =~= f.take(15));
    push_ref_issue(&mut result, theme, "ui.selection.bg", &theme.ui.selection.bg, Ghost(f.take(15)));
    assert(f.take(15).push(("ui.selection.bg"@, theme.ui.selection.bg@)) =~= f.take(16));
    push_ref_issue(&mut result, theme, "ui.selection.fg", &theme.ui.selection.fg, Ghost(f.take(16)));
    assert(f.take(16).push(("ui.selection.fg"@, theme.ui.selection.fg@)) =~= f.take(17));
    assert(f.take(17) =~= f);
    result
}


/// The issue recorded for one call: `add_error(m)` when `op.0` is true,
/// else `add_warning(m)`, with `m == op.1`.
pub open spec fn issue_of(op: (bool, String)) -> ValidationIssue {
    if op.0 {
        ValidationIssue::Error(op.1)
    } else {
        ValidationIssue::Warning(op.1)
    }
}

/// `rs` is a run of results starting from [`ValidationResult::new`], each
/// what the call `ops[i]` (see [`issue_of`]) leaves of the one before.
pub open spec fn recorded(rs: Seq<ValidationResult>, ops: Seq<(bool, String)>) -> bool {
    &&& rs.len() == ops.len() + 1
    &&& rs[0].issues@ == Seq::<ValidationIssue>::empty()
    &&& forall|i: int| 0 <= i < ops.len() ==> #[trigger] rs[i + 1].issues@ == rs[i].issues@.push(issue_of(ops[i]))
}

proof fn lemma_recorded(rs: Seq<ValidationResult>, ops: Seq<(bool, String)>, k: int)
    requires
        recorded(rs, ops),
        0 <= k <= ops.len(),
    ensures
        rs[k].issues@ == ops.take(k).map_values(|op: (bool, String)| issue_of(op)),
    decreases k,
{
    if k > 0 {
        lemma_recorded(rs, ops, k - 1);
        assert(rs[(k - 1) + 1].issues@ == rs[k - 1].issues@.push(issue_of(ops[k - 1])));
        assert(ops.take(k).map_values(|op: (bool, String)| issue_of(op))
            =~= ops.take(k - 1).map_values(|op: (bool, String)| issue_of(op)).push(issue_of(ops[k - 1])));
    } else {
        assert(ops.take(0).map_values(|op: (bool, String)| issue_of(op)) =~= Seq::<ValidationIssue>::empty());
    }
}

/// After any sequence of `add_error` and `add_warning` calls on a new
/// result, its issues are those calls' issues in call order, and it has
/// errors exactly when at least one `add_error` call was made.
pub proof fn law_recorded_issues(rs: Seq<ValidationResult>, ops: Seq<(bool, String)>)
    requires
        recorded(rs, ops),
    ensures
        rs.last().issues@ == ops.map_values(|op: (bool, String)| issue_of(op)),
        has_error(rs.last().issues@) <==> exists|i: int| 0 <= i < ops.len() && #[trigger] ops[i].0,
{
    lemma_recorded(rs, ops, ops.len() as int);
    assert(ops.take(ops.len() as int) =~= ops);
    let is = rs.last().issues@;
    if has_error(is) {
        let i = choose|i: int| 0 <= i < is.len() && #[trigger] is[i] is Error;
        assert(ops[i].0);
    }
    if exists|i: int| 0 <= i < ops.len() && #[trigger] ops[i].0 {
        let i = choose|i: int| 0 <= i < ops.len() && #[trigger] ops[i].0;
        assert(is[i] is Error);
    }
}

/// Checking references reports nothing for fields that are all direct `#`
/// colors, whatever the slots.
pub proof fn lemma_direct_fields(
    slots: Seq<Seq<char>>,
    fields: Seq<(Seq<char>, Seq<char>)>,
    issues: Seq<ValidationIssue>,
)
    requires
        ref_issues(slots, fields, issues),
        forall|k: int| 0 <= k < fields.len() ==> #[trigger] fields[k].1.len() > 0 && fields[k].1[0] == '#',
    ensures
        issues.len() == 0,
    decreases fields.len(),
{
    if fields.len() > 0 {
        let v = fields.last().1;
        assert(fields.last() == fields[fields.len() - 1]);
        assert(!unresolvable(slots, v));
        assert forall|k: int| 0 <= k < fields.drop_last().len() implies #[trigger] fields.drop_last()[k].1.len() > 0
            && fields.drop_last()[k].1[0] == '#' by {
            assert(fields.drop_last()[k] == fields[k]);
        }
        lemma_direct_fields(slots, fields.drop_last(), issues);
    }
}

/// A theme whose semantic and interface colors are all direct `#` colors
/// has no reference issues.
pub proof fn law_direct_colors_pass(t: Theme, issues: Seq<ValidationIssue>)
    requires
        ref_issues(t.base24.values(), ref_fields(t), issues),
        forall|k: int| 0 <= k < ref_fields(t).len() ==> #[trigger] ref_fields(t)[k].1.len() > 0
            && ref_fields(t)[k].1[0] == '#',
    ensures
        issues.len() == 0,
{
    lemma_direct_fields(t.base24.values(), ref_fields(t), issues);
}
} // verus!
