//! Scenario tests for the signal machinery: fix-kind policy, action
//! ordering, suppression invariants, idempotence, and the two projections
//! of an action sequence.

use rule_signals::categories::{ActionCategory, Applicability, FixKind};
use rule_signals::diagnostics::AnalyzerDiagnostic;
use rule_signals::no_aria_hidden_on_focusable::{NoAriaHiddenOnFocusable, SERVICE_ARIA};
use rule_signals::rule::{
    AnalyzerOptions, InlineSuppression, JsxRuntime, PreferredQuote, RuleAction, ServiceBag,
};
use rule_signals::signals::{AnalyzerSignal, DiagnosticSignal, RuleSignal};
use rule_signals::syntax::{JsxAttribute, JsxElement, SyntaxRoot};
use rule_signals::text::{BatchMutation, TextRange};

fn attr(name: &str, range: (u32, u32), static_value: Option<&str>) -> JsxAttribute {
    JsxAttribute {
        name: name.to_string(),
        range: TextRange::new(range.0, range.1),
        static_value: static_value.map(|v| v.to_string()),
        initializer: None,
    }
}

fn focusable_hidden_element() -> JsxElement {
    JsxElement {
        name: Some("div".to_string()),
        is_element: true,
        range: TextRange::new(0, 40),
        attributes: vec![
            attr("aria-hidden", (5, 22), Some("true")),
            attr("tabIndex", (23, 35), Some("0")),
        ],
    }
}

fn options(fix_kind: Option<FixKind>) -> AnalyzerOptions {
    AnalyzerOptions {
        globals: vec![],
        file_path: "file.jsx".to_string(),
        preferred_quote: PreferredQuote::Double,
        jsx_runtime: JsxRuntime::Transparent,
        rule_fix_kind: fix_kind,
    }
}

fn signal(fix_kind: Option<FixKind>) -> RuleSignal<NoAriaHiddenOnFocusable, InlineSuppression> {
    let mut services = ServiceBag::new();
    services.insert(SERVICE_ARIA);
    RuleSignal::new(
        SyntaxRoot { source: "<div aria-hidden=\"true\" tabIndex=\"0\" />".to_string() },
        focusable_hidden_element(),
        (),
        services,
        InlineSuppression {
            comment: "// ignore: noAriaHiddenOnFocusable".to_string(),
            message: "Suppress the finding at this location.".to_string(),
        },
        options(fix_kind),
        None,
    )
}

#[test]
fn unconfigured_fix_kind_yields_fix_then_suppression() {
    let mut actions = signal(None).actions();
    assert_eq!(actions.len(), 2);
    let fix = actions.next().unwrap();
    assert_eq!(fix.category, ActionCategory::QuickFix);
    assert_eq!(fix.applicability, Applicability::MaybeIncorrect);
    assert_eq!(fix.rule_name, Some(("a11y", "noAriaHiddenOnFocusable")));
    let suppression = actions.next().unwrap();
    assert_eq!(suppression.category, ActionCategory::Suppression);
    assert_eq!(suppression.applicability, Applicability::Always);
    assert_eq!(suppression.rule_name, Some(("a11y", "noAriaHiddenOnFocusable")));
    assert!(actions.next().is_none());
}

#[test]
fn disabled_fix_kind_yields_empty_actions() {
    let mut actions = signal(Some(FixKind::Disabled)).actions();
    assert_eq!(actions.len(), 0);
    assert!(actions.next().is_none());
}

#[test]
fn safe_fix_kind_forces_always_safe_applicability() {
    let mut actions = signal(Some(FixKind::Safe)).actions();
    assert_eq!(actions.len(), 2);
    let fix = actions.next().unwrap();
    assert_eq!(fix.applicability, Applicability::Always);
    let suppression = actions.next().unwrap();
    assert_eq!(suppression.applicability, Applicability::Always);
}

#[test]
fn unsafe_fix_kind_forces_maybe_incorrect_applicability() {
    let mut actions = signal(Some(FixKind::Unsafe)).actions();
    let fix = actions.next().unwrap();
    assert_eq!(fix.applicability, Applicability::MaybeIncorrect);
    // The suppression is untouched by the configured fix-kind.
    let suppression = actions.next().unwrap();
    assert_eq!(suppression.applicability, Applicability::Always);
    assert_eq!(suppression.category, ActionCategory::Suppression);
}

#[test]
fn accessors_are_idempotent() {
    let s = signal(None);
    let d1 = s.diagnostic();
    let d2 = s.diagnostic();
    assert_eq!(d1, d2);
    let mut a1 = s.actions();
    let mut a2 = s.actions();
    assert_eq!(a1.len(), a2.len());
    while let Some(x) = a1.next() {
        assert_eq!(Some(x), a2.next());
    }
    let t1 = s.transformations();
    let t2 = s.transformations();
    assert_eq!(t1.len(), t2.len());
    assert_eq!(t1.len(), 0);
}

#[test]
fn missing_service_reports_nothing() {
    let s = RuleSignal::<NoAriaHiddenOnFocusable, InlineSuppression>::new(
        SyntaxRoot { source: String::new() },
        focusable_hidden_element(),
        (),
        ServiceBag::new(),
        InlineSuppression { comment: "//".to_string(), message: "m".to_string() },
        options(None),
        None,
    );
    assert!(s.diagnostic().is_none());
    assert_eq!(s.actions().len(), 0);
    assert_eq!(s.transformations().len(), 0);
}

#[test]
fn rule_signal_diagnostic_carries_rule_message() {
    let d = signal(None).diagnostic().expect("a diagnostic");
    assert_eq!(
        d.message,
        "Disallow aria-hidden=\"true\" from being set on focusable elements."
    );
    assert_eq!(d.range, Some(TextRange::new(0, 40)));
    assert!(d.note.is_some());
}

#[test]
fn suppression_edit_inserts_marker_before_anchor() {
    let mut actions = signal(None).actions();
    let _fix = actions.next().unwrap();
    let suppression = actions.next().unwrap();
    let (range, text) = suppression.mutation.to_text_range_and_edit();
    assert_eq!(range, TextRange::new(0, 0));
    assert_eq!(text, "// ignore: noAriaHiddenOnFocusable");
}

#[test]
fn diagnostic_signal_without_action() {
    let s = DiagnosticSignal::new(AnalyzerDiagnostic {
        range: None,
        message: "something went wrong".to_string(),
        note: None,
    });
    let d = s.diagnostic().expect("a diagnostic");
    assert_eq!(d.message, "something went wrong");
    assert_eq!(s.actions().len(), 0);
    assert_eq!(s.transformations().len(), 0);
}

#[test]
fn diagnostic_signal_with_action_yields_one_action() {
    let mut mutation = BatchMutation::new();
    mutation.replace_range(TextRange::new(2, 4), "xy".to_string());
    let s = DiagnosticSignal::new(AnalyzerDiagnostic {
        range: Some(TextRange::new(2, 4)),
        message: "flagged".to_string(),
        note: None,
    })
    .with_action(rule_signals::signals::AnalyzerAction {
        rule_name: None,
        category: ActionCategory::QuickFix,
        applicability: Applicability::Always,
        message: "replace it".to_string(),
        mutation,
    });
    let mut actions = s.actions();
    assert_eq!(actions.len(), 1);
    let a = actions.next().unwrap();
    assert_eq!(a.message, "replace it");
    assert!(actions.next().is_none());
    assert_eq!(s.transformations().len(), 0);
}

#[test]
fn advice_projection_reduces_the_mutation() {
    let actions = signal(None).actions();
    let mut advices = actions.into_code_suggestion_advices();
    assert_eq!(advices.len(), 2);
    let fix_advice = advices.next().unwrap();
    assert_eq!(fix_advice.applicability, Applicability::MaybeIncorrect);
    assert_eq!(fix_advice.msg, "Remove the aria-hidden attribute from the element.");
    // The fix removes the attribute: its replacement text is empty.
    assert_eq!(fix_advice.suggestion, "");
    let suppression_advice = advices.next().unwrap();
    assert_eq!(suppression_advice.suggestion, "// ignore: noAriaHiddenOnFocusable");
    assert!(advices.next().is_none());
}

#[test]
fn item_projection_keeps_identity_and_category() {
    let actions = signal(None).actions();
    let mut items = actions.into_code_action_iter();
    assert_eq!(items.len(), 2);
    let fix_item = items.next().unwrap();
    assert_eq!(fix_item.rule_name, Some(("a11y", "noAriaHiddenOnFocusable")));
    assert_eq!(fix_item.category, ActionCategory::QuickFix);
    // The fix removes the aria-hidden attribute at its range.
    assert_eq!(fix_item.suggestion.span, TextRange::new(5, 22));
    assert_eq!(fix_item.suggestion.suggestion, "");
    assert!(fix_item.suggestion.labels.is_empty());
    let suppression_item = items.next().unwrap();
    assert_eq!(suppression_item.category, ActionCategory::Suppression);
}

#[test]
fn is_suppression_tracks_the_category() {
    let mut actions = signal(None).actions();
    let fix = actions.next().unwrap();
    assert!(!fix.is_suppression());
    let suppression = actions.next().unwrap();
    assert!(suppression.is_suppression());
}

#[test]
fn rule_action_applicability_accessor() {
    let mut mutation = BatchMutation::new();
    mutation.remove_range(TextRange::new(1, 2));
    let a = RuleAction::new(
        ActionCategory::QuickFix,
        Applicability::MaybeIncorrect,
        "m".to_string(),
        mutation,
    );
    assert_eq!(a.applicability(), Applicability::MaybeIncorrect);
}
