//! Tests for the exact shape of the action sequence: one element when only
//! the fix resolves, none when neither fix nor suppression does.

use rule_signals::categories::ActionCategory;
use rule_signals::no_aria_hidden_on_focusable::{NoAriaHiddenOnFocusable, SERVICE_ARIA};
use rule_signals::rule::{
    AnalyzerOptions, InlineSuppression, JsxRuntime, NoSuppression, PreferredQuote, ServiceBag,
};
use rule_signals::signals::{AnalyzerSignal, RuleSignal};
use rule_signals::syntax::{JsxAttribute, JsxElement, SyntaxRoot};
use rule_signals::text::TextRange;

fn options() -> AnalyzerOptions {
    AnalyzerOptions {
        globals: vec![],
        file_path: "file.jsx".to_string(),
        preferred_quote: PreferredQuote::Double,
        jsx_runtime: JsxRuntime::Transparent,
        rule_fix_kind: None,
    }
}

fn hidden_focusable() -> JsxElement {
    JsxElement {
        name: Some("div".to_string()),
        is_element: true,
        range: TextRange::new(0, 40),
        attributes: vec![JsxAttribute {
            name: "aria-hidden".to_string(),
            range: TextRange::new(5, 22),
            static_value: Some("true".to_string()),
            initializer: None,
        }],
    }
}

#[test]
fn only_fix_resolves_yields_one_fix_action() {
    // Without suppression support, the capability never provides an edit,
    // so the sequence holds the fix alone.
    let mut services = ServiceBag::new();
    services.insert(SERVICE_ARIA);
    let signal = RuleSignal::<NoAriaHiddenOnFocusable, NoSuppression>::new(
        SyntaxRoot { source: String::new() },
        hidden_focusable(),
        (),
        services,
        NoSuppression,
        options(),
        None,
    );
    let mut actions = signal.actions();
    assert_eq!(actions.len(), 1);
    let fix = actions.next().unwrap();
    assert_eq!(fix.category, ActionCategory::QuickFix);
    assert!(actions.next().is_none());
}

#[test]
fn neither_resolves_yields_the_empty_sequence() {
    // An element without the aria-hidden attribute gives the bundled rule
    // neither a fix nor a suppression anchor.
    let mut services = ServiceBag::new();
    services.insert(SERVICE_ARIA);
    let signal = RuleSignal::<NoAriaHiddenOnFocusable, InlineSuppression>::new(
        SyntaxRoot { source: String::new() },
        JsxElement {
            name: Some("div".to_string()),
            is_element: true,
            range: TextRange::new(0, 10),
            attributes: vec![],
        },
        (),
        services,
        InlineSuppression {
            comment: "// ignore".to_string(),
            message: "Suppress the finding.".to_string(),
        },
        options(),
        None,
    );
    let mut actions = signal.actions();
    assert_eq!(actions.len(), 0);
    assert!(actions.next().is_none());
}
