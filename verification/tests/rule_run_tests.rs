//! Tests for the bundled rule's query evaluation and for integer-literal
//! parsing.

use rule_signals::no_aria_hidden_on_focusable::{NoAriaHiddenOnFocusable, SERVICE_ARIA};
use rule_signals::numbers::parse_i32;
use rule_signals::rule::{JsxRuntime, PreferredQuote, RuleContext, ServiceBag};
use rule_signals::syntax::{
    AnyJsxAttributeValue, AnyNumberLikeExpression, JsxAttribute, JsxElement, SyntaxRoot,
};
use rule_signals::text::TextRange;

fn aria_hidden(value: &str) -> JsxAttribute {
    JsxAttribute {
        name: "aria-hidden".to_string(),
        range: TextRange::new(5, 22),
        static_value: Some(value.to_string()),
        initializer: None,
    }
}

fn tab_index(value: AnyJsxAttributeValue) -> JsxAttribute {
    JsxAttribute {
        name: "tabIndex".to_string(),
        range: TextRange::new(23, 35),
        static_value: None,
        initializer: Some(value),
    }
}

fn element(attributes: Vec<JsxAttribute>) -> JsxElement {
    JsxElement {
        name: Some("div".to_string()),
        is_element: true,
        range: TextRange::new(0, 40),
        attributes,
    }
}

fn run_on(e: &JsxElement) -> Option<()> {
    let root = SyntaxRoot { source: String::new() };
    let mut services = ServiceBag::new();
    services.insert(SERVICE_ARIA);
    let globals: Vec<String> = vec![];
    let path = "file.jsx".to_string();
    let options = ();
    let ctx = RuleContext::<NoAriaHiddenOnFocusable>::new(
        e,
        &root,
        &services,
        &globals,
        &path,
        &options,
        PreferredQuote::Double,
        JsxRuntime::Transparent,
    )
    .ok()
    .expect("the aria service is provided");
    NoAriaHiddenOnFocusable::run(&ctx)
}

#[test]
fn hidden_element_with_zero_tab_index_matches() {
    let e = element(vec![
        aria_hidden("true"),
        tab_index(AnyJsxAttributeValue::JsxString("0".to_string())),
    ]);
    assert_eq!(run_on(&e), Some(()));
}

#[test]
fn hidden_element_with_negative_tab_index_does_not_match() {
    let e = element(vec![
        aria_hidden("true"),
        tab_index(AnyJsxAttributeValue::JsxString("-1".to_string())),
    ]);
    assert_eq!(run_on(&e), None);
}

#[test]
fn hidden_element_with_negative_expression_tab_index_does_not_match() {
    let e = element(vec![
        aria_hidden("true"),
        tab_index(AnyJsxAttributeValue::JsxExpressionAttributeValue(
            AnyNumberLikeExpression::JsUnaryExpression {
                text: "-1".to_string(),
                is_signed_numeric_literal: true,
            },
        )),
    ]);
    assert_eq!(run_on(&e), None);
}

#[test]
fn hidden_element_with_numeric_expression_tab_index_matches() {
    let e = element(vec![
        aria_hidden("true"),
        tab_index(AnyJsxAttributeValue::JsxExpressionAttributeValue(
            AnyNumberLikeExpression::JsNumberLiteralExpression("5".to_string()),
        )),
    ]);
    assert_eq!(run_on(&e), Some(()));
}

#[test]
fn aria_hidden_false_does_not_match() {
    let e = element(vec![
        aria_hidden("false"),
        tab_index(AnyJsxAttributeValue::JsxString("0".to_string())),
    ]);
    assert_eq!(run_on(&e), None);
}

#[test]
fn element_without_tab_index_does_not_match() {
    let e = element(vec![aria_hidden("true")]);
    assert_eq!(run_on(&e), None);
}

#[test]
fn unparseable_tab_index_does_not_match() {
    let e = element(vec![
        aria_hidden("true"),
        tab_index(AnyJsxAttributeValue::AnyJsxTag("zero".to_string())),
    ]);
    assert_eq!(run_on(&e), None);
}

#[test]
fn nameless_element_does_not_match() {
    let mut e = element(vec![
        aria_hidden("true"),
        tab_index(AnyJsxAttributeValue::JsxString("0".to_string())),
    ]);
    e.name = None;
    assert_eq!(run_on(&e), None);
}

#[test]
fn fragment_does_not_match() {
    let mut e = element(vec![
        aria_hidden("true"),
        tab_index(AnyJsxAttributeValue::JsxString("0".to_string())),
    ]);
    e.is_element = false;
    assert_eq!(run_on(&e), None);
}

#[test]
fn first_attribute_of_a_name_wins() {
    let e = element(vec![
        aria_hidden("false"),
        aria_hidden("true"),
        tab_index(AnyJsxAttributeValue::JsxString("0".to_string())),
    ]);
    // The first aria-hidden attribute says "false", so the rule stands
    // down even though a later one says "true".
    assert_eq!(run_on(&e), None);
}

#[test]
fn number_like_expression_values() {
    assert_eq!(
        AnyNumberLikeExpression::JsStringLiteralExpression("7".to_string()).value(),
        Some("7".to_string())
    );
    assert_eq!(
        AnyNumberLikeExpression::JsNumberLiteralExpression("12".to_string()).value(),
        Some("12".to_string())
    );
    assert_eq!(
        AnyNumberLikeExpression::JsUnaryExpression {
            text: "-3".to_string(),
            is_signed_numeric_literal: true
        }
        .value(),
        Some("-3".to_string())
    );
    assert_eq!(
        AnyNumberLikeExpression::JsUnaryExpression {
            text: "!x".to_string(),
            is_signed_numeric_literal: false
        }
        .value(),
        None
    );
}

#[test]
fn parse_i32_accepts_plain_and_signed_numbers() {
    assert_eq!(parse_i32("0"), Some(0));
    assert_eq!(parse_i32("5"), Some(5));
    assert_eq!(parse_i32("+5"), Some(5));
    assert_eq!(parse_i32("-5"), Some(-5));
    assert_eq!(parse_i32("007"), Some(7));
    assert_eq!(parse_i32("2147483647"), Some(i32::MAX));
    assert_eq!(parse_i32("-2147483648"), Some(i32::MIN));
}

#[test]
fn parse_i32_rejects_malformed_and_overflowing_input() {
    assert_eq!(parse_i32(""), None);
    assert_eq!(parse_i32("+"), None);
    assert_eq!(parse_i32("-"), None);
    assert_eq!(parse_i32("abc"), None);
    assert_eq!(parse_i32("1a"), None);
    assert_eq!(parse_i32(" 1"), None);
    assert_eq!(parse_i32("1 "), None);
    assert_eq!(parse_i32("--1"), None);
    assert_eq!(parse_i32("2147483648"), None);
    assert_eq!(parse_i32("-2147483649"), None);
    assert_eq!(parse_i32("12345678901234567890"), None);
}

#[test]
fn parse_i32_agrees_with_the_standard_library() {
    for text in [
        "0", "5", "+5", "-5", "007", "2147483647", "-2147483648", "", "+", "-", "abc", "1a",
        " 1", "1 ", "--1", "2147483648", "-2147483649", "12345678901234567890", "৪", "١٢",
    ] {
        assert_eq!(parse_i32(text), text.parse::<i32>().ok(), "on {text:?}");
    }
}
