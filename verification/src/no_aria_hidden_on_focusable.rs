//! Enforce that `aria-hidden="true"` is not set on focusable elements.
//!
//! `aria-hidden="true"` can be used to hide purely decorative content from
//! screen reader users. A focusable element with `aria-hidden="true"` can
//! be reached by keyboard, which can lead to confusion or unexpected
//! behavior for screen reader users.
//!
//! This rule is a client of the signal core, kept here to exercise the
//! rule contract end to end.

use vstd::prelude::*;
use vstd::string::*;
use crate::categories::{ActionCategory, ActionCategoryView, Applicability};
use crate::diagnostics::{RuleDiagnostic, RuleDiagnosticView};
use crate::numbers::{int_literal_value, is_int_literal, parse_i32};
use crate::rule::{Rule, RuleAction, RuleActionView, RuleContext};
use crate::syntax::{
    AnyJsxAttributeValue, AnyJsxAttributeValueView, JsxElement, number_like_value,
    spec_find_attribute,
};
use crate::text::{BatchMutation, TextEditView, TextRange};

verus! {

/// The service identifier of the ARIA role model this rule queries
/// against.
pub const SERVICE_ARIA: u32 = 1;

pub struct NoAriaHiddenOnFocusable;

/// Whether a tab-index text settles the match: a parseable value keeps the
/// element focusable exactly when it is not negative.
pub open spec fn tab_index_signal(t: Seq<char>) -> Option<()> {
    if is_int_literal(t) && i32::MIN <= int_literal_value(t) && int_literal_value(t) <= i32::MAX {
        if int_literal_value(t) >= 0 {
            Some(())
        } else {
            None
        }
    } else {
        None
    }
}

impl NoAriaHiddenOnFocusable {
    /// What the query hook yields for an element: a match exactly when the
    /// element hides itself from assistive technology while remaining
    /// focusable through its tab index.
    pub open spec fn run_spec(ctx: RuleContext<'_, NoAriaHiddenOnFocusable>) -> Option<()> {
        let e = ctx.query@;
        if e.name is None {
            None
        } else if !e.is_element {
            None
        } else {
            match spec_find_attribute(e.attributes, "aria-hidden"@) {
                None => None,
                Some(aria) => match aria.static_value {
                    None => None,
                    Some(v) => if v == "false"@ {
                        None
                    } else {
                        match spec_find_attribute(e.attributes, "tabIndex"@) {
                            None => None,
                            Some(tab) => match tab.initializer {
                                None => None,
                                Some(init) => match init {
                                    AnyJsxAttributeValueView::AnyJsxTag(t) => (
                                    tab_index_signal(t)),
                                    AnyJsxAttributeValueView::JsxString(sv) => (
                                    tab_index_signal(sv)),
                                    AnyJsxAttributeValueView::JsxExpressionAttributeValue(
                                        expr,
                                    ) => match number_like_value(expr) {
                                        Some(t) => tab_index_signal(t),
                                        None => None,
                                    },
                                },
                            },
                        }
                    },
                },
            }
        }
    }

    /// Evaluate the query against one element.
    pub fn run(ctx: &RuleContext<'_, NoAriaHiddenOnFocusable>) -> (r: Option<()>)
        ensures
            r == Self::run_spec(*ctx),
    {
        let node = ctx.query;
        if node.name.is_none() {
            return None;
        }
        if !node.is_element {
            return None;
        }
        let aria = match node.find_attribute_by_name("aria-hidden") {
            Some(a) => a,
            None => {
                return None;
            },
        };
        let value = match &aria.static_value {
            Some(v) => v,
            None => {
                return None;
            },
        };
        let false_text: String = "false".to_owned();
        if value.eq(&false_text) {
            return None;
        }
        let tab = match node.find_attribute_by_name("tabIndex") {
            Some(t) => t,
            None => {
                return None;
            },
        };
        let init = match &tab.initializer {
            Some(i) => i,
            None => {
                return None;
            },
        };
        match init {
            AnyJsxAttributeValue::AnyJsxTag(t) => {
                match parse_i32(t.as_str()) {
                    Some(num) => if num >= 0 {
                        Some(())
                    } else {
                        None
                    },
                    None => None,
                }
            },
            AnyJsxAttributeValue::JsxString(sv) => {
                match parse_i32(sv.as_str()) {
                    Some(num) => if num >= 0 {
                        Some(())
                    } else {
                        None
                    },
                    None => None,
                }
            },
            AnyJsxAttributeValue::JsxExpressionAttributeValue(expr) => {
                let text = match expr.value() {
                    Some(v) => v,
                    None => {
                        return None;
                    },
                };
                match parse_i32(text.as_str()) {
                    Some(num) => if num >= 0 {
                        Some(())
                    } else {
                        None
                    },
                    None => None,
                }
            },
        }
    }
}

impl Rule for NoAriaHiddenOnFocusable {
    type Query = JsxElement;

    type State = ();

    type Options = ();

    type Signals = Option<()>;

    open spec fn group_spec() -> Seq<char> {
        "a11y"@
    }

    fn group() -> (r: &'static str) {
        "a11y"
    }

    open spec fn name_spec() -> Seq<char> {
        "noAriaHiddenOnFocusable"@
    }

    fn name() -> (r: &'static str) {
        "noAriaHiddenOnFocusable"
    }

    open spec fn required_services_spec() -> Seq<u32> {
        seq![SERVICE_ARIA]
    }

    fn required_services() -> (r: Vec<u32>) {
        let mut v: Vec<u32> = Vec::new();
        v.push(SERVICE_ARIA);
        proof {
            assert(v@ =~= seq![SERVICE_ARIA]);
        }
        v
    }

    open spec fn default_options_spec() -> () {
        ()
    }

    fn default_options() -> (r: ()) {
        ()
    }

    open spec fn diagnostic_spec(ctx: RuleContext<'_, Self>, state: ()) -> Option<
        RuleDiagnosticView,
    > {
        Some(
            RuleDiagnosticView {
                range: ctx.query@.range,
                message: "Disallow aria-hidden=\"true\" from being set on focusable elements."@,
                note: Some(
                    "aria-hidden should not be set to true on focusable elements because this can lead to confusing behavior for screen reader users."@,
                ),
            },
        )
    }

    fn diagnostic(ctx: &RuleContext<'_, Self>, state: &()) -> (r: Option<RuleDiagnostic>) {
        let d = RuleDiagnostic::new(
            ctx.query.range,
            String::from_str(
                "Disallow aria-hidden=\"true\" from being set on focusable elements.",
            ),
        ).note(
            String::from_str(
                "aria-hidden should not be set to true on focusable elements because this can lead to confusing behavior for screen reader users.",
            ),
        );
        Some(d)
    }

    open spec fn action_spec(ctx: RuleContext<'_, Self>, state: ()) -> Option<RuleActionView> {
        match spec_find_attribute(ctx.query@.attributes, "aria-hidden"@) {
            Some(attr) => Some(
                RuleActionView {
                    category: ActionCategoryView::QuickFix,
                    applicability: Applicability::MaybeIncorrect,
                    message: "Remove the aria-hidden attribute from the element."@,
                    mutation: seq![
                        TextEditView { range: attr.range, new_text: Seq::<char>::empty() },
                    ],
                },
            ),
            None => None,
        }
    }

    fn action(ctx: &RuleContext<'_, Self>, state: &()) -> (r: Option<RuleAction>) {
        let node = ctx.query;
        let aria = match node.find_attribute_by_name("aria-hidden") {
            Some(a) => a,
            None => {
                return None;
            },
        };
        let mut mutation = BatchMutation::new();
        mutation.remove_range(aria.range);
        proof {
            assert(mutation@ =~= seq![
                TextEditView { range: aria@.range, new_text: Seq::<char>::empty() },
            ]);
        }
        Some(
            RuleAction::new(
                ActionCategory::QuickFix,
                Applicability::MaybeIncorrect,
                String::from_str("Remove the aria-hidden attribute from the element."),
                mutation,
            ),
        )
    }

    open spec fn text_range_spec(ctx: RuleContext<'_, Self>, state: ()) -> Option<TextRange> {
        match spec_find_attribute(ctx.query@.attributes, "aria-hidden"@) {
            Some(_attr) => Some(ctx.query@.range),
            None => None,
        }
    }

    fn text_range(ctx: &RuleContext<'_, Self>, state: &()) -> (r: Option<TextRange>) {
        let node = ctx.query;
        match node.find_attribute_by_name("aria-hidden") {
            Some(_a) => Some(node.range),
            None => None,
        }
    }

    open spec fn transform_spec(ctx: RuleContext<'_, Self>, state: ()) -> Option<
        Seq<TextEditView>,
    > {
        None
    }

    fn transform(ctx: &RuleContext<'_, Self>, state: &()) -> (r: Option<BatchMutation>) {
        None
    }
}

} // verus!
