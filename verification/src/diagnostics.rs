//! Diagnostic values raised by rules, and the flattened code-suggestion
//! shapes that downstream consumers read.

use vstd::prelude::*;
use crate::categories::{ActionCategory, ActionCategoryView, Applicability};
use crate::text::TextRange;

verus! {

/// A diagnostic produced by one rule for one query match.
#[derive(PartialEq, Eq, Debug)]
pub struct RuleDiagnostic {
    pub range: TextRange,
    pub message: String,
    pub note: Option<String>,
}

/// Mathematical value of a rule diagnostic.
pub ghost struct RuleDiagnosticView {
    pub range: TextRange,
    pub message: Seq<char>,
    pub note: Option<Seq<char>>,
}

impl View for RuleDiagnostic {
    type V = RuleDiagnosticView;

    open spec fn view(&self) -> RuleDiagnosticView {
        RuleDiagnosticView {
            range: self.range,
            message: self.message@,
            note: match &self.note {
                Some(n) => Some(n@),
                None => None,
            },
        }
    }
}

impl RuleDiagnostic {
    pub fn new(range: TextRange, message: String) -> (r: RuleDiagnostic)
        ensures
            r@ == (RuleDiagnosticView { range, message: message@, note: None }),
    {
        RuleDiagnostic { range, message, note: None }
    }

    /// Attach an explanatory note.
    pub fn note(self, note: String) -> (r: RuleDiagnostic)
        ensures
            r@ == (RuleDiagnosticView { range: self@.range, message: self@.message, note: Some(note@) }),
    {
        RuleDiagnostic { range: self.range, message: self.message, note: Some(note) }
    }
}

/// The diagnostic shape handed to the reporting layer; its source range is
/// optional because a diagnostic may be manufactured from a bare error.
#[derive(PartialEq, Eq, Debug)]
pub struct AnalyzerDiagnostic {
    pub range: Option<TextRange>,
    pub message: String,
    pub note: Option<String>,
}

/// Mathematical value of an analyzer diagnostic.
pub ghost struct AnalyzerDiagnosticView {
    pub range: Option<TextRange>,
    pub message: Seq<char>,
    pub note: Option<Seq<char>>,
}

impl View for AnalyzerDiagnostic {
    type V = AnalyzerDiagnosticView;

    open spec fn view(&self) -> AnalyzerDiagnosticView {
        AnalyzerDiagnosticView {
            range: self.range,
            message: self.message@,
            note: match &self.note {
                Some(n) => Some(n@),
                None => None,
            },
        }
    }
}

/// The analyzer diagnostic that corresponds to a rule diagnostic.
pub open spec fn diag_of_rule(d: RuleDiagnosticView) -> AnalyzerDiagnosticView {
    AnalyzerDiagnosticView { range: Some(d.range), message: d.message, note: d.note }
}

impl AnalyzerDiagnostic {
    /// Wrap a diagnostic raised by a rule.
    pub fn from_rule_diagnostic(d: RuleDiagnostic) -> (r: AnalyzerDiagnostic)
        ensures
            r@ == diag_of_rule(d@),
    {
        AnalyzerDiagnostic { range: Some(d.range), message: d.message, note: d.note }
    }

    /// Wrap a bare error message with no source range.
    pub fn from_error(message: String) -> (r: AnalyzerDiagnostic)
        ensures
            r@ == (AnalyzerDiagnosticView { range: None, message: message@, note: None }),
    {
        AnalyzerDiagnostic { range: None, message, note: None }
    }

    /// An equal diagnostic backed by fresh storage.
    pub fn duplicate(&self) -> (r: AnalyzerDiagnostic)
        ensures
            r@ == self@,
    {
        AnalyzerDiagnostic {
            range: self.range,
            message: self.message.clone(),
            note: match &self.note {
                Some(n) => Some(n.clone()),
                None => None,
            },
        }
    }
}

/// A single edit description: span, safety, message and replacement text.
#[derive(PartialEq, Eq, Debug)]
pub struct CodeSuggestion {
    pub span: TextRange,
    pub applicability: Applicability,
    pub msg: String,
    pub suggestion: String,
    /// Reserved for future structured annotations; always empty today.
    pub labels: Vec<TextRange>,
}

/// Mathematical value of a code suggestion.
pub ghost struct CodeSuggestionView {
    pub span: TextRange,
    pub applicability: Applicability,
    pub msg: Seq<char>,
    pub suggestion: Seq<char>,
    pub labels: Seq<TextRange>,
}

impl View for CodeSuggestion {
    type V = CodeSuggestionView;

    open spec fn view(&self) -> CodeSuggestionView {
        CodeSuggestionView {
            span: self.span,
            applicability: self.applicability,
            msg: self.msg@,
            suggestion: self.suggestion@,
            labels: self.labels@,
        }
    }
}

/// Advice record derived from an action: safety, message, and the
/// replacement text the action's mutation reduces to.
#[derive(PartialEq, Eq, Debug)]
pub struct CodeSuggestionAdvice {
    pub applicability: Applicability,
    pub msg: String,
    pub suggestion: String,
}

/// Mathematical value of a code-suggestion advice.
pub ghost struct CodeSuggestionAdviceView {
    pub applicability: Applicability,
    pub msg: Seq<char>,
    pub suggestion: Seq<char>,
}

impl View for CodeSuggestionAdvice {
    type V = CodeSuggestionAdviceView;

    open spec fn view(&self) -> CodeSuggestionAdviceView {
        CodeSuggestionAdviceView {
            applicability: self.applicability,
            msg: self.msg@,
            suggestion: self.suggestion@,
        }
    }
}

/// Flat projection of an action that keeps the rule identity and category
/// alongside the edit description.
#[derive(PartialEq, Eq, Debug)]
pub struct CodeSuggestionItem {
    pub rule_name: Option<(&'static str, &'static str)>,
    pub category: ActionCategory,
    pub suggestion: CodeSuggestion,
}

/// Mathematical value of a code-suggestion item.
pub ghost struct CodeSuggestionItemView {
    pub rule_name: Option<(Seq<char>, Seq<char>)>,
    pub category: ActionCategoryView,
    pub suggestion: CodeSuggestionView,
}

impl View for CodeSuggestionItem {
    type V = CodeSuggestionItemView;

    open spec fn view(&self) -> CodeSuggestionItemView {
        CodeSuggestionItemView {
            rule_name: rule_name_view(self.rule_name),
            category: self.category@,
            suggestion: self.suggestion@,
        }
    }
}

/// Mathematical value of an optional (group, name) rule identity.
pub open spec fn rule_name_view(n: Option<(&'static str, &'static str)>) -> Option<
    (Seq<char>, Seq<char>),
> {
    match n {
        Some((group, name)) => Some((group@, name@)),
        None => None,
    }
}

} // verus!
