//! Signals raised by the analyzer when a rule matches: the uniform signal
//! interface, a minimal diagnostic-only signal, the production rule signal,
//! and the finite iterators over emitted actions and transformations.

use vstd::prelude::*;
use crate::categories::{ActionCategory, ActionCategoryView, Applicability, FixKind};
use crate::diagnostics::{
    AnalyzerDiagnostic, AnalyzerDiagnosticView, CodeSuggestion, CodeSuggestionAdvice,
    CodeSuggestionAdviceView, CodeSuggestionItem, CodeSuggestionItemView, CodeSuggestionView,
    diag_of_rule, rule_name_view,
};
use crate::rule::{AnalyzerOptions, Rule, RuleContext, ServiceBag, SuppressionAction};
use crate::syntax::SyntaxRoot;
use crate::text::{BatchMutation, TextEditView, TextRange, cover_end, cover_start, joined_text};

verus! {

/// Code action returned by the analyzer: a rule action tagged with the
/// identity of the rule that produced it, after configuration policy was
/// applied.
#[derive(PartialEq, Eq, Debug)]
pub struct AnalyzerAction {
    pub rule_name: Option<(&'static str, &'static str)>,
    pub category: ActionCategory,
    pub applicability: Applicability,
    pub message: String,
    pub mutation: BatchMutation,
}

/// Mathematical value of an analyzer action.
pub ghost struct AnalyzerActionView {
    pub rule_name: Option<(Seq<char>, Seq<char>)>,
    pub category: ActionCategoryView,
    pub applicability: Applicability,
    pub message: Seq<char>,
    pub mutation: Seq<TextEditView>,
}

impl View for AnalyzerAction {
    type V = AnalyzerActionView;

    open spec fn view(&self) -> AnalyzerActionView {
        AnalyzerActionView {
            rule_name: rule_name_view(self.rule_name),
            category: self.category@,
            applicability: self.applicability,
            message: self.message@,
            mutation: self.mutation@,
        }
    }
}

/// Mathematical value of an optional analyzer action.
pub open spec fn opt_action_view(r: Option<AnalyzerAction>) -> Option<AnalyzerActionView> {
    match r {
        Some(a) => Some(a@),
        None => None,
    }
}

/// Mathematical value of an optional analyzer diagnostic.
pub open spec fn opt_analyzer_diag_view(r: Option<AnalyzerDiagnostic>) -> Option<
    AnalyzerDiagnosticView,
> {
    match r {
        Some(d) => Some(d@),
        None => None,
    }
}

impl AnalyzerAction {
    pub fn is_suppression(&self) -> (r: bool)
        ensures
            r == (self@.category is Suppression),
    {
        self.category.is_suppression()
    }

    /// An equal action backed by fresh storage.
    pub fn duplicate(&self) -> (r: AnalyzerAction)
        ensures
            r@ == self@,
    {
        AnalyzerAction {
            rule_name: self.rule_name,
            category: self.category.duplicate(),
            applicability: self.applicability,
            message: self.message.clone(),
            mutation: self.mutation.duplicate(),
        }
    }

    /// Project this action to an advice record: safety, message, and the
    /// replacement text its mutation reduces to. A mutation with no edits
    /// yields the empty replacement rather than failing.
    pub fn into_code_suggestion_advice(self) -> (r: CodeSuggestionAdvice)
        ensures
            r@ == advice_of_action(self@),
    {
        let (_range, suggestion) = self.mutation.to_text_range_and_edit();
        CodeSuggestionAdvice { applicability: self.applicability, msg: self.message, suggestion }
    }

    /// Project this action to a flat code-suggestion item carrying the rule
    /// identity and category alongside the edit description. A mutation
    /// with no edits yields the empty range and replacement.
    pub fn into_code_suggestion_item(self) -> (r: CodeSuggestionItem)
        ensures
            r@ == item_of_action(self@),
    {
        let (range, suggestion) = self.mutation.to_text_range_and_edit();
        let labels: Vec<TextRange> = Vec::new();
        proof {
            assert(labels@ =~= Seq::<TextRange>::empty());
        }
        CodeSuggestionItem {
            rule_name: self.rule_name,
            category: self.category,
            suggestion: CodeSuggestion {
                span: range,
                applicability: self.applicability,
                msg: self.message,
                suggestion,
                labels,
            },
        }
    }
}

/// The advice record an action projects to.
pub open spec fn advice_of_action(a: AnalyzerActionView) -> CodeSuggestionAdviceView {
    CodeSuggestionAdviceView {
        applicability: a.applicability,
        msg: a.message,
        suggestion: if a.mutation.len() == 0 {
            Seq::<char>::empty()
        } else {
            joined_text(a.mutation)
        },
    }
}

/// The flat code-suggestion item an action projects to.
pub open spec fn item_of_action(a: AnalyzerActionView) -> CodeSuggestionItemView {
    CodeSuggestionItemView {
        rule_name: a.rule_name,
        category: a.category,
        suggestion: CodeSuggestionView {
            span: if a.mutation.len() == 0 {
                TextRange { start: 0, end: 0 }
            } else {
                TextRange { start: cover_start(a.mutation), end: cover_end(a.mutation) }
            },
            applicability: a.applicability,
            msg: a.message,
            suggestion: if a.mutation.len() == 0 {
                Seq::<char>::empty()
            } else {
                joined_text(a.mutation)
            },
            labels: Seq::<TextRange>::empty(),
        },
    }
}

/// A pure rewrite with no diagnostic attached.
#[derive(PartialEq, Eq, Debug)]
pub struct AnalyzerTransformation {
    pub mutation: BatchMutation,
}

/// Mathematical value of an analyzer transformation.
pub ghost struct AnalyzerTransformationView {
    pub mutation: Seq<TextEditView>,
}

impl View for AnalyzerTransformation {
    type V = AnalyzerTransformationView;

    open spec fn view(&self) -> AnalyzerTransformationView {
        AnalyzerTransformationView { mutation: self.mutation@ }
    }
}

/// Mathematical value of an optional transformation.
pub open spec fn opt_transformation_view(r: Option<AnalyzerTransformation>) -> Option<
    AnalyzerTransformationView,
> {
    match r {
        Some(t) => Some(t@),
        None => None,
    }
}

/// Finite, size-known, single-pass sequence of analyzer actions.
pub struct AnalyzerActionIter {
    actions: Vec<AnalyzerAction>,
}

impl View for AnalyzerActionIter {
    type V = Seq<AnalyzerActionView>;

    closed spec fn view(&self) -> Seq<AnalyzerActionView> {
        self.actions@.map_values(|a: AnalyzerAction| a@)
    }
}

impl AnalyzerActionIter {
    pub fn new(actions: Vec<AnalyzerAction>) -> (r: AnalyzerActionIter)
        ensures
            r@ == actions@.map_values(|a: AnalyzerAction| a@),
    {
        AnalyzerActionIter { actions }
    }

    /// The empty sequence of actions.
    pub fn empty() -> (r: AnalyzerActionIter)
        ensures
            r@ == Seq::<AnalyzerActionView>::empty(),
    {
        let r = AnalyzerActionIter { actions: Vec::new() };
        proof {
            assert(r@ =~= Seq::<AnalyzerActionView>::empty());
        }
        r
    }

    /// The next action, consuming it from the sequence.
    pub fn next(&mut self) -> (r: Option<AnalyzerAction>)
        ensures
            old(self)@.len() == 0 ==> r is None && final(self)@ == old(self)@,
            old(self)@.len() > 0 ==> opt_action_view(r) == Some(old(self)@[0])
                && final(self)@ == old(self)@.drop_first(),
    {
        if self.actions.len() == 0 {
            None
        } else {
            let a = self.actions.remove(0);
            proof {
                assert(self@ =~= old(self)@.drop_first());
            }
            Some(a)
        }
    }

    /// How many actions remain.
    pub fn len(&self) -> (r: usize)
        ensures
            r == self@.len(),
    {
        self.actions.len()
    }

    /// View the remaining actions as advice records, without re-evaluating
    /// the rule.
    pub fn into_code_suggestion_advices(self) -> (r: CodeSuggestionAdviceIter)
        ensures
            r@ == self@,
    {
        CodeSuggestionAdviceIter { actions: self.actions }
    }

    /// View the remaining actions as flat code-suggestion items, without
    /// re-evaluating the rule.
    pub fn into_code_action_iter(self) -> (r: CodeActionIter)
        ensures
            r@ == self@,
    {
        CodeActionIter { actions: self.actions }
    }
}

impl Default for AnalyzerActionIter {
    /// The empty sequence of actions.
    fn default() -> (r: AnalyzerActionIter)
        ensures
            r@ == Seq::<AnalyzerActionView>::empty(),
    {
        AnalyzerActionIter::empty()
    }
}

/// Mathematical value of an optional advice record.
pub open spec fn opt_advice_view(r: Option<CodeSuggestionAdvice>) -> Option<
    CodeSuggestionAdviceView,
> {
    match r {
        Some(a) => Some(a@),
        None => None,
    }
}

/// Single-pass view of an action sequence as advice records.
pub struct CodeSuggestionAdviceIter {
    actions: Vec<AnalyzerAction>,
}

impl View for CodeSuggestionAdviceIter {
    type V = Seq<AnalyzerActionView>;

    closed spec fn view(&self) -> Seq<AnalyzerActionView> {
        self.actions@.map_values(|a: AnalyzerAction| a@)
    }
}

impl CodeSuggestionAdviceIter {
    /// The advice record of the next action, consuming it.
    pub fn next(&mut self) -> (r: Option<CodeSuggestionAdvice>)
        ensures
            old(self)@.len() == 0 ==> r is None && final(self)@ == old(self)@,
            old(self)@.len() > 0 ==> opt_advice_view(r) == Some(advice_of_action(old(self)@[0]))
                && final(self)@ == old(self)@.drop_first(),
    {
        if self.actions.len() == 0 {
            None
        } else {
            let a = self.actions.remove(0);
            proof {
                assert(self@ =~= old(self)@.drop_first());
            }
            Some(a.into_code_suggestion_advice())
        }
    }

    /// How many actions remain.
    pub fn len(&self) -> (r: usize)
        ensures
            r == self@.len(),
    {
        self.actions.len()
    }
}

/// Mathematical value of an optional code-suggestion item.
pub open spec fn opt_item_view(r: Option<CodeSuggestionItem>) -> Option<CodeSuggestionItemView> {
    match r {
        Some(a) => Some(a@),
        None => None,
    }
}

/// Single-pass view of an action sequence as flat code-suggestion items.
pub struct CodeActionIter {
    actions: Vec<AnalyzerAction>,
}

impl View for CodeActionIter {
    type V = Seq<AnalyzerActionView>;

    closed spec fn view(&self) -> Seq<AnalyzerActionView> {
        self.actions@.map_values(|a: AnalyzerAction| a@)
    }
}

impl CodeActionIter {
    /// The code-suggestion item of the next action, consuming it.
    pub fn next(&mut self) -> (r: Option<CodeSuggestionItem>)
        ensures
            old(self)@.len() == 0 ==> r is None && final(self)@ == old(self)@,
            old(self)@.len() > 0 ==> opt_item_view(r) == Some(item_of_action(old(self)@[0]))
                && final(self)@ == old(self)@.drop_first(),
    {
        if self.actions.len() == 0 {
            None
        } else {
            let a = self.actions.remove(0);
            proof {
                assert(self@ =~= old(self)@.drop_first());
            }
            Some(a.into_code_suggestion_item())
        }
    }

    /// How many actions remain.
    pub fn len(&self) -> (r: usize)
        ensures
            r == self@.len(),
    {
        self.actions.len()
    }
}

/// Finite, size-known, single-pass sequence of transformations.
pub struct AnalyzerTransformationIter {
    transformations: Vec<AnalyzerTransformation>,
}

impl View for AnalyzerTransformationIter {
    type V = Seq<AnalyzerTransformationView>;

    closed spec fn view(&self) -> Seq<AnalyzerTransformationView> {
        self.transformations@.map_values(|t: AnalyzerTransformation| t@)
    }
}

impl AnalyzerTransformationIter {
    pub fn new(transformations: Vec<AnalyzerTransformation>) -> (r: AnalyzerTransformationIter)
        ensures
            r@ == transformations@.map_values(|t: AnalyzerTransformation| t@),
    {
        AnalyzerTransformationIter { transformations }
    }

    /// The empty sequence of transformations.
    pub fn empty() -> (r: AnalyzerTransformationIter)
        ensures
            r@ == Seq::<AnalyzerTransformationView>::empty(),
    {
        let r = AnalyzerTransformationIter { transformations: Vec::new() };
        proof {
            assert(r@ =~= Seq::<AnalyzerTransformationView>::empty());
        }
        r
    }

    /// The next transformation, consuming it from the sequence.
    pub fn next(&mut self) -> (r: Option<AnalyzerTransformation>)
        ensures
            old(self)@.len() == 0 ==> r is None && final(self)@ == old(self)@,
            old(self)@.len() > 0 ==> opt_transformation_view(r) == Some(old(self)@[0])
                && final(self)@ == old(self)@.drop_first(),
    {
        if self.transformations.len() == 0 {
            None
        } else {
            let t = self.transformations.remove(0);
            proof {
                assert(self@ =~= old(self)@.drop_first());
            }
            Some(t)
        }
    }

    /// How many transformations remain.
    pub fn len(&self) -> (r: usize)
        ensures
            r == self@.len(),
    {
        self.transformations.len()
    }
}

impl Default for AnalyzerTransformationIter {
    /// The empty sequence of transformations.
    fn default() -> (r: AnalyzerTransformationIter)
        ensures
            r@ == Seq::<AnalyzerTransformationView>::empty(),
    {
        AnalyzerTransformationIter::empty()
    }
}

/// Event raised by the analyzer when a rule emits a diagnostic, code
/// actions, or transformations. Each accessor is computed freshly per call,
/// without side effects: its result is pinned to a specification function
/// of the signal value alone, so repeated calls agree.
pub trait AnalyzerSignal {
    /// The diagnostic this signal produces, if any.
    spec fn diagnostic_spec(&self) -> Option<AnalyzerDiagnosticView>;

    /// The finite action sequence this signal produces.
    spec fn actions_spec(&self) -> Seq<AnalyzerActionView>;

    /// The finite transformation sequence this signal produces.
    spec fn transformations_spec(&self) -> Seq<AnalyzerTransformationView>;

    fn diagnostic(&self) -> (r: Option<AnalyzerDiagnostic>)
        ensures
            opt_analyzer_diag_view(r) == self.diagnostic_spec(),
    ;

    fn actions(&self) -> (r: AnalyzerActionIter)
        ensures
            r@ == self.actions_spec(),
    ;

    fn transformations(&self) -> (r: AnalyzerTransformationIter)
        ensures
            r@ == self.transformations_spec(),
    ;
}

/// Simple implementation of the signal interface for callers that only
/// need to raise a diagnostic, optionally with one attached fix, without
/// implementing the full rule contract. It never yields transformations.
pub struct DiagnosticSignal {
    diagnostic: AnalyzerDiagnostic,
    action: Option<AnalyzerAction>,
}

impl DiagnosticSignal {
    pub fn new(diagnostic: AnalyzerDiagnostic) -> (r: DiagnosticSignal)
        ensures
            r.diagnostic_spec() == Some(diagnostic@),
            r.actions_spec() == Seq::<AnalyzerActionView>::empty(),
            r.transformations_spec() == Seq::<AnalyzerTransformationView>::empty(),
    {
        DiagnosticSignal { diagnostic, action: None }
    }

    /// Attach exactly one fix action to this signal.
    pub fn with_action(self, action: AnalyzerAction) -> (r: DiagnosticSignal)
        ensures
            r.diagnostic_spec() == self.diagnostic_spec(),
            r.actions_spec() == seq![action@],
            r.transformations_spec() == Seq::<AnalyzerTransformationView>::empty(),
    {
        DiagnosticSignal { diagnostic: self.diagnostic, action: Some(action) }
    }
}

impl AnalyzerSignal for DiagnosticSignal {
    closed spec fn diagnostic_spec(&self) -> Option<AnalyzerDiagnosticView> {
        Some(self.diagnostic@)
    }

    closed spec fn actions_spec(&self) -> Seq<AnalyzerActionView> {
        match self.action {
            Some(a) => seq![a@],
            None => Seq::<AnalyzerActionView>::empty(),
        }
    }

    closed spec fn transformations_spec(&self) -> Seq<AnalyzerTransformationView> {
        Seq::<AnalyzerTransformationView>::empty()
    }

    fn diagnostic(&self) -> (r: Option<AnalyzerDiagnostic>) {
        Some(self.diagnostic.duplicate())
    }

    fn actions(&self) -> (r: AnalyzerActionIter) {
        match &self.action {
            Some(a) => {
                let mut actions: Vec<AnalyzerAction> = Vec::new();
                actions.push(a.duplicate());
                let r = AnalyzerActionIter::new(actions);
                proof {
                    assert(r@ =~= self.actions_spec());
                }
                r
            },
            None => AnalyzerActionIter::empty(),
        }
    }

    fn transformations(&self) -> (r: AnalyzerTransformationIter) {
        AnalyzerTransformationIter::empty()
    }
}

/// The production signal: binds one rule implementation to one query
/// match, owns the match state, and lazily re-derives the evaluation
/// context on every accessor call. No result is cached across calls.
pub struct RuleSignal<R: Rule, S: SuppressionAction> {
    pub root: SyntaxRoot,
    pub query_result: R::Query,
    pub state: R::State,
    pub services: ServiceBag,
    /// The injected strategy that spells suppression edits.
    pub suppression_action: S,
    /// Analyzer-wide options, including this rule's fix-kind policy.
    pub options: AnalyzerOptions,
    /// This rule's own options, when configuration carries any.
    pub rule_options: Option<R::Options>,
}

impl<R: Rule + 'static, S: SuppressionAction> RuleSignal<R, S> {
    pub fn new(
        root: SyntaxRoot,
        query_result: R::Query,
        state: R::State,
        services: ServiceBag,
        suppression_action: S,
        options: AnalyzerOptions,
        rule_options: Option<R::Options>,
    ) -> (r: RuleSignal<R, S>)
        ensures
            r == (RuleSignal::<R, S> {
                root,
                query_result,
                state,
                services,
                suppression_action,
                options,
                rule_options,
            }),
    {
        RuleSignal { root, query_result, state, services, suppression_action, options, rule_options }
    }

    /// The rule options in force: the configured ones, or the defaults.
    pub open spec fn resolved_options(&self) -> R::Options {
        match self.rule_options {
            Some(o) => o,
            None => R::default_options_spec(),
        }
    }

    /// Whether the evaluation context can be built at all.
    pub open spec fn ctx_available(&self) -> bool {
        self.services.provides_all(R::required_services_spec())
    }

    /// The evaluation context every accessor re-derives.
    pub open spec fn spec_ctx<'a>(&'a self) -> RuleContext<'a, R> {
        RuleContext {
            query: &self.query_result,
            root: &self.root,
            services: &self.services,
            globals: &self.options.globals,
            file_path: &self.options.file_path,
            options: &self.resolved_options(),
            preferred_quote: self.options.preferred_quote,
            jsx_runtime: self.options.jsx_runtime,
        }
    }

    /// The applicability forced by the configured fix-kind, if any.
    pub open spec fn configured_applicability(&self) -> Option<Applicability> {
        match self.options.rule_fix_kind {
            Some(FixKind::Safe) => Some(Applicability::Always),
            Some(FixKind::Unsafe) => Some(Applicability::MaybeIncorrect),
            _ => None,
        }
    }

    /// The fix slot of the action sequence: one action when the rule's fix
    /// hook yields one, with the configured applicability taking precedence
    /// over the one the rule declared.
    pub open spec fn fix_part(&self) -> Seq<AnalyzerActionView> {
        match R::action_spec(self.spec_ctx(), self.state) {
            Some(a) => seq![
                AnalyzerActionView {
                    rule_name: Some((R::group_spec(), R::name_spec())),
                    category: a.category,
                    applicability: match self.configured_applicability() {
                        Some(forced) => forced,
                        None => a.applicability,
                    },
                    message: a.message,
                    mutation: a.mutation,
                },
            ],
            None => Seq::<AnalyzerActionView>::empty(),
        }
    }

    /// Whether the suppression slot is filled: the anchor-range hook yields
    /// a range and the capability yields an edit for it.
    pub open spec fn has_suppression(&self) -> bool {
        match R::text_range_spec(self.spec_ctx(), self.state) {
            Some(range) => self.suppression_action.produce_spec(self.root, range) is Some,
            None => false,
        }
    }

    /// The suppression slot of the action sequence: one action when the
    /// anchor range resolves and the capability provides an edit, always
    /// tagged as an always-safe suppression with this rule's identity.
    pub open spec fn suppression_part(&self) -> Seq<AnalyzerActionView> {
        match R::text_range_spec(self.spec_ctx(), self.state) {
            Some(range) => match self.suppression_action.produce_spec(self.root, range) {
                Some(s) => seq![
                    AnalyzerActionView {
                        rule_name: Some((R::group_spec(), R::name_spec())),
                        category: ActionCategoryView::Suppression,
                        applicability: Applicability::Always,
                        message: s.message,
                        mutation: s.mutation,
                    },
                ],
                None => Seq::<AnalyzerActionView>::empty(),
            },
            None => Seq::<AnalyzerActionView>::empty(),
        }
    }
}

impl<R: Rule + 'static, S: SuppressionAction> AnalyzerSignal for RuleSignal<R, S> {
    open spec fn diagnostic_spec(&self) -> Option<AnalyzerDiagnosticView> {
        if !self.ctx_available() {
            None
        } else {
            match R::diagnostic_spec(self.spec_ctx(), self.state) {
                Some(d) => Some(diag_of_rule(d)),
                None => None,
            }
        }
    }

    open spec fn actions_spec(&self) -> Seq<AnalyzerActionView> {
        if self.options.rule_fix_kind == Some(FixKind::Disabled) {
            Seq::<AnalyzerActionView>::empty()
        } else if !self.ctx_available() {
            Seq::<AnalyzerActionView>::empty()
        } else {
            self.fix_part() + self.suppression_part()
        }
    }

    open spec fn transformations_spec(&self) -> Seq<AnalyzerTransformationView> {
        if !self.ctx_available() {
            Seq::<AnalyzerTransformationView>::empty()
        } else {
            match R::transform_spec(self.spec_ctx(), self.state) {
                Some(m) => seq![AnalyzerTransformationView { mutation: m }],
                None => Seq::<AnalyzerTransformationView>::empty(),
            }
        }
    }

    fn diagnostic(&self) -> (r: Option<AnalyzerDiagnostic>) {
        let default_opts = R::default_options();
        let opts = match &self.rule_options {
            Some(o) => o,
            None => &default_opts,
        };
        let ctx = match RuleContext::new(
            &self.query_result,
            &self.root,
            &self.services,
            &self.options.globals,
            &self.options.file_path,
            opts,
            self.options.preferred_quote,
            self.options.jsx_runtime,
        ) {
            Ok(c) => c,
            Err(_) => {
                return None;
            },
        };
        proof {
            assert(ctx == self.spec_ctx());
        }
        match R::diagnostic(&ctx, &self.state) {
            Some(d) => Some(AnalyzerDiagnostic::from_rule_diagnostic(d)),
            None => None,
        }
    }

    fn actions(&self) -> (r: AnalyzerActionIter) {
        match self.options.rule_fix_kind {
            Some(FixKind::Disabled) => {
                // The action is disabled by configuration, independent of
                // what the rule itself would produce.
                return AnalyzerActionIter::empty();
            },
            _ => {},
        }
        let default_opts = R::default_options();
        let opts = match &self.rule_options {
            Some(o) => o,
            None => &default_opts,
        };
        let ctx = match RuleContext::new(
            &self.query_result,
            &self.root,
            &self.services,
            &self.options.globals,
            &self.options.file_path,
            opts,
            self.options.preferred_quote,
            self.options.jsx_runtime,
        ) {
            Ok(c) => c,
            Err(_) => {
                return AnalyzerActionIter::empty();
            },
        };
        proof {
            assert(ctx == self.spec_ctx());
        }
        let configured_applicability: Option<Applicability> = match self.options.rule_fix_kind {
            Some(FixKind::Safe) => Some(Applicability::Always),
            Some(FixKind::Unsafe) => Some(Applicability::MaybeIncorrect),
            _ => None,
        };
        proof {
            assert(configured_applicability == self.configured_applicability());
        }
        let mut actions: Vec<AnalyzerAction> = Vec::new();
        if let Some(action) = R::action(&ctx, &self.state) {
            let applicability = match configured_applicability {
                Some(forced) => forced,
                None => action.applicability(),
            };
            actions.push(
                AnalyzerAction {
                    rule_name: Some((R::group(), R::name())),
                    applicability,
                    category: action.category,
                    mutation: action.mutation,
                    message: action.message,
                },
            );
        }
        proof {
            assert(actions@.map_values(|a: AnalyzerAction| a@) =~= self.fix_part());
        }
        if let Some(text_range) = R::text_range(&ctx, &self.state) {
            if let Some(suppression) = self.suppression_action.produce(&self.root, &text_range) {
                actions.push(
                    AnalyzerAction {
                        rule_name: Some((R::group(), R::name())),
                        category: ActionCategory::Suppression,
                        applicability: Applicability::Always,
                        mutation: suppression.mutation,
                        message: suppression.message,
                    },
                );
            }
        }
        let r = AnalyzerActionIter::new(actions);
        proof {
            assert(r@ =~= self.fix_part() + self.suppression_part());
        }
        r
    }

    fn transformations(&self) -> (r: AnalyzerTransformationIter) {
        let default_opts = R::default_options();
        let opts = match &self.rule_options {
            Some(o) => o,
            None => &default_opts,
        };
        let ctx = match RuleContext::new(
            &self.query_result,
            &self.root,
            &self.services,
            &self.options.globals,
            &self.options.file_path,
            opts,
            self.options.preferred_quote,
            self.options.jsx_runtime,
        ) {
            Ok(c) => c,
            Err(_) => {
                return AnalyzerTransformationIter::empty();
            },
        };
        proof {
            assert(ctx == self.spec_ctx());
        }
        let mut transformations: Vec<AnalyzerTransformation> = Vec::new();
        if let Some(mutation) = R::transform(&ctx, &self.state) {
            transformations.push(AnalyzerTransformation { mutation });
        }
        let r = AnalyzerTransformationIter::new(transformations);
        proof {
            assert(r@ =~= self.transformations_spec());
        }
        r
    }
}

/// Law: for a rule configured with the disabled fix-kind, the action
/// sequence is empty regardless of what the rule's own hooks would
/// produce.
pub proof fn lemma_disabled_fix_kind_yields_no_actions<R: Rule + 'static, S: SuppressionAction>(
    signal: &RuleSignal<R, S>,
)
    requires
        signal.options.rule_fix_kind == Some(FixKind::Disabled),
    ensures
        signal.actions_spec() == Seq::<AnalyzerActionView>::empty(),
{
}

/// Law: under a configured safe (resp. unsafe) fix-kind, every action in
/// the sequence other than a suppression reports applicability always
/// (resp. maybe-incorrect), overriding whatever the rule declared.
pub proof fn lemma_fix_kind_overrides_applicability<R: Rule + 'static, S: SuppressionAction>(
    signal: &RuleSignal<R, S>,
    i: int,
)
    requires
        signal.options.rule_fix_kind == Some(FixKind::Safe) || signal.options.rule_fix_kind
            == Some(FixKind::Unsafe),
        0 <= i < signal.actions_spec().len(),
        !(signal.actions_spec()[i].category is Suppression),
    ensures
        signal.options.rule_fix_kind == Some(FixKind::Safe) ==> signal.actions_spec()[
            i
        ].applicability == Applicability::Always,
        signal.options.rule_fix_kind == Some(FixKind::Unsafe) ==> signal.actions_spec()[
            i
        ].applicability == Applicability::MaybeIncorrect,
{
}

/// Law: the action sequence holds the fix first and the suppression
/// second; it has exactly two elements when both resolve, exactly one when
/// only one of them does, and none otherwise.
pub proof fn lemma_actions_shape<R: Rule + 'static, S: SuppressionAction>(
    signal: &RuleSignal<R, S>,
)
    requires
        signal.options.rule_fix_kind != Some(FixKind::Disabled),
        signal.ctx_available(),
    ensures
        signal.actions_spec() == signal.fix_part() + signal.suppression_part(),
        signal.fix_part().len() == (if R::action_spec(signal.spec_ctx(), signal.state) is Some {
            1int
        } else {
            0int
        }),
        signal.suppression_part().len() == (if signal.has_suppression() {
            1int
        } else {
            0int
        }),
        R::action_spec(signal.spec_ctx(), signal.state) is Some ==> signal.actions_spec()[0]
            == signal.fix_part()[0],
        signal.has_suppression() ==> signal.actions_spec().last() == signal.suppression_part()[0],
{
}

/// Law: a suppression action always carries the suppression category and
/// the always-safe applicability, independent of the configured fix-kind,
/// and is tagged with the identity of the originating rule.
pub proof fn lemma_suppression_action_invariant<R: Rule + 'static, S: SuppressionAction>(
    signal: &RuleSignal<R, S>,
)
    ensures
        forall|i: int|
            #![trigger signal.suppression_part()[i]]
            0 <= i < signal.suppression_part().len() ==> ({
            let a = signal.suppression_part()[i];
            &&& a.category is Suppression
            &&& a.applicability == Applicability::Always
            &&& a.rule_name == Some((R::group_spec(), R::name_spec()))
        }),
{
}

/// Law: `diagnostic()` is idempotent. Any two results its contract admits
/// for the same signal are equal, because both equal the signal's
/// diagnostic specification.
pub proof fn lemma_diagnostic_idempotent<S: AnalyzerSignal>(
    signal: &S,
    first: Option<AnalyzerDiagnostic>,
    second: Option<AnalyzerDiagnostic>,
)
    requires
        opt_analyzer_diag_view(first) == signal.diagnostic_spec(),
        opt_analyzer_diag_view(second) == signal.diagnostic_spec(),
    ensures
        opt_analyzer_diag_view(first) == opt_analyzer_diag_view(second),
{
}

/// Law: `actions()` is idempotent. Any two action sequences its contract
/// admits for the same signal are equal.
pub proof fn lemma_actions_idempotent<S: AnalyzerSignal>(
    signal: &S,
    first: &AnalyzerActionIter,
    second: &AnalyzerActionIter,
)
    requires
        first@ == signal.actions_spec(),
        second@ == signal.actions_spec(),
    ensures
        first@ == second@,
{
}

/// Law: `transformations()` is idempotent. Any two transformation
/// sequences its contract admits for the same signal are equal.
pub proof fn lemma_transformations_idempotent<S: AnalyzerSignal>(
    signal: &S,
    first: &AnalyzerTransformationIter,
    second: &AnalyzerTransformationIter,
)
    requires
        first@ == signal.transformations_spec(),
        second@ == signal.transformations_spec(),
    ensures
        first@ == second@,
{
}

} // verus!
