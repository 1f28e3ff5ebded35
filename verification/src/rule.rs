//! The contract every analysis rule implements, the per-rule evaluation
//! context, and the injected suppression capability.

use vstd::prelude::*;
use crate::categories::{ActionCategory, ActionCategoryView, Applicability, FixKind};
use crate::diagnostics::{RuleDiagnostic, RuleDiagnosticView};
use crate::syntax::SyntaxRoot;
use crate::text::{BatchMutation, TextEditView, TextRange};

verus! {

/// The services wired up for the current file, named by identifier. A rule
/// can only run when every service it requires is provided.
#[derive(PartialEq, Eq, Debug)]
pub struct ServiceBag {
    pub provided: Vec<u32>,
}

impl ServiceBag {
    pub open spec fn spec_provides(self, id: u32) -> bool {
        self.provided@.contains(id)
    }

    /// Whether every identifier in `ids` is provided.
    pub open spec fn provides_all(self, ids: Seq<u32>) -> bool {
        forall|i: int| 0 <= i < ids.len() ==> self.spec_provides(ids[i])
    }

    pub fn new() -> (r: ServiceBag)
        ensures
            r.provided@ == Seq::<u32>::empty(),
    {
        let r = ServiceBag { provided: Vec::new() };
        proof {
            assert(r.provided@ =~= Seq::<u32>::empty());
        }
        r
    }

    pub fn insert(&mut self, id: u32)
        ensures
            final(self).provided@ == old(self).provided@.push(id),
    {
        self.provided.push(id);
    }

    pub fn provides(&self, id: u32) -> (r: bool)
        ensures
            r == self.spec_provides(id),
    {
        let mut i: usize = 0;
        while i < self.provided.len()
            invariant
                i <= self.provided@.len(),
                forall|j: int| 0 <= j < i ==> self.provided@[j] != id,
            decreases self.provided@.len() - i,
        {
            if self.provided[i] == id {
                return true;
            }
            i += 1;
        }
        false
    }
}

/// The quote style the formatter prefers for the current file.
#[derive(Clone, Copy, PartialEq, Eq, Structural, Debug)]
pub enum PreferredQuote {
    Double,
    Single,
}

/// How the JSX transform is configured for the current project.
#[derive(Clone, Copy, PartialEq, Eq, Structural, Debug)]
pub enum JsxRuntime {
    Transparent,
    ReactClassic,
}

/// Resolved analyzer-wide options for the current file, including the
/// fix-kind policy configured for the rule under evaluation.
pub struct AnalyzerOptions {
    /// Identifiers considered globals inside the analyzer.
    pub globals: Vec<String>,
    pub file_path: String,
    pub preferred_quote: PreferredQuote,
    pub jsx_runtime: JsxRuntime,
    /// The fix policy configured for the rule under evaluation, when one
    /// is configured at all.
    pub rule_fix_kind: Option<FixKind>,
}

/// A fix proposed by a rule's own fix hook, before the engine tags it with
/// the rule identity and applies the configured fix-kind policy.
#[derive(PartialEq, Eq, Debug)]
pub struct RuleAction {
    pub category: ActionCategory,
    pub applicability: Applicability,
    pub message: String,
    pub mutation: BatchMutation,
}

/// Mathematical value of a rule action.
pub ghost struct RuleActionView {
    pub category: ActionCategoryView,
    pub applicability: Applicability,
    pub message: Seq<char>,
    pub mutation: Seq<TextEditView>,
}

impl View for RuleAction {
    type V = RuleActionView;

    open spec fn view(&self) -> RuleActionView {
        RuleActionView {
            category: self.category@,
            applicability: self.applicability,
            message: self.message@,
            mutation: self.mutation@,
        }
    }
}

impl RuleAction {
    pub fn new(
        category: ActionCategory,
        applicability: Applicability,
        message: String,
        mutation: BatchMutation,
    ) -> (r: RuleAction)
        ensures
            r@ == (RuleActionView {
                category: category@,
                applicability,
                message: message@,
                mutation: mutation@,
            }),
    {
        RuleAction { category, applicability, message, mutation }
    }

    pub fn applicability(&self) -> (r: Applicability)
        ensures
            r == self@.applicability,
    {
        self.applicability
    }
}

/// The edit a suppression capability synthesizes: the mutation that inserts
/// the suppression marker, and the message shown for the action.
#[derive(PartialEq, Eq, Debug)]
pub struct SuppressionEdit {
    pub mutation: BatchMutation,
    pub message: String,
}

/// Mathematical value of a suppression edit.
pub ghost struct SuppressionEditView {
    pub mutation: Seq<TextEditView>,
    pub message: Seq<char>,
}

impl View for SuppressionEdit {
    type V = SuppressionEditView;

    open spec fn view(&self) -> SuppressionEditView {
        SuppressionEditView { mutation: self.mutation@, message: self.message@ }
    }
}

/// Mathematical value of an optional suppression edit.
pub open spec fn opt_suppression_view(r: Option<SuppressionEdit>) -> Option<SuppressionEditView> {
    match r {
        Some(s) => Some(s@),
        None => None,
    }
}

/// The per-analyzer strategy that spells the edit appending a suppression
/// marker. How the marker is spelled is language-specific and injected; the
/// engine only decides when to ask for it and how to wrap the result.
pub trait SuppressionAction {
    /// The edit this strategy produces for an anchor range, as a function
    /// of the tree root and the range alone.
    spec fn produce_spec(&self, root: SyntaxRoot, range: TextRange) -> Option<SuppressionEditView>;

    /// Synthesize the suppression edit for a finding anchored at `range`.
    fn produce(&self, root: &SyntaxRoot, range: &TextRange) -> (r: Option<SuppressionEdit>)
        ensures
            opt_suppression_view(r) == self.produce_spec(*root, *range),
    ;
}

/// A suppression strategy that inserts a fixed marker comment directly in
/// front of the anchor range.
pub struct InlineSuppression {
    /// The marker text, comment delimiters included.
    pub comment: String,
    /// The message shown for the suppression action.
    pub message: String,
}

impl SuppressionAction for InlineSuppression {
    open spec fn produce_spec(&self, root: SyntaxRoot, range: TextRange) -> Option<
        SuppressionEditView,
    > {
        Some(
            SuppressionEditView {
                mutation: Seq::<TextEditView>::empty().push(
                    TextEditView {
                        range: TextRange { start: range.start, end: range.start },
                        new_text: self.comment@,
                    },
                ),
                message: self.message@,
            },
        )
    }

    fn produce(&self, root: &SyntaxRoot, range: &TextRange) -> (r: Option<SuppressionEdit>) {
        let mut mutation = BatchMutation::new();
        mutation.replace_range(
            TextRange { start: range.start, end: range.start },
            self.comment.clone(),
        );
        proof {
            assert(mutation@ =~= Seq::<TextEditView>::empty().push(
                TextEditView {
                    range: TextRange { start: range.start, end: range.start },
                    new_text: self.comment@,
                },
            ));
        }
        Some(SuppressionEdit { mutation, message: self.message.clone() })
    }
}

/// The strategy for an analyzer without suppression support: it never
/// produces an edit, so no suppression action is offered.
pub struct NoSuppression;

impl SuppressionAction for NoSuppression {
    open spec fn produce_spec(&self, root: SyntaxRoot, range: TextRange) -> Option<
        SuppressionEditView,
    > {
        None
    }

    fn produce(&self, root: &SyntaxRoot, range: &TextRange) -> (r: Option<SuppressionEdit>) {
        None
    }
}

/// The error reported when the evaluation context cannot be built: a
/// service the rule requires is not wired up for this file.
#[derive(PartialEq, Eq, Debug)]
pub struct MissingServices {
    pub service: u32,
}

/// The transient evaluation context handed to every rule hook: the matched
/// query, the tree root, the ambient services and options, and the resolved
/// rule options.
pub struct RuleContext<'a, R: Rule> {
    pub query: &'a R::Query,
    pub root: &'a SyntaxRoot,
    pub services: &'a ServiceBag,
    pub globals: &'a Vec<String>,
    pub file_path: &'a String,
    pub options: &'a R::Options,
    pub preferred_quote: PreferredQuote,
    pub jsx_runtime: JsxRuntime,
}

impl<'a, R: Rule> RuleContext<'a, R> {
    /// Build a context for one rule evaluation. Construction succeeds
    /// exactly when every service the rule requires is provided; otherwise
    /// it names a missing service.
    pub fn new(
        query: &'a R::Query,
        root: &'a SyntaxRoot,
        services: &'a ServiceBag,
        globals: &'a Vec<String>,
        file_path: &'a String,
        options: &'a R::Options,
        preferred_quote: PreferredQuote,
        jsx_runtime: JsxRuntime,
    ) -> (r: Result<Self, MissingServices>)
        ensures
            r is Ok <==> services.provides_all(R::required_services_spec()),
            r matches Ok(c) ==> c == (RuleContext::<'a, R> {
                query,
                root,
                services,
                globals,
                file_path,
                options,
                preferred_quote,
                jsx_runtime,
            }),
            r matches Err(e) ==> R::required_services_spec().contains(e.service)
                && !services.spec_provides(e.service),
    {
        let required = R::required_services();
        let mut i: usize = 0;
        while i < required.len()
            invariant
                i <= required@.len(),
                required@ == R::required_services_spec(),
                forall|j: int| 0 <= j < i ==> services.spec_provides(required@[j]),
            decreases required@.len() - i,
        {
            if !services.provides(required[i]) {
                return Err(MissingServices { service: required[i] });
            }
            i += 1;
        }
        Ok(RuleContext { query, root, services, globals, file_path, options, preferred_quote, jsx_runtime })
    }

    pub fn query(&self) -> (r: &'a R::Query)
        ensures
            r == self.query,
    {
        self.query
    }

    pub fn root(&self) -> (r: &'a SyntaxRoot)
        ensures
            r == self.root,
    {
        self.root
    }

    pub fn options(&self) -> (r: &'a R::Options)
        ensures
            r == self.options,
    {
        self.options
    }
}

/// Mathematical value of an optional rule diagnostic.
pub open spec fn opt_rule_diag_view(r: Option<RuleDiagnostic>) -> Option<RuleDiagnosticView> {
    match r {
        Some(d) => Some(d@),
        None => None,
    }
}

/// Mathematical value of an optional rule action.
pub open spec fn opt_rule_action_view(r: Option<RuleAction>) -> Option<RuleActionView> {
    match r {
        Some(a) => Some(a@),
        None => None,
    }
}

/// Mathematical value of an optional mutation batch.
pub open spec fn opt_mutation_view(r: Option<BatchMutation>) -> Option<Seq<TextEditView>> {
    match r {
        Some(m) => Some(m@),
        None => None,
    }
}

/// The interface every analysis rule implements: associated query, state
/// and options types, an identity, the services it requires, and four hook
/// methods. Every hook is a pure function of the context and the match
/// state, witnessed by a specification twin that each implementation must
/// match.
pub trait Rule: Sized {
    /// The shape of tree fragment the rule matches against.
    type Query;

    /// Rule-specific analysis result attached to a successful match.
    type State;

    /// Rule-specific configuration.
    type Options;

    /// How many states a single query evaluation may yield: typically
    /// zero-or-one, but a rule may yield many. The dispatch loop that runs
    /// queries consumes this; the signal machinery only sees one state.
    type Signals;

    /// The group this rule belongs to.
    spec fn group_spec() -> Seq<char>;

    fn group() -> (r: &'static str)
        ensures
            r@ == Self::group_spec(),
    ;

    /// The rule's own name.
    spec fn name_spec() -> Seq<char>;

    fn name() -> (r: &'static str)
        ensures
            r@ == Self::name_spec(),
    ;

    /// The services the rule requires from the service bag.
    spec fn required_services_spec() -> Seq<u32>;

    fn required_services() -> (r: Vec<u32>)
        ensures
            r@ == Self::required_services_spec(),
    ;

    /// The options used when configuration carries none for this rule.
    spec fn default_options_spec() -> Self::Options;

    fn default_options() -> (r: Self::Options)
        ensures
            r == Self::default_options_spec(),
    ;

    /// What the diagnostic hook yields, as a function of context and state.
    spec fn diagnostic_spec(ctx: RuleContext<'_, Self>, state: Self::State) -> Option<
        RuleDiagnosticView,
    >;

    /// Emit the diagnostic for this match, if it warrants one.
    fn diagnostic(ctx: &RuleContext<'_, Self>, state: &Self::State) -> (r: Option<RuleDiagnostic>)
        ensures
            opt_rule_diag_view(r) == Self::diagnostic_spec(*ctx, *state),
    ;

    /// What the fix hook yields, as a function of context and state.
    spec fn action_spec(ctx: RuleContext<'_, Self>, state: Self::State) -> Option<RuleActionView>;

    /// Emit the fix action for this match, if the rule proposes one.
    fn action(ctx: &RuleContext<'_, Self>, state: &Self::State) -> (r: Option<RuleAction>)
        ensures
            opt_rule_action_view(r) == Self::action_spec(*ctx, *state),
    ;

    /// What the anchor-range hook yields, as a function of context and
    /// state.
    spec fn text_range_spec(ctx: RuleContext<'_, Self>, state: Self::State) -> Option<TextRange>;

    /// The range a suppression of this match should anchor to, if any.
    fn text_range(ctx: &RuleContext<'_, Self>, state: &Self::State) -> (r: Option<TextRange>)
        ensures
            r == Self::text_range_spec(*ctx, *state),
    ;

    /// What the pure-transform hook yields, as a function of context and
    /// state.
    spec fn transform_spec(ctx: RuleContext<'_, Self>, state: Self::State) -> Option<
        Seq<TextEditView>,
    >;

    /// Emit the pure rewrite for this match, if the rule defines one.
    fn transform(ctx: &RuleContext<'_, Self>, state: &Self::State) -> (r: Option<BatchMutation>)
        ensures
            opt_mutation_view(r) == Self::transform_spec(*ctx, *state),
    ;
}

} // verus!
