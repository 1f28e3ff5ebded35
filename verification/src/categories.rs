//! Safety and category tags shared by diagnostics and code actions.

use vstd::prelude::*;

verus! {

/// Safety classification of a proposed fix, controlling whether it may be
/// applied automatically.
#[derive(Clone, Copy, PartialEq, Eq, Structural, Debug)]
pub enum Applicability {
    /// The fix is always safe to apply.
    Always,
    /// Applying the fix may change the meaning of the program.
    MaybeIncorrect,
}

/// Per-rule configuration of whether a fix may be offered and what safety
/// level it is reported with.
#[derive(Clone, Copy, PartialEq, Eq, Structural, Debug)]
pub enum FixKind {
    /// The fix is switched off: no fix action is emitted for the rule.
    Disabled,
    /// Every fix of the rule is reported as always safe.
    Safe,
    /// Every fix of the rule is reported as maybe incorrect.
    Unsafe,
}

/// The kind of a code action offered to the user.
#[derive(PartialEq, Eq, Debug)]
pub enum ActionCategory {
    /// A fix for the finding the diagnostic reports.
    QuickFix,
    /// An edit that silences the finding at its location.
    Suppression,
    /// Any other kind of action, described by a free-form tag.
    Other(String),
}

/// Mathematical value of an action category.
pub ghost enum ActionCategoryView {
    QuickFix,
    Suppression,
    Other(Seq<char>),
}

impl View for ActionCategory {
    type V = ActionCategoryView;

    open spec fn view(&self) -> ActionCategoryView {
        match self {
            ActionCategory::QuickFix => ActionCategoryView::QuickFix,
            ActionCategory::Suppression => ActionCategoryView::Suppression,
            ActionCategory::Other(tag) => ActionCategoryView::Other(tag@),
        }
    }
}

impl ActionCategory {
    pub fn is_suppression(&self) -> (r: bool)
        ensures
            r == (self@ is Suppression),
    {
        matches!(self, ActionCategory::Suppression)
    }

    /// An equal category backed by fresh storage.
    pub fn duplicate(&self) -> (r: ActionCategory)
        ensures
            r@ == self@,
    {
        match self {
            ActionCategory::QuickFix => ActionCategory::QuickFix,
            ActionCategory::Suppression => ActionCategory::Suppression,
            ActionCategory::Other(tag) => ActionCategory::Other(tag.clone()),
        }
    }
}

} // verus!
