//! Rule-execution core of a static-analysis engine: it turns a single
//! pattern match found by a lint rule into diagnostics, proposed code fixes
//! and pure code transformations, while enforcing configuration policy and
//! supporting suppression actions.

pub mod categories;
pub mod diagnostics;
pub mod execution;
pub mod no_aria_hidden_on_focusable;
pub mod numbers;
pub mod rule;
pub mod signals;
pub mod syntax;
pub mod text;
