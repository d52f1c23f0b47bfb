//! Assertions on the state of filesystem paths, for use in test suites.
//!
//! A subject — a temporary directory root or a named child path under it —
//! is checked against a declarative condition: one over the path's metadata
//! (existence, file type) or one over the file's byte content. A content
//! condition is adapted transparently into a path-level check that reads the
//! file first; a file that cannot be read never meets a content condition.

mod conditions;
mod engine;
mod fsio;
pub mod laws;
mod subject;

pub use conditions::{
    adapted, content_cond_description, content_cond_holds, content_outcome, content_verdict,
    evaluator_description, evaluator_holds, opt_bytes_view, path_cond_description,
    path_cond_holds, path_verdict, Condition, ContentCondition, Evaluator, IntoPathPredicate,
    PathCondition, PathProbe,
};
pub use subject::{check_path, check_result, AssertionError, ChildPath, PathAssert, TempDir};
