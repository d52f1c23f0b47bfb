//! The condition model: conditions over path metadata, conditions over file
//! content, and the adaptation of either into a uniform path-level evaluator.

use vstd::prelude::*;

use crate::engine::{pred_bytes_eq, pred_is_empty_utf8};

verus! {

/// The metadata facts about a filesystem path that a path condition inspects.
///
/// The three flags are observed independently, so no relation between them is
/// assumed: a verdict is defined for every combination.
#[derive(Clone, Copy)]
pub struct PathProbe {
    pub exists: bool,
    pub is_file: bool,
    pub is_dir: bool,
}

/// A condition over a path's metadata.
#[derive(Clone, Copy)]
pub enum PathCondition {
    /// The path exists.
    Exists,
    /// The path does not exist.
    Missing,
    /// The path is a regular file.
    IsFile,
    /// The path is a directory.
    IsDir,
}

/// A condition over a file's raw byte content.
pub enum ContentCondition {
    /// The content is empty.
    IsEmpty,
    /// The content equals the given bytes exactly.
    Equals(Vec<u8>),
}

/// A condition of either shape, as a caller supplies it: the tagged union
/// over which the adapter dispatches.
pub enum Condition {
    Path(PathCondition),
    Content(ContentCondition),
}

/// The normalized, path-level form of a condition: either the original path
/// condition unchanged, or a content condition wrapped with a read step that
/// runs at evaluation time.
pub enum Evaluator {
    Direct(PathCondition),
    ReadThenCheck(ContentCondition),
}

/// What a path condition means on observed path metadata.
pub open spec fn path_cond_holds(c: PathCondition, st: PathProbe) -> bool {
    match c {
        PathCondition::Exists => st.exists,
        PathCondition::Missing => !st.exists,
        PathCondition::IsFile => st.is_file,
        PathCondition::IsDir => st.is_dir,
    }
}

/// What a content condition means on a file's bytes.
pub open spec fn content_cond_holds(c: ContentCondition, bytes: Seq<u8>) -> bool {
    match c {
        ContentCondition::IsEmpty => bytes.len() == 0,
        ContentCondition::Equals(expected) => bytes == expected@,
    }
}

/// What a content condition means on the outcome of a file read: a file that
/// could not be read never meets a content condition, it is not an error of
/// its own.
pub open spec fn content_outcome(c: ContentCondition, data: Option<Seq<u8>>) -> bool {
    match data {
        None => false,
        Some(bytes) => content_cond_holds(c, bytes),
    }
}

/// The bytes of an optional read result, as an optional sequence.
pub open spec fn opt_bytes_view(data: Option<Vec<u8>>) -> Option<Seq<u8>> {
    match data {
        None => None,
        Some(bytes) => Some(bytes@),
    }
}

/// What an evaluator means on observed path metadata and an observed read
/// outcome: a direct evaluator consults the metadata alone, a read-then-check
/// evaluator consults the read outcome alone.
pub open spec fn evaluator_holds(ev: Evaluator, st: PathProbe, data: Option<Seq<u8>>) -> bool {
    match ev {
        Evaluator::Direct(c) => path_cond_holds(c, st),
        Evaluator::ReadThenCheck(c) => content_outcome(c, data),
    }
}

/// The evaluator a condition is adapted into: a path condition is its own
/// adapted form, a content condition is wrapped with a read step.
pub open spec fn adapted(c: Condition) -> Evaluator {
    match c {
        Condition::Path(p) => Evaluator::Direct(p),
        Condition::Content(p) => Evaluator::ReadThenCheck(p),
    }
}

/// The description of a path condition, as carried into failure messages.
pub open spec fn path_cond_description(c: PathCondition) -> Seq<char> {
    match c {
        PathCondition::Exists => "path exists"@,
        PathCondition::Missing => "path is missing"@,
        PathCondition::IsFile => "path is a regular file"@,
        PathCondition::IsDir => "path is a directory"@,
    }
}

/// The description of a content condition, as carried into failure messages.
pub open spec fn content_cond_description(c: ContentCondition) -> Seq<char> {
    match c {
        ContentCondition::IsEmpty => "content is empty"@,
        ContentCondition::Equals(_) => "content equals the expected bytes"@,
    }
}

/// The description an evaluator forwards: always that of the original
/// condition, whether or not it was wrapped with a read step.
pub open spec fn evaluator_description(ev: Evaluator) -> Seq<char> {
    match ev {
        Evaluator::Direct(c) => path_cond_description(c),
        Evaluator::ReadThenCheck(c) => content_cond_description(c),
    }
}

impl PathCondition {
    /// The human-readable description of this condition.
    pub fn description(&self) -> (r: String)
        ensures
            r@ == path_cond_description(*self),
    {
        match self {
            PathCondition::Exists => "path exists".to_owned(),
            PathCondition::Missing => "path is missing".to_owned(),
            PathCondition::IsFile => "path is a regular file".to_owned(),
            PathCondition::IsDir => "path is a directory".to_owned(),
        }
    }
}

impl ContentCondition {
    /// The human-readable description of this condition.
    pub fn description(&self) -> (r: String)
        ensures
            r@ == content_cond_description(*self),
    {
        match self {
            ContentCondition::IsEmpty => "content is empty".to_owned(),
            ContentCondition::Equals(_) => "content equals the expected bytes".to_owned(),
        }
    }
}

impl Evaluator {
    /// Whether this evaluator is a path condition used unchanged.
    pub fn is_direct(&self) -> (r: bool)
        ensures
            r == (*self is Direct),
    {
        match self {
            Evaluator::Direct(_) => true,
            Evaluator::ReadThenCheck(_) => false,
        }
    }

    /// Whether this evaluator wraps a content condition with a read step.
    pub fn is_read_then_check(&self) -> (r: bool)
        ensures
            r == (*self is ReadThenCheck),
    {
        match self {
            Evaluator::Direct(_) => false,
            Evaluator::ReadThenCheck(_) => true,
        }
    }

    /// The description this evaluator forwards from its original condition.
    pub fn description(&self) -> (r: String)
        ensures
            r@ == evaluator_description(*self),
    {
        match self {
            Evaluator::Direct(c) => c.description(),
            Evaluator::ReadThenCheck(c) => c.description(),
        }
    }
}

/// Conversion of a caller-supplied condition into the path-level evaluator
/// that an assertion runs.
pub trait IntoPathPredicate: Sized {
    /// The evaluator this condition is adapted into.
    spec fn as_evaluator(self) -> Evaluator;

    /// Convert to an evaluator for testing a path. Adaptation is pure: it
    /// never consults the filesystem.
    fn into_path(self) -> (ev: Evaluator)
        ensures
            ev == self.as_evaluator(),
    ;
}

/// The identity case: a path condition is its own adapted form.
impl IntoPathPredicate for PathCondition {
    open spec fn as_evaluator(self) -> Evaluator {
        Evaluator::Direct(self)
    }

    fn into_path(self) -> (ev: Evaluator) {
        Evaluator::Direct(self)
    }
}

/// The wrapping case: a content condition gains a read step, to be performed
/// when the evaluator runs.
impl IntoPathPredicate for ContentCondition {
    open spec fn as_evaluator(self) -> Evaluator {
        Evaluator::ReadThenCheck(self)
    }

    fn into_path(self) -> (ev: Evaluator) {
        Evaluator::ReadThenCheck(self)
    }
}

/// Dispatch over the tagged union: each shape maps to exactly one evaluator.
impl IntoPathPredicate for Condition {
    open spec fn as_evaluator(self) -> Evaluator {
        adapted(self)
    }

    fn into_path(self) -> (ev: Evaluator) {
        match self {
            Condition::Path(c) => c.into_path(),
            Condition::Content(c) => c.into_path(),
        }
    }
}

/// An evaluator is already in normalized form.
impl IntoPathPredicate for Evaluator {
    open spec fn as_evaluator(self) -> Evaluator {
        self
    }

    fn into_path(self) -> (ev: Evaluator) {
        self
    }
}

/// Decide a path condition from observed path metadata.
pub fn path_verdict(c: &PathCondition, st: &PathProbe) -> (r: bool)
    ensures
        r == path_cond_holds(*c, *st),
{
    match c {
        PathCondition::Exists => st.exists,
        PathCondition::Missing => !st.exists,
        PathCondition::IsFile => st.is_file,
        PathCondition::IsDir => st.is_dir,
    }
}

/// Decide a content condition from the outcome of a file read: an unreadable
/// file is treated as condition-not-met, never as a failure of its own.
pub fn content_verdict(c: &ContentCondition, data: &Option<Vec<u8>>) -> (r: bool)
    ensures
        r == content_outcome(*c, opt_bytes_view(*data)),
{
    match data {
        None => false,
        Some(bytes) => match c {
            ContentCondition::IsEmpty => pred_is_empty_utf8(bytes),
            ContentCondition::Equals(expected) => pred_bytes_eq(expected, bytes),
        },
    }
}

} // verus!
