//! The assertable surface: the two subjects a test interacts with — a
//! temporary directory root and a named child path within it — and the shared
//! routine that resolves a subject to its path, adapts the supplied condition,
//! and reports a descriptive failure when the condition does not hold.

use vstd::prelude::*;
use vstd::string::StringExecFns;

use crate::conditions::{
    content_verdict, evaluator_description, evaluator_holds, path_verdict, Evaluator,
    IntoPathPredicate, PathProbe,
};
use crate::fsio::{path_exists, path_is_dir, path_is_file, read_file};

verus! {

/// A whole temporary directory under test. Its on-disk entry is created and
/// removed by the caller; the subject itself carries the resolved path alone
/// and never mutates the filesystem.
#[derive(Debug)]
pub struct TempDir {
    pub path: String,
}

/// A named path within a temporary directory, not independently owned: its
/// lifetime is bounded by its root's.
#[derive(Debug)]
pub struct ChildPath {
    pub path: String,
    pub name: String,
}

/// The failure an assertion reports: the condition's description and the
/// resolved path it was checked against.
#[derive(Debug)]
pub struct AssertionError {
    pub description: String,
    pub path: String,
}

impl AssertionError {
    /// The formatted failure message, naming the condition and the path.
    pub fn message(&self) -> (r: String)
        ensures
            r@ == self.description@ + " failed for "@ + self.path@,
    {
        self.description.clone().concat(" failed for ").concat(self.path.as_str())
    }
}

impl TempDir {
    /// A root subject at the given resolved path.
    pub fn from_path(path: String) -> (r: TempDir)
        ensures
            r.path@ == path@,
    {
        TempDir { path }
    }

    /// The resolved filesystem path of this root.
    pub fn path(&self) -> (r: &String)
        ensures
            r@ == self.path@,
    {
        &self.path
    }

    /// The child subject with the given name under this root. Resolution is
    /// pure path computation: nothing is created on disk.
    pub fn child(&self, name: &str) -> (r: ChildPath)
        ensures
            r.path@ == self.path@ + "/"@ + name@,
            r.name@ == name@,
    {
        ChildPath { path: self.path.clone().concat("/").concat(name), name: name.to_owned() }
    }
}

impl ChildPath {
    /// The resolved filesystem path of this child.
    pub fn path(&self) -> (r: &String)
        ensures
            r@ == self.path@,
    {
        &self.path
    }

    /// The stable name of this child within its root.
    pub fn name(&self) -> (r: &String)
        ensures
            r@ == self.name@,
    {
        &self.name
    }
}

/// Observe the metadata facts of a path that path conditions read. This
/// consults metadata only: it never reads file content.
pub(crate) fn probe_path(path: &str) -> PathProbe {
    PathProbe {
        exists: path_exists(path),
        is_file: path_is_file(path),
        is_dir: path_is_dir(path),
    }
}

/// Run an evaluator against a resolved path: a direct evaluator is decided by
/// the path's observed metadata; a read-then-check evaluator reads the file
/// and is decided by the read outcome. The verdict on the observed values is
/// stated exactly by `path_verdict` and `content_verdict`.
pub(crate) fn evaluate(ev: &Evaluator, path: &str) -> bool {
    match ev {
        Evaluator::Direct(c) => {
            let st = probe_path(path);
            path_verdict(c, &st)
        },
        Evaluator::ReadThenCheck(c) => {
            let data = read_file(path);
            content_verdict(c, &data)
        },
    }
}

/// The outcome an assertion reports once the filesystem has been observed:
/// nothing when the evaluator holds, else the failure payload — the
/// condition's description and the resolved path.
pub open spec fn check_result(
    path: Seq<char>,
    ev: Evaluator,
    st: PathProbe,
    data: Option<Seq<u8>>,
) -> Option<(Seq<char>, Seq<char>)> {
    if evaluator_holds(ev, st, data) {
        None
    } else {
        Some((evaluator_description(ev), path))
    }
}

/// The shared assertion routine: adapt the condition to an evaluator, run it
/// against the resolved path, and on a false verdict report the condition's
/// description together with the path.
pub fn check_path<I: IntoPathPredicate>(path: &String, pred: I) -> (r: Result<
    (),
    AssertionError,
>)
    ensures
        r matches Err(e) ==> e.description@ == evaluator_description(pred.as_evaluator())
            && e.path@ == path@,
{
    let ev = pred.into_path();
    if evaluate(&ev, path.as_str()) {
        Ok(())
    } else {
        let description = ev.description();
        Err(AssertionError { description, path: path.clone() })
    }
}

/// Assert the state of a filesystem path against a condition of either shape.
pub trait PathAssert: Sized {
    /// The resolved filesystem path this subject stands for.
    spec fn resolved_path(&self) -> Seq<char>;

    /// Check the given condition against this subject's resolved path. On
    /// success the subject itself is handed back, so further assertions can
    /// be chained; on failure the error carries the condition's description
    /// and the resolved path.
    fn assert_that<I: IntoPathPredicate>(&self, pred: I) -> (r: Result<&Self, AssertionError>)
        ensures
            r matches Ok(s) ==> s == self,
            r matches Err(e) ==> e.description@ == evaluator_description(pred.as_evaluator())
                && e.path@ == self.resolved_path(),
    ;
}

impl PathAssert for TempDir {
    open spec fn resolved_path(&self) -> Seq<char> {
        self.path@
    }

    fn assert_that<I: IntoPathPredicate>(&self, pred: I) -> (r: Result<&Self, AssertionError>) {
        match check_path(&self.path, pred) {
            Ok(()) => Ok(self),
            Err(e) => Err(e),
        }
    }
}

impl PathAssert for ChildPath {
    open spec fn resolved_path(&self) -> Seq<char> {
        self.path@
    }

    fn assert_that<I: IntoPathPredicate>(&self, pred: I) -> (r: Result<&Self, AssertionError>) {
        match check_path(&self.path, pred) {
            Ok(()) => Ok(self),
            Err(e) => Err(e),
        }
    }
}

} // verus!
