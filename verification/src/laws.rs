//! The general laws of the assertion core, stated over the condition model
//! and proved once for every input.

use vstd::prelude::*;

use crate::conditions::{
    adapted, content_cond_holds, content_outcome, evaluator_holds, path_cond_holds, Condition,
    ContentCondition, Evaluator, PathCondition, PathProbe,
};
use crate::subject::{check_result, PathAssert};

verus! {

/// Adaptation is total and enumerable: a condition of path shape maps to the
/// identity evaluator carrying that very condition, a condition of content
/// shape to the read-then-check evaluator carrying that very condition, and
/// to nothing else.
pub proof fn lemma_adaptation_shape(c: Condition)
    ensures
        adapted(c) is Direct <==> c is Path,
        adapted(c) is ReadThenCheck <==> c is Content,
        c matches Condition::Path(p) ==> adapted(c) == Evaluator::Direct(p),
        c matches Condition::Content(cc) ==> adapted(c) == Evaluator::ReadThenCheck(cc),
{
}

/// A path condition asserted on a subject holds exactly when the condition
/// holds of the path's observed metadata; the outcome of any file read plays
/// no part in it.
pub proof fn lemma_path_condition_decided_by_metadata(
    c: PathCondition,
    st: PathProbe,
    data1: Option<Seq<u8>>,
    data2: Option<Seq<u8>>,
)
    ensures
        evaluator_holds(adapted(Condition::Path(c)), st, data1) == path_cond_holds(c, st),
        evaluator_holds(adapted(Condition::Path(c)), st, data1) == evaluator_holds(
            adapted(Condition::Path(c)),
            st,
            data2,
        ),
{
}

/// Asserting a content condition is the same as reading the file at the
/// subject's resolved path and evaluating the condition on the bytes read:
/// the adapted evaluator and direct evaluation-after-read agree on every read
/// outcome. In particular a failed read never meets the condition, and the
/// path's metadata plays no part.
pub proof fn lemma_content_condition_reads_then_checks(
    c: ContentCondition,
    st: PathProbe,
    data: Option<Seq<u8>>,
)
    ensures
        evaluator_holds(adapted(Condition::Content(c)), st, data) == content_outcome(c, data),
        data is None ==> !evaluator_holds(adapted(Condition::Content(c)), st, data),
        data matches Some(bytes) ==> evaluator_holds(adapted(Condition::Content(c)), st, data)
            == content_cond_holds(c, bytes),
{
}

/// Evaluation keeps no hidden state: two verdicts of the same evaluator on
/// the same observed metadata and read outcome are equal, so evaluating an
/// unmodified subject twice yields the same pass or fail result both times.
pub proof fn lemma_evaluation_idempotent(
    ev: Evaluator,
    st: PathProbe,
    data: Option<Seq<u8>>,
    first: bool,
    second: bool,
)
    requires
        first == evaluator_holds(ev, st, data),
        second == evaluator_holds(ev, st, data),
    ensures
        first == second,
{
}

/// Chaining: a successful assertion hands its subject back unchanged, so the
/// next assertion in a chain is decided exactly as a sequential call on the
/// original subject would be, with the same verdict and the same failure
/// payload.
pub proof fn lemma_chaining<S: PathAssert>(
    returned: &S,
    subject: &S,
    ev: Evaluator,
    st: PathProbe,
    data: Option<Seq<u8>>,
)
    requires
        returned == subject,
    ensures
        check_result(returned.resolved_path(), ev, st, data) == check_result(
            subject.resolved_path(),
            ev,
            st,
            data,
        ),
{
}

} // verus!
