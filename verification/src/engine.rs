//! Calls into the predicate engine that evaluates content conditions on
//! bytes. Each call is a pure check from plain values to a boolean, so its
//! contract states the result exactly.

use vstd::prelude::*;

use predicates::Predicate;
use predicates::str::PredicateStrExt;

verus! {

/// Relies on `predicates::str::is_empty` adapted by `from_utf8`: the check
/// holds exactly of the empty byte sequence. Empty bytes decode to the empty
/// string; non-empty bytes either fail to decode (the adapter then yields
/// false) or decode to a non-empty string.
#[verifier::external_body]
pub(crate) fn pred_is_empty_utf8(bytes: &Vec<u8>) -> (r: bool)
    ensures
        r == (bytes@.len() == 0),
{
    predicates::str::is_empty().from_utf8().eval(bytes.as_slice())
}

/// Relies on `predicates::ord::eq` over byte slices: the check holds exactly
/// when the variable equals the pre-defined constant.
#[verifier::external_body]
pub(crate) fn pred_bytes_eq(expected: &Vec<u8>, actual: &Vec<u8>) -> (r: bool)
    ensures
        r == (expected@ == actual@),
{
    predicates::ord::eq(expected.clone()).eval(actual.as_slice())
}

} // verus!
