//! Calls that observe the filesystem: metadata probes for path conditions and
//! the whole-file read for content conditions. What the disk holds is outside
//! this crate, so these contracts promise nothing about the values returned;
//! every verdict is stated over the observed values by the verified code that
//! consumes them.

use vstd::prelude::*;

use predicates::Predicate;

verus! {

/// Relies on `predicates::path::exists`: whether the path exists on disk.
#[verifier::external_body]
pub(crate) fn path_exists(path: &str) -> bool {
    predicates::path::exists().eval(std::path::Path::new(path))
}

/// Relies on `predicates::path::is_file`: whether the path is a regular file.
#[verifier::external_body]
pub(crate) fn path_is_file(path: &str) -> bool {
    predicates::path::is_file().eval(std::path::Path::new(path))
}

/// Relies on `predicates::path::is_dir`: whether the path is a directory.
#[verifier::external_body]
pub(crate) fn path_is_dir(path: &str) -> bool {
    predicates::path::is_dir().eval(std::path::Path::new(path))
}

/// Relies on `fs_err::read`: the entire content of the file at the path, or
/// nothing where the file is missing or cannot be read.
#[verifier::external_body]
pub(crate) fn read_file(path: &str) -> Option<Vec<u8>> {
    fs_err::read(path).ok()
}

} // verus!
