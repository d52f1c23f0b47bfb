//! End-to-end assertions against real temporary directories.

use fs_assert::{
    Condition, ContentCondition, PathAssert, PathCondition, TempDir,
};

/// A fresh on-disk temporary directory and the root subject resolving to it.
/// The handle must stay alive while the subject is used.
fn temp_root() -> (tempfile::TempDir, TempDir) {
    let handle = tempfile::TempDir::new().unwrap();
    let root = TempDir::from_path(handle.path().to_str().unwrap().to_string());
    (handle, root)
}

#[test]
fn empty_file_content_is_empty() {
    let (_handle, root) = temp_root();
    let child = root.child("foo.txt");
    fs_err::write(child.path(), b"").unwrap();
    child.assert_that(ContentCondition::IsEmpty).unwrap();
    child.assert_that(Condition::Content(ContentCondition::IsEmpty)).unwrap();
}

#[test]
fn missing_path_is_missing() {
    let (_handle, root) = temp_root();
    let child = root.child("bar.txt");
    child.assert_that(PathCondition::Missing).unwrap();
    child.assert_that(Condition::Path(PathCondition::Missing)).unwrap();
}

#[test]
fn content_equals_passes_on_equal_bytes() {
    let (_handle, root) = temp_root();
    let child = root.child("foo.txt");
    fs_err::write(child.path(), b"hello").unwrap();
    child.assert_that(ContentCondition::Equals(b"hello".to_vec())).unwrap();
}

#[test]
fn content_equals_fails_with_description_and_path() {
    let (_handle, root) = temp_root();
    let child = root.child("foo.txt");
    fs_err::write(child.path(), b"hello").unwrap();
    let err = child
        .assert_that(ContentCondition::Equals(b"world".to_vec()))
        .unwrap_err();
    assert_eq!(err.description, "content equals the expected bytes");
    assert_eq!(&err.path, child.path());
    assert_eq!(
        err.message(),
        format!("content equals the expected bytes failed for {}", child.path())
    );
}

#[test]
fn directory_meets_path_condition_not_content_condition() {
    let (_handle, root) = temp_root();
    let sub = root.child("sub");
    fs_err::create_dir(sub.path()).unwrap();
    sub.assert_that(PathCondition::IsDir).unwrap();
    let err = sub.assert_that(ContentCondition::IsEmpty).unwrap_err();
    assert_eq!(err.description, "content is empty");
    assert_eq!(&err.path, sub.path());
}

#[test]
fn content_condition_on_missing_file_fails_as_not_met() {
    let (_handle, root) = temp_root();
    let child = root.child("absent.txt");
    let err = child.assert_that(ContentCondition::IsEmpty).unwrap_err();
    assert_eq!(err.description, "content is empty");
    assert_eq!(&err.path, child.path());
}

#[test]
fn failing_path_condition_names_condition_and_path() {
    let (_handle, root) = temp_root();
    let child = root.child("present.txt");
    fs_err::write(child.path(), b"x").unwrap();
    let err = child.assert_that(PathCondition::Missing).unwrap_err();
    assert_eq!(err.description, "path is missing");
    assert_eq!(&err.path, child.path());
    assert_eq!(
        err.message(),
        format!("path is missing failed for {}", child.path())
    );
}

#[test]
fn root_subject_is_assertable() {
    let (_handle, root) = temp_root();
    root.assert_that(PathCondition::Exists).unwrap();
    root.assert_that(PathCondition::IsDir).unwrap();
}

#[test]
fn file_subject_path_conditions() {
    let (_handle, root) = temp_root();
    let child = root.child("plain.txt");
    fs_err::write(child.path(), b"data").unwrap();
    child.assert_that(PathCondition::Exists).unwrap();
    child.assert_that(PathCondition::IsFile).unwrap();
    let err = child.assert_that(PathCondition::IsDir).unwrap_err();
    assert_eq!(err.description, "path is a directory");
}

#[test]
fn chained_assertions_match_sequential_calls() {
    let (_handle, root) = temp_root();
    let child = root.child("chained.txt");
    fs_err::write(child.path(), b"hi").unwrap();

    let returned = child
        .assert_that(PathCondition::Exists)
        .unwrap()
        .assert_that(PathCondition::IsFile)
        .unwrap();
    assert_eq!(returned.path(), child.path());

    child.assert_that(PathCondition::Exists).unwrap();
    child.assert_that(PathCondition::IsFile).unwrap();
}

#[test]
fn repeated_evaluation_gives_same_result() {
    let (_handle, root) = temp_root();
    let child = root.child("same.txt");
    fs_err::write(child.path(), b"hello").unwrap();

    let first = child.assert_that(ContentCondition::Equals(b"hello".to_vec()));
    let second = child.assert_that(ContentCondition::Equals(b"hello".to_vec()));
    assert!(first.is_ok());
    assert!(second.is_ok());

    let f1 = child.assert_that(PathCondition::Missing).unwrap_err();
    let f2 = child.assert_that(PathCondition::Missing).unwrap_err();
    assert_eq!(f1.description, f2.description);
    assert_eq!(f1.path, f2.path);
}

#[test]
fn adapted_content_check_matches_read_then_evaluate() {
    let (_handle, root) = temp_root();
    let child = root.child("source.txt");
    fs_err::write(child.path(), b"hello").unwrap();

    let bytes = Some(fs_err::read(child.path()).unwrap());
    let matching = ContentCondition::Equals(b"hello".to_vec());
    let differing = ContentCondition::Equals(b"world".to_vec());
    assert_eq!(
        fs_assert::content_verdict(&matching, &bytes),
        child.assert_that(ContentCondition::Equals(b"hello".to_vec())).is_ok()
    );
    assert_eq!(
        fs_assert::content_verdict(&differing, &bytes),
        child.assert_that(ContentCondition::Equals(b"world".to_vec())).is_ok()
    );
}

#[test]
fn child_resolves_under_root() {
    let (_handle, root) = temp_root();
    let child = root.child("foo.txt");
    assert_eq!(child.path(), &format!("{}/foo.txt", root.path()));
    assert_eq!(child.name(), "foo.txt");
}
