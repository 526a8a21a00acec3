//! The sandbox against the real filesystem: construction, staging,
//! overwriting, error reporting, and what survives a drop.

use assay::{AssayError, PrivateFS};

fn path_string(p: &std::path::Path) -> String {
    p.to_str().unwrap().to_string()
}

/// A scratch directory standing for "where the test was launched from".
fn scratch() -> (tempfile::TempDir, String) {
    let dir = tempfile::tempdir().unwrap();
    let path = path_string(dir.path());
    (dir, path)
}

#[test]
fn temporary_sandbox_exists_is_empty_and_is_recognizable() {
    let (_keep, ran_from) = scratch();
    let fs = PrivateFS::temporary(ran_from.clone()).unwrap();
    let root = fs.path().clone();
    assert!(fs_err::metadata(&root).unwrap().is_dir());
    assert_eq!(fs_err::read_dir(&root).unwrap().count(), 0);
    let base = root.rsplit('/').next().unwrap();
    assert!(base.starts_with("private"));
    assert_eq!(fs.ran_from(), &ran_from);
}

#[test]
fn rooted_sandbox_preserves_existing_contents() {
    let (_keep, ran_from) = scratch();
    let (_keep_root, root_area) = scratch();
    let root = format!("{}/pinned", root_area);
    fs_err::create_dir_all(&root).unwrap();
    fs_err::write(format!("{}/kept.txt", root), b"kept").unwrap();
    let fs = PrivateFS::rooted(ran_from, root.clone()).unwrap();
    assert_eq!(fs.path(), &root);
    assert_eq!(fs_err::read(format!("{}/kept.txt", root)).unwrap(), b"kept");
}

#[test]
fn rooted_sandbox_creates_a_missing_root() {
    let (_keep, ran_from) = scratch();
    let (_keep_root, root_area) = scratch();
    let root = format!("{}/a/b/pinned", root_area);
    let fs = PrivateFS::rooted(ran_from, root.clone()).unwrap();
    assert!(fs_err::metadata(fs.path()).unwrap().is_dir());
}

#[test]
fn rooted_sandbox_reports_a_setup_error() {
    let (_keep, ran_from) = scratch();
    let (_keep_root, root_area) = scratch();
    let blocker = format!("{}/blocker", root_area);
    fs_err::write(&blocker, b"a file, not a directory").unwrap();
    let err = PrivateFS::rooted(ran_from, format!("{}/sub", blocker)).unwrap_err();
    assert!(matches!(err, AssayError::Setup(_)));
    assert!(!err.message().is_empty());
}

#[test]
fn stage_file_lands_under_its_base_name() {
    let (_keep, ran_from) = scratch();
    let source = format!("{}/fixture.txt", ran_from);
    fs_err::write(&source, b"fixture bytes").unwrap();
    let fs = PrivateFS::temporary(ran_from).unwrap();
    fs.stage(&source, None).unwrap();
    let staged = format!("{}/fixture.txt", fs.path());
    assert_eq!(fs_err::read(&staged).unwrap(), b"fixture bytes");
}

#[test]
fn stage_resolves_a_relative_source_against_ran_from() {
    let (_keep, ran_from) = scratch();
    fs_err::write(format!("{}/relative.txt", ran_from), b"found it").unwrap();
    let fs = PrivateFS::temporary(ran_from).unwrap();
    fs.stage("relative.txt", None).unwrap();
    let staged = format!("{}/relative.txt", fs.path());
    assert_eq!(fs_err::read(&staged).unwrap(), b"found it");
}

#[test]
fn stage_file_into_nested_destination_creates_the_parents() {
    let (_keep, ran_from) = scratch();
    let source = format!("{}/in.txt", ran_from);
    fs_err::write(&source, b"nested content").unwrap();
    let fs = PrivateFS::temporary(ran_from).unwrap();
    fs.stage(&source, Some("a/b/out.txt")).unwrap();
    let root = fs.path().clone();
    assert!(fs_err::metadata(format!("{}/a", root)).unwrap().is_dir());
    assert!(fs_err::metadata(format!("{}/a/b", root)).unwrap().is_dir());
    assert_eq!(
        fs_err::read(format!("{}/a/b/out.txt", root)).unwrap(),
        b"nested content"
    );
}

fn write_fixture_tree(area: &str) -> String {
    let dir = format!("{}/fixtures", area);
    fs_err::create_dir_all(format!("{}/y", dir)).unwrap();
    fs_err::write(format!("{}/x", dir), b"top level").unwrap();
    fs_err::write(format!("{}/y/z", dir), b"nested level").unwrap();
    dir
}

#[test]
fn stage_directory_merges_contents_into_the_root() {
    let (_keep, ran_from) = scratch();
    let dir = write_fixture_tree(&ran_from);
    let fs = PrivateFS::temporary(ran_from).unwrap();
    fs.stage(&dir, None).unwrap();
    let root = fs.path().clone();
    assert_eq!(fs_err::read(format!("{}/x", root)).unwrap(), b"top level");
    assert_eq!(fs_err::read(format!("{}/y/z", root)).unwrap(), b"nested level");
    assert!(fs_err::metadata(format!("{}/fixtures", root)).is_err());
}

#[test]
fn stage_directory_into_named_destination() {
    let (_keep, ran_from) = scratch();
    let dir = write_fixture_tree(&ran_from);
    let fs = PrivateFS::temporary(ran_from).unwrap();
    fs.stage(&dir, Some("nested")).unwrap();
    let root = fs.path().clone();
    assert_eq!(
        fs_err::read(format!("{}/nested/x", root)).unwrap(),
        b"top level"
    );
    assert_eq!(
        fs_err::read(format!("{}/nested/y/z", root)).unwrap(),
        b"nested level"
    );
}

#[test]
fn stage_absolute_destination_fails_without_touching_the_sandbox() {
    let (_keep, ran_from) = scratch();
    let source = format!("{}/in.txt", ran_from);
    fs_err::write(&source, b"never staged").unwrap();
    let fs = PrivateFS::temporary(ran_from).unwrap();
    let err = fs.stage(&source, Some("/abs/path")).unwrap_err();
    assert!(matches!(err, AssayError::Usage(_)));
    assert_eq!(fs_err::read_dir(fs.path()).unwrap().count(), 0);
}

#[test]
fn stage_missing_source_is_a_usage_error() {
    let (_keep, ran_from) = scratch();
    let fs = PrivateFS::temporary(ran_from).unwrap();
    let err = fs.stage("/does/not/exist", None).unwrap_err();
    assert!(matches!(err, AssayError::Usage(_)));
}

#[test]
fn stage_reports_a_staging_error_when_the_copy_fails() {
    let (_keep, ran_from) = scratch();
    let source = format!("{}/in.txt", ran_from);
    fs_err::write(&source, b"blocked").unwrap();
    let fs = PrivateFS::temporary(ran_from).unwrap();
    fs_err::create_dir_all(format!("{}/blocked", fs.path())).unwrap();
    let err = fs.stage(&source, Some("blocked")).unwrap_err();
    assert!(matches!(err, AssayError::Staging(_)));
    assert!(!err.is_usage());
}

#[test]
fn repeated_staging_is_cumulative_and_the_last_call_wins() {
    let (_keep, ran_from) = scratch();
    let first = format!("{}/first.txt", ran_from);
    let second = format!("{}/second.txt", ran_from);
    fs_err::write(&first, b"first").unwrap();
    fs_err::write(&second, b"second").unwrap();
    let fs = PrivateFS::temporary(ran_from).unwrap();
    fs.stage(&first, Some("same.txt")).unwrap();
    fs.stage(&second, Some("same.txt")).unwrap();
    assert_eq!(
        fs_err::read(format!("{}/same.txt", fs.path())).unwrap(),
        b"second"
    );
}

#[test]
fn stage_directory_overwrites_collisions_and_keeps_the_rest() {
    let (_keep, ran_from) = scratch();
    let dir = write_fixture_tree(&ran_from);
    let fs = PrivateFS::temporary(ran_from).unwrap();
    fs_err::write(format!("{}/x", fs.path()), b"old collision").unwrap();
    fs_err::write(format!("{}/untouched", fs.path()), b"left alone").unwrap();
    fs.stage(&dir, None).unwrap();
    let root = fs.path().clone();
    assert_eq!(fs_err::read(format!("{}/x", root)).unwrap(), b"top level");
    assert_eq!(
        fs_err::read(format!("{}/untouched", root)).unwrap(),
        b"left alone"
    );
}

#[test]
fn temporary_sandbox_is_removed_when_dropped() {
    let (_keep, ran_from) = scratch();
    let source = format!("{}/in.txt", ran_from);
    fs_err::write(&source, b"short lived").unwrap();
    let fs = PrivateFS::temporary(ran_from).unwrap();
    fs.stage(&source, None).unwrap();
    let root = fs.path().clone();
    assert!(fs_err::metadata(&root).unwrap().is_dir());
    drop(fs);
    assert!(fs_err::metadata(&root).is_err());
}

#[test]
fn rooted_sandbox_survives_a_drop_with_its_contents() {
    let (_keep, ran_from) = scratch();
    let (_keep_root, root_area) = scratch();
    let root = format!("{}/pinned", root_area);
    fs_err::create_dir_all(&root).unwrap();
    fs_err::write(format!("{}/kept.txt", root), b"kept").unwrap();
    let source = format!("{}/staged.txt", ran_from);
    fs_err::write(&source, b"staged").unwrap();
    let fs = PrivateFS::rooted(ran_from, root.clone()).unwrap();
    fs.stage(&source, None).unwrap();
    drop(fs);
    assert!(fs_err::metadata(&root).unwrap().is_dir());
    assert_eq!(fs_err::read(format!("{}/kept.txt", root)).unwrap(), b"kept");
    assert_eq!(
        fs_err::read(format!("{}/staged.txt", root)).unwrap(),
        b"staged"
    );
}
