//! The trusted boundary to the filesystem: every disk operation the
//! sandbox performs goes through one of the wrappers here. Each wrapper
//! makes a single outside call and converts its result; what the calls do
//! on disk is taken on trust from the crates named in the doc comments.

use vstd::prelude::*;

verus! {

#[verifier::external_type_specification]
#[verifier::external_body]
pub struct ExTempDir(tempfile::TempDir);

/// Relies on tempfile::Builder::tempdir: creates a new, uniquely named,
/// empty directory under the system temporary area, its name starting
/// with the given prefix; the returned handle removes the directory and
/// all its contents when dropped. The second component of the result is
/// that directory's path; the error is the I/O cause's description.
#[verifier::external_body]
pub(crate) fn create_temp_dir(prefix: &str) -> (r: Result<(tempfile::TempDir, String), String>) {
    match tempfile::Builder::new().prefix(prefix).tempdir() {
        Ok(handle) => {
            let path = handle.path().to_string_lossy().into_owned();
            Ok((handle, path))
        },
        Err(e) => Err(e.to_string()),
    }
}

/// Relies on fs_err::create_dir_all: recursively creates the directory
/// and any missing parents, and succeeds without touching anything when
/// the directory already exists.
#[verifier::external_body]
pub(crate) fn create_dir_all_on_disk(path: &str) -> (r: Result<(), String>) {
    match fs_err::create_dir_all(path) {
        Ok(()) => Ok(()),
        Err(e) => Err(e.to_string()),
    }
}

/// Relies on fs_err::copy: copies the source file's bytes (and its
/// permission bits) to the destination path, overwriting a file already
/// there.
#[verifier::external_body]
pub(crate) fn copy_file_on_disk(source: &str, destination: &str) -> (r: Result<(), String>) {
    match fs_err::copy(source, destination) {
        Ok(_) => Ok(()),
        Err(e) => Err(e.to_string()),
    }
}

/// Relies on fs_extra::dir::copy with `content_only` and `overwrite` set:
/// recursively merges the source directory's contents — not the directory
/// node itself — into the destination, creating the destination when it
/// is missing, overwriting colliding files and leaving all other
/// destination content in place.
#[verifier::external_body]
pub(crate) fn copy_dir_contents_on_disk(source: &str, destination: &str) -> (r: Result<
    (),
    String,
>) {
    let mut options = fs_extra::dir::CopyOptions::new();
    options.content_only = true;
    options.overwrite = true;
    match fs_extra::dir::copy(source, destination, &options) {
        Ok(_) => Ok(()),
        Err(e) => Err(e.to_string()),
    }
}

/// Relies on std::path::Path::is_file: true exactly when the path names
/// an existing regular file on disk at the time of the call.
#[verifier::external_body]
pub(crate) fn disk_is_file(path: &str) -> bool {
    std::path::Path::new(path).is_file()
}

/// Relies on std::path::Path::is_dir: true exactly when the path names
/// an existing directory on disk at the time of the call.
#[verifier::external_body]
pub(crate) fn disk_is_dir(path: &str) -> bool {
    std::path::Path::new(path).is_dir()
}

} // verus!
