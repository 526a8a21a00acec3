//! The sandbox itself: a private working directory per test execution,
//! either owned and self-removing or pinned to a caller-chosen root, plus
//! the staging operation that copies fixtures into it.
//!
//! One piece of process state stays outside this type: switching the
//! process's working directory into the sandbox (and capturing where it
//! ran from) touches process-global state and is left to the unverified
//! caller, which must also hold at most one sandbox per process.

use vstd::prelude::*;

use crate::errors::AssayError;
use crate::fsio::{
    copy_dir_contents_on_disk, copy_file_on_disk, create_dir_all_on_disk, create_temp_dir,
    disk_is_dir, disk_is_file,
};
use crate::paths::{is_abs_path, resolve_source};
use crate::staging::{plan_stage, SourceKind};

verus! {

/// The sandbox's working directory together with its ownership mode.
#[derive(Debug)]
pub(crate) enum TestWorkingDirectory {
    /// An exclusively owned temporary directory; the held handle removes
    /// the directory and its whole contents when this value is dropped.
    Temporary(tempfile::TempDir, String),
    /// A caller-chosen persistent directory, never removed by the sandbox.
    Rooted(String),
}

impl TestWorkingDirectory {
    /// The directory's path.
    pub(crate) closed spec fn path_view(self) -> Seq<char> {
        match self {
            TestWorkingDirectory::Temporary(_, p) => p@,
            TestWorkingDirectory::Rooted(p) => p@,
        }
    }

    /// The directory's path; the same value on every call.
    pub(crate) fn path(&self) -> (r: &String)
        ensures
            r@ == self.path_view(),
    {
        match self {
            TestWorkingDirectory::Temporary(_, p) => p,
            TestWorkingDirectory::Rooted(p) => p,
        }
    }
}

/// A per-test private filesystem: the sandbox directory and the path the
/// process ran from before the sandbox took over.
#[derive(Debug)]
pub struct PrivateFS {
    ran_from: String,
    directory: TestWorkingDirectory,
}

impl PrivateFS {
    /// The path of the sandbox's working directory.
    pub closed spec fn root_view(self) -> Seq<char> {
        self.directory.path_view()
    }

    /// The path the process ran from when the sandbox was built; relative
    /// staging sources resolve against it.
    pub closed spec fn ran_from_view(self) -> Seq<char> {
        self.ran_from@
    }

    /// Whether the sandbox owns its directory and will remove it on drop.
    pub closed spec fn is_temporary(self) -> bool {
        self.directory is Temporary
    }

    /// Builds a sandbox in a fresh, uniquely named temporary directory
    /// whose name starts with `private`, so instances are recognizable on
    /// disk. The directory and everything staged into it are removed when
    /// the sandbox is dropped.
    ///
    /// `ran_from` is the directory the test was launched from, kept as
    /// the anchor for relative source paths given to `stage`. The caller
    /// is expected to capture it, and to switch the process's working
    /// directory to `path()` after construction.
    pub fn temporary(ran_from: String) -> (r: Result<PrivateFS, AssayError>)
        ensures
            r matches Ok(fs) ==> fs.ran_from_view() == ran_from@ && fs.is_temporary(),
            r matches Err(e) ==> e is Setup,
    {
        match create_temp_dir("private") {
            Ok((handle, path)) => Ok(
                PrivateFS {
                    ran_from,
                    directory: TestWorkingDirectory::Temporary(handle, path),
                },
            ),
            Err(cause) => Err(
                AssayError::Setup(
                    String::from_str("could not create the temporary sandbox directory: ").concat(
                        cause.as_str(),
                    ),
                ),
            ),
        }
    }

    /// Builds a sandbox rooted at `root`, creating the directory and any
    /// missing parents when absent and leaving whatever it already holds
    /// in place: staging into a rooted sandbox is additive, and dropping
    /// it never removes anything.
    pub fn rooted(ran_from: String, root: String) -> (r: Result<PrivateFS, AssayError>)
        ensures
            r matches Ok(fs) ==> {
                &&& fs.ran_from_view() == ran_from@
                &&& fs.root_view() == root@
                &&& !fs.is_temporary()
            },
            r matches Err(e) ==> e is Setup,
    {
        match create_dir_all_on_disk(root.as_str()) {
            Ok(()) => Ok(PrivateFS { ran_from, directory: TestWorkingDirectory::Rooted(root) }),
            Err(cause) => Err(
                AssayError::Setup(
                    String::from_str("could not create the sandbox root directory: ").concat(
                        cause.as_str(),
                    ),
                ),
            ),
        }
    }

    /// The sandbox's working directory path; the same value on every call.
    pub fn path(&self) -> (r: &String)
        ensures
            r@ == self.root_view(),
    {
        self.directory.path()
    }

    /// The path the process ran from when the sandbox was built.
    pub fn ran_from(&self) -> (r: &String)
        ensures
            r@ == self.ran_from_view(),
    {
        &self.ran_from
    }

    /// Stages one file or directory into the sandbox.
    ///
    /// A relative `source_path` resolves against the launch directory,
    /// never against the sandbox. What is on disk decides the rest: a
    /// file is copied to its planned destination, a directory has its
    /// contents merged into it, and anything else is refused as a usage
    /// defect — as is an absolute `destination_path`, before anything is
    /// copied or created. The full destination policy, parent-directory
    /// creation included, is stated on [`plan_stage`]; repeated calls are
    /// cumulative and overwrite colliding files, last call wins.
    pub fn stage(&self, source_path: &str, destination_path: Option<&str>) -> (r: Result<
        (),
        AssayError,
    >)
        ensures
            (destination_path matches Some(d) && is_abs_path(d@)) ==> (r matches Err(e)
                && e is Usage),
            r matches Err(e) ==> (e is Usage || e is Staging),
    {
        let resolved = resolve_source(self.ran_from.as_str(), source_path);
        let kind = classify_source(resolved.as_str());
        let plan = match plan_stage(
            kind,
            self.directory.path().as_str(),
            resolved.as_str(),
            destination_path,
        ) {
            Ok(plan) => plan,
            Err(e) => {
                return Err(e);
            },
        };
        if let Some(parent) = &plan.parent_to_create {
            match create_dir_all_on_disk(parent.as_str()) {
                Ok(()) => (),
                Err(cause) => {
                    return Err(
                        AssayError::Staging(
                            String::from_str(
                                "could not create the destination's parent directory in the sandbox: ",
                            ).concat(cause.as_str()),
                        ),
                    );
                },
            }
        }
        let copied = if plan.directory_contents {
            copy_dir_contents_on_disk(resolved.as_str(), plan.destination.as_str())
        } else {
            copy_file_on_disk(resolved.as_str(), plan.destination.as_str())
        };
        match copied {
            Ok(()) => Ok(()),
            Err(cause) => Err(
                AssayError::Staging(
                    String::from_str("could not copy the staged content into the sandbox: ")
                        .concat(cause.as_str()),
                ),
            ),
        }
    }
}

/// Classifies a source path by what the disk holds there at the call.
fn classify_source(path: &str) -> SourceKind {
    if disk_is_file(path) {
        SourceKind::File
    } else if disk_is_dir(path) {
        SourceKind::Directory
    } else {
        SourceKind::Neither
    }
}

} // verus!
