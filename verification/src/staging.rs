//! The staging policy: given how a source was classified on disk, the
//! sandbox root, and an optional destination, decide exactly which
//! directory to create and where to copy — or refuse the request as a
//! usage defect.
//!
//! This decision is pure and fully verified; running the plan against the
//! filesystem is done by the sandbox itself.

use vstd::prelude::*;

use crate::errors::AssayError;
use crate::paths::{
    base_name, base_name_of, has_sep, is_abs_path, join_path, parent_part, parent_part_of,
    path_is_absolute, path_join,
};

verus! {

/// How a staging source was classified on disk.
#[derive(Clone, Copy, PartialEq, Eq, Structural, Debug)]
pub enum SourceKind {
    /// A regular file.
    File,
    /// A directory.
    Directory,
    /// Neither a file nor a directory (most often: nothing exists there).
    Neither,
}

/// A fully resolved staging decision.
#[derive(Debug)]
pub struct StagePlan {
    /// A directory to create (recursively) inside the sandbox before
    /// copying, present when the destination names parent segments.
    pub parent_to_create: Option<String>,
    /// The final copy target.
    pub destination: String,
    /// True: merge the source directory's contents into the destination.
    /// False: copy the single source file to the destination.
    pub directory_contents: bool,
}

/// The view of an optional borrowed destination path.
pub open spec fn dest_view(d: Option<&str>) -> Option<Seq<char>> {
    match d {
        Some(s) => Some(s@),
        None => None,
    }
}

/// The view of an optional owned path.
pub open spec fn opt_string_view(d: Option<String>) -> Option<Seq<char>> {
    match d {
        Some(s) => Some(s@),
        None => None,
    }
}

/// When a staging request is refused as a usage defect: the source is
/// neither a file nor a directory, the destination is absolute, or a file
/// is staged without destination and its path has no base name to use.
pub open spec fn plan_refused(
    kind: SourceKind,
    source: Seq<char>,
    dest: Option<Seq<char>>,
) -> bool {
    ||| kind is Neither
    ||| (dest matches Some(d) && is_abs_path(d))
    ||| (kind is File && dest is None && base_name(source).len() == 0)
}

/// The copy target of an accepted plan: a given destination goes under the
/// root; a file without one lands at the root under its own base name; a
/// directory without one is merged into the root itself.
pub open spec fn plan_dest_seq(
    kind: SourceKind,
    root: Seq<char>,
    source: Seq<char>,
    dest: Option<Seq<char>>,
) -> Seq<char> {
    match dest {
        Some(d) => join_path(root, d),
        None => if kind is File {
            join_path(root, base_name(source))
        } else {
            root
        },
    }
}

/// The directory an accepted plan creates first: the destination's parent
/// segments under the root, and nothing when there are none.
pub open spec fn plan_parent_seq(root: Seq<char>, dest: Option<Seq<char>>) -> Option<Seq<char>> {
    match dest {
        Some(d) => if has_sep(d) {
            Some(join_path(root, parent_part(d)))
        } else {
            None
        },
        None => None,
    }
}

/// Decides a staging request. Returns the plan to run, or a `Usage` error
/// exactly when `plan_refused` holds of the request.
pub fn plan_stage(
    kind: SourceKind,
    root: &str,
    source: &str,
    destination: Option<&str>,
) -> (r: Result<StagePlan, AssayError>)
    ensures
        r is Err <==> plan_refused(kind, source@, dest_view(destination)),
        r matches Err(e) ==> e is Usage,
        r matches Ok(p) ==> {
            &&& p.destination@ == plan_dest_seq(kind, root@, source@, dest_view(destination))
            &&& opt_string_view(p.parent_to_create) == plan_parent_seq(
                root@,
                dest_view(destination),
            )
            &&& p.directory_contents == (kind is Directory)
        },
{
    if kind == SourceKind::Neither {
        return Err(AssayError::Usage(String::from_str(
            "the source path to stage must point to a file or a directory",
        )));
    }
    match destination {
        None => {
            if kind == SourceKind::File {
                let base = base_name_of(source);
                if base.unicode_len() == 0 {
                    Err(AssayError::Usage(String::from_str(
                        "the source file path has no base name to stage under",
                    )))
                } else {
                    Ok(StagePlan {
                        parent_to_create: None,
                        destination: path_join(root, base.as_str()),
                        directory_contents: false,
                    })
                }
            } else {
                Ok(StagePlan {
                    parent_to_create: None,
                    destination: String::from_str(root),
                    directory_contents: true,
                })
            }
        },
        Some(d) => {
            if path_is_absolute(d) {
                return Err(AssayError::Usage(String::from_str(
                    "the destination path for staged content must be relative",
                )));
            }
            let parent_to_create = match parent_part_of(d) {
                Some(pp) => Some(path_join(root, pp.as_str())),
                None => None,
            };
            Ok(StagePlan {
                parent_to_create,
                destination: path_join(root, d),
                directory_contents: kind == SourceKind::Directory,
            })
        },
    }
}

/// Every accepted staging plan stays inside the sandbox: the sandbox root
/// is a prefix of the planned copy target, and of any directory the plan
/// creates first.
pub proof fn lemma_plan_stays_in_root(
    kind: SourceKind,
    root: Seq<char>,
    source: Seq<char>,
    dest: Option<Seq<char>>,
)
    requires
        root.len() > 0,
        !plan_refused(kind, source, dest),
    ensures
        root.is_prefix_of(plan_dest_seq(kind, root, source, dest)),
        plan_parent_seq(root, dest) matches Some(p) ==> root.is_prefix_of(p),
{
    match dest {
        Some(d) => {
            crate::paths::lemma_join_keeps_base_prefix(root, d);
            if has_sep(d) {
                crate::paths::lemma_join_keeps_base_prefix(root, parent_part(d));
            }
        },
        None => {
            if kind is File {
                crate::paths::lemma_join_keeps_base_prefix(root, base_name(source));
            } else {
                assert(root =~= root.subrange(0, root.len() as int));
            }
        },
    }
}

/// A file staged without a destination keeps its name: the planned copy
/// target's base name is the source's base name.
pub proof fn lemma_staged_file_keeps_its_base_name(root: Seq<char>, source: Seq<char>)
    requires
        root.len() > 0,
    ensures
        base_name(plan_dest_seq(SourceKind::File, root, source, None)) =~= base_name(source),
{
    crate::paths::lemma_base_name_has_no_sep(source);
    crate::paths::lemma_join_base_name(root, base_name(source));
}

} // verus!
