//! The request as given on the command line, and its validation.
use vstd::prelude::*;

use crate::error::{PatchError, PatchErrorView};

verus! {

/// A request to patch one dependency of a cargo project.
#[derive(Debug, Clone)]
pub struct Args {
    /// The directory of the project, where its `Cargo.toml` is.
    pub cargo_path: String,
    /// The name of the package as the manifest declares it, possibly renamed.
    pub package_name: String,
    /// The kind of patch: `git`, `registry` or `path`.
    pub patch_type: String,
    /// The real name of the package, where the manifest renames it.
    pub real_package_name: Option<String>,
    /// The version requirement of the patch.
    pub package_version: Option<String>,
    /// The repository of a git patch, as `owner/repo`.
    pub git_repo: Option<String>,
    /// The commit of a git patch.
    pub commit: Option<String>,
    /// The tag of a git patch.
    pub tag: Option<String>,
    /// The branch of a git patch.
    pub branch: Option<String>,
    /// The local path of a path patch.
    pub patch_path: Option<String>,
}

/// How many of commit, tag and branch are given.
pub open spec fn ref_count(a: Args) -> int {
    (if a.commit is Some { 1int } else { 0int }) + (if a.tag is Some { 1int } else { 0int }) + (
    if a.branch is Some { 1int } else { 0int })
}

/// Why the request is malformed, or `None` when it is well formed: a git
/// patch needs a repository and at most one of commit, tag and branch, a path
/// patch a path, a registry patch a version.
pub open spec fn args_error(a: Args) -> Option<PatchErrorView> {
    if a.patch_type@ == "git"@ {
        if a.git_repo is None {
            Some(PatchErrorView::MissingGitRepo)
        } else if ref_count(a) > 1 {
            Some(PatchErrorView::ConflictingGitRefs)
        } else {
            None
        }
    } else if a.patch_type@ == "path"@ {
        if a.patch_path is None {
            Some(PatchErrorView::MissingPath)
        } else {
            None
        }
    } else if a.patch_type@ == "registry"@ {
        if a.package_version is None {
            Some(PatchErrorView::MissingVersion)
        } else {
            None
        }
    } else {
        Some(PatchErrorView::UnsupportedPatchType(a.patch_type@))
    }
}

/// Whether `s` is the text `k`.
pub fn is_text(s: &String, k: &str) -> (r: bool)
    ensures
        r == (s@ == k@),
{
    *s == String::from_str(k)
}

/// Checks that the request carries what its kind of patch needs, and hands
/// it back unchanged when it does.
pub fn parse_args(args: Args) -> (r: Result<Args, PatchError>)
    ensures
        match args_error(args) {
            Some(e) => r is Err && r->Err_0@ == e,
            None => r == Ok::<Args, PatchError>(args),
        },
{
    if is_text(&args.patch_type, "git") {
        if args.git_repo.is_none() {
            return Err(PatchError::MissingGitRepo);
        }
        let mut given: usize = 0;
        if args.commit.is_some() {
            given = given + 1;
        }
        if args.branch.is_some() {
            given = given + 1;
        }
        if args.tag.is_some() {
            given = given + 1;
        }
        if given > 1 {
            return Err(PatchError::ConflictingGitRefs);
        }
    } else if is_text(&args.patch_type, "path") {
        if args.patch_path.is_none() {
            return Err(PatchError::MissingPath);
        }
    } else if is_text(&args.patch_type, "registry") {
        if args.package_version.is_none() {
            return Err(PatchError::MissingVersion);
        }
    } else {
        return Err(PatchError::UnsupportedPatchType(args.patch_type.clone()));
    }
    Ok(args)
}

} // verus!
