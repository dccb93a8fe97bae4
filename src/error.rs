//! The ways a patch request can fail.
use vstd::prelude::*;

verus! {

/// Why no patch table was produced.
#[derive(Debug, Clone)]
pub enum PatchError {
    /// The lockfile holds no package of this name.
    PackageNotFound(String),
    /// The locked package's source is neither git, registry nor absent.
    UnsupportedOrigin(String),
    /// The manifest already patches this package.
    AlreadyPatched(String),
    /// The package is a local path dependency, which a patch cannot redirect.
    PathNotPatchable,
    /// The repository name is not of the form `owner/repo`.
    InvalidRepository(String),
    /// A git patch was asked for without a repository.
    MissingGitRepo,
    /// More than one of commit, tag and branch was given.
    ConflictingGitRefs,
    /// A path patch was asked for without a path.
    MissingPath,
    /// A registry patch was asked for without a version.
    MissingVersion,
    /// The patch kind is none of `git`, `registry` and `path`.
    UnsupportedPatchType(String),
}

/// What a [`PatchError`] holds, with its strings as character sequences.
pub enum PatchErrorView {
    PackageNotFound(Seq<char>),
    UnsupportedOrigin(Seq<char>),
    AlreadyPatched(Seq<char>),
    PathNotPatchable,
    InvalidRepository(Seq<char>),
    MissingGitRepo,
    ConflictingGitRefs,
    MissingPath,
    MissingVersion,
    UnsupportedPatchType(Seq<char>),
}

impl View for PatchError {
    type V = PatchErrorView;

    open spec fn view(&self) -> PatchErrorView {
        match self {
            PatchError::PackageNotFound(s) => PatchErrorView::PackageNotFound(s@),
            PatchError::UnsupportedOrigin(s) => PatchErrorView::UnsupportedOrigin(s@),
            PatchError::AlreadyPatched(s) => PatchErrorView::AlreadyPatched(s@),
            PatchError::PathNotPatchable => PatchErrorView::PathNotPatchable,
            PatchError::InvalidRepository(s) => PatchErrorView::InvalidRepository(s@),
            PatchError::MissingGitRepo => PatchErrorView::MissingGitRepo,
            PatchError::ConflictingGitRefs => PatchErrorView::ConflictingGitRefs,
            PatchError::MissingPath => PatchErrorView::MissingPath,
            PatchError::MissingVersion => PatchErrorView::MissingVersion,
            PatchError::UnsupportedPatchType(s) => PatchErrorView::UnsupportedPatchType(s@),
        }
    }
}

/// An optional string as an optional character sequence.
pub open spec fn opt_view(o: Option<String>) -> Option<Seq<char>> {
    match o {
        Some(s) => Some(s@),
        None => None,
    }
}

/// A result with both sides seen through their views.
pub open spec fn result_view<T: View>(r: Result<T, PatchError>) -> Result<T::V, PatchErrorView> {
    match r {
        Ok(t) => Ok(t@),
        Err(e) => Err(e@),
    }
}

} // verus!
