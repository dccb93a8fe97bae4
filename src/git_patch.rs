//! Patches that redirect a package to a GitHub repository.
use vstd::prelude::*;

use crate::cargo_parse::{packages_view, CargoPackage, PackageView};
use crate::error::{opt_view, result_view, PatchError, PatchErrorView};
use crate::manifest::{ManifestPatches, ManifestView};
use crate::patch::{
    assemble, assembled, fields_view, opt_field, push_opt_field, FieldsView, PatchTable, TableView,
};
use crate::text::{split_owner_repo, split_repository};

verus! {

/// Which revision of the repository the patch points at.
#[derive(Debug, Clone)]
pub enum GitInfo {
    /// No specific revision.
    Unspecified,
    /// A commit hash.
    Commit(String),
    /// A tag name.
    Tag(String),
    /// A branch name.
    Branch(String),
}

pub enum GitInfoView {
    Unspecified,
    Commit(Seq<char>),
    Tag(Seq<char>),
    Branch(Seq<char>),
}

impl View for GitInfo {
    type V = GitInfoView;

    open spec fn view(&self) -> GitInfoView {
        match self {
            GitInfo::Unspecified => GitInfoView::Unspecified,
            GitInfo::Commit(c) => GitInfoView::Commit(c@),
            GitInfo::Tag(t) => GitInfoView::Tag(t@),
            GitInfo::Branch(b) => GitInfoView::Branch(b@),
        }
    }
}

/// A patch to a GitHub repository.
#[derive(Debug, Clone)]
pub struct GitPatch {
    /// The repository, as `owner/repo`.
    pub git: String,
    /// The real name of the package, where the manifest renames it.
    pub package: Option<String>,
    /// The version requirement of the patch.
    pub version: Option<String>,
    /// The revision to point at.
    pub info: GitInfo,
}

/// The repository, the real name, the version and the revision of a patch.
pub type GitPatchView = (Seq<char>, Option<Seq<char>>, Option<Seq<char>>, GitInfoView);

impl View for GitPatch {
    type V = GitPatchView;

    open spec fn view(&self) -> GitPatchView {
        (self.git@, opt_view(self.package), opt_view(self.version), self.info@)
    }
}

/// The remote URL of `owner/repo` on GitHub. The doubled `/` before the
/// repository keeps the patch's source apart from the original dependency's
/// source, which Cargo requires even where both name the same repository.
pub open spec fn github_url(owner: Seq<char>, repo: Seq<char>) -> Seq<char> {
    "https://github.com/"@ + owner + "//"@ + repo + ".git"@
}

/// The field that selects the revision, if any.
pub open spec fn ref_field(info: GitInfoView) -> FieldsView {
    match info {
        GitInfoView::Unspecified => seq![],
        GitInfoView::Commit(c) => seq![("rev"@, c)],
        GitInfoView::Tag(t) => seq![("tag"@, t)],
        GitInfoView::Branch(b) => seq![("branch"@, b)],
    }
}

/// The fields of a git patch to `owner/repo`.
pub open spec fn git_fields(owner: Seq<char>, repo: Seq<char>, p: GitPatchView) -> FieldsView {
    seq![("git"@, github_url(owner, repo))] + opt_field("package"@, p.1) + opt_field("version"@, p.2)
        + ref_field(p.3)
}

/// The table of a git patch of `package_name`, or why there is none. A
/// malformed repository name is refused before the lockfile is consulted.
pub open spec fn git_patch_spec(
    lock: Seq<PackageView>,
    manifest: ManifestView,
    package_name: Seq<char>,
    p: GitPatchView,
) -> Result<TableView, PatchErrorView> {
    match split_owner_repo(p.0) {
        None => Err(PatchErrorView::InvalidRepository(p.0)),
        Some(names) => assembled(lock, manifest, package_name, p.1, git_fields(names.0, names.1, p)),
    }
}

impl GitPatch {
    /// A git patch to the repository `git` (`owner/repo`).
    pub fn new(git: String, package: Option<String>, version: Option<String>, info: GitInfo) -> (r:
        Self)
        ensures
            r@ == (git@, opt_view(package), opt_view(version), info@),
    {
        Self { git, package, version, info }
    }
}

/// The owner and the repository of the patch's `owner/repo` name.
pub fn check_git_patch_format(patch: &GitPatch) -> (r: Result<(String, String), PatchError>)
    ensures
        match split_owner_repo(patch@.0) {
            None => r is Err && r->Err_0@ == PatchErrorView::InvalidRepository(patch@.0),
            Some(names) => match r {
                Ok((owner, repo)) => owner@ == names.0 && repo@ == names.1,
                Err(_) => false,
            },
        },
{
    match split_repository(patch.git.as_str()) {
        Some(names) => Ok(names),
        None => Err(PatchError::InvalidRepository(patch.git.clone())),
    }
}

/// Builds the table that patches `package_name` to the patch's repository on
/// GitHub, with the rename, version and revision fields that are given.
pub fn do_git_patch(
    lock: &Vec<CargoPackage>,
    manifest: &ManifestPatches,
    package_name: &String,
    patch: GitPatch,
) -> (r: Result<PatchTable, PatchError>)
    ensures
        result_view(r) == git_patch_spec(packages_view(lock@), manifest@, package_name@, patch@),
{
    let (owner, repo) = match check_git_patch_format(&patch) {
        Ok(names) => names,
        Err(e) => return Err(e),
    };
    let mut url = String::from_str("https://github.com/");
    url.append(owner.as_str());
    url.append("//");
    url.append(repo.as_str());
    url.append(".git");
    let mut fields: Vec<(String, String)> = Vec::new();
    fields.push((String::from_str("git"), url));
    assert(fields_view(fields@) =~= seq![("git"@, github_url(owner@, repo@))]);
    push_opt_field(&mut fields, "package", &patch.package);
    push_opt_field(&mut fields, "version", &patch.version);
    let ghost before = fields_view(fields@);
    match &patch.info {
        GitInfo::Commit(commit) => fields.push((String::from_str("rev"), commit.clone())),
        GitInfo::Tag(tag) => fields.push((String::from_str("tag"), tag.clone())),
        GitInfo::Branch(branch) => fields.push((String::from_str("branch"), branch.clone())),
        GitInfo::Unspecified => {},
    }
    assert(fields_view(fields@) =~= before + ref_field(patch@.3));
    assemble(lock, manifest, package_name, &patch.package, fields)
}

} // verus!
