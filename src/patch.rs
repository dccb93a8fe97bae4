//! The skeleton of a patch: which origin group it goes under, and the table
//! that is finally appended to the manifest.
use vstd::prelude::*;

use crate::cargo_parse::{
    classify, find_package, packages_view, pick_package, CargoPackage, Dependency, DependencyView,
    PackageView,
};
use crate::arg_parse::{args_error, is_text, parse_args, Args};
use crate::error::{opt_view, result_view, PatchError, PatchErrorView};
use crate::git_patch::{do_git_patch, git_fields, git_patch_spec, GitInfo, GitInfoView, GitPatch};
use crate::index_patch::{do_index_patch, index_fields, index_patch_spec, IndexPatch};
use crate::text::split_owner_repo;
use crate::manifest::{
    appended, check_patch_exist, lemma_appended_is_found, patch_exists, ManifestPatches,
    ManifestView,
};

verus! {

/// The origin group under which `package_name` is patched, where the locked
/// package is the first one named `real_package_name`; or why there is none.
pub open spec fn skeleton_spec(
    lock: Seq<PackageView>,
    manifest: ManifestView,
    package_name: Seq<char>,
    real_package_name: Seq<char>,
) -> Result<Seq<char>, PatchErrorView> {
    match find_package(lock, real_package_name) {
        None => Err(PatchErrorView::PackageNotFound(real_package_name)),
        Some(p) => match classify(p.1) {
            Err(s) => Err(PatchErrorView::UnsupportedOrigin(s)),
            Ok(origin) => if patch_exists(manifest, package_name, origin) {
                Err(PatchErrorView::AlreadyPatched(package_name))
            } else {
                match origin {
                    DependencyView::Git(url) => Ok(url),
                    DependencyView::Registry(id) => Ok(id),
                    DependencyView::Path => Err(PatchErrorView::PathNotPatchable),
                }
            },
        },
    }
}

/// Finds the package in the lockfile, classifies its origin, refuses it when
/// the manifest already patches `package_name`, and returns the origin group
/// key (git URL or registry name) that the patch table goes under.
pub fn gen_patch_table(
    lock: &Vec<CargoPackage>,
    manifest: &ManifestPatches,
    package_name: &String,
    real_package_name: &String,
) -> (r: Result<String, PatchError>)
    ensures
        match skeleton_spec(packages_view(lock@), manifest@, package_name@, real_package_name@) {
            Ok(g) => r is Ok && r->Ok_0@ == g,
            Err(e) => r is Err && r->Err_0@ == e,
        },
{
    let package = match pick_package(lock, real_package_name) {
        Ok(p) => p,
        Err(e) => return Err(e),
    };
    let dependency = match package.parse_dependency() {
        Ok(d) => d,
        Err(e) => return Err(e),
    };
    if check_patch_exist(manifest, package_name, &dependency) {
        return Err(PatchError::AlreadyPatched(package_name.clone()));
    }
    match dependency {
        Dependency::Git(url) => Ok(url),
        Dependency::Registry(id) => Ok(id),
        Dependency::Path => Err(PatchError::PathNotPatchable),
    }
}

/// A table `[patch.<group>.<package>]` with string fields, ready to be
/// appended to the manifest.
#[derive(Debug, Clone)]
pub struct PatchTable {
    pub group: String,
    pub package: String,
    pub fields: Vec<(String, String)>,
}

pub type FieldsView = Seq<(Seq<char>, Seq<char>)>;

pub type TableView = (Seq<char>, Seq<char>, FieldsView);

pub open spec fn fields_view(v: Seq<(String, String)>) -> FieldsView {
    v.map_values(|f: (String, String)| (f.0@, f.1@))
}

impl View for PatchTable {
    type V = TableView;

    open spec fn view(&self) -> TableView {
        (self.group@, self.package@, fields_view(self.fields@))
    }
}

/// The TOML text that the `toml` crate writes for a document whose only
/// content is the table at the key path `path`, holding the string `fields`.
pub uninterp spec fn toml_document_text(
    path: Seq<Seq<char>>,
    fields: Seq<(Seq<char>, Seq<char>)>,
) -> Seq<char>;

/// Relies on `toml::to_string` on a `toml::Table`: the text depends on the
/// table's contents alone (its keys are kept sorted). A table whose keys are
/// strings and whose values are strings or tables always serialises, so the
/// result is always `Some`.
#[verifier::external_body]
fn render_nested(path: &Vec<String>, fields: &Vec<(String, String)>) -> (r: Option<String>)
    ensures
        r is Some,
        r matches Some(text) ==> text@ == toml_document_text(
            path@.map_values(|s: String| s@),
            fields_view(fields@),
        ),
{
    let mut table = toml::Table::new();
    for (k, v) in fields.iter() {
        table.insert(k.clone(), toml::Value::String(v.clone()));
    }
    for key in path.iter().rev() {
        let mut outer = toml::Table::new();
        outer.insert(key.clone(), toml::Value::Table(table));
        table = outer;
    }
    toml::to_string(&table).ok()
}

/// The key path of a patch table under the manifest's root.
pub open spec fn table_path(t: TableView) -> Seq<Seq<char>> {
    seq!["patch"@, t.0, t.1]
}

impl PatchTable {
    /// The TOML text of this table, as appended to the manifest.
    pub fn to_toml(&self) -> (r: String)
        ensures
            r@ == toml_document_text(table_path(self@), self@.2),
    {
        let path = vec![String::from_str("patch"), self.group.clone(), self.package.clone()];
        assert(path@.map_values(|s: String| s@) =~= table_path(self@));
        match render_nested(&path, &self.fields) {
            Some(text) => text,
            None => String::new(),
        }
    }
}

} // verus!

verus! {

/// The name the lockfile knows the package by: the rename target when one is
/// given, else the name used in the manifest.
pub open spec fn real_name(package: Option<Seq<char>>, package_name: Seq<char>) -> Seq<char> {
    match package {
        Some(p) => p,
        None => package_name,
    }
}

/// One field `key = value` when the value is present, none otherwise.
pub open spec fn opt_field(key: Seq<char>, value: Option<Seq<char>>) -> FieldsView {
    match value {
        Some(v) => seq![(key, v)],
        None => seq![],
    }
}

/// The patch table for `package_name` with the given fields, under the group
/// that the skeleton names; or why there is none.
pub open spec fn assembled(
    lock: Seq<PackageView>,
    manifest: ManifestView,
    package_name: Seq<char>,
    package: Option<Seq<char>>,
    fields: FieldsView,
) -> Result<TableView, PatchErrorView> {
    match skeleton_spec(lock, manifest, package_name, real_name(package, package_name)) {
        Err(e) => Err(e),
        Ok(g) => Ok((g, package_name, fields)),
    }
}

/// Appends `key = value` to `fields` when the value is present.
pub fn push_opt_field(fields: &mut Vec<(String, String)>, key: &str, value: &Option<String>)
    ensures
        fields_view(final(fields)@) == fields_view(old(fields)@) + opt_field(
            key@,
            opt_view(*value),
        ),
{
    match value {
        Some(v) => {
            let ghost before = fields@;
            fields.push((String::from_str(key), v.clone()));
            assert(fields_view(fields@) =~= fields_view(before) + opt_field(
                key@,
                opt_view(*value),
            ));
        },
        None => {
            assert(fields_view(fields@) =~= fields_view(fields@) + opt_field(
                key@,
                opt_view(*value),
            ));
        },
    }
}

/// The table of `package_name` under the skeleton's group, holding `fields`.
pub fn assemble(
    lock: &Vec<CargoPackage>,
    manifest: &ManifestPatches,
    package_name: &String,
    package: &Option<String>,
    fields: Vec<(String, String)>,
) -> (r: Result<PatchTable, PatchError>)
    ensures
        result_view(r) == assembled(
            packages_view(lock@),
            manifest@,
            package_name@,
            opt_view(*package),
            fields_view(fields@),
        ),
{
    let real_package_name = match package {
        Some(name) => name,
        None => package_name,
    };
    match gen_patch_table(lock, manifest, package_name, real_package_name) {
        Ok(group) => Ok(PatchTable { group, package: package_name.clone(), fields }),
        Err(e) => Err(e),
    }
}

} // verus!

verus! {

/// The revision that a request selects: its commit, else its tag, else its
/// branch.
pub open spec fn git_info_of(a: Args) -> GitInfoView {
    match a.commit {
        Some(c) => GitInfoView::Commit(c@),
        None => match a.tag {
            Some(t) => GitInfoView::Tag(t@),
            None => match a.branch {
                Some(b) => GitInfoView::Branch(b@),
                None => GitInfoView::Unspecified,
            },
        },
    }
}

/// The table that a request produces, or why there is none. A well-formed
/// `path` request is not routed to the path assembler: it is refused as an
/// unsupported kind.
pub open spec fn patch_spec(a: Args, lock: Seq<PackageView>, manifest: ManifestView) -> Result<
    TableView,
    PatchErrorView,
> {
    match args_error(a) {
        Some(e) => Err(e),
        None => if a.patch_type@ == "git"@ {
            git_patch_spec(
                lock,
                manifest,
                a.package_name@,
                (
                    a.git_repo->0@,
                    opt_view(a.real_package_name),
                    opt_view(a.package_version),
                    git_info_of(a),
                ),
            )
        } else if a.patch_type@ == "registry"@ {
            index_patch_spec(
                lock,
                manifest,
                a.package_name@,
                (opt_view(a.real_package_name), a.package_version->0@),
            )
        } else {
            Err(PatchErrorView::UnsupportedPatchType(a.patch_type@))
        },
    }
}

/// Validates the request and builds the patch table it asks for, from the
/// project's locked packages and the `[patch]` section of its manifest.
pub fn patch(args: Args, lock: &Vec<CargoPackage>, manifest: &ManifestPatches) -> (r: Result<
    PatchTable,
    PatchError,
>)
    ensures
        result_view(r) == patch_spec(args, packages_view(lock@), manifest@),
{
    let args = match parse_args(args) {
        Ok(a) => a,
        Err(e) => return Err(e),
    };
    let Args { package_name, patch_type, real_package_name, package_version, git_repo, commit, tag, branch, .. } = args;
    if is_text(&patch_type, "git") {
        let info = match commit {
            Some(c) => GitInfo::Commit(c),
            None => match tag {
                Some(t) => GitInfo::Tag(t),
                None => match branch {
                    Some(b) => GitInfo::Branch(b),
                    None => GitInfo::Unspecified,
                },
            },
        };
        let repo = match git_repo {
            Some(g) => g,
            None => return Err(PatchError::MissingGitRepo),
        };
        let git_patch = GitPatch::new(repo, real_package_name, package_version, info);
        do_git_patch(lock, manifest, &package_name, git_patch)
    } else if is_text(&patch_type, "registry") {
        proof {
            reveal_strlit("registry");
            reveal_strlit("path");
            assert("registry"@.len() != "path"@.len());
        }
        let version = match package_version {
            Some(v) => v,
            None => return Err(PatchError::MissingVersion),
        };
        let index_patch = IndexPatch::new(real_package_name, version);
        do_index_patch(lock, manifest, &package_name, &index_patch)
    } else {
        Err(PatchError::UnsupportedPatchType(patch_type))
    }
}

/// The skeleton of a package whose patch was just appended is refused.
proof fn lemma_skeleton_twice(
    lock: Seq<PackageView>,
    manifest: ManifestView,
    package_name: Seq<char>,
    real_package_name: Seq<char>,
)
    requires
        skeleton_spec(lock, manifest, package_name, real_package_name) is Ok,
    ensures
        skeleton_spec(
            lock,
            appended(
                manifest,
                skeleton_spec(lock, manifest, package_name, real_package_name)->Ok_0,
                package_name,
            ),
            package_name,
            real_package_name,
        ) == Err::<Seq<char>, PatchErrorView>(PatchErrorView::AlreadyPatched(package_name)),
{
    let g = skeleton_spec(lock, manifest, package_name, real_package_name)->Ok_0;
    let p = find_package(lock, real_package_name)->0;
    let origin = classify(p.1)->Ok_0;
    lemma_appended_is_found(manifest, g, package_name, origin);
}

/// Assembling twice: the second time, on the manifest with the first table
/// appended, is refused.
proof fn lemma_assembled_twice(
    lock: Seq<PackageView>,
    manifest: ManifestView,
    package_name: Seq<char>,
    package: Option<Seq<char>>,
    fields: FieldsView,
    fields2: FieldsView,
)
    requires
        assembled(lock, manifest, package_name, package, fields) is Ok,
    ensures
        ({
            let t = assembled(lock, manifest, package_name, package, fields)->Ok_0;
            assembled(lock, appended(manifest, t.0, t.1), package_name, package, fields2) == Err::<
                TableView,
                PatchErrorView,
            >(PatchErrorView::AlreadyPatched(package_name))
        }),
{
    lemma_skeleton_twice(lock, manifest, package_name, real_name(package, package_name));
}

/// Making the same request a second time, once the table that the first
/// produced has been appended to the manifest, is refused as already
/// patched: nothing is appended twice.
pub proof fn lemma_patch_twice_refused(a: Args, lock: Seq<PackageView>, manifest: ManifestView)
    requires
        patch_spec(a, lock, manifest) is Ok,
    ensures
        ({
            let t = patch_spec(a, lock, manifest)->Ok_0;
            patch_spec(a, lock, appended(manifest, t.0, t.1)) == Err::<TableView, PatchErrorView>(
                PatchErrorView::AlreadyPatched(a.package_name@),
            )
        }),
{
    let name = a.package_name@;
    let renamed = opt_view(a.real_package_name);
    if a.patch_type@ == "git"@ {
        let p = (a.git_repo->0@, renamed, opt_view(a.package_version), git_info_of(a));
        let names = split_owner_repo(p.0)->0;
        let f = git_fields(names.0, names.1, p);
        lemma_assembled_twice(lock, manifest, name, renamed, f, f);
    } else {
        let p = (renamed, a.package_version->0@);
        lemma_assembled_twice(lock, manifest, name, renamed, index_fields(p), index_fields(p));
    }
}

} // verus!
