//! Patches that redirect a package to a local path.
use vstd::prelude::*;

use crate::cargo_parse::{packages_view, CargoPackage, PackageView};
use crate::error::{opt_view, result_view, PatchError, PatchErrorView};
use crate::manifest::{ManifestPatches, ManifestView};
use crate::patch::{
    assemble, assembled, fields_view, opt_field, push_opt_field, FieldsView, PatchTable, TableView,
};

verus! {

/// A patch to a local path.
#[derive(Debug, Clone)]
pub struct PathPatch {
    /// The real name of the package, where the manifest renames it.
    pub package: Option<String>,
    /// The path the package is redirected to.
    pub path: String,
}

impl View for PathPatch {
    type V = (Option<Seq<char>>, Seq<char>);

    open spec fn view(&self) -> (Option<Seq<char>>, Seq<char>) {
        (opt_view(self.package), self.path@)
    }
}

/// The fields of a path patch: its path, then the rename if any.
pub open spec fn path_fields(p: (Option<Seq<char>>, Seq<char>)) -> FieldsView {
    seq![("path"@, p.1)] + opt_field("package"@, p.0)
}

/// The table of a path patch of `package_name`, or why there is none.
pub open spec fn path_patch_spec(
    lock: Seq<PackageView>,
    manifest: ManifestView,
    package_name: Seq<char>,
    p: (Option<Seq<char>>, Seq<char>),
) -> Result<TableView, PatchErrorView> {
    assembled(lock, manifest, package_name, p.0, path_fields(p))
}

impl PathPatch {
    /// A path patch to `path`.
    pub fn new(package: Option<String>, path: String) -> (r: Self)
        ensures
            r@ == (opt_view(package), path@),
    {
        Self { package, path }
    }
}

/// Builds the table that patches `package_name` to the patch's local path,
/// under the group of the package's own origin.
pub fn do_path_patch(
    lock: &Vec<CargoPackage>,
    manifest: &ManifestPatches,
    package_name: &String,
    patch: &PathPatch,
) -> (r: Result<PatchTable, PatchError>)
    ensures
        result_view(r) == path_patch_spec(packages_view(lock@), manifest@, package_name@, patch@),
{
    let mut fields: Vec<(String, String)> = Vec::new();
    fields.push((String::from_str("path"), patch.path.clone()));
    assert(fields_view(fields@) =~= seq![("path"@, patch.path@)]);
    push_opt_field(&mut fields, "package", &patch.package);
    assemble(lock, manifest, package_name, &patch.package, fields)
}

} // verus!
