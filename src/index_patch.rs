//! Patches that redirect a package to another version on the registry.
use vstd::prelude::*;

use crate::cargo_parse::{packages_view, CargoPackage, PackageView};
use crate::error::{opt_view, result_view, PatchError, PatchErrorView};
use crate::manifest::{ManifestPatches, ManifestView};
use crate::patch::{
    assemble, assembled, fields_view, opt_field, push_opt_field, FieldsView, PatchTable, TableView,
};

verus! {

/// A patch to a version of the default registry.
#[derive(Debug, Clone)]
pub struct IndexPatch {
    /// The real name of the package, where the manifest renames it.
    pub package: Option<String>,
    /// The version requirement of the patch.
    pub version: String,
}

impl View for IndexPatch {
    type V = (Option<Seq<char>>, Seq<char>);

    open spec fn view(&self) -> (Option<Seq<char>>, Seq<char>) {
        (opt_view(self.package), self.version@)
    }
}

/// The fields of a registry patch: its version, then the rename if any.
pub open spec fn index_fields(p: (Option<Seq<char>>, Seq<char>)) -> FieldsView {
    seq![("version"@, p.1)] + opt_field("package"@, p.0)
}

/// The table of a registry patch of `package_name`, or why there is none.
pub open spec fn index_patch_spec(
    lock: Seq<PackageView>,
    manifest: ManifestView,
    package_name: Seq<char>,
    p: (Option<Seq<char>>, Seq<char>),
) -> Result<TableView, PatchErrorView> {
    assembled(lock, manifest, package_name, p.0, index_fields(p))
}

impl IndexPatch {
    /// A registry patch to `version`.
    pub fn new(package: Option<String>, version: String) -> (r: Self)
        ensures
            r@ == (opt_view(package), version@),
    {
        Self { package, version }
    }
}

/// Builds the table that patches `package_name` to the patch's version.
pub fn do_index_patch(
    lock: &Vec<CargoPackage>,
    manifest: &ManifestPatches,
    package_name: &String,
    patch: &IndexPatch,
) -> (r: Result<PatchTable, PatchError>)
    ensures
        result_view(r) == index_patch_spec(packages_view(lock@), manifest@, package_name@, patch@),
{
    let mut fields: Vec<(String, String)> = Vec::new();
    fields.push((String::from_str("version"), patch.version.clone()));
    assert(fields_view(fields@) =~= seq![("version"@, patch.version@)]);
    push_opt_field(&mut fields, "package", &patch.package);
    assemble(lock, manifest, package_name, &patch.package, fields)
}

} // verus!
