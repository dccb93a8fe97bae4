//! What the manifest's `[patch]` section holds, as far as the existence check
//! reads it, and how an appended patch changes that.
use vstd::prelude::*;

use crate::cargo_parse::{Dependency, DependencyView};

verus! {

/// One key of the `[patch]` section: a git URL, a registry name, or any other
/// key. `entries` holds the keys of its table, or `None` when its value is not
/// a table.
#[derive(Debug, Clone)]
pub struct PatchGroup {
    pub key: String,
    pub entries: Option<Vec<String>>,
}

/// A group as its key and the keys of its table.
pub type GroupView = (Seq<char>, Option<Seq<Seq<char>>>);

pub open spec fn strings_view(v: Seq<String>) -> Seq<Seq<char>> {
    v.map_values(|s: String| s@)
}

impl View for PatchGroup {
    type V = GroupView;

    open spec fn view(&self) -> GroupView {
        (
            self.key@,
            match self.entries {
                Some(v) => Some(strings_view(v@)),
                None => None,
            },
        )
    }
}

/// The `[patch]` section of a manifest, or `None` when it has none. Sections
/// appended after reading are listed after those read, so one key may appear
/// more than once.
#[derive(Debug, Clone)]
pub struct ManifestPatches {
    pub section: Option<Vec<PatchGroup>>,
}

pub type ManifestView = Option<Seq<GroupView>>;

pub open spec fn groups_view(v: Seq<PatchGroup>) -> Seq<GroupView> {
    v.map_values(|g: PatchGroup| g@)
}

impl View for ManifestPatches {
    type V = ManifestView;

    open spec fn view(&self) -> ManifestView {
        match self.section {
            Some(v) => Some(groups_view(v@)),
            None => None,
        }
    }
}

/// Some key of the section is `key`.
pub open spec fn has_key(section: Seq<GroupView>, key: Seq<char>) -> bool {
    exists|i: int| 0 <= i < section.len() && (#[trigger] section[i]).0 == key
}

/// Some table under `key` holds `name`.
pub open spec fn group_holds(section: Seq<GroupView>, key: Seq<char>, name: Seq<char>) -> bool {
    exists|i: int|
        0 <= i < section.len() && (#[trigger] section[i]).0 == key && section[i].1 is Some
            && section[i].1->0.contains(name)
}

/// Whether the manifest already patches `name`, a package of the given origin.
pub open spec fn patch_exists(m: ManifestView, name: Seq<char>, origin: DependencyView) -> bool {
    match m {
        None => false,
        Some(section) => has_key(section, name) || match origin {
            DependencyView::Git(url) => group_holds(section, url, name),
            DependencyView::Registry(id) => group_holds(section, id, name),
            DependencyView::Path => false,
        },
    }
}

/// The manifest after a `[patch.<group>.<name>]` table has been appended.
pub open spec fn appended(m: ManifestView, group: Seq<char>, name: Seq<char>) -> ManifestView {
    let g: GroupView = (group, Some(seq![name]));
    match m {
        None => Some(seq![g]),
        Some(section) => Some(section.push(g)),
    }
}

fn contains_name(v: &Vec<String>, name: &String) -> (r: bool)
    ensures
        r == strings_view(v@).contains(name@),
{
    let mut i: usize = 0;
    while i < v.len()
        invariant
            i <= v.len(),
            forall|j: int| 0 <= j < i ==> v@[j]@ != name@,
        decreases v.len() - i,
    {
        if v[i] == *name {
            assert(strings_view(v@)[i as int] == name@);
            return true;
        }
        i = i + 1;
    }
    proof {
        if strings_view(v@).contains(name@) {
            let j = choose|j: int| 0 <= j < strings_view(v@).len() && strings_view(v@)[j] == name@;
            assert(v@[j]@ == name@);
        }
    }
    false
}

/// Whether some key of the section is `key`.
fn section_has_key(section: &Vec<PatchGroup>, key: &String) -> (r: bool)
    ensures
        r == has_key(groups_view(section@), key@),
{
    let ghost s = groups_view(section@);
    let mut i: usize = 0;
    while i < section.len()
        invariant
            s == groups_view(section@),
            i <= section.len(),
            forall|j: int| 0 <= j < i ==> s[j].0 != key@,
        decreases section.len() - i,
    {
        assert(s[i as int] == section@[i as int]@);
        if section[i].key == *key {
            return true;
        }
        i = i + 1;
    }
    false
}

/// Whether some table of the section under `key` holds `name`.
fn section_group_holds(section: &Vec<PatchGroup>, key: &String, name: &String) -> (r: bool)
    ensures
        r == group_holds(groups_view(section@), key@, name@),
{
    let ghost s = groups_view(section@);
    let mut i: usize = 0;
    while i < section.len()
        invariant
            s == groups_view(section@),
            i <= section.len(),
            forall|j: int|
                0 <= j < i ==> !(s[j].0 == key@ && s[j].1 is Some && s[j].1->0.contains(name@)),
        decreases section.len() - i,
    {
        assert(s[i as int] == section@[i as int]@);
        if section[i].key == *key {
            match &section[i].entries {
                Some(entries) => {
                    if contains_name(entries, name) {
                        return true;
                    }
                },
                None => {},
            }
        }
        i = i + 1;
    }
    false
}

/// Whether the manifest already holds a patch for `package_name`, a package
/// whose origin is `package_dependency`: directly under `[patch]`, or in the
/// table of its origin's group. A path dependency is never found patched.
pub fn check_patch_exist(
    manifest: &ManifestPatches,
    package_name: &String,
    package_dependency: &Dependency,
) -> (r: bool)
    ensures
        r == patch_exists(manifest@, package_name@, package_dependency@),
{
    match &manifest.section {
        None => false,
        Some(section) => {
            if section_has_key(section, package_name) {
                return true;
            }
            match package_dependency {
                Dependency::Git(url) => section_group_holds(section, url, package_name),
                Dependency::Registry(id) => section_group_holds(section, id, package_name),
                Dependency::Path => false,
            }
        },
    }
}

impl ManifestPatches {
    /// Records that `[patch.<group>.<package_name>]` was appended to the manifest.
    pub fn record(&mut self, group: &String, package_name: &String)
        ensures
            final(self)@ == appended(old(self)@, group@, package_name@),
    {
        let entries = vec![package_name.clone()];
        assert(strings_view(entries@) =~= seq![package_name@]);
        let g = PatchGroup { key: group.clone(), entries: Some(entries) };
        match &mut self.section {
            Some(section) => {
                let ghost before = section@;
                section.push(g);
                assert(groups_view(section@) =~= groups_view(before).push(g@));
            },
            None => {
                let v = vec![g];
                assert(groups_view(v@) =~= seq![g@]);
                self.section = Some(v);
            },
        }
    }
}

/// A manifest without a `[patch]` section patches nothing, whatever the
/// package's origin.
pub proof fn lemma_no_section_no_patch(name: Seq<char>, origin: DependencyView)
    ensures
        !patch_exists(None, name, origin),
{
}

/// After `[patch.<group>.<name>]` is appended, `name` is found patched for an
/// origin whose group is `group`.
pub proof fn lemma_appended_is_found(m: ManifestView, group: Seq<char>, name: Seq<char>, origin: DependencyView)
    requires
        origin == DependencyView::Git(group) || origin == DependencyView::Registry(group),
    ensures
        patch_exists(appended(m, group, name), name, origin),
{
    let section = appended(m, group, name)->0;
    let last = section.len() - 1;
    assert(section[last] == (group, Some(seq![name])));
    assert(seq![name][0] == name);
    assert(group_holds(section, group, name));
}

} // verus!
