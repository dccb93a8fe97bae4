//! Locked packages and the classification of where they come from.
use vstd::prelude::*;

use crate::error::{opt_view, PatchError, PatchErrorView};
use crate::text::{
    is_prefix, lemma_strip_stops_after, starts_with, strip_fragment_and_query, strip_from,
};

verus! {

/// The source marker of a package fetched from git.
pub open spec fn git_marker() -> Seq<char> {
    "git+"@
}

/// The source marker of a package fetched from a registry.
pub open spec fn registry_marker() -> Seq<char> {
    "registry+"@
}

/// The only registry supported: the default public one.
pub open spec fn crates_io() -> Seq<char> {
    "crates-io"@
}

/// Where a locked package comes from.
#[derive(Debug, Clone)]
pub enum Dependency {
    /// A git repository, by its URL without fragment and query.
    Git(String),
    /// A local path.
    Path,
    /// A registry, by its name.
    Registry(String),
}

/// What a [`Dependency`] holds.
pub enum DependencyView {
    Git(Seq<char>),
    Path,
    Registry(Seq<char>),
}

impl View for Dependency {
    type V = DependencyView;

    open spec fn view(&self) -> DependencyView {
        match self {
            Dependency::Git(u) => DependencyView::Git(u@),
            Dependency::Path => DependencyView::Path,
            Dependency::Registry(r) => DependencyView::Registry(r@),
        }
    }
}

/// One `[[package]]` entry of the lockfile.
#[derive(Debug, Clone)]
pub struct CargoPackage {
    pub name: String,
    pub source: Option<String>,
}

/// A locked package as its name and its optional source.
pub type PackageView = (Seq<char>, Option<Seq<char>>);

impl View for CargoPackage {
    type V = PackageView;

    open spec fn view(&self) -> PackageView {
        (self.name@, opt_view(self.source))
    }
}

/// The origin of a package with the given source, or the source itself when
/// its marker is not recognised.
pub open spec fn classify(source: Option<Seq<char>>) -> Result<DependencyView, Seq<char>> {
    match source {
        None => Ok(DependencyView::Path),
        Some(s) => if is_prefix(git_marker(), s) {
            Ok(
                DependencyView::Git(
                    strip_fragment_and_query(s.subrange(git_marker().len() as int, s.len() as int)),
                ),
            )
        } else if is_prefix(registry_marker(), s) {
            Ok(DependencyView::Registry(crates_io()))
        } else {
            Err(s)
        },
    }
}

/// The view of the packages of a lockfile.
pub open spec fn packages_view(lock: Seq<CargoPackage>) -> Seq<PackageView> {
    lock.map_values(|p: CargoPackage| p@)
}

/// The first package named `name`, if any.
pub open spec fn find_package(lock: Seq<PackageView>, name: Seq<char>) -> Option<PackageView>
    decreases lock.len(),
{
    if lock.len() == 0 {
        None
    } else if lock[0].0 == name {
        Some(lock[0])
    } else {
        find_package(lock.drop_first(), name)
    }
}

impl CargoPackage {
    /// A copy of this package.
    pub fn duplicate(&self) -> (r: CargoPackage)
        ensures
            r@ == self@,
    {
        let source = match &self.source {
            Some(s) => Some(s.clone()),
            None => None,
        };
        CargoPackage { name: self.name.clone(), source }
    }

    /// Classifies where this package comes from: no source is a local path,
    /// `git+URL#rev` a git repository at `URL` (without fragment or query),
    /// `registry+...` the default registry. Any other source is refused.
    pub fn parse_dependency(&self) -> (r: Result<Dependency, PatchError>)
        ensures
            match classify(opt_view(self.source)) {
                Ok(d) => r is Ok && r->Ok_0@ == d,
                Err(s) => r is Err && r->Err_0@ == PatchErrorView::UnsupportedOrigin(s),
            },
    {
        match &self.source {
            None => Ok(Dependency::Path),
            Some(source) => {
                let src = source.as_str();
                if starts_with(src, "git+") {
                    let url = strip_from(src, "git+".unicode_len());
                    Ok(Dependency::Git(url))
                } else if starts_with(src, "registry+") {
                    Ok(Dependency::Registry(String::from_str("crates-io")))
                } else {
                    Err(PatchError::UnsupportedOrigin(source.clone()))
                }
            },
        }
    }
}

/// Finds the first locked package named `package_name`.
pub fn pick_package(lock: &Vec<CargoPackage>, package_name: &String) -> (r: Result<
    CargoPackage,
    PatchError,
>)
    ensures
        match find_package(packages_view(lock@), package_name@) {
            Some(p) => r is Ok && r->Ok_0@ == p,
            None => r is Err && r->Err_0@ == PatchErrorView::PackageNotFound(package_name@),
        },
{
    let ghost all = packages_view(lock@);
    let mut i: usize = 0;
    assert(all.subrange(0, all.len() as int) =~= all);
    while i < lock.len()
        invariant
            all == packages_view(lock@),
            i <= lock.len(),
            find_package(all, package_name@) == find_package(
                all.subrange(i as int, all.len() as int),
                package_name@,
            ),
        decreases lock.len() - i,
    {
        let ghost rest = all.subrange(i as int, all.len() as int);
        assert(rest.drop_first() =~= all.subrange(i + 1, all.len() as int));
        assert(rest[0] == lock@[i as int]@);
        if lock[i].name == *package_name {
            return Ok(lock[i].duplicate());
        }
        i = i + 1;
    }
    Err(PatchError::PackageNotFound(package_name.clone()))
}

/// A git source `git+URL#rev?query` is classified as the repository at
/// exactly `URL`, whatever its fragment and query hold, where `URL` itself
/// holds neither `#` nor `?`.
pub proof fn lemma_git_source_url(url: Seq<char>, rev: Seq<char>, query: Seq<char>)
    requires
        forall|i: int| 0 <= i < url.len() ==> url[i] != '#' && url[i] != '?',
    ensures
        classify(Some(git_marker() + url + "#"@ + rev + "?"@ + query)) == Ok::<
            DependencyView,
            Seq<char>,
        >(DependencyView::Git(url)),
{
    reveal_strlit("#");
    let tail = "#"@ + rev + "?"@ + query;
    let s = git_marker() + url + "#"@ + rev + "?"@ + query;
    assert(s =~= git_marker() + (url + tail));
    assert(s.subrange(0, git_marker().len() as int) =~= git_marker());
    assert(s.subrange(git_marker().len() as int, s.len() as int) =~= url + tail);
    assert(tail[0] == '#');
    lemma_strip_stops_after(url, tail);
}

/// A locked package without a source is always a local path dependency.
pub proof fn lemma_no_source_is_path(p: PackageView)
    requires
        p.1 is None,
    ensures
        classify(p.1) == Ok::<DependencyView, Seq<char>>(DependencyView::Path),
{
}

} // verus!
