use dependencies_patch::arg_parse::{parse_args, Args};
use dependencies_patch::cargo_parse::{pick_package, CargoPackage, Dependency};
use dependencies_patch::error::PatchError;
use dependencies_patch::git_patch::{check_git_patch_format, do_git_patch, GitInfo, GitPatch};
use dependencies_patch::index_patch::{do_index_patch, IndexPatch};
use dependencies_patch::manifest::{check_patch_exist, ManifestPatches, PatchGroup};
use dependencies_patch::patch::{gen_patch_table, patch, PatchTable};
use dependencies_patch::path_patch::{do_path_patch, PathPatch};
use dependencies_patch::text::{split_repository, starts_with};

const REGISTRY_SOURCE: &str = "registry+https://github.com/rust-lang/crates.io-index";

fn locked(name: &str, source: Option<&str>) -> CargoPackage {
    CargoPackage { name: name.to_string(), source: source.map(|s| s.to_string()) }
}

fn registry_lock() -> Vec<CargoPackage> {
    vec![locked("project1", None), locked("log", Some(REGISTRY_SOURCE))]
}

fn empty_manifest() -> ManifestPatches {
    ManifestPatches { section: None }
}

fn fields(t: &PatchTable) -> Vec<(&str, &str)> {
    t.fields.iter().map(|(k, v)| (k.as_str(), v.as_str())).collect()
}

fn args(kind: &str) -> Args {
    Args {
        cargo_path: "/tmp/project".to_string(),
        package_name: "log".to_string(),
        patch_type: kind.to_string(),
        real_package_name: None,
        package_version: None,
        git_repo: None,
        commit: None,
        tag: None,
        branch: None,
        patch_path: None,
    }
}

#[test]
fn git_source_strips_fragment_and_query() {
    let p = locked("log", Some("git+https://github.com/rust-lang/log#abc123?x=1"));
    match p.parse_dependency() {
        Ok(Dependency::Git(url)) => assert_eq!(url, "https://github.com/rust-lang/log"),
        other => panic!("unexpected {:?}", other),
    }
}

#[test]
fn git_source_strips_query_before_fragment() {
    let p = locked("log", Some("git+https://github.com/rust-lang/log?branch=main#abc123"));
    match p.parse_dependency() {
        Ok(Dependency::Git(url)) => assert_eq!(url, "https://github.com/rust-lang/log"),
        other => panic!("unexpected {:?}", other),
    }
}

#[test]
fn git_source_without_suffix_is_kept_whole() {
    let p = locked("log", Some("git+https://github.com/rust-lang/log"));
    match p.parse_dependency() {
        Ok(Dependency::Git(url)) => assert_eq!(url, "https://github.com/rust-lang/log"),
        other => panic!("unexpected {:?}", other),
    }
}

#[test]
fn missing_source_is_path() {
    assert!(matches!(locked("local", None).parse_dependency(), Ok(Dependency::Path)));
}

#[test]
fn registry_source_is_crates_io() {
    match locked("log", Some(REGISTRY_SOURCE)).parse_dependency() {
        Ok(Dependency::Registry(id)) => assert_eq!(id, "crates-io"),
        other => panic!("unexpected {:?}", other),
    }
}

#[test]
fn unknown_source_is_refused() {
    match locked("log", Some("sparse+https://example.org/index")).parse_dependency() {
        Err(PatchError::UnsupportedOrigin(s)) => assert_eq!(s, "sparse+https://example.org/index"),
        other => panic!("unexpected {:?}", other),
    }
}

#[test]
fn pick_package_takes_first_match() {
    let lock = vec![locked("a", None), locked("log", Some("registry+x")), locked("log", None)];
    let p = pick_package(&lock, &"log".to_string()).unwrap();
    assert_eq!(p.source.as_deref(), Some("registry+x"));
}

#[test]
fn pick_package_reports_missing() {
    match pick_package(&registry_lock(), &"serde".to_string()) {
        Err(PatchError::PackageNotFound(n)) => assert_eq!(n, "serde"),
        other => panic!("unexpected {:?}", other),
    }
}

#[test]
fn no_patch_section_means_not_patched() {
    let m = empty_manifest();
    let name = "log".to_string();
    assert!(!check_patch_exist(&m, &name, &Dependency::Registry("crates-io".to_string())));
    assert!(!check_patch_exist(&m, &name, &Dependency::Git("https://g/x".to_string())));
    assert!(!check_patch_exist(&m, &name, &Dependency::Path));
}

#[test]
fn patch_found_directly_under_section() {
    let m = ManifestPatches {
        section: Some(vec![PatchGroup { key: "log".to_string(), entries: None }]),
    };
    assert!(check_patch_exist(&m, &"log".to_string(), &Dependency::Path));
}

#[test]
fn patch_found_in_registry_group() {
    let m = ManifestPatches {
        section: Some(vec![PatchGroup {
            key: "crates-io".to_string(),
            entries: Some(vec!["serde".to_string(), "log".to_string()]),
        }]),
    };
    let reg = Dependency::Registry("crates-io".to_string());
    assert!(check_patch_exist(&m, &"log".to_string(), &reg));
    assert!(!check_patch_exist(&m, &"rand".to_string(), &reg));
}

#[test]
fn git_group_must_hold_the_package() {
    let url = "https://github.com/rust-lang/log".to_string();
    let m = ManifestPatches {
        section: Some(vec![PatchGroup { key: url.clone(), entries: Some(vec!["other".to_string()]) }]),
    };
    assert!(!check_patch_exist(&m, &"log".to_string(), &Dependency::Git(url.clone())));
}

#[test]
fn missing_registry_group_is_not_an_error() {
    let m = ManifestPatches {
        section: Some(vec![PatchGroup { key: "https://g/x".to_string(), entries: Some(vec![]) }]),
    };
    assert!(!check_patch_exist(&m, &"log".to_string(), &Dependency::Registry("crates-io".to_string())));
}

#[test]
fn git_patch_url_doubles_separator() {
    let patch = GitPatch::new("rust-lang/log".to_string(), None, None, GitInfo::Unspecified);
    let t = do_git_patch(&registry_lock(), &empty_manifest(), &"log".to_string(), patch).unwrap();
    assert_eq!(t.group, "crates-io");
    assert_eq!(t.package, "log");
    assert_eq!(fields(&t), vec![("git", "https://github.com/rust-lang//log.git")]);
}

#[test]
fn git_patch_sets_rename_version_and_tag() {
    let patch = GitPatch::new(
        "rust-lang/log".to_string(),
        Some("log".to_string()),
        Some("0.4".to_string()),
        GitInfo::Tag("v0.4.20".to_string()),
    );
    let t = do_git_patch(&registry_lock(), &empty_manifest(), &"logging".to_string(), patch).unwrap();
    assert_eq!(t.package, "logging");
    assert_eq!(
        fields(&t),
        vec![
            ("git", "https://github.com/rust-lang//log.git"),
            ("package", "log"),
            ("version", "0.4"),
            ("tag", "v0.4.20"),
        ]
    );
}

#[test]
fn git_patch_commit_is_rev() {
    let patch = GitPatch::new("a/b".to_string(), None, None, GitInfo::Commit("abc".to_string()));
    let t = do_git_patch(&registry_lock(), &empty_manifest(), &"log".to_string(), patch).unwrap();
    assert_eq!(fields(&t), vec![("git", "https://github.com/a//b.git"), ("rev", "abc")]);
}

#[test]
fn malformed_repository_is_refused() {
    for repo in ["rust-lang", "a/b/c"] {
        let patch = GitPatch::new(repo.to_string(), None, None, GitInfo::Unspecified);
        assert!(matches!(check_git_patch_format(&patch), Err(PatchError::InvalidRepository(_))));
        let patch = GitPatch::new(repo.to_string(), None, None, GitInfo::Unspecified);
        match do_git_patch(&registry_lock(), &empty_manifest(), &"log".to_string(), patch) {
            Err(PatchError::InvalidRepository(r)) => assert_eq!(r, repo),
            other => panic!("unexpected {:?}", other),
        }
    }
}

#[test]
fn repository_is_split_at_its_slash() {
    assert_eq!(split_repository("rust-lang/log"), Some(("rust-lang".to_string(), "log".to_string())));
    assert_eq!(split_repository("a/"), Some(("a".to_string(), "".to_string())));
    assert_eq!(split_repository("a/b/c"), None);
    assert_eq!(split_repository(""), None);
}

#[test]
fn prefix_test() {
    assert!(starts_with("git+https://x", "git+"));
    assert!(!starts_with("gi", "git+"));
    assert!(!starts_with("registry+x", "git+"));
}

#[test]
fn registry_patch_has_only_version() {
    let t = do_index_patch(
        &registry_lock(),
        &empty_manifest(),
        &"log".to_string(),
        &IndexPatch::new(None, "1.2.3".to_string()),
    )
    .unwrap();
    assert_eq!(t.group, "crates-io");
    assert_eq!(t.package, "log");
    assert_eq!(fields(&t), vec![("version", "1.2.3")]);
}

#[test]
fn registry_patch_renders_as_toml() {
    let t = do_index_patch(
        &registry_lock(),
        &empty_manifest(),
        &"log".to_string(),
        &IndexPatch::new(None, "1.2.3".to_string()),
    )
    .unwrap();
    assert_eq!(t.to_toml(), "[patch.crates-io.log]\nversion = \"1.2.3\"\n");
}

#[test]
fn path_patch_uses_origin_group() {
    let url = "https://github.com/rust-lang/log";
    let lock = vec![locked("log", Some("git+https://github.com/rust-lang/log#deadbeef"))];
    let t = do_path_patch(
        &lock,
        &empty_manifest(),
        &"log".to_string(),
        &PathPatch::new(None, "../local/log".to_string()),
    )
    .unwrap();
    assert_eq!(t.group, url);
    assert_eq!(fields(&t), vec![("path", "../local/log")]);
}

#[test]
fn path_dependency_cannot_be_patched() {
    let lock = vec![locked("log", None)];
    let r = do_index_patch(&lock, &empty_manifest(), &"log".to_string(), &IndexPatch::new(None, "1".to_string()));
    assert!(matches!(r, Err(PatchError::PathNotPatchable)));
}

#[test]
fn renamed_package_is_looked_up_by_real_name() {
    let lock = registry_lock();
    let g = gen_patch_table(&lock, &empty_manifest(), &"logging".to_string(), &"log".to_string()).unwrap();
    assert_eq!(g, "crates-io");
    let r = gen_patch_table(&lock, &empty_manifest(), &"logging".to_string(), &"logging".to_string());
    assert!(matches!(r, Err(PatchError::PackageNotFound(_))));
}

#[test]
fn second_patch_is_refused() {
    let lock = registry_lock();
    let mut manifest = empty_manifest();
    let mut a = args("registry");
    a.package_version = Some("1.2.3".to_string());
    let t = patch(a.clone(), &lock, &manifest).unwrap();
    manifest.record(&t.group, &t.package);
    match patch(a, &lock, &manifest) {
        Err(PatchError::AlreadyPatched(n)) => assert_eq!(n, "log"),
        other => panic!("unexpected {:?}", other),
    }
}

#[test]
fn second_git_patch_is_refused() {
    let lock = vec![locked("log", Some("git+https://github.com/rust-lang/log?rev=1#1"))];
    let mut manifest = empty_manifest();
    let mut a = args("git");
    a.git_repo = Some("me/log".to_string());
    a.branch = Some("dev".to_string());
    let t = patch(a.clone(), &lock, &manifest).unwrap();
    assert_eq!(t.group, "https://github.com/rust-lang/log");
    assert_eq!(fields(&t), vec![("git", "https://github.com/me//log.git"), ("branch", "dev")]);
    manifest.record(&t.group, &t.package);
    assert!(matches!(patch(a, &lock, &manifest), Err(PatchError::AlreadyPatched(_))));
}

#[test]
fn path_request_is_not_routed() {
    let mut a = args("path");
    a.patch_path = Some("../local/log".to_string());
    assert!(parse_args(a.clone()).is_ok());
    match patch(a, &registry_lock(), &empty_manifest()) {
        Err(PatchError::UnsupportedPatchType(k)) => assert_eq!(k, "path"),
        other => panic!("unexpected {:?}", other),
    }
}

#[test]
fn argument_errors() {
    assert!(matches!(parse_args(args("git")), Err(PatchError::MissingGitRepo)));
    let mut a = args("git");
    a.git_repo = Some("a/b".to_string());
    a.commit = Some("c".to_string());
    a.tag = Some("t".to_string());
    assert!(matches!(parse_args(a), Err(PatchError::ConflictingGitRefs)));
    assert!(matches!(parse_args(args("path")), Err(PatchError::MissingPath)));
    assert!(matches!(parse_args(args("registry")), Err(PatchError::MissingVersion)));
    match parse_args(args("svn")) {
        Err(PatchError::UnsupportedPatchType(k)) => assert_eq!(k, "svn"),
        other => panic!("unexpected {:?}", other),
    }
    let mut a = args("git");
    a.git_repo = Some("a/b".to_string());
    a.branch = Some("main".to_string());
    assert_eq!(parse_args(a).unwrap().branch.as_deref(), Some("main"));
}

#[test]
fn invalid_request_is_refused_before_lookup() {
    let r = patch(args("registry"), &Vec::new(), &empty_manifest());
    assert!(matches!(r, Err(PatchError::MissingVersion)));
}

#[test]
fn git_group_key_is_quoted_in_toml() {
    let lock = vec![locked("log", Some("git+https://github.com/rust-lang/log#1"))];
    let patch = GitPatch::new("me/log".to_string(), None, None, GitInfo::Unspecified);
    let t = do_git_patch(&lock, &empty_manifest(), &"log".to_string(), patch).unwrap();
    assert_eq!(
        t.to_toml(),
        "[patch.\"https://github.com/rust-lang/log\".log]\ngit = \"https://github.com/me//log.git\"\n"
    );
}
