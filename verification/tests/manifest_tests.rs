use iris_dev_core::manifest::resolve::{
    dep_to_source, resolve_version_for_test, DependencySpec, PackageLock, Resolve, ResolveError,
    ResolveLock, ResolvedPackage, ResolvedSource,
};

fn dep(version: &str) -> DependencySpec {
    DependencySpec { version: version.to_string(), github: None, git: None, repository: None, openexchange: None }
}

#[test]
fn github_source_needs_owner_and_repo() {
    let mut d = dep("^1");
    d.github = Some("intersystems/iris-dev".to_string());
    match dep_to_source("x", &d) {
        Ok(ResolvedSource::GitHub { owner, repo }) => {
            assert_eq!(owner, "intersystems");
            assert_eq!(repo, "iris-dev");
        }
        _ => panic!("expected GitHub"),
    }
    d.github = Some("noslash".to_string());
    d.git = Some("https://git/x".to_string());
    assert!(matches!(dep_to_source("x", &d), Ok(ResolvedSource::Git(u)) if u == "https://git/x"));
    let none = dep("^1");
    match dep_to_source("pkg", &none) {
        Err(e) => assert_eq!(
            e.message(),
            "dependency 'pkg' has no source (git, github, repository, or openexchange)"
        ),
        Ok(_) => panic!("expected an error"),
    }
}

#[test]
fn empty_manifest_resolves_to_nothing() {
    let r = Resolve::from_manifest(&vec![]).ok().unwrap();
    assert_eq!(r.packages.len(), 0);
}

#[test]
fn invalid_requirement_is_reported() {
    let deps = vec![("pkg".to_string(), dep("not a version"))];
    match Resolve::from_manifest(&deps) {
        Err(ResolveError::InvalidVersion { name, version, detail }) => {
            assert_eq!(name, "pkg");
            assert_eq!(version, "not a version");
            assert!(!detail.is_empty());
        }
        _ => panic!("expected InvalidVersion"),
    }
}

#[test]
fn resolution_is_not_available_yet() {
    let mut d = dep(">=1.2");
    d.openexchange = Some("zpm-pkg".to_string());
    let deps = vec![("pkg".to_string(), d)];
    match Resolve::from_manifest(&deps) {
        Err(e) => assert_eq!(
            e.message(),
            "version resolution not yet implemented for source OpenExchange(\"zpm-pkg\") (requirement: >=1.2)"
        ),
        Ok(_) => panic!("resolution must fail"),
    }
    let r = resolve_version_for_test("^1.0");
    match r {
        Err(e) => assert_eq!(
            e.message(),
            "version resolution not yet implemented for source GitHub { owner: \"test\", repo: \"test\" } (requirement: ^1.0)"
        ),
        Ok(_) => panic!("resolution must fail"),
    }
}

#[test]
fn missing_source_reported_after_valid_requirement() {
    let deps = vec![("lonely".to_string(), dep("1.0.0"))];
    assert!(matches!(Resolve::from_manifest(&deps), Err(ResolveError::NoSource { name }) if name == "lonely"));
}

#[test]
fn lock_records_repository_urls() {
    let r = Resolve {
        packages: vec![
            ResolvedPackage {
                name: "a".to_string(),
                version: "1.0.0".to_string(),
                source: ResolvedSource::GitHub { owner: "o".to_string(), repo: "r".to_string() },
            },
            ResolvedPackage {
                name: "b".to_string(),
                version: "2.0.0".to_string(),
                source: ResolvedSource::OpenExchange("pkg".to_string()),
            },
            ResolvedPackage {
                name: "c".to_string(),
                version: "3.0.0".to_string(),
                source: ResolvedSource::Local("/src/c".to_string()),
            },
        ],
    };
    let lock = r.to_lock();
    let repos: Vec<&str> = lock.packages.iter().map(|p| p.repository.as_str()).collect();
    assert_eq!(repos, vec!["https://github.com/o/r", "openexchange:pkg", "/src/c"]);
    assert!(lock.packages.iter().all(|p| p.checksum.is_none()));
}

#[test]
fn lock_toml_quotes_values() {
    let lock = ResolveLock {
        packages: vec![PackageLock {
            name: "we\"ird".to_string(),
            version: "1.0".to_string(),
            repository: "C:\\repo".to_string(),
            checksum: None,
        }],
    };
    assert_eq!(
        lock.to_toml(),
        "[metadata]\nformat-version = 1\n\n[[package]]\nname = \"we\\\"ird\"\nversion = \"1.0\"\nrepository = \"C:\\\\repo\"\n\n"
    );
    assert_eq!(ResolveLock { packages: vec![] }.to_toml(), "[metadata]\nformat-version = 1\n\n");
}
