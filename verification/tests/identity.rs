//! Checks of package identities, source descriptors and their canonical
//! source identities on concrete values.

use package_fetcher::FetchError;
use package_fetcher::GitReference;
use package_fetcher::Package;
use package_fetcher::PackageSource;
use package_fetcher::Version;

#[test]
fn package_from_text_round_trips_name_and_version() {
    let source = PackageSource::crates_io();
    let p = Package::from_str_ver(
        "serde".to_string(),
        "1.2.3-alpha.1+build5".to_string(),
        &source,
    )
    .unwrap();
    assert_eq!(p.name(), "serde");
    let v = p.version();
    assert_eq!(v.major, 1);
    assert_eq!(v.minor, 2);
    assert_eq!(v.patch, 3);
    assert_eq!(v.pre, "alpha.1");
    assert_eq!(v.build, "build5");
}

#[test]
fn plain_version_text_parses_without_extras() {
    let source = PackageSource::crates_io();
    let p = Package::from_str_ver("serde".to_string(), "1.0.0".to_string(), &source).unwrap();
    assert!(p.version().same(&Version::new(1, 0, 0)));
    assert_eq!(p.version().pre, "");
    assert_eq!(p.version().build, "");
}

#[test]
fn malformed_version_text_is_rejected() {
    let source = PackageSource::crates_io();
    for bad in ["not-a-version", "1.0", "1.0.01", "1.0.0-", ""] {
        let r = Package::from_str_ver("serde".to_string(), bad.to_string(), &source);
        assert!(matches!(r, Err(FetchError::InvalidVersion(_))), "accepted {:?}", bad);
    }
}

#[test]
fn empty_package_name_is_rejected() {
    let source = PackageSource::crates_io();
    let r = Package::new(String::new(), Version::new(1, 0, 0), &source);
    assert!(matches!(r, Err(FetchError::InvalidPackageSpec)));
}

#[test]
fn relative_path_descriptor_is_rejected() {
    assert!(matches!(
        PackageSource::path("relative/dir".to_string()),
        Err(FetchError::InvalidPath)
    ));
    assert!(matches!(
        PackageSource::path_at("also/relative".to_string(), "dir".to_string()),
        Err(FetchError::InvalidPath)
    ));
}

#[test]
fn path_representation_does_not_change_identity() {
    let spelled = PackageSource::path("/work/./pkgs//demo/".to_string()).unwrap();
    let plain = PackageSource::path("/work/pkgs/demo".to_string()).unwrap();
    assert!(spelled.canonical_id().same(&plain.canonical_id()));

    let joined = PackageSource::path_at("/work".to_string(), "./pkgs/demo".to_string()).unwrap();
    assert!(joined.canonical_id().same(&plain.canonical_id()));

    let different = PackageSource::path("/work/pkgs/other".to_string()).unwrap();
    assert!(!different.canonical_id().same(&plain.canonical_id()));
}

#[test]
fn url_representation_does_not_change_identity() {
    let bare = PackageSource::remote("https://example.com".to_string()).unwrap();
    let slashed = PackageSource::remote("https://example.com/".to_string()).unwrap();
    assert!(bare.canonical_id().same(&slashed.canonical_id()));

    let other = PackageSource::remote("https://example.org/".to_string()).unwrap();
    assert!(!other.canonical_id().same(&bare.canonical_id()));
}

#[test]
fn malformed_url_is_rejected() {
    assert!(matches!(
        PackageSource::remote("not a url".to_string()),
        Err(FetchError::InvalidUrl(_))
    ));
    assert!(matches!(
        PackageSource::git("::nowhere::".to_string(), None),
        Err(FetchError::InvalidUrl(_))
    ));
}

#[test]
fn git_descriptor_defaults_to_the_default_branch() {
    let plain = PackageSource::git("https://example.com/repo.git".to_string(), None).unwrap();
    match &plain {
        PackageSource::Git { git_ref, .. } => {
            assert!(matches!(git_ref, GitReference::DefaultBranch));
        }
        other => panic!("expected a git source, got {:?}", other),
    }

    let tagged = PackageSource::git(
        "https://example.com/repo.git".to_string(),
        Some(GitReference::Tag("v1.0.0".to_string())),
    )
    .unwrap();
    assert!(!tagged.canonical_id().same(&plain.canonical_id()));
}

#[test]
fn same_name_and_version_from_different_registries_differ() {
    let default_registry = PackageSource::crates_io();
    let custom =
        PackageSource::remote("https://registry.example.com/index".to_string()).unwrap();
    let from_default = Package::from_str_ver(
        "serde".to_string(),
        "1.0.0".to_string(),
        &default_registry,
    )
    .unwrap();
    let from_custom =
        Package::from_str_ver("serde".to_string(), "1.0.0".to_string(), &custom).unwrap();
    assert!(!from_default.same(&from_custom));
    assert_eq!(from_default.name(), from_custom.name());
    assert!(from_default.version().same(from_custom.version()));
}

#[test]
fn the_default_registry_is_the_fixed_wellknown_index() {
    let fixed = PackageSource::remote(
        "https://github.com/rust-lang/crates.io-index".to_string(),
    )
    .unwrap();
    assert!(PackageSource::crates_io().canonical_id().same(&fixed.canonical_id()));
}

#[test]
fn local_registry_paths_are_canonicalized() {
    let spelled = PackageSource::local("/mirror/./registry".to_string());
    let plain = PackageSource::local("/mirror/registry".to_string());
    assert!(spelled.canonical_id().same(&plain.canonical_id()));
}
