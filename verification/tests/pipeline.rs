//! End-to-end checks of the resolve and fetch pipeline against concrete
//! index answers and materialization reports.

use package_fetcher::FetchError;
use package_fetcher::FetchOutcome;
use package_fetcher::IndexEntry;
use package_fetcher::MaterializeResult;
use package_fetcher::Package;
use package_fetcher::PackageFetcher;
use package_fetcher::PackageSource;
use package_fetcher::QueryOutcome;
use package_fetcher::Verbosity;
use package_fetcher::Version;

fn entry(name: &str, major: u64, minor: u64, patch: u64, yanked: bool) -> IndexEntry {
    IndexEntry { name: name.to_string(), version: Version::new(major, minor, patch), yanked }
}

fn serde_index() -> Vec<IndexEntry> {
    vec![
        entry("serde", 1, 0, 0, false),
        entry("serde", 1, 0, 1, false),
        entry("serde", 0, 9, 0, false),
        entry("other", 2, 0, 0, false),
    ]
}

fn pkg(name: &str, major: u64, minor: u64, patch: u64, source: &PackageSource) -> Package {
    Package::new(name.to_string(), Version::new(major, minor, patch), source).unwrap()
}

#[test]
fn resolve_lists_every_matching_version() {
    let fetcher = PackageFetcher::new();
    let source = PackageSource::crates_io();
    let found = fetcher
        .resolve_package("serde", None, &source, None, QueryOutcome::Matches(serde_index()))
        .unwrap();
    assert_eq!(found.len(), 3);
    assert!(found.iter().all(|p| p.name() == "serde"));
    assert!(found[0].version().same(&Version::new(1, 0, 0)));
    assert!(found[1].version().same(&Version::new(1, 0, 1)));
    assert!(found[2].version().same(&Version::new(0, 9, 0)));
}

#[test]
fn resolve_with_exact_version_is_a_subset_of_unconstrained() {
    let fetcher = PackageFetcher::new();
    let source = PackageSource::crates_io();
    let all = fetcher
        .resolve_package("serde", None, &source, None, QueryOutcome::Matches(serde_index()))
        .unwrap();
    let wanted = Version::new(1, 0, 1);
    let exact = fetcher
        .resolve_package(
            "serde",
            Some(&wanted),
            &source,
            None,
            QueryOutcome::Matches(serde_index()),
        )
        .unwrap();
    assert_eq!(exact.len(), 1);
    for picked in &exact {
        assert!(all.iter().any(|p| p.same(picked)));
    }
}

#[test]
fn resolve_first_picks_a_member_of_the_answer() {
    let fetcher = PackageFetcher::new();
    let source = PackageSource::crates_io();
    let all = fetcher
        .resolve_package("serde", None, &source, None, QueryOutcome::Matches(serde_index()))
        .unwrap();
    let first = fetcher
        .resolve_first("serde", None, &source, None, QueryOutcome::Matches(serde_index()))
        .unwrap();
    assert!(all.iter().any(|p| p.same(&first)));
    let versions = [Version::new(1, 0, 0), Version::new(1, 0, 1), Version::new(0, 9, 0)];
    assert!(versions.iter().any(|v| first.version().same(v)));
}

#[test]
fn resolve_first_with_no_match_reports_not_found() {
    let fetcher = PackageFetcher::new();
    let source = PackageSource::crates_io();
    let missing = fetcher.resolve_first(
        "no-such-package",
        None,
        &source,
        None,
        QueryOutcome::Matches(serde_index()),
    );
    assert!(matches!(missing, Err(FetchError::PackageNotFound)));
}

#[test]
fn resolve_with_no_match_is_empty_not_an_error() {
    let fetcher = PackageFetcher::new();
    let source = PackageSource::crates_io();
    let found = fetcher
        .resolve_package(
            "no-such-package",
            None,
            &source,
            None,
            QueryOutcome::Matches(serde_index()),
        )
        .unwrap();
    assert!(found.is_empty());
}

#[test]
fn yanked_versions_are_excluded_without_a_whitelist() {
    let fetcher = PackageFetcher::new();
    let source = PackageSource::crates_io();
    let answer = vec![entry("serde", 1, 0, 0, true), entry("serde", 1, 0, 1, false)];
    let found = fetcher
        .resolve_package("serde", None, &source, None, QueryOutcome::Matches(answer))
        .unwrap();
    assert_eq!(found.len(), 1);
    assert!(found[0].version().same(&Version::new(1, 0, 1)));
}

#[test]
fn whitelisted_yanked_versions_are_still_returned() {
    let fetcher = PackageFetcher::new();
    let source = PackageSource::crates_io();
    let whitelist = vec![pkg("serde", 1, 0, 0, &source)];
    let answer = vec![entry("serde", 1, 0, 0, true), entry("serde", 1, 0, 1, false)];
    let found = fetcher
        .resolve_package("serde", None, &source, Some(&whitelist), QueryOutcome::Matches(answer))
        .unwrap();
    assert_eq!(found.len(), 2);
    assert!(found[0].version().same(&Version::new(1, 0, 0)));
}

#[test]
fn readiness_protocol_violation_is_fatal() {
    let fetcher = PackageFetcher::new();
    let source = PackageSource::crates_io();
    let broken = fetcher.resolve_package("serde", None, &source, None, QueryOutcome::NotReady);
    assert!(matches!(broken, Err(FetchError::IndexProtocolViolation)));
}

#[test]
fn lock_failure_surfaces_as_lock_acquisition_error() {
    let fetcher = PackageFetcher::new();
    let source = PackageSource::crates_io();
    let held = fetcher.resolve_package(
        "serde",
        None,
        &source,
        None,
        QueryOutcome::LockFailed("cache lock held elsewhere".to_string()),
    );
    match held {
        Err(FetchError::LockAcquisitionFailed(m)) => {
            assert_eq!(m, "cache lock held elsewhere");
        }
        other => panic!("expected a lock failure, got {:?}", other),
    }
}

#[test]
fn query_failure_surfaces_as_source_load_error() {
    let fetcher = PackageFetcher::new();
    let source = PackageSource::crates_io();
    let failed = fetcher.resolve_package(
        "serde",
        None,
        &source,
        None,
        QueryOutcome::QueryFailed("index unreachable".to_string()),
    );
    assert!(matches!(failed, Err(FetchError::SourceLoadFailed(_))));
}

#[test]
fn fetch_many_of_nothing_is_empty_not_an_error() {
    let fetcher = PackageFetcher::new();
    let roots = fetcher
        .fetch_many(&Vec::new(), FetchOutcome::Materialized(Vec::new()))
        .unwrap();
    assert!(roots.is_empty());
}

#[test]
fn fetch_many_coalesces_repeated_identities() {
    let fetcher = PackageFetcher::new();
    let source = PackageSource::path("/work/pkgs/demo".to_string()).unwrap();
    let p = pkg("demo", 1, 0, 0, &source);
    let twice = vec![p.clone(), p.clone()];
    let roots = fetcher
        .fetch_many(
            &twice,
            FetchOutcome::Materialized(vec![MaterializeResult::Root(
                "/work/pkgs/demo".to_string(),
            )]),
        )
        .unwrap();
    assert_eq!(roots.len(), 1);
    assert_eq!(roots[0], "/work/pkgs/demo");
}

#[test]
fn fetch_many_is_all_or_nothing() {
    let fetcher = PackageFetcher::new();
    let source = PackageSource::crates_io();
    let batch = vec![pkg("serde", 1, 0, 0, &source), pkg("rand", 0, 8, 5, &source)];
    let partial = fetcher.fetch_many(
        &batch,
        FetchOutcome::Materialized(vec![
            MaterializeResult::Root("/cache/serde-1.0.0".to_string()),
            MaterializeResult::Failed("archive corrupt".to_string()),
        ]),
    );
    match partial {
        Err(FetchError::MaterializationFailed(m)) => assert_eq!(m, "archive corrupt"),
        other => panic!("expected a materialization failure, got {:?}", other),
    }
}

#[test]
fn fetch_many_refuses_a_miscounted_report() {
    let fetcher = PackageFetcher::new();
    let source = PackageSource::crates_io();
    let batch = vec![pkg("serde", 1, 0, 0, &source)];
    let short = fetcher.fetch_many(&batch, FetchOutcome::Materialized(Vec::new()));
    assert!(matches!(short, Err(FetchError::PackageSetConstructionFailed(_))));
}

#[test]
fn fetch_returns_the_single_root() {
    let fetcher = PackageFetcher::new();
    let source = PackageSource::crates_io();
    let p = pkg("serde", 1, 0, 0, &source);
    let root = fetcher
        .fetch(
            &p,
            FetchOutcome::Materialized(vec![MaterializeResult::Root(
                "/cache/serde-1.0.0".to_string(),
            )]),
        )
        .unwrap();
    assert_eq!(root, "/cache/serde-1.0.0");
}

#[test]
fn fetch_from_a_missing_path_source_fails_cleanly() {
    let fetcher = PackageFetcher::new();
    let source = PackageSource::path("/work/pkgs/not-there".to_string()).unwrap();
    let p = pkg("ghost", 1, 0, 0, &source);
    let gone = fetcher.fetch(
        &p,
        FetchOutcome::LoadFailed("no such directory: /work/pkgs/not-there".to_string()),
    );
    assert!(matches!(gone, Err(FetchError::SourceLoadFailed(_))));
}

#[test]
fn fetch_lock_failure_aborts_the_batch() {
    let fetcher = PackageFetcher::new();
    let source = PackageSource::crates_io();
    let batch = vec![pkg("serde", 1, 0, 0, &source)];
    let held = fetcher.fetch_many(
        &batch,
        FetchOutcome::LockFailed("cache lock held elsewhere".to_string()),
    );
    assert!(matches!(held, Err(FetchError::LockAcquisitionFailed(_))));
}

#[test]
fn context_defaults_to_verbose_output() {
    assert_eq!(PackageFetcher::new().verbosity, Verbosity::Verbose);
    assert_eq!(Verbosity::default(), Verbosity::Verbose);
    assert_eq!(PackageFetcher::with_out(None).verbosity, Verbosity::Verbose);
    assert_eq!(PackageFetcher::with_out(Some(Verbosity::Quiet)).verbosity, Verbosity::Quiet);
}

#[test]
fn resolve_load_failure_surfaces_as_source_load_error() {
    let fetcher = PackageFetcher::new();
    let source = PackageSource::remote("https://registry.example.com/index".to_string()).unwrap();
    let down = fetcher.resolve_package(
        "serde",
        None,
        &source,
        None,
        QueryOutcome::LoadFailed("registry unreachable".to_string()),
    );
    match down {
        Err(FetchError::SourceLoadFailed(m)) => assert_eq!(m, "registry unreachable"),
        other => panic!("expected a source load failure, got {:?}", other),
    }
}

#[test]
fn fetch_assembly_failure_surfaces_as_construction_error() {
    let fetcher = PackageFetcher::new();
    let source = PackageSource::crates_io();
    let batch = vec![pkg("serde", 1, 0, 0, &source)];
    let broken = fetcher.fetch_many(
        &batch,
        FetchOutcome::AssemblyFailed("inconsistent package set".to_string()),
    );
    assert!(matches!(broken, Err(FetchError::PackageSetConstructionFailed(_))));
}

#[test]
fn fetch_refuses_a_miscounted_report() {
    let fetcher = PackageFetcher::new();
    let source = PackageSource::crates_io();
    let p = pkg("serde", 1, 0, 0, &source);
    let doubled = fetcher.fetch(
        &p,
        FetchOutcome::Materialized(vec![
            MaterializeResult::Root("/cache/a".to_string()),
            MaterializeResult::Root("/cache/b".to_string()),
        ]),
    );
    assert!(matches!(doubled, Err(FetchError::PackageSetConstructionFailed(_))));
}

#[test]
fn fetch_many_keeps_first_request_order() {
    let fetcher = PackageFetcher::new();
    let source = PackageSource::crates_io();
    let a = pkg("serde", 1, 0, 0, &source);
    let b = pkg("rand", 0, 8, 5, &source);
    let batch = vec![a.clone(), b.clone(), a.clone()];
    let roots = fetcher
        .fetch_many(
            &batch,
            FetchOutcome::Materialized(vec![
                MaterializeResult::Root("/cache/serde-1.0.0".to_string()),
                MaterializeResult::Root("/cache/rand-0.8.5".to_string()),
            ]),
        )
        .unwrap();
    assert_eq!(roots, vec!["/cache/serde-1.0.0".to_string(), "/cache/rand-0.8.5".to_string()]);
}
