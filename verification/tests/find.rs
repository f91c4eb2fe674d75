//! Finding the MSRV over a release index, with a runner that accepts a fixed set of versions.
use cargo_msrv::error::CargoMSRVError;
use cargo_msrv::search_methods::SearchAction;
use cargo_msrv::sub_command::find::{
    find_with_runner, min_max_releases, no_toolchains_to_try, run_with_search_method,
    search_space, FindContext, SearchMethod,
};
use cargo_msrv::testing::TestRunner;
use cargo_msrv::version::{BareVersion, Version};

fn create_test_context() -> FindContext {
    FindContext {
        search_method: SearchMethod::Bisect,
        write_toolchain_file: false,
        write_msrv: false,
        consider_patch_releases: false,
        minimum_rust_version: None,
        maximum_rust_version: None,
        target: "x".to_string(),
        check_command: "cargo check".to_string(),
    }
}

fn minors(from: u64, to: u64) -> Vec<Version> {
    (to..=from).rev().map(|m| Version::new(1, m, 0)).collect()
}

/// The releases a search checks, in order, with `runner` deciding each check.
fn checked_versions(ctx: &FindContext, index: &[Version], runner: &TestRunner) -> Vec<Version> {
    let space = search_space(ctx, index);
    let mut searcher = run_with_search_method(ctx, &space, &[]).unwrap();
    let mut checked = Vec::new();
    loop {
        match searcher.next_action() {
            SearchAction::Check(i) => {
                checked.push(space[i]);
                searcher.record(runner.check(&space[i]));
            }
            SearchAction::Finished(_) => return checked,
        }
    }
}

#[test]
fn tests_bisect_find_only_last() {
    let index = minors(56, 37);
    let runner = TestRunner::with_ok(&[Version::new(1, 56, 0)]);
    let mut ctx = create_test_context();
    ctx.search_method = SearchMethod::Bisect;

    assert_eq!(
        checked_versions(&ctx, &index, &runner),
        vec![
            Version::new(1, 47, 0),
            Version::new(1, 52, 0),
            Version::new(1, 54, 0),
            Version::new(1, 55, 0),
            Version::new(1, 56, 0),
        ]
    );

    let (report, found) = find_with_runner(&ctx, &index, &runner);
    assert_eq!(found.unwrap().version, Version::new(1, 56, 0));

    let report = report.unwrap();
    assert_eq!(report.msrv, Some(Version::new(1, 56, 0)));
    assert_eq!(report.target, "x");
    assert_eq!(report.minimum_version, BareVersion::ThreeComponents(1, 37, 0));
    assert_eq!(report.maximum_version, BareVersion::ThreeComponents(1, 56, 0));
    assert_eq!(report.search_method, SearchMethod::Bisect);
}

#[test]
fn tests_bisect_find_all_compatible() {
    let index = minors(56, 52);
    let runner = TestRunner::with_ok(&index);
    let mut ctx = create_test_context();
    ctx.search_method = SearchMethod::Bisect;

    assert_eq!(
        checked_versions(&ctx, &index, &runner),
        vec![Version::new(1, 54, 0), Version::new(1, 53, 0), Version::new(1, 52, 0)]
    );

    let (report, found) = find_with_runner(&ctx, &index, &runner);
    assert_eq!(found.unwrap().version, Version::new(1, 52, 0));

    let report = report.unwrap();
    assert_eq!(report.msrv, Some(Version::new(1, 52, 0)));
    assert_eq!(report.minimum_version, BareVersion::ThreeComponents(1, 52, 0));
    assert_eq!(report.maximum_version, BareVersion::ThreeComponents(1, 56, 0));
}

#[test]
fn tests_bisect_none_compatible() {
    let index = minors(56, 52);
    let runner = TestRunner::with_ok(&[]);
    let mut ctx = create_test_context();
    ctx.search_method = SearchMethod::Bisect;

    assert_eq!(
        checked_versions(&ctx, &index, &runner),
        vec![Version::new(1, 54, 0), Version::new(1, 55, 0), Version::new(1, 56, 0)]
    );

    let (report, found) = find_with_runner(&ctx, &index, &runner);
    assert!(found.is_err());
    assert!(matches!(
        found,
        Err(CargoMSRVError::UnableToFindAnyGoodVersion { ref command }) if command == "cargo check"
    ));

    let report = report.unwrap();
    assert_eq!(report.msrv, None);
    assert_eq!(report.minimum_version, BareVersion::ThreeComponents(1, 52, 0));
    assert_eq!(report.maximum_version, BareVersion::ThreeComponents(1, 56, 0));
}

fn issue_369_releases() -> Vec<Version> {
    vec![
        Version::new(1, 46, 0),
        Version::new(1, 55, 0),
        Version::new(1, 56, 0),
        Version::new(1, 57, 0),
        Version::new(1, 58, 1),
        Version::new(1, 59, 0),
    ]
}

fn check_min_more_recent_than_max(method: SearchMethod) {
    let index = issue_369_releases();
    let runner = TestRunner::with_ok(&[]);
    let mut ctx = create_test_context();

    // Create a negative search space, by setting min > max, effectively emptying it.
    ctx.minimum_rust_version = Some(BareVersion::TwoComponents(1, 56));
    ctx.maximum_rust_version = Some(BareVersion::ThreeComponents(1, 54, 0));
    ctx.search_method = method;

    let (report, found) = find_with_runner(&ctx, &index, &runner);
    let err = match found {
        Err(CargoMSRVError::NoToolchainsToTry(inner)) => inner,
        _ => panic!("expected an empty search space"),
    };
    assert!(err.has_clues());
    assert_eq!(
        "No Rust releases to check: the filtered search space is empty. Search space limited by user to min Rust '1.56', and max Rust '1.54.0'",
        err.message()
    );

    // Nothing is reported of a search that never started.
    assert!(report.is_none());
}

#[test]
fn bisect() {
    check_min_more_recent_than_max(SearchMethod::Bisect);
}

#[test]
fn linear() {
    check_min_more_recent_than_max(SearchMethod::Linear);
}

#[test]
fn linear_find_oldest_before_failure() {
    let index = minors(56, 50);
    let runner = TestRunner::with_ok(&minors(56, 53));
    let mut ctx = create_test_context();
    ctx.search_method = SearchMethod::Linear;
    ctx.write_msrv = true;
    ctx.write_toolchain_file = true;

    let (report, found) = find_with_runner(&ctx, &index, &runner);
    let outcome = found.unwrap();
    assert_eq!(outcome.version, Version::new(1, 53, 0));
    assert!(outcome.write_toolchain_file);
    assert_eq!(outcome.msrv_to_write, Some(BareVersion::TwoComponents(1, 53)));
    assert_eq!(report.unwrap().search_method, SearchMethod::Linear);
}

#[test]
fn user_limits_are_reported() {
    let index = minors(60, 40);
    let runner = TestRunner::with_ok(&minors(60, 45));
    let mut ctx = create_test_context();
    ctx.minimum_rust_version = Some(BareVersion::TwoComponents(1, 42));
    ctx.maximum_rust_version = Some(BareVersion::ThreeComponents(1, 55, 0));

    let (report, found) = find_with_runner(&ctx, &index, &runner);
    assert_eq!(found.unwrap().version, Version::new(1, 45, 0));
    let report = report.unwrap();
    assert_eq!(report.minimum_version, BareVersion::TwoComponents(1, 42));
    assert_eq!(report.maximum_version, BareVersion::ThreeComponents(1, 55, 0));
}

#[test]
fn min_max_of_empty_release_set() {
    assert!(matches!(
        min_max_releases(&[]),
        Err(CargoMSRVError::RustReleasesEmptyReleaseSet)
    ));
    let (min, max) = min_max_releases(&minors(56, 50)).unwrap();
    assert_eq!(min, BareVersion::ThreeComponents(1, 50, 0));
    assert_eq!(max, BareVersion::ThreeComponents(1, 56, 0));
}

#[test]
fn no_toolchains_without_limits_has_no_clues() {
    let ctx = create_test_context();
    let err = no_toolchains_to_try(&ctx, &[]);
    assert!(!err.has_clues());
    assert_eq!(err.message(), "No Rust releases to check: the filtered search space is empty.");

    let err = no_toolchains_to_try(&ctx, &[Version::new(1, 50, 0)]);
    assert!(err.has_clues());
    assert_eq!(err.target.as_deref(), Some("x"));
    assert_eq!(err.unavailable, vec![Version::new(1, 50, 0)]);
}

#[test]
fn no_toolchains_single_limits() {
    let mut ctx = create_test_context();
    ctx.minimum_rust_version = Some(BareVersion::TwoComponents(1, 60));
    assert_eq!(
        no_toolchains_to_try(&ctx, &[]).message(),
        "No Rust releases to check: the filtered search space is empty. Search space limited by user to min Rust '1.60'"
    );
    ctx.minimum_rust_version = None;
    ctx.maximum_rust_version = Some(BareVersion::ThreeComponents(1, 2, 3));
    assert_eq!(
        no_toolchains_to_try(&ctx, &[]).message(),
        "No Rust releases to check: the filtered search space is empty. Search space limited by user to max Rust '1.2.3'"
    );
}
