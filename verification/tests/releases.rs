//! Choosing the releases to search.
use cargo_msrv::releases::{filter_releases, include_version};
use cargo_msrv::version::Version;

fn v(minor: u64, patch: u64) -> Version {
    Version::new(1, minor, patch)
}

#[test]
fn test_included_versions() {
    let current = v(50, 0);
    let cases: [(Option<u64>, Option<u64>); 5] = [
        (None, None),         // -inf <= x <= inf
        (Some(50), None),     // 1.50.0 <= x <= inf
        (None, Some(50)),     // -inf <= x <= 1.50.0
        (Some(50), Some(50)), // 1.50.0 <= x <= 1.50.0
        (Some(49), Some(50)), // 1.49.0 <= x <= 1.50.0
    ];
    for (min, max) in cases {
        let min_version = min.map(|m| v(m, 0));
        let max_version = max.map(|m| v(m, 0));
        assert!(include_version(&current, min_version.as_ref(), max_version.as_ref()));
    }
}

#[test]
fn test_excluded_versions() {
    let current = v(50, 0);
    let cases: [(Option<u64>, Option<u64>); 4] = [
        (None, Some(49)),     // -inf <= x <= 1.49.0 : false
        (Some(51), None),     // 1.51 <= x <= inf    : false
        (Some(51), Some(52)), // 1.51 <= x <= 1.52.0 : false
        (Some(48), Some(49)), // 1.48 <= x <= 1.49.0 : false
    ];
    for (min, max) in cases {
        let min_version = min.map(|m| v(m, 0));
        let max_version = max.map(|m| v(m, 0));
        assert!(!include_version(&current, min_version.as_ref(), max_version.as_ref()));
    }
}

#[test]
fn latest_patch_of_each_minor() {
    let releases = [v(40, 2), v(40, 1), v(40, 0), v(39, 0), v(38, 1), v(38, 0)];
    assert_eq!(filter_releases(&releases, false, None, None), vec![v(40, 2), v(39, 0), v(38, 1)]);
    assert_eq!(filter_releases(&releases, true, None, None), releases.to_vec());
}

#[test]
fn bounds_apply_after_patch_selection() {
    let releases = [v(40, 2), v(40, 1), v(40, 0), v(39, 0), v(38, 1), v(38, 0)];
    assert_eq!(
        filter_releases(&releases, false, Some(v(38, 1)), Some(v(40, 0))),
        vec![v(39, 0), v(38, 1)]
    );
    assert_eq!(
        filter_releases(&releases, true, Some(v(38, 1)), Some(v(40, 0))),
        vec![v(40, 0), v(39, 0), v(38, 1)]
    );
    assert_eq!(filter_releases(&releases, true, Some(v(41, 0)), None), vec![]);
}
