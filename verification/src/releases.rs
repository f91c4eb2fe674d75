//! Choosing the releases to search: optionally only the latest patch release of each minor
//! version, and only those between the minimum and maximum the user asked for.
//!
//! Release lists are ordered from the most to the least recent.
use vstd::prelude::*;
use rust_releases::linear::LatestStableReleases;
use crate::version::{Version, copy_versions, version_le};

verus! {

/// The releases of `s` that are the first of a run of releases with the same minor version:
/// with `s` ordered from the most recent, the latest patch release of each minor version.
pub open spec fn latest_patches(s: Seq<Version>) -> Seq<Version>
    decreases s.len(),
{
    if s.len() == 0 {
        seq![]
    } else {
        let prev = latest_patches(s.drop_last());
        if s.len() == 1 || s.last().minor != s[s.len() - 2].minor {
            prev.push(s.last())
        } else {
            prev
        }
    }
}

/// `rust_releases`' `latest_stable_releases` over the given releases: it takes a release, then
/// skips the releases that directly follow it with the same minor version.
#[verifier::external_body]
fn latest_stable_releases(releases: &[Version]) -> (r: Vec<Version>)
    ensures
        r@ == latest_patches(releases@),
{
    releases.iter().map(
        |v| rust_releases::Release::new_stable(semver::Version::new(v.major, v.minor, v.patch)),
    ).latest_stable_releases().map(
        |r| Version { major: r.version().major, minor: r.version().minor, patch: r.version().patch },
    ).collect()
}

/// Whether `current` lies within the bounds that are given: at least `min` and at most `max`.
pub open spec fn spec_include_version(
    current: Version,
    min_version: Option<Version>,
    max_version: Option<Version>,
) -> bool {
    &&& (min_version matches Some(min) ==> version_le(min, current))
    &&& (max_version matches Some(max) ==> version_le(current, max))
}

/// Whether `current` lies within the bounds that are given: at least `min` and at most `max`.
pub fn include_version(
    current: &Version,
    min_version: Option<&Version>,
    max_version: Option<&Version>,
) -> (b: bool)
    ensures
        b == spec_include_version(
            *current,
            match min_version {
                Some(m) => Some(*m),
                None => None,
            },
            match max_version {
                Some(m) => Some(*m),
                None => None,
            },
        ),
{
    match (min_version, max_version) {
        (Some(min), Some(max)) => min.le(current) && current.le(max),
        (Some(min), None) => min.le(current),
        (None, Some(max)) => current.le(max),
        (None, None) => true,
    }
}

/// The releases of `s` within the bounds, in order.
pub open spec fn within_bounds(
    s: Seq<Version>,
    min_version: Option<Version>,
    max_version: Option<Version>,
) -> Seq<Version>
    decreases s.len(),
{
    if s.len() == 0 {
        seq![]
    } else {
        let prev = within_bounds(s.drop_last(), min_version, max_version);
        if spec_include_version(s.last(), min_version, max_version) {
            prev.push(s.last())
        } else {
            prev
        }
    }
}

/// The releases to search, from the most recent: all of them, or only the latest patch release
/// of each minor version; then only those within the given bounds.
pub open spec fn spec_filter_releases(
    releases: Seq<Version>,
    include_all_patch_releases: bool,
    min_version: Option<Version>,
    max_version: Option<Version>,
) -> Seq<Version> {
    let candidates = if include_all_patch_releases {
        releases
    } else {
        latest_patches(releases)
    };
    within_bounds(candidates, min_version, max_version)
}

fn keep_within_bounds(
    releases: &Vec<Version>,
    min_version: Option<Version>,
    max_version: Option<Version>,
) -> (r: Vec<Version>)
    ensures
        r@ == within_bounds(releases@, min_version, max_version),
{
    let mut r: Vec<Version> = Vec::new();
    let mut i: usize = 0;
    while i < releases.len()
        invariant
            0 <= i <= releases.len(),
            r@ == within_bounds(releases@.take(i as int), min_version, max_version),
        decreases releases.len() - i,
    {
        assert(releases@.take(i + 1).drop_last() =~= releases@.take(i as int));
        let included = include_version(&releases[i], min_version.as_ref(), max_version.as_ref());
        if included {
            r.push(releases[i]);
        }
        i = i + 1;
    }
    assert(releases@.take(releases.len() as int) =~= releases@);
    r
}

/// The releases to search, from the most recent: all of them, or only the latest patch release
/// of each minor version; then only those at least `min_version` and at most `max_version`.
pub fn filter_releases(
    releases: &[Version],
    include_all_patch_releases: bool,
    min_version: Option<Version>,
    max_version: Option<Version>,
) -> (r: Vec<Version>)
    ensures
        r@ == spec_filter_releases(
            releases@,
            include_all_patch_releases,
            min_version,
            max_version,
        ),
{
    let candidates = if include_all_patch_releases {
        copy_versions(releases)
    } else {
        latest_stable_releases(releases)
    };
    keep_within_bounds(&candidates, min_version, max_version)
}

proof fn lemma_within_bounds_shape(
    s: Seq<Version>,
    min_version: Option<Version>,
    max_version: Option<Version>,
)
    ensures
        forall|j: int|
            0 <= j < within_bounds(s, min_version, max_version).len() ==> spec_include_version(
                #[trigger] within_bounds(s, min_version, max_version)[j],
                min_version,
                max_version,
            ) && s.contains(within_bounds(s, min_version, max_version)[j]),
        forall|j: int|
            0 <= j < s.len() && spec_include_version(#[trigger] s[j], min_version, max_version)
                ==> within_bounds(s, min_version, max_version).contains(s[j]),
    decreases s.len(),
{
    if s.len() > 0 {
        let prev = s.drop_last();
        lemma_within_bounds_shape(prev, min_version, max_version);
        let w = within_bounds(s, min_version, max_version);
        let wp = within_bounds(prev, min_version, max_version);
        assert forall|j: int| 0 <= j < w.len() implies spec_include_version(
            #[trigger] w[j],
            min_version,
            max_version,
        ) && s.contains(w[j]) by {
            if j < wp.len() {
                assert(w[j] == wp[j]);
                let k = choose|k: int| 0 <= k < prev.len() && prev[k] == wp[j];
                assert(s[k] == prev[k]);
            } else {
                assert(w[j] == s.last());
                assert(s[s.len() - 1] == s.last());
            }
        }
        assert forall|j: int|
            0 <= j < s.len() && spec_include_version(
                #[trigger] s[j],
                min_version,
                max_version,
            ) implies w.contains(s[j]) by {
            if j < s.len() - 1 {
                assert(prev[j] == s[j]);
                let k = choose|k: int| 0 <= k < wp.len() && wp[k] == prev[j];
                assert(w[k] == wp[k]);
            } else {
                assert(w[w.len() - 1] == s.last());
            }
        }
    }
}

/// The releases kept by [`filter_releases`] are exactly those of the candidates (all releases,
/// or the latest patch of each minor) that lie within the bounds.
pub proof fn lemma_filter_keeps_exactly_in_bounds(
    releases: Seq<Version>,
    include_all_patch_releases: bool,
    min_version: Option<Version>,
    max_version: Option<Version>,
)
    ensures
        ({
            let candidates = if include_all_patch_releases {
                releases
            } else {
                latest_patches(releases)
            };
            let r = spec_filter_releases(
                releases,
                include_all_patch_releases,
                min_version,
                max_version,
            );
            &&& forall|j: int|
                0 <= j < r.len() ==> spec_include_version(#[trigger] r[j], min_version, max_version)
                    && candidates.contains(r[j])
            &&& forall|j: int|
                0 <= j < candidates.len() && spec_include_version(
                    #[trigger] candidates[j],
                    min_version,
                    max_version,
                ) ==> r.contains(candidates[j])
        }),
{
    let candidates = if include_all_patch_releases {
        releases
    } else {
        latest_patches(releases)
    };
    lemma_within_bounds_shape(candidates, min_version, max_version);
}


/// The bounds follow the order of releases: major first, then minor, then patch. A release is
/// kept exactly when it is no older than the minimum and no newer than the maximum, where a
/// newer minor version counts whatever the patch numbers (1.58.1 is below a maximum of 1.60.0,
/// 1.57.0 is above a minimum of 1.56.1).
pub proof fn lemma_bounds_follow_release_order(
    c: Version,
    min_version: Option<Version>,
    max_version: Option<Version>,
)
    ensures
        spec_include_version(c, min_version, max_version) <==> ((min_version matches Some(lo)
            ==> (lo.major < c.major || (lo.major == c.major && lo.minor < c.minor) || (lo.major
            == c.major && lo.minor == c.minor && lo.patch <= c.patch))) && (max_version matches Some(
            hi,
        ) ==> (c.major < hi.major || (c.major == hi.major && c.minor < hi.minor) || (c.major
            == hi.major && c.minor == hi.minor && c.patch <= hi.patch)))),
{
}

/// The releases searched are exactly the candidates (all releases, or the latest patch of each
/// minor) that are no older than the minimum and no newer than the maximum in the order of
/// releases: major first, then minor, then patch.
pub proof fn lemma_filter_follows_release_order(
    releases: Seq<Version>,
    include_all_patch_releases: bool,
    min_version: Option<Version>,
    max_version: Option<Version>,
    v: Version,
)
    ensures
        ({
            let candidates = if include_all_patch_releases {
                releases
            } else {
                latest_patches(releases)
            };
            spec_filter_releases(
                releases,
                include_all_patch_releases,
                min_version,
                max_version,
            ).contains(v) <==> (candidates.contains(v) && (min_version matches Some(lo) ==> (
            lo.major < v.major || (lo.major == v.major && lo.minor < v.minor) || (lo.major
                == v.major && lo.minor == v.minor && lo.patch <= v.patch))) && (
            max_version matches Some(hi) ==> (v.major < hi.major || (v.major == hi.major
                && v.minor < hi.minor) || (v.major == hi.major && v.minor == hi.minor && v.patch
                <= hi.patch))))
        }),
{
    let candidates = if include_all_patch_releases {
        releases
    } else {
        latest_patches(releases)
    };
    let r = spec_filter_releases(releases, include_all_patch_releases, min_version, max_version);
    assert(r == within_bounds(candidates, min_version, max_version));
    lemma_within_bounds_shape(candidates, min_version, max_version);
    lemma_bounds_follow_release_order(v, min_version, max_version);
    if r.contains(v) {
        let k = choose|k: int| 0 <= k < r.len() && r[k] == v;
        assert(spec_include_version(r[k], min_version, max_version));
        assert(candidates.contains(r[k]));
    }
    if candidates.contains(v) && spec_include_version(v, min_version, max_version) {
        let k = choose|k: int| 0 <= k < candidates.len() && candidates[k] == v;
        assert(spec_include_version(candidates[k], min_version, max_version));
        assert(r.contains(candidates[k]));
    }
}

} // verus!
