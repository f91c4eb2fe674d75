//! Rust versions: the three-component version of a stable release, and the two- or
//! three-component "bare" version that users write in a Cargo manifest.
use vstd::prelude::*;
use crate::text::{decimal, decimal_string};

pub mod parse;

verus! {

/// The version of a stable Rust release, `major.minor.patch`.
#[derive(Clone, Copy, Debug, PartialEq, Eq, Structural)]
pub struct Version {
    pub major: u64,
    pub minor: u64,
    pub patch: u64,
}

/// `a` is older than or equal to `b`: the components compare lexicographically.
pub open spec fn version_le(a: Version, b: Version) -> bool {
    a.major < b.major || (a.major == b.major && (a.minor < b.minor || (a.minor == b.minor
        && a.patch <= b.patch)))
}

/// `a` is strictly older than `b`.
pub open spec fn version_lt(a: Version, b: Version) -> bool {
    version_le(a, b) && a != b
}

/// `major.minor.patch`, each component in decimal.
pub open spec fn version_text(v: Version) -> Seq<char> {
    decimal(v.major as nat) + seq!['.'] + decimal(v.minor as nat) + seq!['.'] + decimal(
        v.patch as nat,
    )
}

/// What `semver` prints for a release version (no pre-release or build part).
#[verifier::external_body]
fn semver_display(major: u64, minor: u64, patch: u64) -> (s: String)
    ensures
        s@ == version_text(Version { major, minor, patch }),
{
    semver::Version::new(major, minor, patch).to_string()
}

impl Version {
    pub fn new(major: u64, minor: u64, patch: u64) -> (v: Version)
        ensures
            v == (Version { major, minor, patch }),
    {
        Version { major, minor, patch }
    }

    /// Whether `self` is older than or equal to `other`.
    pub fn le(&self, other: &Version) -> (b: bool)
        ensures
            b == version_le(*self, *other),
    {
        self.major < other.major || (self.major == other.major && (self.minor < other.minor || (
        self.minor == other.minor && self.patch <= other.patch)))
    }

    /// Whether both versions are the same.
    pub fn same(&self, other: &Version) -> (b: bool)
        ensures
            b == (*self == *other),
    {
        self.major == other.major && self.minor == other.minor && self.patch == other.patch
    }

    /// The version as `semver` prints it, e.g. `1.56.0`.
    pub fn to_text(&self) -> (s: String)
        ensures
            s@ == version_text(*self),
    {
        semver_display(self.major, self.minor, self.patch)
    }
}

/// The version `<=` is a total order on versions.
pub proof fn lemma_version_le_total_order(a: Version, b: Version, c: Version)
    ensures
        version_le(a, a),
        version_le(a, b) || version_le(b, a),
        version_le(a, b) && version_le(b, a) ==> a == b,
        version_le(a, b) && version_le(b, c) ==> version_le(a, c),
{
}

/// A Rust version as written in a Cargo manifest: `1.56` or `1.56.1`.
#[derive(Clone, Copy, Debug, PartialEq, Eq, Structural)]
pub enum BareVersion {
    TwoComponents(u64, u64),
    ThreeComponents(u64, u64, u64),
}

/// The release version a bare version stands for: a missing patch component is `0`.
pub open spec fn bare_to_version(b: BareVersion) -> Version {
    match b {
        BareVersion::TwoComponents(major, minor) => Version { major, minor, patch: 0 },
        BareVersion::ThreeComponents(major, minor, patch) => Version { major, minor, patch },
    }
}

/// How a bare version is written: `major.minor` or `major.minor.patch`.
pub open spec fn bare_text(b: BareVersion) -> Seq<char> {
    match b {
        BareVersion::TwoComponents(major, minor) => decimal(major as nat) + seq!['.'] + decimal(
            minor as nat,
        ),
        BareVersion::ThreeComponents(major, minor, patch) => version_text(
            Version { major, minor, patch },
        ),
    }
}

/// The three-component bare version of a release.
pub open spec fn bare_of(v: Version) -> BareVersion {
    BareVersion::ThreeComponents(v.major, v.minor, v.patch)
}

/// Whether release `v` is one that the bare version `b` names: the same major and minor, and
/// the same patch where `b` gives one.
pub open spec fn bare_matches(b: BareVersion, v: Version) -> bool {
    match b {
        BareVersion::TwoComponents(major, minor) => v.major == major && v.minor == minor,
        BareVersion::ThreeComponents(major, minor, patch) => v.major == major && v.minor == minor
            && v.patch == patch,
    }
}

/// Index of the first release in `releases` that `b` names, if any.
pub open spec fn first_match(b: BareVersion, releases: Seq<Version>) -> Option<int> {
    if exists|i: int| 0 <= i < releases.len() && bare_matches(b, releases[i]) {
        Some(
            choose|i: int|
                0 <= i < releases.len() && bare_matches(b, releases[i]) && forall|j: int|
                    0 <= j < i ==> !bare_matches(b, releases[j]),
        )
    } else {
        None
    }
}

/// No release of the index is the one a bare version names.
#[derive(Clone, Copy, Debug, PartialEq, Eq, Structural)]
pub struct NoVersionMatchesManifestMsrvError {
    pub requested: BareVersion,
}

impl BareVersion {
    /// The release version this bare version stands for (`1.56` is `1.56.0`).
    pub fn to_semver_version(&self) -> (v: Version)
        ensures
            v == bare_to_version(*self),
    {
        match *self {
            BareVersion::TwoComponents(major, minor) => Version { major, minor, patch: 0 },
            BareVersion::ThreeComponents(major, minor, patch) => Version { major, minor, patch },
        }
    }

    /// The bare version `major.minor` of a release.
    pub fn two_component_from_semver(v: &Version) -> (b: BareVersion)
        ensures
            b == BareVersion::TwoComponents(v.major, v.minor),
    {
        BareVersion::TwoComponents(v.major, v.minor)
    }

    /// The bare version `major.minor.patch` of a release.
    pub fn from_version(v: &Version) -> (b: BareVersion)
        ensures
            b == BareVersion::ThreeComponents(v.major, v.minor, v.patch),
    {
        BareVersion::ThreeComponents(v.major, v.minor, v.patch)
    }

    /// The bare version as written in a manifest.
    pub fn to_text(&self) -> (s: String)
        ensures
            s@ == bare_text(*self),
    {
        proof {
            reveal_strlit(".");
        }
        match *self {
            BareVersion::TwoComponents(major, minor) => {
                let mut s = decimal_string(major);
                s.append(".");
                s.append(decimal_string(minor).as_str());
                s
            },
            BareVersion::ThreeComponents(major, minor, patch) => {
                let mut s = decimal_string(major);
                s.append(".");
                s.append(decimal_string(minor).as_str());
                s.append(".");
                s.append(decimal_string(patch).as_str());
                s
            },
        }
    }

    /// Whether `v` is a release this bare version names.
    pub fn matches(&self, v: &Version) -> (r: bool)
        ensures
            r == bare_matches(*self, *v),
    {
        match *self {
            BareVersion::TwoComponents(major, minor) => v.major == major && v.minor == minor,
            BareVersion::ThreeComponents(major, minor, patch) => v.major == major && v.minor
                == minor && v.patch == patch,
        }
    }

    /// The first release of `releases` (ordered from the most to the least recent) that this
    /// bare version names: for `1.56` the latest `1.56.x`, for `1.56.1` that release itself.
    pub fn try_to_semver(&self, releases: &[Version]) -> (r: Result<
        Version,
        NoVersionMatchesManifestMsrvError,
    >)
        ensures
            match first_match(*self, releases@) {
                Some(i) => r == Ok::<Version, NoVersionMatchesManifestMsrvError>(releases@[i]),
                None => r == Err::<Version, NoVersionMatchesManifestMsrvError>(
                    NoVersionMatchesManifestMsrvError { requested: *self },
                ),
            },
    {
        let mut i: usize = 0;
        while i < releases.len()
            invariant
                0 <= i <= releases.len(),
                forall|j: int| 0 <= j < i ==> !bare_matches(*self, #[trigger] releases@[j]),
            decreases releases.len() - i,
        {
            if self.matches(&releases[i]) {
                assert(bare_matches(*self, releases@[i as int]));
                let ghost k = first_match(*self, releases@);
                assert(k == Some(i as int)) by {
                    let c = choose|c: int|
                        0 <= c < releases@.len() && bare_matches(*self, releases@[c]) && forall|
                            j: int,
                        | 0 <= j < c ==> !bare_matches(*self, releases@[j]);
                    assert(0 <= c < releases@.len() && bare_matches(*self, releases@[c])
                        && forall|j: int| 0 <= j < c ==> !bare_matches(*self, releases@[j]));
                    if c < i {
                    } else if c > i {
                        assert(!bare_matches(*self, releases@[i as int]));
                    }
                }
                return Ok(releases[i]);
            }
            i = i + 1;
        }
        Err(NoVersionMatchesManifestMsrvError { requested: *self })
    }
}

/// A vector holding the same releases as `releases`.
pub fn copy_versions(releases: &[Version]) -> (v: Vec<Version>)
    ensures
        v@ == releases@,
{
    let mut v: Vec<Version> = Vec::new();
    let mut i: usize = 0;
    while i < releases.len()
        invariant
            0 <= i <= releases.len(),
            v@ == releases@.take(i as int),
        decreases releases.len() - i,
    {
        v.push(releases[i]);
        i = i + 1;
    }
    assert(releases@.take(releases.len() as int) =~= releases@);
    v
}


proof fn lemma_first_match_witness(b: BareVersion, releases: Seq<Version>, k: int)
    requires
        0 <= k < releases.len(),
        bare_matches(b, releases[k]),
    ensures
        exists|i: int|
            0 <= i < releases.len() && bare_matches(b, releases[i]) && forall|j: int|
                0 <= j < i ==> !bare_matches(b, releases[j]),
    decreases k,
{
    if exists|j: int| 0 <= j < k && bare_matches(b, releases[j]) {
        let j = choose|j: int| 0 <= j < k && bare_matches(b, releases[j]);
        lemma_first_match_witness(b, releases, j);
    } else {
        assert(0 <= k < releases.len() && bare_matches(b, releases[k]) && forall|j: int|
            0 <= j < k ==> !bare_matches(b, releases[j]));
    }
}

proof fn lemma_first_match_found(b: BareVersion, releases: Seq<Version>)
    requires
        exists|i: int| 0 <= i < releases.len() && bare_matches(b, releases[i]),
    ensures
        first_match(b, releases) matches Some(i) && 0 <= i < releases.len() && bare_matches(
            b,
            releases[i],
        ) && forall|j: int| 0 <= j < i ==> !bare_matches(b, releases[j]),
{
    let k = choose|i: int| 0 <= i < releases.len() && bare_matches(b, releases[i]);
    lemma_first_match_witness(b, releases, k);
}

/// Releases are ordered by major version first, then by minor version, then by patch: a newer
/// major or minor version is newer whatever the later components, and within one minor version
/// the patch decides.
pub proof fn lemma_version_order_by_components(a: Version, b: Version)
    ensures
        a.major < b.major ==> version_le(a, b) && !version_le(b, a),
        a.major == b.major && a.minor < b.minor ==> version_le(a, b) && !version_le(b, a),
        a.major == b.major && a.minor == b.minor ==> (version_le(a, b) <==> a.patch <= b.patch),
{
}

/// Every bare version names the release it stands for: `1.36` names `1.36.0`, `1.36.2` names
/// `1.36.2`.
pub proof fn lemma_bare_version_names_its_release(b: BareVersion)
    ensures
        bare_matches(b, bare_to_version(b)),
{
}

/// A three-component bare version names exactly one release: the one with those components.
pub proof fn lemma_three_components_name_one_release(major: u64, minor: u64, patch: u64, v: Version)
    ensures
        bare_matches(BareVersion::ThreeComponents(major, minor, patch), v) <==> v == (Version {
            major,
            minor,
            patch,
        }),
{
}

/// A two-component bare version names every patch release of its minor version: it names `v`
/// exactly when some three-component version with its major and minor does, and that is so
/// whatever the patch of `v`.
pub proof fn lemma_two_components_name_every_patch(major: u64, minor: u64, v: Version)
    ensures
        bare_matches(BareVersion::TwoComponents(major, minor), v) <==> (exists|patch: u64|
            #[trigger] bare_matches(BareVersion::ThreeComponents(major, minor, patch), v)),
        bare_matches(BareVersion::TwoComponents(major, minor), v) <==> (v.major == major
            && v.minor == minor),
{
    if v.major == major && v.minor == minor {
        assert(bare_matches(BareVersion::ThreeComponents(major, minor, v.patch), v));
    }
}

/// The release a two-component bare version resolves to in an index (ordered from the most
/// recent) is the first one of its minor version, whatever its patch; there is none only when
/// the index has no release of that minor version.
pub proof fn lemma_first_match_is_newest_of_minor(major: u64, minor: u64, releases: Seq<Version>)
    ensures
        match first_match(BareVersion::TwoComponents(major, minor), releases) {
            Some(i) => 0 <= i < releases.len() && releases[i].major == major && releases[i].minor
                == minor && forall|j: int|
                0 <= j < i ==> !(releases[j].major == major && releases[j].minor == minor),
            None => forall|j: int|
                0 <= j < releases.len() ==> !(releases[j].major == major && releases[j].minor
                    == minor),
        },
{
    let b = BareVersion::TwoComponents(major, minor);
    if exists|i: int| 0 <= i < releases.len() && bare_matches(b, releases[i]) {
        lemma_first_match_found(b, releases);
    }
}

} // verus!
