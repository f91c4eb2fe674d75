//! Finding the MSRV of a crate: choosing the releases to search, searching them with the
//! method the user chose, and deciding what to report and write afterwards.
use vstd::prelude::*;
use crate::error::{CargoMSRVError, NoToolchainsToTryError};
use crate::releases::{
    filter_releases, latest_patches, lemma_bounds_follow_release_order,
    lemma_filter_follows_release_order, spec_filter_releases, spec_include_version,
};
use crate::search_methods::{
    Bisect, BisectState, Linear, LinearState, SearchAction, bisect_action, bisect_measure,
    bisect_outcome_of, bisect_record, bisect_result, bisect_wf, linear_action, linear_record,
    linear_result, linear_search, linear_wf, opt_index,
};
use crate::testing::TestRunner;
use crate::toolchain::{OwnedToolchainSpec, ToolchainView};
use crate::version::{BareVersion, Version, bare_of, bare_to_version};

verus! {

/// How the releases are searched.
#[derive(Clone, Copy, Debug, PartialEq, Eq, Structural)]
pub enum SearchMethod {
    Linear,
    Bisect,
}

/// What the user asked of a search for the MSRV.
#[derive(Clone, Debug)]
pub struct FindContext {
    pub search_method: SearchMethod,
    pub write_toolchain_file: bool,
    pub write_msrv: bool,
    pub consider_patch_releases: bool,
    pub minimum_rust_version: Option<BareVersion>,
    pub maximum_rust_version: Option<BareVersion>,
    pub target: String,
    pub check_command: String,
}

/// The result of a search.
#[derive(Debug)]
pub enum MinimumSupportedRustVersion {
    /// No release of the search space was compatible.
    NoCompatibleToolchain,
    /// The oldest compatible release found, as a toolchain for the target.
    Toolchain { toolchain: OwnedToolchainSpec },
}

/// What the user is told of a search.
#[derive(Debug)]
pub struct FindResult {
    pub msrv: Option<Version>,
    pub target: String,
    pub minimum_version: BareVersion,
    pub maximum_version: BareVersion,
    pub search_method: SearchMethod,
}

/// What remains to be done once the MSRV was found.
#[derive(Debug)]
pub struct FindOutcome {
    /// The MSRV.
    pub version: Version,
    /// Write a toolchain file that pins the crate to the MSRV.
    pub write_toolchain_file: bool,
    /// Write this MSRV into the Cargo manifest.
    pub msrv_to_write: Option<BareVersion>,
}

/// A bound given as a bare version, as the release version it stands for.
pub open spec fn bound(b: Option<BareVersion>) -> Option<Version> {
    match b {
        Some(v) => Some(bare_to_version(v)),
        None => None,
    }
}

fn to_bound(b: Option<BareVersion>) -> (r: Option<Version>)
    ensures
        r == bound(b),
{
    match b {
        Some(v) => Some(v.to_semver_version()),
        None => None,
    }
}

/// The releases to search, from the most recent: all releases or the latest patch of each
/// minor version, within the minimum and maximum the user set.
pub fn search_space(ctx: &FindContext, releases: &[Version]) -> (r: Vec<Version>)
    ensures
        r@ == spec_filter_releases(
            releases@,
            ctx.consider_patch_releases,
            bound(ctx.minimum_rust_version),
            bound(ctx.maximum_rust_version),
        ),
{
    filter_releases(
        releases,
        ctx.consider_patch_releases,
        to_bound(ctx.minimum_rust_version),
        to_bound(ctx.maximum_rust_version),
    )
}

/// The error of an empty search space: the limits the user set, and the releases whose
/// toolchain was unavailable for the target, when there are any.
pub fn no_toolchains_to_try(ctx: &FindContext, excluded_releases: &[Version]) -> (e:
    NoToolchainsToTryError)
    ensures
        e.min == ctx.minimum_rust_version,
        e.max == ctx.maximum_rust_version,
        excluded_releases@.len() == 0 ==> e.target is None && e.unavailable@.len() == 0,
        excluded_releases@.len() > 0 ==> (e.target matches Some(t) && t@ == ctx.target@)
            && e.unavailable@ == excluded_releases@,
{
    let error = NoToolchainsToTryError::with_details(
        ctx.minimum_rust_version,
        ctx.maximum_rust_version,
    );
    if excluded_releases.len() == 0 {
        error
    } else {
        error.with_unavailable_toolchains(ctx.target.as_str(), excluded_releases)
    }
}

/// A search in progress, with the method the user chose.
pub enum Searcher {
    Linear(Linear),
    Bisect(Bisect),
}

/// The abstract state of a search.
pub enum SearcherState {
    Linear(LinearState),
    Bisect(BisectState),
}

impl View for Searcher {
    type V = SearcherState;

    closed spec fn view(&self) -> SearcherState {
        match self {
            Searcher::Linear(l) => SearcherState::Linear(l@),
            Searcher::Bisect(b) => SearcherState::Bisect(b@),
        }
    }
}

pub open spec fn searcher_wf(s: SearcherState) -> bool {
    match s {
        SearcherState::Linear(l) => linear_wf(l),
        SearcherState::Bisect(b) => bisect_wf(b),
    }
}

pub open spec fn searcher_len(s: SearcherState) -> nat {
    match s {
        SearcherState::Linear(l) => l.len,
        SearcherState::Bisect(b) => b.len,
    }
}

pub open spec fn searcher_action(s: SearcherState) -> SearchAction {
    match s {
        SearcherState::Linear(l) => linear_action(l),
        SearcherState::Bisect(b) => bisect_action(b),
    }
}

pub open spec fn searcher_record(s: SearcherState, compatible: bool) -> SearcherState {
    match s {
        SearcherState::Linear(l) => SearcherState::Linear(linear_record(l, compatible)),
        SearcherState::Bisect(b) => SearcherState::Bisect(bisect_record(b, compatible)),
    }
}

/// The index a search with `method` returns, given the outcome of checking each release.
pub open spec fn search_result(method: SearchMethod, outcomes: Seq<bool>) -> Option<int> {
    match method {
        SearchMethod::Linear => linear_result(outcomes),
        SearchMethod::Bisect => bisect_result(outcomes),
    }
}

/// The result a search in state `s` ends with, given the outcome of each check.
pub open spec fn searcher_outcome_of(s: SearcherState, outcomes: Seq<bool>) -> Option<int> {
    match s {
        SearcherState::Linear(l) => if l.stopped {
            l.last_compatible
        } else {
            linear_search(outcomes, l.index, l.last_compatible)
        },
        SearcherState::Bisect(b) => bisect_outcome_of(b, outcomes),
    }
}

pub open spec fn searcher_measure(s: SearcherState) -> int {
    match s {
        SearcherState::Linear(l) => l.len - l.index + (if l.stopped {
            0int
        } else {
            1int
        }),
        SearcherState::Bisect(b) => bisect_measure(b),
    }
}

impl Searcher {
    /// Starts a search over `len` releases with `method`.
    pub fn new(method: SearchMethod, len: usize) -> (s: Searcher)
        requires
            len > 0,
        ensures
            searcher_wf(s@),
            searcher_len(s@) == len,
            match method {
                SearchMethod::Linear => s@ is Linear,
                SearchMethod::Bisect => s@ is Bisect,
            },
            forall|outcomes: Seq<bool>|
                outcomes.len() == len ==> #[trigger] searcher_outcome_of(s@, outcomes)
                    == search_result(method, outcomes),
    {
        match method {
            SearchMethod::Linear => Searcher::Linear(Linear::new(len)),
            SearchMethod::Bisect => Searcher::Bisect(Bisect::new(len)),
        }
    }

    /// The next thing the search asks for.
    pub fn next_action(&self) -> (a: SearchAction)
        requires
            searcher_wf(self@),
        ensures
            a == searcher_action(self@),
            match a {
                SearchAction::Check(i) => i < searcher_len(self@),
                SearchAction::Finished(Some(i)) => i < searcher_len(self@),
                _ => true,
            },
    {
        match self {
            Searcher::Linear(l) => l.next_action(),
            Searcher::Bisect(b) => b.next_action(),
        }
    }

    /// Records the outcome of the check that [`Searcher::next_action`] asked for.
    pub fn record(&mut self, compatible: bool)
        requires
            searcher_wf(old(self)@),
            searcher_action(old(self)@) is Check,
        ensures
            final(self)@ == searcher_record(old(self)@, compatible),
            searcher_wf(final(self)@),
    {
        match self {
            Searcher::Linear(l) => l.record(compatible),
            Searcher::Bisect(b) => b.record(compatible),
        }
    }
}

proof fn lemma_searcher_step(s: SearcherState, outcomes: Seq<bool>)
    requires
        searcher_wf(s),
        searcher_action(s) is Check,
        outcomes.len() == searcher_len(s),
    ensures
        ({
            let i = match searcher_action(s) {
                SearchAction::Check(i) => i as int,
                _ => 0,
            };
            &&& 0 <= i < outcomes.len()
            &&& searcher_outcome_of(searcher_record(s, outcomes[i]), outcomes)
                == searcher_outcome_of(s, outcomes)
            &&& searcher_measure(searcher_record(s, outcomes[i])) < searcher_measure(s)
        }),
{
    match s {
        SearcherState::Linear(l) => {
            assert((l.index as usize) as int == l.index);
        },
        SearcherState::Bisect(b) => {
            crate::search_methods::lemma_bisect_record_keeps_outcome(b, outcomes);
        },
    }
}

/// Starts the search for the MSRV over `releases` (the search space, most recent first) with
/// the method the user chose; an empty search space is an error that says why it is empty.
pub fn run_with_search_method(
    ctx: &FindContext,
    releases: &[Version],
    excluded_releases: &[Version],
) -> (r: Result<Searcher, CargoMSRVError>)
    ensures
        releases@.len() == 0 ==> (r matches Err(CargoMSRVError::NoToolchainsToTry(e)) && e.min
            == ctx.minimum_rust_version && e.max == ctx.maximum_rust_version),
        releases@.len() > 0 ==> (r matches Ok(s) && searcher_wf(s@) && searcher_len(s@)
            == releases@.len() && forall|outcomes: Seq<bool>|
            outcomes.len() == releases@.len() ==> #[trigger] searcher_outcome_of(s@, outcomes)
                == search_result(ctx.search_method, outcomes)),
{
    if releases.len() == 0 {
        Err(CargoMSRVError::NoToolchainsToTry(no_toolchains_to_try(ctx, excluded_releases)))
    } else {
        Ok(Searcher::new(ctx.search_method, releases.len()))
    }
}

/// The outcome of checking release `i` of the search space is whether `runner` accepts it.
pub open spec fn runner_outcomes(runner: TestRunner, releases: Seq<Version>) -> Seq<bool> {
    Seq::new(releases.len(), |i: int| runner@.contains(releases[i]))
}

/// Runs a search over `releases` with `ctx`'s method, where a release is compatible when
/// `runner` accepts it.
pub fn search_with_runner(ctx: &FindContext, releases: &[Version], runner: &TestRunner) -> (r:
    Option<usize>)
    requires
        releases@.len() > 0,
    ensures
        opt_index(r) == search_result(ctx.search_method, runner_outcomes(*runner, releases@)),
        r matches Some(i) ==> i < releases@.len(),
{
    let ghost outcomes = runner_outcomes(*runner, releases@);
    let mut searcher = Searcher::new(ctx.search_method, releases.len());
    loop
        invariant
            searcher_wf(searcher@),
            searcher_len(searcher@) == releases@.len(),
            outcomes == runner_outcomes(*runner, releases@),
            searcher_outcome_of(searcher@, outcomes) == search_result(
                ctx.search_method,
                outcomes,
            ),
        decreases searcher_measure(searcher@),
    {
        match searcher.next_action() {
            SearchAction::Check(i) => {
                proof {
                    lemma_searcher_step(searcher@, outcomes);
                }
                let compatible = runner.check(&releases[i]);
                searcher.record(compatible);
            },
            SearchAction::Finished(r) => {
                proof {
                    match searcher@ {
                        SearcherState::Linear(l) => {
                            match l.last_compatible {
                                Some(j) => {
                                    assert((j as usize) as int == j);
                                },
                                None => {},
                            }
                        },
                        SearcherState::Bisect(b) => {},
                    }
                }
                return r;
            },
        }
    }
}

/// The result of a search that ended on `index` of `releases`: the toolchain of that release
/// for `target`, or no compatible toolchain.
pub fn minimum_capable(releases: &[Version], index: Option<usize>, target: &str) -> (r:
    MinimumSupportedRustVersion)
    requires
        index matches Some(i) ==> i < releases@.len(),
    ensures
        match index {
            Some(i) => r matches MinimumSupportedRustVersion::Toolchain { toolchain } && toolchain@
                == (ToolchainView { version: releases@[i as int], target: target@ }),
            None => r is NoCompatibleToolchain,
        },
{
    match index {
        Some(i) => MinimumSupportedRustVersion::Toolchain {
            toolchain: OwnedToolchainSpec::new(&releases[i], target),
        },
        None => MinimumSupportedRustVersion::NoCompatibleToolchain,
    }
}

/// The oldest and the most recent release of a search space (ordered from the most recent);
/// an error for an empty one.
pub fn min_max_releases(rust_releases: &[Version]) -> (r: Result<
    (BareVersion, BareVersion),
    CargoMSRVError,
>)
    ensures
        rust_releases@.len() == 0 ==> r matches Err(CargoMSRVError::RustReleasesEmptyReleaseSet),
        rust_releases@.len() > 0 ==> (r matches Ok((min, max)) && min == bare_of(
            rust_releases@.last(),
        ) && max == bare_of(rust_releases@[0])),
{
    if rust_releases.len() == 0 {
        Err(CargoMSRVError::RustReleasesEmptyReleaseSet)
    } else {
        let min = BareVersion::from_version(&rust_releases[rust_releases.len() - 1]);
        let max = BareVersion::from_version(&rust_releases[0]);
        Ok((min, max))
    }
}

/// What is reported of a search over `releases`: the MSRV found (if any), the target, the
/// range of versions considered (the user's limits where set, else the oldest and most recent
/// release searched) and the method.
pub fn report_outcome(
    minimum_capable: &MinimumSupportedRustVersion,
    releases: &[Version],
    ctx: &FindContext,
) -> (r: Result<FindResult, CargoMSRVError>)
    ensures
        releases@.len() == 0 ==> r matches Err(CargoMSRVError::RustReleasesEmptyReleaseSet),
        releases@.len() > 0 ==> (r matches Ok(res) && res.target@ == ctx.target@
            && res.search_method == ctx.search_method && res.minimum_version == (
        match ctx.minimum_rust_version {
            Some(v) => v,
            None => bare_of(releases@.last()),
        }) && res.maximum_version == (match ctx.maximum_rust_version {
            Some(v) => v,
            None => bare_of(releases@[0]),
        }) && res.msrv == (match minimum_capable {
            MinimumSupportedRustVersion::Toolchain { toolchain } => Some(toolchain@.version),
            MinimumSupportedRustVersion::NoCompatibleToolchain => None,
        })),
{
    let (min, max) = min_max_releases(releases)?;
    let minimum_considered = match ctx.minimum_rust_version {
        Some(v) => v,
        None => min,
    };
    let maximum_considered = match ctx.maximum_rust_version {
        Some(v) => v,
        None => max,
    };
    let msrv = match minimum_capable {
        MinimumSupportedRustVersion::Toolchain { toolchain } => Some(*toolchain.version()),
        MinimumSupportedRustVersion::NoCompatibleToolchain => None,
    };
    Ok(
        FindResult {
            msrv,
            target: ctx.target.clone(),
            minimum_version: minimum_considered,
            maximum_version: maximum_considered,
            search_method: ctx.search_method,
        },
    )
}

/// What follows a search: no compatible toolchain is an error that names the check command;
/// otherwise the MSRV, and whether to write it to a toolchain file and (as `major.minor`) to the
/// manifest.
pub fn find_msrv(search_result: &MinimumSupportedRustVersion, ctx: &FindContext) -> (r: Result<
    FindOutcome,
    CargoMSRVError,
>)
    ensures
        match search_result {
            MinimumSupportedRustVersion::NoCompatibleToolchain => r matches Err(
                CargoMSRVError::UnableToFindAnyGoodVersion { command },
            ) && command@ == ctx.check_command@,
            MinimumSupportedRustVersion::Toolchain { toolchain } => r matches Ok(o) && o.version
                == toolchain@.version && o.write_toolchain_file == ctx.write_toolchain_file && (
            ctx.write_msrv ==> o.msrv_to_write == Some(
                BareVersion::TwoComponents(toolchain@.version.major, toolchain@.version.minor),
            )) && (!ctx.write_msrv ==> o.msrv_to_write is None),
        },
{
    match search_result {
        MinimumSupportedRustVersion::NoCompatibleToolchain => Err(
            CargoMSRVError::UnableToFindAnyGoodVersion { command: ctx.check_command.clone() },
        ),
        MinimumSupportedRustVersion::Toolchain { toolchain } => {
            let version = *toolchain.version();
            let msrv_to_write = if ctx.write_msrv {
                Some(BareVersion::two_component_from_semver(&version))
            } else {
                None
            };
            Ok(
                FindOutcome {
                    version,
                    write_toolchain_file: ctx.write_toolchain_file,
                    msrv_to_write,
                },
            )
        },
    }
}

/// The whole search for the MSRV of a crate over the release index `releases` (most recent
/// first), where a release is compatible when `runner` accepts it: the search space is chosen,
/// searched, reported, and the outcome decided. The report is `None` when the search space was
/// empty.
pub fn find_with_runner(ctx: &FindContext, releases: &[Version], runner: &TestRunner) -> (r: (
    Option<FindResult>,
    Result<FindOutcome, CargoMSRVError>,
))
    ensures
        ({
            let space = spec_filter_releases(
                releases@,
                ctx.consider_patch_releases,
                bound(ctx.minimum_rust_version),
                bound(ctx.maximum_rust_version),
            );
            let found = search_result(ctx.search_method, runner_outcomes(*runner, space));
            &&& space.len() == 0 ==> r.0 is None && (r.1 matches Err(
                CargoMSRVError::NoToolchainsToTry(e),
            ) && e.min == ctx.minimum_rust_version && e.max == ctx.maximum_rust_version)
            &&& space.len() > 0 ==> (r.0 matches Some(res) && res.msrv == (match found {
                Some(i) => Some(space[i]),
                None => None,
            }) && res.target@ == ctx.target@ && res.search_method == ctx.search_method
                && res.minimum_version == (match ctx.minimum_rust_version {
                Some(v) => v,
                None => bare_of(space.last()),
            }) && res.maximum_version == (match ctx.maximum_rust_version {
                Some(v) => v,
                None => bare_of(space[0]),
            }))
            &&& space.len() > 0 ==> match found {
                Some(i) => r.1 matches Ok(o) && o.version == space[i] && o.write_toolchain_file
                    == ctx.write_toolchain_file && o.msrv_to_write == (if ctx.write_msrv {
                    Some(BareVersion::TwoComponents(space[i].major, space[i].minor))
                } else {
                    None
                }),
                None => r.1 matches Err(CargoMSRVError::UnableToFindAnyGoodVersion { command })
                    && command@ == ctx.check_command@,
            }
        }),
{
    let space = search_space(ctx, releases);
    let excluded: Vec<Version> = Vec::new();
    match run_with_search_method(ctx, space.as_slice(), excluded.as_slice()) {
        Err(e) => (None, Err(e)),
        Ok(_) => {
            let index = search_with_runner(ctx, space.as_slice(), runner);
            let capable = minimum_capable(space.as_slice(), index, ctx.target.as_str());
            let report = report_outcome(&capable, space.as_slice(), ctx);
            let outcome = find_msrv(&capable, ctx);
            match report {
                Ok(res) => (Some(res), outcome),
                Err(e) => (None, Err(e)),
            }
        },
    }
}


/// A bound given as a bare version stands for the release it names, a missing patch read as
/// `0`: a minimum or maximum of `1.31` bounds at `1.31.0`, one of `1.31.2` at `1.31.2`.
pub proof fn lemma_bound_is_the_named_release(b: BareVersion)
    ensures
        match b {
            BareVersion::TwoComponents(major, minor) => bound(Some(b)) == Some(
                Version { major, minor, patch: 0 },
            ),
            BareVersion::ThreeComponents(major, minor, patch) => bound(Some(b)) == Some(
                Version { major, minor, patch },
            ),
        },
        bound(None) == None::<Version>,
{
}

/// A two-component minimum keeps its whole minor version: with `--min a.b`, every candidate
/// release `a.b.p` that the maximum allows is searched, whatever its patch.
pub proof fn lemma_two_component_minimum_keeps_its_minor(
    ctx: FindContext,
    releases: Seq<Version>,
    v: Version,
)
    requires
        ctx.minimum_rust_version matches Some(BareVersion::TwoComponents(major, minor)) && v.major
            == major && v.minor == minor,
        (if ctx.consider_patch_releases {
            releases
        } else {
            latest_patches(releases)
        }).contains(v),
        spec_include_version(v, None, bound(ctx.maximum_rust_version)),
    ensures
        spec_filter_releases(
            releases,
            ctx.consider_patch_releases,
            bound(ctx.minimum_rust_version),
            bound(ctx.maximum_rust_version),
        ).contains(v),
{
    lemma_filter_follows_release_order(
        releases,
        ctx.consider_patch_releases,
        bound(ctx.minimum_rust_version),
        bound(ctx.maximum_rust_version),
        v,
    );
    lemma_bounds_follow_release_order(v, None, bound(ctx.maximum_rust_version));
}

} // verus!
