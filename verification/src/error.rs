//! The errors of the tool.
use vstd::prelude::*;
use crate::sub_command::verify::VerifyFailed;
use crate::version::{
    BareVersion, NoVersionMatchesManifestMsrvError, Version, bare_text, copy_versions,
};

verus! {

/// The search space was empty when a search was started.
#[derive(Clone, Debug)]
pub struct NoToolchainsToTryError {
    /// The minimum Rust version the user asked for, if any.
    pub min: Option<BareVersion>,
    /// The maximum Rust version the user asked for, if any.
    pub max: Option<BareVersion>,
    /// The target for which toolchains were unavailable, if any were left out for that reason.
    pub target: Option<String>,
    /// The releases left out because their toolchain was unavailable.
    pub unavailable: Vec<Version>,
}

/// The first words of the message of an empty search space.
pub open spec fn no_toolchains_text() -> Seq<char> {
    "No Rust releases to check: the filtered search space is empty."@
}

/// Why the search space is empty, as far as the user limited it.
pub open spec fn limits_text(min: Option<BareVersion>, max: Option<BareVersion>) -> Seq<char> {
    match (min, max) {
        (Some(min), Some(max)) => " Search space limited by user to min Rust '"@ + bare_text(
            min,
        ) + "', and max Rust '"@ + bare_text(max) + "'"@,
        (Some(min), None) => " Search space limited by user to min Rust '"@ + bare_text(min)
            + "'"@,
        (None, Some(max)) => " Search space limited by user to max Rust '"@ + bare_text(max)
            + "'"@,
        (None, None) => seq![],
    }
}

impl NoToolchainsToTryError {
    /// An empty search space, with the limits the user set.
    pub fn with_details(min: Option<BareVersion>, max: Option<BareVersion>) -> (e: Self)
        ensures
            e.min == min,
            e.max == max,
            e.target is None,
            e.unavailable@ == Seq::<Version>::empty(),
    {
        NoToolchainsToTryError { min, max, target: None, unavailable: Vec::new() }
    }

    /// The same error, adding the releases whose toolchain was unavailable for `target`.
    pub fn with_unavailable_toolchains(self, target: &str, unavailable: &[Version]) -> (e: Self)
        ensures
            e.min == self.min,
            e.max == self.max,
            e.target matches Some(t) && t@ == target@,
            e.unavailable@ == unavailable@,
    {
        NoToolchainsToTryError {
            min: self.min,
            max: self.max,
            target: Some(String::from_str(target)),
            unavailable: copy_versions(unavailable),
        }
    }

    /// Whether the error can say why the search space is empty: the user limited it, or
    /// toolchains were unavailable.
    pub fn has_clues(&self) -> (b: bool)
        ensures
            b == (self.min is Some || self.max is Some || self.unavailable@.len() > 0),
    {
        self.min.is_some() || self.max.is_some() || self.unavailable.len() > 0
    }

    /// The message of the error.
    pub fn message(&self) -> (s: String)
        ensures
            s@ == no_toolchains_text() + limits_text(self.min, self.max),
    {
        let mut s = String::from_str("No Rust releases to check: the filtered search space is empty.");
        match (self.min, self.max) {
            (Some(min), Some(max)) => {
                s.append(" Search space limited by user to min Rust '");
                s.append(min.to_text().as_str());
                s.append("', and max Rust '");
                s.append(max.to_text().as_str());
                s.append("'");
            },
            (Some(min), None) => {
                s.append(" Search space limited by user to min Rust '");
                s.append(min.to_text().as_str());
                s.append("'");
            },
            (None, Some(max)) => {
                s.append(" Search space limited by user to max Rust '");
                s.append(max.to_text().as_str());
                s.append("'");
            },
            (None, None) => {},
        }
        s
    }
}

/// Why writing the MSRV into a manifest failed.
#[derive(Clone, Copy, Debug, PartialEq, Eq, Structural)]
pub enum SetMsrvError {
    /// `package.metadata` exists but is not a table.
    NotATable,
    /// `package` exists but is not a table, so nothing can be written into it.
    PackageNotATable,
}

/// The errors of the tool.
#[derive(Debug)]
pub enum CargoMSRVError {
    /// No release in the search space was compatible.
    UnableToFindAnyGoodVersion { command: String },
    /// The list of releases was empty.
    RustReleasesEmptyReleaseSet,
    /// The search space was empty.
    NoToolchainsToTry(NoToolchainsToTryError),
    /// The manifest at this path has no MSRV.
    NoMSRVKeyInCargoToml(String),
    /// No release matches the MSRV of the manifest.
    NoVersionMatchesManifestMsrv(NoVersionMatchesManifestMsrvError),
    /// The crate was found incompatible with the Rust version it was verified against.
    SubCommandVerify(VerifyFailed),
    /// The manifest is that of a workspace, without a package.
    WorkspaceFound,
    /// Writing the MSRV into the manifest failed.
    SetMsrv(SetMsrvError),
    /// The manifest is not valid TOML.
    ParseToml,
    /// The MSRV to write names no release of the index.
    InvalidMsrvSet(BareVersion),
    /// The MSRV text of the manifest is not a bare version.
    InvalidManifestMsrv(String),
    /// The manifest at this path specifies no MSRV to show.
    NoMSRVInCargoManifest(String),
}

} // verus!
