//! Verifying that a crate builds with its MSRV, or with a Rust version given by the user.
use vstd::prelude::*;
use crate::error::CargoMSRVError;
use crate::manifest::{manifest_msrv, minimum_rust_version_in_manifest, parsed_items};
use crate::toolchain::{OwnedToolchainSpec, ToolchainView};
use crate::version::{BareVersion, Version, bare_text, first_match};

verus! {

/// Where the Rust version to verify was obtained.
#[derive(Clone, Debug)]
pub enum RustVersionSource {
    /// The `--rust-version` argument.
    Arg,
    /// The MSRV of the Cargo manifest at this path.
    Manifest(String),
}

/// A bare Rust version, with where it was obtained.
#[derive(Clone, Debug)]
pub struct RustVersion {
    pub bare_version: BareVersion,
    pub source: RustVersionSource,
}

/// The version that was found incompatible, and where it came from.
#[derive(Clone, Debug)]
pub struct VerifyFailed {
    pub rust_version: BareVersion,
    pub source: RustVersionSource,
}

/// What the user is told of a verification.
#[derive(Debug)]
pub enum VerifyResult {
    Compatible { toolchain: OwnedToolchainSpec },
    Incompatible { toolchain: OwnedToolchainSpec, error: Option<String> },
}

/// How the source of a Rust version is described.
pub open spec fn source_text(source: RustVersionSource) -> Seq<char> {
    match source {
        RustVersionSource::Arg => "as --rust-version argument"@,
        RustVersionSource::Manifest(path) => "as MSRV in the Cargo manifest located at '"@
            + path@ + "'"@,
    }
}

/// The message of a failed verification.
pub open spec fn verify_failed_text(failed: VerifyFailed) -> Seq<char> {
    "Crate source was found to be incompatible with Rust version '"@ + bare_text(
        failed.rust_version,
    ) + "' specified "@ + source_text(failed.source)
}

impl RustVersionSource {
    /// How this source is described.
    pub fn describe(&self) -> (s: String)
        ensures
            s@ == source_text(*self),
    {
        match self {
            RustVersionSource::Arg => String::from_str("as --rust-version argument"),
            RustVersionSource::Manifest(path) => {
                let mut s = String::from_str("as MSRV in the Cargo manifest located at '");
                s.append(path.as_str());
                s.append("'");
                s
            },
        }
    }
}

impl VerifyFailed {
    /// The failure of verifying against `value`.
    pub fn from(value: RustVersion) -> (f: VerifyFailed)
        ensures
            f.rust_version == value.bare_version,
            f.source == value.source,
    {
        VerifyFailed { rust_version: value.bare_version, source: value.source }
    }

    /// The message of the failure.
    pub fn message(&self) -> (s: String)
        ensures
            s@ == verify_failed_text(*self),
    {
        let mut s = String::from_str("Crate source was found to be incompatible with Rust version '");
        s.append(self.rust_version.to_text().as_str());
        s.append("' specified ");
        s.append(self.source.describe().as_str());
        s
    }
}

impl RustVersion {
    /// The Rust version given as `--rust-version` argument.
    pub fn from_arg(rust_version: BareVersion) -> (r: Self)
        ensures
            r.bare_version == rust_version,
            r.source == RustVersionSource::Arg,
    {
        RustVersion { bare_version: rust_version, source: RustVersionSource::Arg }
    }

    /// The Rust version of the Cargo manifest at `manifest_path`, whose MSRV is `msrv`; an
    /// error when the manifest has none.
    pub fn try_from_environment(msrv: Option<BareVersion>, manifest_path: String) -> (r: Result<
        Self,
        CargoMSRVError,
    >)
        ensures
            match msrv {
                Some(v) => r matches Ok(rv) && rv.bare_version == v && rv.source
                    == RustVersionSource::Manifest(manifest_path),
                None => r matches Err(CargoMSRVError::NoMSRVKeyInCargoToml(p)) && p
                    == manifest_path,
            },
    {
        match msrv {
            Some(v) => Ok(
                RustVersion { bare_version: v, source: RustVersionSource::Manifest(manifest_path) },
            ),
            None => Err(CargoMSRVError::NoMSRVKeyInCargoToml(manifest_path)),
        }
    }

    /// The Rust version of the manifest at `manifest_path` whose text is `contents`: an error
    /// where the text is not TOML, where its MSRV text names no bare version, or where it
    /// specifies no MSRV.
    pub fn try_from_manifest_text(contents: &str, manifest_path: String) -> (r: Result<
        Self,
        CargoMSRVError,
    >)
        ensures
            match parsed_items(contents@) {
                None => r matches Err(CargoMSRVError::ParseToml),
                Some(items) => match manifest_msrv(items) {
                    Ok(Some(v)) => r matches Ok(rv) && rv.bare_version == v && rv.source
                        == RustVersionSource::Manifest(manifest_path),
                    Ok(None) => r matches Err(CargoMSRVError::NoMSRVKeyInCargoToml(p)) && p
                        == manifest_path,
                    Err(t) => r matches Err(CargoMSRVError::InvalidManifestMsrv(s)) && s@ == t,
                },
            },
    {
        match minimum_rust_version_in_manifest(contents) {
            Ok(msrv) => RustVersion::try_from_environment(msrv, manifest_path),
            Err(e) => Err(e),
        }
    }

    /// The Rust version to verify: the one given as argument, else the MSRV of the manifest.
    pub fn try_from_config(
        arg: Option<BareVersion>,
        manifest_msrv: Option<BareVersion>,
        manifest_path: String,
    ) -> (r: Result<Self, CargoMSRVError>)
        ensures
            match (arg, manifest_msrv) {
                (Some(v), _) => r matches Ok(rv) && rv.bare_version == v && rv.source
                    == RustVersionSource::Arg,
                (None, Some(v)) => r matches Ok(rv) && rv.bare_version == v && rv.source
                    == RustVersionSource::Manifest(manifest_path),
                (None, None) => r matches Err(CargoMSRVError::NoMSRVKeyInCargoToml(p)) && p
                    == manifest_path,
            },
    {
        match arg {
            Some(v) => Ok(RustVersion::from_arg(v)),
            None => RustVersion::try_from_environment(manifest_msrv, manifest_path),
        }
    }

    /// The bare version to verify.
    pub fn version(&self) -> (v: &BareVersion)
        ensures
            *v == self.bare_version,
    {
        &self.bare_version
    }
}

/// The release to verify against: the first release of the index (most recent first) that the
/// bare version names; an error when none does.
pub fn verify_release(rust_version: &RustVersion, releases: &[Version]) -> (r: Result<
    Version,
    CargoMSRVError,
>)
    ensures
        match first_match(rust_version.bare_version, releases@) {
            Some(i) => r matches Ok(v) && v == releases@[i],
            None => r matches Err(CargoMSRVError::NoVersionMatchesManifestMsrv(e)) && e.requested
                == rust_version.bare_version,
        },
{
    match rust_version.bare_version.try_to_semver(releases) {
        Ok(v) => Ok(v),
        Err(e) => Err(CargoMSRVError::NoVersionMatchesManifestMsrv(e)),
    }
}

/// The outcome of checking `toolchain` against the crate: reported as compatible and `Ok`, or
/// reported as incompatible (with the error message, unless the user asked for no output) and
/// an error that names the version and its source.
pub fn verify_outcome(
    rust_version: RustVersion,
    toolchain: OwnedToolchainSpec,
    compatible: bool,
    error_message: String,
    no_user_output: bool,
) -> (r: (VerifyResult, Result<(), CargoMSRVError>))
    ensures
        compatible ==> (r.0 matches VerifyResult::Compatible { toolchain: t } && t@ == toolchain@)
            && r.1 is Ok,
        !compatible ==> (r.0 matches VerifyResult::Incompatible { toolchain: t, error } && t@
            == toolchain@ && (no_user_output ==> error is None) && (!no_user_output ==> error
            == Some(error_message))),
        !compatible ==> (r.1 matches Err(CargoMSRVError::SubCommandVerify(f))
            && f.rust_version == rust_version.bare_version && f.source == rust_version.source),
{
    if compatible {
        (VerifyResult::Compatible { toolchain }, Ok(()))
    } else {
        let error = if no_user_output {
            None
        } else {
            Some(error_message)
        };
        (
            VerifyResult::Incompatible { toolchain, error },
            Err(CargoMSRVError::SubCommandVerify(VerifyFailed::from(rust_version))),
        )
    }
}

} // verus!
