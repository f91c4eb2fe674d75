//! Showing the MSRV that a crate's manifest specifies.
use vstd::prelude::*;
use toml_edit::Document;
use crate::error::CargoMSRVError;
use crate::manifest::{
    manifest_msrv, minimum_rust_version, minimum_rust_version_in_manifest, parsed_items, toml_items,
};
use crate::version::BareVersion;

verus! {

/// The MSRV of the manifest at `manifest_path` whose document is `doc`: an error where it
/// specifies none, or where its MSRV text names no bare version.
pub fn show_msrv(doc: &Document, manifest_path: String) -> (r: Result<BareVersion, CargoMSRVError>)
    ensures
        match manifest_msrv(toml_items(*doc)) {
            Ok(Some(v)) => r == Ok::<BareVersion, CargoMSRVError>(v),
            Ok(None) => r matches Err(CargoMSRVError::NoMSRVInCargoManifest(p)) && p
                == manifest_path,
            Err(t) => r matches Err(CargoMSRVError::InvalidManifestMsrv(s)) && s@ == t,
        },
{
    match minimum_rust_version(doc) {
        Ok(Some(v)) => Ok(v),
        Ok(None) => Err(CargoMSRVError::NoMSRVInCargoManifest(manifest_path)),
        Err(e) => Err(e),
    }
}


/// The MSRV of the manifest at `manifest_path` whose text is `contents`: an error where the
/// text is not TOML, where it specifies no MSRV, or where its MSRV text names no bare version.
pub fn show_msrv_in_manifest(contents: &str, manifest_path: String) -> (r: Result<
    BareVersion,
    CargoMSRVError,
>)
    ensures
        match parsed_items(contents@) {
            None => r matches Err(CargoMSRVError::ParseToml),
            Some(items) => match manifest_msrv(items) {
                Ok(Some(v)) => r == Ok::<BareVersion, CargoMSRVError>(v),
                Ok(None) => r matches Err(CargoMSRVError::NoMSRVInCargoManifest(p)) && p
                    == manifest_path,
                Err(t) => r matches Err(CargoMSRVError::InvalidManifestMsrv(s)) && s@ == t,
            },
        },
{
    match minimum_rust_version_in_manifest(contents) {
        Ok(Some(v)) => Ok(v),
        Ok(None) => Err(CargoMSRVError::NoMSRVInCargoManifest(manifest_path)),
        Err(e) => Err(e),
    }
}

} // verus!
