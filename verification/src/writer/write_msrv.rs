//! Writing a found MSRV into the Cargo manifest, the way `cargo msrv set` does.
use vstd::prelude::*;
use toml_edit::Document;
use crate::error::CargoMSRVError;
use crate::manifest::toml_items;
use crate::sub_command::set::{set_msrv_in_manifest, set_msrv_outcome};
use crate::version::{BareVersion, Version, first_match};

verus! {

/// Writes `msrv` into the manifest text. Where a release index is given, the MSRV must name
/// one of its releases; otherwise it is refused as invalid. The new document is handed back to
/// be written out.
pub fn write_msrv(contents: &str, msrv: BareVersion, release_index: Option<&[Version]>) -> (r:
    Result<Document, CargoMSRVError>)
    ensures
        match release_index {
            Some(index) if first_match(msrv, index@) is None => r matches Err(
                CargoMSRVError::InvalidMsrvSet(v),
            ) && v == msrv,
            _ => match set_msrv_outcome(contents@, msrv) {
                Ok(after) => r matches Ok(doc) && toml_items(doc) == after,
                Err(e) => r matches Err(e2) && e2 == e,
            },
        },
{
    if let Some(index) = release_index {
        if msrv.try_to_semver(index).is_err() {
            return Err(CargoMSRVError::InvalidMsrvSet(msrv));
        }
    }
    set_msrv_in_manifest(contents, &msrv)
}

} // verus!
