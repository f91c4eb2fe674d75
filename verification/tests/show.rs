//! Showing the MSRV that a manifest specifies.
use cargo_msrv::error::CargoMSRVError;
use cargo_msrv::manifest::{minimum_rust_version, parse_document};
use cargo_msrv::sub_command::set::set_or_override_msrv;
use cargo_msrv::sub_command::show::{show_msrv, show_msrv_in_manifest};
use cargo_msrv::sub_command::verify::{RustVersion, RustVersionSource};
use cargo_msrv::version::BareVersion;

#[test]
fn show_rust_version() {
    let doc = parse_document("[package]\nname = \"a\"\nrust-version = \"1.58.1\"\n").unwrap();
    let msrv = show_msrv(&doc, "Cargo.toml".to_string()).unwrap();
    assert_eq!(msrv, BareVersion::ThreeComponents(1, 58, 1));
}

#[test]
fn show_metadata_msrv() {
    let doc = parse_document("[package]\nname = \"a\"\n\n[package.metadata]\nmsrv = \"1.40\"\n")
        .unwrap();
    let msrv = show_msrv(&doc, "Cargo.toml".to_string()).unwrap();
    assert_eq!(msrv, BareVersion::TwoComponents(1, 40));
}

#[test]
fn rust_version_has_precedence_over_metadata_msrv() {
    let doc = parse_document(
        "[package]\nname = \"a\"\nrust-version = \"1.60\"\nmetadata = { msrv = \"1.40\" }\n",
    )
    .unwrap();
    assert_eq!(minimum_rust_version(&doc).unwrap(), Some(BareVersion::TwoComponents(1, 60)));
}

#[test]
fn show_without_msrv() {
    let doc = parse_document("[package]\nname = \"a\"\n").unwrap();
    let err = show_msrv(&doc, "some/Cargo.toml".to_string()).unwrap_err();
    assert!(matches!(err, CargoMSRVError::NoMSRVInCargoManifest(p) if p == "some/Cargo.toml"));
    assert_eq!(minimum_rust_version(&doc).unwrap(), None);
}

#[test]
fn show_with_an_invalid_msrv() {
    let doc = parse_document("[package]\nname = \"a\"\nrust-version = \"one\"\n").unwrap();
    let err = show_msrv(&doc, "Cargo.toml".to_string()).unwrap_err();
    assert!(matches!(err, CargoMSRVError::InvalidManifestMsrv(t) if t == "one"));
}

#[test]
fn set_then_show_gives_the_msrv() {
    for msrv in [
        BareVersion::TwoComponents(1, 20),
        BareVersion::ThreeComponents(1, 56, 0),
        BareVersion::ThreeComponents(1, 9, 3),
    ] {
        let mut doc = parse_document("[package]\nname = \"a\"\nrust-version = \"1.70\"\n").unwrap();
        set_or_override_msrv(&mut doc, &msrv).unwrap();
        assert_eq!(show_msrv(&doc, "Cargo.toml".to_string()).unwrap(), msrv);
    }
}

#[test]
fn show_msrv_in_manifest_reads_the_text() {
    assert_eq!(
        show_msrv_in_manifest("[package]\nrust-version = \"1.62\"\n", "C".to_string()).unwrap(),
        BareVersion::TwoComponents(1, 62)
    );
    assert!(matches!(
        show_msrv_in_manifest("[package", "C".to_string()),
        Err(CargoMSRVError::ParseToml)
    ));
    assert!(matches!(
        show_msrv_in_manifest("[package]\n", "C".to_string()),
        Err(CargoMSRVError::NoMSRVInCargoManifest(p)) if p == "C"
    ));
    assert!(matches!(
        show_msrv_in_manifest("[package]\nrust-version = \"1\"\n", "C".to_string()),
        Err(CargoMSRVError::InvalidManifestMsrv(t)) if t == "1"
    ));
}

#[test]
fn verify_reads_the_manifest_text() {
    let rv = RustVersion::try_from_manifest_text(
        "[package]\nmetadata = { msrv = \"1.40.1\" }\n",
        "m/Cargo.toml".to_string(),
    )
    .unwrap();
    assert_eq!(rv.bare_version, BareVersion::ThreeComponents(1, 40, 1));
    assert!(matches!(rv.source, RustVersionSource::Manifest(ref p) if p == "m/Cargo.toml"));
    assert!(matches!(
        RustVersion::try_from_manifest_text("[package]\n", "m/Cargo.toml".to_string()),
        Err(CargoMSRVError::NoMSRVKeyInCargoToml(p)) if p == "m/Cargo.toml"
    ));
    assert!(matches!(
        RustVersion::try_from_manifest_text("x = ", "m".to_string()),
        Err(CargoMSRVError::ParseToml)
    ));
}
