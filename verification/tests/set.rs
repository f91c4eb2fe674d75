//! Setting, replacing and discarding the MSRV of a Cargo manifest.
use cargo_msrv::error::{CargoMSRVError, SetMsrvError};
use cargo_msrv::manifest::{minimum_rust_version_text, parse_document, render_document};
use cargo_msrv::sub_command::set::{
    check_workspace, discard_current_msrv, insert_new_msrv, set_msrv_in_manifest,
    set_or_override_msrv,
};
use cargo_msrv::version::{BareVersion, Version};
use cargo_msrv::writer::write_msrv::write_msrv;
use toml_edit::{Document, Item, Value};

const PLAIN: &str = r#"[package]
name = "package_name"
version = "0.1.0"
edition = "2021"

[dependencies]
"#;

fn parse(input: &str) -> Document {
    parse_document(input).unwrap()
}

#[test]
fn set_rust_version_in_empty_two_component() {
    let mut manifest = parse(PLAIN);
    set_or_override_msrv(&mut manifest, &BareVersion::TwoComponents(1, 56)).unwrap();
    assert_eq!(manifest["package"]["rust-version"].as_str().unwrap(), "1.56");
}

#[test]
fn set_metadata_msrv_in_empty_two_component() {
    let mut manifest = parse(PLAIN);
    set_or_override_msrv(&mut manifest, &BareVersion::TwoComponents(1, 10)).unwrap();
    assert_eq!(manifest["package"]["metadata"]["msrv"].as_str().unwrap(), "1.10");
}

#[test]
fn set_rust_version_with_existing() {
    let input = r#"[package]
name = "package_name"
version = "0.1.0"
edition = "2021"
rust-version = "1.58.0"

[dependencies]
"#;
    let mut manifest = parse(input);
    set_or_override_msrv(&mut manifest, &BareVersion::TwoComponents(1, 56)).unwrap();
    assert_eq!(manifest["package"]["rust-version"].as_str().unwrap(), "1.56");
}

#[test]
fn set_rust_version_with_existing_metadata_msrv() {
    let input = r#"[package]
name = "package_name"
version = "0.1.0"
edition = "2021"

[package.metadata]
msrv = "1.58.0"

[dependencies]
"#;
    let mut manifest = parse(input);
    set_or_override_msrv(&mut manifest, &BareVersion::TwoComponents(1, 56)).unwrap();
    assert_eq!(manifest["package"]["rust-version"].as_str().unwrap(), "1.56");
    let package = manifest.get("package").unwrap();
    assert!(package.get("metadata").is_none());
}

#[test]
fn set_rust_version_with_existing_metadata_msrv_and_other() {
    let input = r#"[package]
name = "package_name"
version = "0.1.0"
edition = "2021"

[package.metadata]
msrv = "1.58.0"
other = 1

[dependencies]
"#;
    let mut manifest = parse(input);
    set_or_override_msrv(&mut manifest, &BareVersion::TwoComponents(1, 56)).unwrap();
    assert_eq!(manifest["package"]["rust-version"].as_str().unwrap(), "1.56");
    let package = manifest.get("package").unwrap();
    let metadata = package.get("metadata").unwrap();
    assert!(metadata.get("msrv").is_none());
    assert!(metadata.get("other").is_some());
}

#[test]
fn set_metadata_msrv_with_existing() {
    let input = r#"[package]
name = "package_name"
version = "0.1.0"
edition = "2021"

[package.metadata]
msrv = "1.11.0"

[dependencies]
"#;
    let mut manifest = parse(input);
    assert_eq!(manifest["package"]["metadata"]["msrv"].as_str().unwrap(), "1.11.0");
    set_or_override_msrv(&mut manifest, &BareVersion::TwoComponents(1, 17)).unwrap();
    assert_eq!(manifest["package"]["metadata"]["msrv"].as_str().unwrap(), "1.17");
}

#[test]
fn set_metadata_msrv_with_existing_rust_version() {
    let input = r#"[package]
name = "package_name"
version = "0.1.0"
edition = "2021"
rust-version = "1.58"

[dependencies]
"#;
    let mut manifest = parse(input);
    assert_eq!(manifest["package"]["rust-version"].as_str().unwrap(), "1.58");
    set_or_override_msrv(&mut manifest, &BareVersion::TwoComponents(1, 17)).unwrap();
    assert_eq!(manifest["package"]["metadata"]["msrv"].as_str().unwrap(), "1.17");
    assert!(manifest.get("package").and_then(|p| p.get("rust-version")).is_none());
}

#[test]
fn set_metadata_msrv_with_existing_and_other() {
    let input = r#"[package]
name = "package_name"
version = "0.1.0"
edition = "2021"

[package.metadata]
msrv = "1.58"
other = 1

[dependencies]

"#;
    let mut manifest = parse(input);
    assert_eq!(manifest["package"]["metadata"]["msrv"].as_str().unwrap(), "1.58");
    set_or_override_msrv(&mut manifest, &BareVersion::TwoComponents(1, 17)).unwrap();
    assert_eq!(manifest["package"]["metadata"]["msrv"].as_str().unwrap(), "1.17");
    assert_eq!(manifest["package"]["metadata"]["other"].as_integer().unwrap(), 1);
}

#[test]
fn set_rust_version_with_inline_table() {
    let input = r#"[package]
name = "package_name"
version = "0.1.0"
edition = "2021"
metadata = { msrv = "1.15" }

[dependencies]
"#;
    let mut manifest = parse(input);
    assert_eq!(manifest["package"]["metadata"]["msrv"].as_str().unwrap(), "1.15");
    set_or_override_msrv(&mut manifest, &BareVersion::TwoComponents(1, 57)).unwrap();
    assert_eq!(manifest["package"]["rust-version"].as_str().unwrap(), "1.57");
    assert!(manifest.get("package").and_then(|p| p.get("metadata")).is_none());
}

#[test]
fn set_metadata_msrv_where_metadata_is_not_a_table() {
    let input = r#"[package]
name = "package_name"
metadata = "text"
"#;
    let mut manifest = parse(input);
    let err = set_or_override_msrv(&mut manifest, &BareVersion::TwoComponents(1, 40)).unwrap_err();
    assert_eq!(err, SetMsrvError::NotATable);
    assert_eq!(manifest["package"]["metadata"].as_str().unwrap(), "text");
}

#[test]
fn discard_none() {
    let mut manifest = parse(PLAIN);
    let expected = manifest.clone();
    discard_current_msrv(&mut manifest);
    assert_eq!(manifest.to_string(), expected.to_string());
}

#[test]
fn discard_rust_version() {
    let input = r#"[package]
name = "package_name"
version = "0.1.0"
edition = "2021"
rust-version = "1.56.0"

[dependencies]
"#;
    let mut manifest = parse(input);
    assert_eq!(manifest["package"]["rust-version"].as_str().unwrap(), "1.56.0");
    discard_current_msrv(&mut manifest);
    let package = manifest.get("package").unwrap();
    assert!(package.get("rust-version").is_none());
}

#[test]
fn discard_package_metadata_msrv_with_empty_metadata() {
    let input = r#"[package]
name = "package_name"
version = "0.1.0"
edition = "2021"

[package.metadata]
msrv = "1.56.0"

[dependencies]
"#;
    let mut manifest = parse(input);
    assert_eq!(manifest["package"]["metadata"]["msrv"].as_str().unwrap(), "1.56.0");
    discard_current_msrv(&mut manifest);
    let package = manifest.get("package").unwrap();
    assert!(package.get("metadata").is_none());
}

#[test]
fn discard_package_metadata_msrv_with_other_metadata_item() {
    let input = r#"[package]
name = "package_name"
version = "0.1.0"
edition = "2021"

[package.metadata]
msrv = "1.56.0"
other = 7

[dependencies]
"#;
    let mut manifest = parse(input);
    assert_eq!(manifest["package"]["metadata"]["msrv"].as_str().unwrap(), "1.56.0");
    discard_current_msrv(&mut manifest);
    let package = manifest.get("package").unwrap();
    let metadata = package.get("metadata").unwrap();
    assert!(metadata.get("msrv").is_none());
    assert_eq!(manifest["package"]["metadata"]["other"].as_integer().unwrap(), 7);
}

#[test]
fn discard_package_metadata_inline_table() {
    let input = r#"[package]
name = "package_name"
version = "0.1.0"
edition = "2021"
metadata = { msrv = "1.15" }

[dependencies]
"#;
    let mut manifest = parse(input);
    assert_eq!(manifest["package"]["metadata"]["msrv"].as_str().unwrap(), "1.15");
    discard_current_msrv(&mut manifest);
    let package = manifest.get("package").unwrap();
    assert!(package.get("metadata").is_none());
}

#[test]
fn discard_package_metadata_inline_table_and_other() {
    let input = r#"[package]
name = "package_name"
version = "0.1.0"
edition = "2021"
metadata = { msrv = "1.15", other = 1 }

[dependencies]
"#;
    let mut manifest = parse(input);
    assert_eq!(manifest["package"]["metadata"]["msrv"].as_str().unwrap(), "1.15");
    discard_current_msrv(&mut manifest);
    let package = manifest.get("package").unwrap();
    let metadata = package.get("metadata").unwrap();
    assert!(metadata.get("msrv").is_none());
    assert!(metadata.get("other").is_some());
}

#[test]
fn discard_then_read_finds_no_msrv() {
    let input = r#"[package]
name = "package_name"
rust-version = "1.60"

[package.metadata]
msrv = "1.40"
"#;
    let mut manifest = parse(input);
    assert_eq!(minimum_rust_version_text(&manifest), Some("1.60".to_string()));
    discard_current_msrv(&mut manifest);
    assert_eq!(minimum_rust_version_text(&manifest), None);
}

#[test]
fn insert_rust_version_in_empty_two_component() {
    let mut manifest = parse(PLAIN);
    insert_new_msrv(&mut manifest, &BareVersion::TwoComponents(1, 56)).unwrap();
    assert_eq!(manifest["package"]["rust-version"].as_str().unwrap(), "1.56");
}

#[test]
fn insert_rust_version_in_empty_three_component() {
    let mut manifest = parse(PLAIN);
    insert_new_msrv(&mut manifest, &BareVersion::ThreeComponents(1, 56, 1)).unwrap();
    assert_eq!(manifest["package"]["rust-version"].as_str().unwrap(), "1.56.1");
}

#[test]
fn insert_metadata_msrv_in_empty_two_component() {
    let mut manifest = parse(PLAIN);
    insert_new_msrv(&mut manifest, &BareVersion::TwoComponents(1, 10)).unwrap();
    assert_eq!(manifest["package"]["metadata"]["msrv"].as_str().unwrap(), "1.10");
}

#[test]
fn insert_metadata_msrv_in_empty_three_component() {
    let mut manifest = parse(PLAIN);
    insert_new_msrv(&mut manifest, &BareVersion::ThreeComponents(1, 10, 1)).unwrap();
    assert_eq!(manifest["package"]["metadata"]["msrv"].as_str().unwrap(), "1.10.1");
}

const METADATA_MSRV: BareVersion = BareVersion::TwoComponents(1, 55);

fn is_string(item: &Item, expected: &str) -> bool {
    matches!(item, Item::Value(Value::String(s)) if s.value() == expected)
}

#[test]
fn insert_without_preexisting_table() {
    let mut manifest = parse(PLAIN);
    insert_new_msrv(&mut manifest, &METADATA_MSRV).unwrap();
    let metadata = &manifest["package"]["metadata"];
    assert!(matches!(metadata, Item::Table(_)));
    assert!(is_string(&metadata["msrv"], "1.55"));
}

#[test]
fn insert_with_preexisting_rust_version() {
    let input = r#"[package]
name = "package_name"
version = "0.1.0"
edition = "2021"
rust-version = "1.56"

[dependencies]
"#;
    let mut manifest = parse(input);
    insert_new_msrv(&mut manifest, &METADATA_MSRV).unwrap();
    let metadata = &manifest["package"]["metadata"];
    assert!(matches!(metadata, Item::Table(_)));
    assert!(is_string(&metadata["msrv"], "1.55"));
}

#[test]
fn insert_with_preexisting_package_metadata_msrv_regular_table() {
    let input = r#"[package]
name = "package_name"
version = "0.1.0"
edition = "2021"

[package.metadata]
msrv = "1.54"

[dependencies]
"#;
    let mut manifest = parse(input);
    insert_new_msrv(&mut manifest, &METADATA_MSRV).unwrap();
    let metadata = &manifest["package"]["metadata"];
    assert!(matches!(metadata, Item::Table(_)));
    assert!(is_string(&metadata["msrv"], "1.55"));
}

#[test]
fn insert_with_preexisting_package_metadata_msrv_inline_table() {
    let input = r#"[package]
name = "package_name"
version = "0.1.0"
edition = "2021"
metadata = { msrv = "1.54" }

[dependencies]
"#;
    let mut manifest = parse(input);
    insert_new_msrv(&mut manifest, &METADATA_MSRV).unwrap();
    let metadata = &manifest["package"]["metadata"];
    assert!(matches!(metadata, Item::Value(Value::InlineTable(_))));
    assert!(is_string(&metadata["msrv"], "1.55"));
}

#[test]
fn insert_with_preexisting_package_metadata_but_no_msrv() {
    let input = r#"[package]
name = "package_name"
version = "0.1.0"
edition = "2021"
metadata = { k = "1.54" }

[dependencies]
"#;
    let mut manifest = parse(input);
    insert_new_msrv(&mut manifest, &METADATA_MSRV).unwrap();
    let metadata = &manifest["package"]["metadata"];
    assert!(matches!(metadata, Item::Value(Value::InlineTable(_))));
    assert!(is_string(&metadata["msrv"], "1.55"));
    assert!(is_string(&metadata["k"], "1.54"));
}

#[test]
fn set_and_reparse() {
    let mut manifest = parse(PLAIN);
    insert_new_msrv(&mut manifest, &METADATA_MSRV).unwrap();
    let output = render_document(&manifest);
    let reparsed = parse(&output);
    assert_eq!(minimum_rust_version_text(&reparsed), Some("1.55".to_string()));
}

#[test]
fn set_then_read_gives_the_msrv() {
    for (msrv, text) in [
        (BareVersion::TwoComponents(1, 56), "1.56"),
        (BareVersion::ThreeComponents(1, 70, 2), "1.70.2"),
        (BareVersion::TwoComponents(1, 31), "1.31"),
        (BareVersion::ThreeComponents(1, 2, 3), "1.2.3"),
    ] {
        let input = r#"[package]
name = "x"
rust-version = "1.60"
metadata = { msrv = "1.40", other = 1 }
"#;
        let mut manifest = parse(input);
        set_or_override_msrv(&mut manifest, &msrv).unwrap();
        assert_eq!(minimum_rust_version_text(&manifest), Some(text.to_string()));
    }
}

#[test]
fn check_workspace_refuses_a_virtual_workspace() {
    let manifest = parse("[workspace]\nmembers = [\"a\"]\n");
    assert!(matches!(check_workspace(&manifest), Err(CargoMSRVError::WorkspaceFound)));
    let manifest = parse("[package]\nname = \"a\"\n\n[workspace]\n");
    assert!(check_workspace(&manifest).is_ok());
    let manifest = parse("");
    assert!(check_workspace(&manifest).is_ok());
}

#[test]
fn set_msrv_in_manifest_writes_rust_version() {
    let doc = set_msrv_in_manifest("[package]", &BareVersion::ThreeComponents(2, 0, 5)).unwrap();
    assert_eq!(render_document(&doc), "[package]\nrust-version = \"2.0.5\"\n");
}

#[test]
fn set_msrv_in_manifest_errors() {
    assert!(matches!(
        set_msrv_in_manifest("[package", &BareVersion::TwoComponents(1, 60)),
        Err(CargoMSRVError::ParseToml)
    ));
    assert!(matches!(
        set_msrv_in_manifest("[workspace]\n", &BareVersion::TwoComponents(1, 60)),
        Err(CargoMSRVError::WorkspaceFound)
    ));
    assert!(matches!(
        set_msrv_in_manifest("package = 1\n", &BareVersion::TwoComponents(1, 60)),
        Err(CargoMSRVError::SetMsrv(SetMsrvError::PackageNotATable))
    ));
    assert!(matches!(
        set_msrv_in_manifest("[package]\nmetadata = 3\n", &BareVersion::TwoComponents(1, 20)),
        Err(CargoMSRVError::SetMsrv(SetMsrvError::NotATable))
    ));
}

#[test]
fn set_release_in_index() {
    let index = vec![Version::new(2, 0, 5)];
    let doc = write_msrv("[package]", BareVersion::ThreeComponents(2, 0, 5), Some(&index)).unwrap();
    assert_eq!(render_document(&doc), "[package]\nrust-version = \"2.0.5\"\n");
}

#[test]
fn fail_to_set_release_not_in_index() {
    let index: Vec<Version> = vec![];
    let err = write_msrv("[package]", BareVersion::ThreeComponents(2, 0, 5), Some(&index))
        .unwrap_err();
    assert!(matches!(err, CargoMSRVError::InvalidMsrvSet(_)));
}

#[test]
fn set_release_without_index_check() {
    let doc = write_msrv("[package]", BareVersion::ThreeComponents(2, 0, 5), None).unwrap();
    assert_eq!(render_document(&doc), "[package]\nrust-version = \"2.0.5\"\n");
}
