//! Toolchain specifications.
use cargo_msrv::toolchain::{make_toolchain_spec, OwnedToolchainSpec, ToolchainSpec};
use cargo_msrv::version::Version;

#[test]
fn toolchain_get_spec() {
    let version = Version::new(1, 2, 3);
    let toolchain = ToolchainSpec::new(&version, "x");
    assert_eq!(toolchain.spec(), "1.2.3-x");

    let toolchain = OwnedToolchainSpec::new(&version, "x");
    assert_eq!(toolchain.spec(), "1.2.3-x");
}

#[test]
fn toolchain_get_version() {
    let version = Version::new(1, 2, 3);
    let toolchain = ToolchainSpec::new(&version, "x");
    assert_eq!(toolchain.version(), &version);

    let toolchain = OwnedToolchainSpec::new(&version, "x");
    assert_eq!(toolchain.version(), &version);
}

#[test]
fn toolchain_get_target() {
    let version = Version::new(1, 2, 3);
    let toolchain = ToolchainSpec::new(&version, "x");
    assert_eq!(toolchain.target(), "x");

    let toolchain = OwnedToolchainSpec::new(&version, "x");
    assert_eq!(toolchain.target(), "x");
}

#[test]
fn to_owned() {
    let version = Version::new(1, 2, 3);
    let toolchain = ToolchainSpec::new(&version, "x");
    let owned = toolchain.to_owned();
    let expected = OwnedToolchainSpec::new(&version, "x");
    assert_eq!(owned, expected);
}

#[test]
fn into() {
    let version = Version::new(1, 2, 3);
    let toolchain = ToolchainSpec::new(&version, "x");
    let owned: OwnedToolchainSpec = toolchain.into();
    let expected = OwnedToolchainSpec::new(&version, "x");
    assert_eq!(owned, expected);
}

#[test]
fn display() {
    let version = Version::new(1, 2, 3);
    let toolchain = OwnedToolchainSpec::new(&version, "x");
    let formatted = toolchain.to_text();
    assert_eq!(formatted, toolchain.spec());
    assert_eq!(&formatted, "1.2.3-x");
}

#[test]
fn make_spec() {
    let version = Version::new(1, 2, 3);
    let spec = make_toolchain_spec(&version, "y");
    assert_eq!(spec, "1.2.3-y");
}

#[test]
fn make_spec_multi_digit_components() {
    let version = Version::new(10, 203, 0);
    assert_eq!(make_toolchain_spec(&version, "x86_64-unknown-linux-gnu"), "10.203.0-x86_64-unknown-linux-gnu");
}
