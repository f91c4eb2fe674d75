//! The toolchain file: which file is written, and what goes into it.
use cargo_msrv::storyteller::event::{AuxiliaryOutput, AuxiliaryOutputItem, ToolchainFileKind};
use cargo_msrv::toolchain_file::{write_toolchain_file as keep_or_write, ToolchainFilePlan};
use cargo_msrv::version::Version;
use cargo_msrv::writer::toolchain_file::{
    format_toolchain_file, toolchain_file, write_toolchain_file,
};

#[test]
fn without_extension() {
    assert_eq!(toolchain_file(true, false), "rust-toolchain");
}

#[test]
fn with_extension() {
    assert_eq!(toolchain_file(false, true), "rust-toolchain.toml");
}

#[test]
fn default() {
    assert_eq!(toolchain_file(false, false), "rust-toolchain");
}

#[test]
fn toolchain_file_prefers_without_extension() {
    assert_eq!(toolchain_file(true, true), "rust-toolchain");
}

#[test]
fn values_which_impl_display() {
    let expected = "[toolchain]\nchannel = \"1.36.0\"\n";
    assert_eq!(format_toolchain_file("1.36.0"), expected);
    assert_eq!(format_toolchain_file(&Version::new(1, 36, 0).to_text()), expected);
}

#[test]
fn no_toolchain_file_yet() {
    // Neither file exists: a new `rust-toolchain` is written, and no `.toml` one.
    let plan = write_toolchain_file(&Version::new(1, 22, 44), false, false);
    assert_eq!(plan.file, "rust-toolchain");
    assert_ne!(plan.file, "rust-toolchain.toml");
    assert_eq!(plan.content, "[toolchain]\nchannel = \"1.22.44\"\n");

    let event = AuxiliaryOutput::toolchain_file("crate/rust-toolchain".to_string());
    assert_eq!(event.destination, "crate/rust-toolchain");
    assert_eq!(event.item, AuxiliaryOutputItem::ToolchainFile { kind: ToolchainFileKind::Toml });
}

#[test]
fn pre_existing_without_extension() {
    // The existing file is overwritten with the new channel.
    let plan = write_toolchain_file(&Version::new(1, 33, 55), true, false);
    assert_eq!(plan.file, "rust-toolchain");
    assert_eq!(plan.content, "[toolchain]\nchannel = \"1.33.55\"\n");
}

#[test]
fn pre_existing_with_extension() {
    // The existing `.toml` file is overwritten; no file without extension is written.
    let plan = write_toolchain_file(&Version::new(1, 44, 66), false, true);
    assert_eq!(plan.file, "rust-toolchain.toml");
    assert_eq!(plan.content, "[toolchain]\nchannel = \"1.44.66\"\n");
}

#[test]
fn without_extension_takes_precedence() {
    // Both exist: the file without extension gets the channel, the `.toml` one is untouched.
    let plan = write_toolchain_file(&Version::new(1, 55, 77), true, true);
    assert_eq!(plan.file, "rust-toolchain");
    assert_ne!(plan.file, "rust-toolchain.toml");
    assert_eq!(plan.content, "[toolchain]\nchannel = \"1.55.77\"\n");
}

#[test]
fn output_toolchain_file_keeps_an_existing_file() {
    let version = Version::new(1, 22, 44);
    match keep_or_write(&version, true, true) {
        ToolchainFilePlan::Keep { existing, message } => {
            assert_eq!(existing, "rust-toolchain");
            assert_eq!(message, "Not writing toolchain file, 'rust-toolchain' already exists");
        }
        _ => panic!("expected to keep the file"),
    }
    match keep_or_write(&version, false, true) {
        ToolchainFilePlan::Keep { existing, message } => {
            assert_eq!(existing, "rust-toolchain.toml");
            assert_eq!(message, "Not writing toolchain file, 'rust-toolchain.toml' already exists");
        }
        _ => panic!("expected to keep the file"),
    }
}

#[test]
fn output_toolchain_file_writes_a_new_file() {
    match keep_or_write(&Version::new(1, 22, 44), false, false) {
        ToolchainFilePlan::Write { file, content } => {
            assert_eq!(file, "rust-toolchain");
            assert_eq!(content, "[toolchain]\nchannel = \"1.22.44\"\n");
        }
        _ => panic!("expected to write the file"),
    }
}
