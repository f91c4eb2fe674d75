//! The `rust-toolchain` file that pins a crate to its MSRV.
use vstd::prelude::*;
use crate::version::{Version, version_text};

verus! {

/// The toolchain file without extension, which rustup prefers.
pub const TOOLCHAIN_FILE: &'static str = "rust-toolchain";

/// The toolchain file with a `.toml` extension.
pub const TOOLCHAIN_FILE_TOML: &'static str = "rust-toolchain.toml";

/// The contents of a toolchain file that pins the toolchain to `channel`.
pub open spec fn toolchain_file_text(channel: Seq<char>) -> Seq<char> {
    "[toolchain]\nchannel = \""@ + channel + "\"\n"@
}

/// The contents of a toolchain file that pins the toolchain to `channel`.
pub fn format_toolchain_file(channel: &str) -> (s: String)
    ensures
        s@ == toolchain_file_text(channel@),
{
    let mut s = String::from_str("[toolchain]\nchannel = \"");
    s.append(channel);
    s.append("\"\n");
    s
}

/// Which toolchain file to write in a crate's root, given which of the two already exist: an
/// existing file without extension, else an existing `.toml` one, else a new file without
/// extension.
pub fn toolchain_file(without_extension_exists: bool, with_extension_exists: bool) -> (name:
    &'static str)
    ensures
        name@ == (if without_extension_exists || !with_extension_exists {
            "rust-toolchain"@
        } else {
            "rust-toolchain.toml"@
        }),
{
    // Without extension variant has precedence over with extension variant
    if without_extension_exists {
        TOOLCHAIN_FILE
    } else if with_extension_exists {
        TOOLCHAIN_FILE_TOML
    } else {
        TOOLCHAIN_FILE
    }
}


/// What to write to pin a crate to its MSRV: the channel written into this file of the crate's
/// root.
#[derive(Debug)]
pub struct ToolchainFileWrite {
    pub file: &'static str,
    pub content: String,
}

/// The toolchain file that pins a crate to `stable_version`, given which of the two toolchain
/// files already exist: the channel replaces the contents of an existing file without
/// extension, else of an existing `.toml` one, else goes into a new file without extension.
/// The other file is left as it is.
pub fn write_toolchain_file(
    stable_version: &Version,
    without_extension_exists: bool,
    with_extension_exists: bool,
) -> (w: ToolchainFileWrite)
    ensures
        w.file@ == (if without_extension_exists || !with_extension_exists {
            "rust-toolchain"@
        } else {
            "rust-toolchain.toml"@
        }),
        w.content@ == toolchain_file_text(version_text(*stable_version)),
{
    let file = toolchain_file(without_extension_exists, with_extension_exists);
    let channel = stable_version.to_text();
    ToolchainFileWrite { file, content: format_toolchain_file(channel.as_str()) }
}

} // verus!
