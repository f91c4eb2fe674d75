//! Writing a toolchain file, unless the crate already has one.
use vstd::prelude::*;
use crate::version::{Version, version_text};
use crate::writer::toolchain_file::{format_toolchain_file, toolchain_file_text};

verus! {

/// What to do about the toolchain file of a crate.
#[derive(Debug)]
pub enum ToolchainFilePlan {
    /// Leave the crate alone: it already has this toolchain file. The message says so.
    Keep { existing: &'static str, message: String },
    /// Write this content to the toolchain file without extension.
    Write { file: &'static str, content: String },
}

/// The message shown when a toolchain file is left alone.
pub open spec fn already_exists_message(file: Seq<char>) -> Seq<char> {
    "Not writing toolchain file, '"@ + file + "' already exists"@
}

fn already_exists(file: &'static str) -> (s: String)
    ensures
        s@ == already_exists_message(file@),
{
    let mut s = String::from_str("Not writing toolchain file, '");
    s.append(file);
    s.append("' already exists");
    s
}

/// Decides about the toolchain file that pins a crate to `stable_version`: a crate with a
/// `rust-toolchain` or a `rust-toolchain.toml` file keeps it (the one without extension is
/// named when both exist); otherwise `rust-toolchain` is written with the version as channel.
pub fn write_toolchain_file(
    stable_version: &Version,
    without_extension_exists: bool,
    with_extension_exists: bool,
) -> (plan: ToolchainFilePlan)
    ensures
        without_extension_exists ==> (plan matches ToolchainFilePlan::Keep { existing, message }
            && existing@ == "rust-toolchain"@ && message@ == already_exists_message(existing@)),
        !without_extension_exists && with_extension_exists ==> (
        plan matches ToolchainFilePlan::Keep { existing, message } && existing@
            == "rust-toolchain.toml"@ && message@ == already_exists_message(existing@)),
        !without_extension_exists && !with_extension_exists ==> (
        plan matches ToolchainFilePlan::Write { file, content } && file@ == "rust-toolchain"@
            && content@ == toolchain_file_text(version_text(*stable_version))),
{
    if without_extension_exists {
        let existing = "rust-toolchain";
        ToolchainFilePlan::Keep { existing, message: already_exists(existing) }
    } else if with_extension_exists {
        let existing = "rust-toolchain.toml";
        ToolchainFilePlan::Keep { existing, message: already_exists(existing) }
    } else {
        let channel = stable_version.to_text();
        ToolchainFilePlan::Write {
            file: "rust-toolchain",
            content: format_toolchain_file(channel.as_str()),
        }
    }
}

} // verus!
