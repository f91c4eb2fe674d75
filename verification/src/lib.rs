//! Finding, verifying and recording the Minimum Supported Rust Version (MSRV) of a crate.
//!
//! The library holds the decisions of the tool: which Rust releases are searched, how the
//! bisection and linear searches walk them, which manifest keys are written, and how progress
//! and actions are reported. Running toolchains, reading files and printing are left to the
//! caller, which feeds their outcomes back into these functions.
use vstd::prelude::*;

pub mod error;
pub mod manifest;
pub mod releases;
pub mod search_methods;
pub mod storyteller;
pub mod sub_command;
pub mod testing;
pub mod text;
pub mod toolchain;
pub mod toolchain_file;
pub mod typed_bool;
pub mod version;
pub mod writer;

verus! {

} // verus!
