//! Events: actions that start and end, progress towards a total, and output written besides
//! what is shown to the user.
pub mod action;
pub mod progress;

use vstd::prelude::*;
use self::action::Action;
use self::progress::Progression;

verus! {

/// What the tool reports to its user while it runs.
pub enum Event {
    Progress(Progression),
    Todo(String),
    Action(Action),
    AuxiliaryOutput(AuxiliaryOutput),
}

/// The kind of a toolchain file that was written.
#[derive(Clone, Copy, Debug, PartialEq, Eq, Structural)]
pub enum ToolchainFileKind {
    Legacy,
    Toml,
}

/// Where in a manifest an MSRV was written.
#[derive(Clone, Copy, Debug, PartialEq, Eq, Structural)]
pub enum MsrvKind {
    RustVersion,
    MetadataFallback,
}

/// What was written besides the output shown to the user.
#[derive(Clone, Copy, Debug, PartialEq, Eq, Structural)]
pub enum AuxiliaryOutputItem {
    Msrv { kind: MsrvKind },
    ToolchainFile { kind: ToolchainFileKind },
}

/// Output written to a file: the file, and what was written into it.
#[derive(Clone, Debug)]
pub struct AuxiliaryOutput {
    pub destination: String,
    pub item: AuxiliaryOutputItem,
}

impl AuxiliaryOutput {
    pub fn new(destination: String, item: AuxiliaryOutputItem) -> (a: AuxiliaryOutput)
        ensures
            a.destination == destination,
            a.item == item,
    {
        AuxiliaryOutput { destination, item }
    }

    /// A toolchain file was written to the file at `path`.
    pub fn toolchain_file(path: String) -> (a: AuxiliaryOutput)
        ensures
            a.destination == path,
            a.item == (AuxiliaryOutputItem::ToolchainFile { kind: ToolchainFileKind::Toml }),
    {
        AuxiliaryOutput::new(
            path,
            AuxiliaryOutputItem::ToolchainFile { kind: ToolchainFileKind::Toml },
        )
    }

    /// The MSRV was written into the manifest at `path`.
    pub fn msrv(path: String) -> (a: AuxiliaryOutput)
        ensures
            a.destination == path,
            a.item == (AuxiliaryOutputItem::Msrv { kind: MsrvKind::RustVersion }),
    {
        AuxiliaryOutput::new(path, AuxiliaryOutputItem::Msrv { kind: MsrvKind::RustVersion })
    }
}

} // verus!
