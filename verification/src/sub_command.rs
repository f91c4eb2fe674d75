//! The sub-commands of the tool: finding, verifying, setting and showing the MSRV.
pub mod find;
pub mod set;
pub mod show;
pub mod verify;
