//! Writing results back to the crate: the toolchain file and the MSRV in the manifest.
pub mod toolchain_file;
pub mod write_msrv;
