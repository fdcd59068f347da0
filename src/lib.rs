//! Post-processing of built binaries for a Debian package: stripping, splitting
//! debug information into detached files, and naming those files.
pub mod cargo_args;
pub mod identity;
pub mod model;
pub mod naming;
pub mod strip;
pub mod triple;
