//! Build-time extraction of a package's semantic version, and the code
//! fragments that turn it into constant expressions.

pub mod emit;
pub mod error;
pub mod input;
pub mod laws;
pub mod macros;
pub mod number;
pub mod semver_compat;
pub mod split;
pub mod version;
