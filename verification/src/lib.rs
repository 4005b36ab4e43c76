//! Provisioning engine for an isolated Python package environment.
//!
//! The crate covers manifest parsing, interpreter version detection,
//! platform-aware path resolution, a staged provisioning sequence driven
//! as a state machine, and package-import verification with a three-tier
//! name-resolution fallback.

pub mod assets;
pub mod error;
pub mod imports;
pub mod manifest;
pub mod paths;
pub mod provision;
pub mod version;
pub mod text;
