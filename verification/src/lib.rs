//! Platform identification and configuration for a Node version manager.
//!
//! The crate models the closed sets of processor architectures and C-library
//! flavors that name downloadable Node artifacts, corrects one documented
//! host/version incompatibility, and derives the on-disk directory layout
//! that the surrounding tool relies on.

pub mod arch;
pub mod config;
pub mod text;
pub mod version;
