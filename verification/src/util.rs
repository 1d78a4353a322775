//! Helpers shared by the modules of the crate.

pub mod bytes;
