//! EPP extensions.

pub mod secdns;
