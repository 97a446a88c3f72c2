//! Request and extension data types for the Extensible Provisioning Protocol
//! (EPP, RFC 5730): contact and host commands and the DNS security extension.

pub mod common;
pub mod contact;
pub mod extensions;
pub mod host;
