//! Types for EPP contact requests (RFC 5733).
use vstd::prelude::*;

pub mod delete;

verus! {

/// XML namespace of the EPP contact mapping.
pub const XMLNS: &'static str = "urn:ietf:params:xml:ns:contact-1.0";

} // verus!
