//! Items shared by all EPP commands.
use vstd::prelude::*;

verus! {

/// XML namespace of the EPP envelope and its command elements.
pub const EPP_XMLNS: &'static str = "urn:ietf:params:xml:ns:epp-1.0";

} // verus!
