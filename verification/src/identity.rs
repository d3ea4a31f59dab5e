use vstd::prelude::*;

verus! {

/// The unique address of a connected peer: an IPv4 address in numeric form
/// together with the peer's TCP port. Immutable once assigned; used as the
/// registry key.
#[derive(Clone, Copy, PartialEq, Eq, Structural, Debug)]
pub struct ConnId {
    pub ip: u32,
    pub port: u16,
}

} // verus!
