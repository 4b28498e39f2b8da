use vstd::prelude::*;

verus! {

/// The address of a peer: an IP address and a port. Two addresses are the same
/// peer exactly when all their parts agree.
#[derive(Clone, Copy, Debug, PartialEq, Eq, Structural, Hash)]
pub enum Address {
    V4 { ipv4: u32, port: u16 },
    V6 { ipv6: u128, port: u16, flowinfo: u32, scope_id: u32 },
}

} // verus!
