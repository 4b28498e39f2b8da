use vstd::prelude::*;

use crate::address::Address;

verus! {

/// A datagram payload together with the peer it comes from or goes to.
#[derive(Debug)]
pub struct Packet {
    address: Address,
    payload: Vec<u8>,
}

impl View for Packet {
    type V = (Address, Seq<u8>);

    closed spec fn view(&self) -> (Address, Seq<u8>) {
        (self.address, self.payload@)
    }
}

impl Packet {
    /// A packet for `address` that carries `payload`.
    pub fn new(address: Address, payload: Vec<u8>) -> (packet: Packet)
        ensures
            packet@ == (address, payload@),
    {
        Packet { address, payload }
    }

    /// The peer of the packet.
    pub fn address(&self) -> (address: Address)
        ensures
            address == self@.0,
    {
        self.address
    }

    /// The bytes the packet carries.
    pub fn payload(&self) -> (payload: &[u8])
        ensures
            payload@ == self@.1,
    {
        self.payload.as_slice()
    }
}

} // verus!
