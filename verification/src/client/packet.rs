use vstd::prelude::*;

verus! {

/// The payload of a datagram exchanged with the server.
#[derive(Debug)]
pub struct Packet {
    payload: Vec<u8>,
}

impl View for Packet {
    type V = Seq<u8>;

    closed spec fn view(&self) -> Seq<u8> {
        self.payload@
    }
}

impl Packet {
    /// A packet that carries `payload`.
    pub fn new(payload: Vec<u8>) -> (packet: Packet)
        ensures
            packet@ == payload@,
    {
        Packet { payload }
    }

    /// A packet made from a payload the socket has read.
    pub(crate) fn new_raw(payload: Vec<u8>) -> (packet: Packet)
        ensures
            packet@ == payload@,
    {
        Packet { payload }
    }

    /// The bytes the packet carries.
    pub fn payload(&self) -> (payload: &[u8])
        ensures
            payload@ == self@,
    {
        self.payload.as_slice()
    }
}

} // verus!
