//! The address of a peer as the host passes it: an IPv4 address and a port.
use vstd::prelude::*;

verus! {

/// An IPv4 socket address in the layout that the host uses.
#[derive(Debug, Clone, Copy)]
pub struct IpAddr {
    port: u16,
    address: [u8; 4],
}

impl View for IpAddr {
    type V = (Seq<u8>, u16);

    /// The four bytes of the address, most significant first, and the port.
    closed spec fn view(&self) -> (Seq<u8>, u16) {
        (self.address@, self.port)
    }
}

impl IpAddr {
    /// The address with the given bytes and port.
    pub fn new(address: [u8; 4], port: u16) -> (addr: IpAddr)
        ensures
            addr@ == (address@, port),
    {
        IpAddr { port, address }
    }

    /// The four bytes of the address, most significant first.
    pub fn octets(&self) -> (octets: [u8; 4])
        ensures
            octets@ == self@.0,
    {
        self.address
    }

    /// The port.
    pub fn port(&self) -> (port: u16)
        ensures
            port == self@.1,
    {
        self.port
    }
}

/// The layout of the host loses nothing of an IPv4 socket address: it holds four
/// bytes and a port, and two addresses with the same bytes and port are the same.
pub proof fn lemma_address_round_trip(first: IpAddr, second: IpAddr)
    ensures
        first@.0.len() == 4,
        first@ == second@ ==> first == second,
{
    if first@ == second@ {
        assert(first.address@ == second.address@);
        assert(first.address == second.address);
    }
}

} // verus!
