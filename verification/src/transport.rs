use vstd::prelude::*;

verus! {

/// A socket address as negotiation records it: the host address text and
/// the port. The surrounding process resolves and formats real socket
/// addresses; this core only stores and writes them.
pub struct SocketAddress {
    pub address: String,
    pub port: u16,
}

/// The mathematical value of a [`SocketAddress`].
#[verifier::ext_equal]
pub struct SocketAddressView {
    pub address: Seq<char>,
    pub port: u16,
}

impl View for SocketAddress {
    type V = SocketAddressView;

    open spec fn view(&self) -> SocketAddressView {
        SocketAddressView { address: self.address@, port: self.port }
    }
}

impl SocketAddress {
    pub fn new(address: String, port: u16) -> (r: SocketAddress)
        ensures
            r@.address == address@,
            r@.port == port,
    {
        SocketAddress { address, port }
    }

    pub fn clone(&self) -> (r: SocketAddress)
        ensures
            r@ == self@,
    {
        SocketAddress { address: self.address.clone(), port: self.port }
    }

    /// The text key this address is indexed by in the security-context
    /// tables: the host text, a colon, and the decimal port.
    pub fn key(&self) -> (r: String)
        ensures
            r@ == address_key(self@),
    {
        let mut s = self.address.clone();
        s.append(":");
        let p = crate::marshal::u64_to_string(self.port as u64);
        s.append(p.as_str());
        proof {
            assert(s@ =~= address_key(self@));
        }
        s
    }
}

/// The table key of an address: host text, colon, decimal port.
pub open spec fn address_key(a: SocketAddressView) -> Seq<char> {
    a.address + ":"@ + crate::marshal::dec_str(a.port as nat)
}

/// The transport pair a datagram arrived on: this side's address and the
/// peer's.
pub struct TransportContext {
    pub local_addr: SocketAddress,
    pub peer_addr: SocketAddress,
}

/// The mathematical value of a [`TransportContext`].
#[verifier::ext_equal]
pub struct TransportContextView {
    pub local_addr: SocketAddressView,
    pub peer_addr: SocketAddressView,
}

impl View for TransportContext {
    type V = TransportContextView;

    open spec fn view(&self) -> TransportContextView {
        TransportContextView { local_addr: self.local_addr@, peer_addr: self.peer_addr@ }
    }
}

} // verus!
