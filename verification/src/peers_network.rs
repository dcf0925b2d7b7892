//! The peers a node knows about: each one's network address and a connection
//! to it.

use vstd::prelude::*;

verus! {

/// A network address: an IPv4 address and a port, or an IPv6 address, a
/// port, a flow label and a scope. Two addresses are equal when all their
/// parts are.
#[derive(Clone, Copy, Debug, PartialEq, Eq, Structural)]
pub enum PeerAddr {
    V4 { ipv4: u32, port: u16 },
    V6 { ipv6: u128, port: u16, flowinfo: u32, scope_id: u32 },
}

/// A peer: its address and the connection `C` through which it is reached.
pub struct Peer<C> {
    pub addr: PeerAddr,
    pub connection: C,
}

impl<C> Peer<C> {
    /// A peer at `addr` reached through `connection`.
    pub fn new(addr: PeerAddr, connection: C) -> (r: Peer<C>)
        ensures
            r.addr == addr,
            r.connection == connection,
    {
        Peer { addr, connection }
    }
}

/// The addresses of `peers`, in order.
pub open spec fn addresses<C>(peers: Seq<Peer<C>>) -> Seq<PeerAddr> {
    peers.map_values(|p: Peer<C>| p.addr)
}

/// Whether `i` is the first position of `peers` whose address is `addr`.
pub open spec fn first_at<C>(peers: Seq<Peer<C>>, addr: PeerAddr, i: int) -> bool {
    &&& 0 <= i < peers.len()
    &&& peers[i].addr == addr
    &&& forall|j: int| 0 <= j < i ==> (#[trigger] peers[j]).addr != addr
}

/// `peers` without the first peer whose address is `addr`; `peers` itself
/// when no peer has that address.
pub open spec fn without_first<C>(peers: Seq<Peer<C>>, addr: PeerAddr) -> Seq<Peer<C>> {
    if exists|i: int| first_at(peers, addr, i) {
        peers.remove(choose|i: int| first_at(peers, addr, i))
    } else {
        peers
    }
}

/// The peers of a node, in the order in which they were added.
pub struct PeersNetwork<C> {
    peers: Vec<Peer<C>>,
}

impl<C> View for PeersNetwork<C> {
    type V = Seq<Peer<C>>;

    closed spec fn view(&self) -> Seq<Peer<C>> {
        self.peers@
    }
}

impl<C> PeersNetwork<C> {
    /// A network with no peers.
    pub fn new() -> (r: PeersNetwork<C>)
        ensures
            r@ == Seq::<Peer<C>>::empty(),
    {
        PeersNetwork { peers: Vec::new() }
    }

    /// The addresses of the peers, in order.
    pub fn peers(&self) -> (r: Vec<PeerAddr>)
        ensures
            r@ == addresses(self@),
    {
        let mut out: Vec<PeerAddr> = Vec::new();
        let mut i: usize = 0;
        while i < self.peers.len()
            invariant
                0 <= i <= self.peers@.len(),
                out@ == addresses(self.peers@.subrange(0, i as int)),
            decreases self.peers@.len() - i,
        {
            out.push(self.peers[i].addr);
            i = i + 1;
            assert(out@ =~= addresses(self.peers@.subrange(0, i as int)));
        }
        assert(self.peers@.subrange(0, i as int) =~= self.peers@);
        out
    }

    /// Adds `peer` after the others.
    pub fn add(&mut self, peer: Peer<C>)
        ensures
            final(self)@ == old(self)@.push(peer),
    {
        self.peers.push(peer);
    }

    /// Removes the first peer whose address is `addr`, if there is one.
    pub fn remove(&mut self, addr: PeerAddr)
        ensures
            final(self)@ == without_first(old(self)@, addr),
    {
        let mut i: usize = 0;
        while i < self.peers.len()
            invariant
                0 <= i <= self.peers@.len(),
                self.peers@ == old(self)@,
                forall|j: int| 0 <= j < i ==> (#[trigger] self.peers@[j]).addr != addr,
            decreases self.peers@.len() - i,
        {
            if self.peers[i].addr == addr {
                proof {
                    let s = self.peers@;
                    assert(first_at(s, addr, i as int));
                    let k = choose|k: int| first_at(s, addr, k);
                    if k < i {
                        assert(s[k].addr != addr);
                    }
                    if i < k {
                        assert(s[i as int].addr != addr);
                    }
                }
                self.peers.remove(i);
                return;
            }
            i = i + 1;
        }
    }

    /// The peers themselves, to be worked on in place.
    pub fn peers_mut(&mut self) -> (r: &mut Vec<Peer<C>>)
        ensures
            r@ == old(self)@,
            final(self)@ == final(r)@,
    {
        &mut self.peers
    }
}

/// Removing the address of a peer that was just added to a network where no
/// peer had that address gives the network back.
pub proof fn law_remove_undoes_add<C>(peers: Seq<Peer<C>>, peer: Peer<C>)
    requires
        forall|i: int| 0 <= i < peers.len() ==> (#[trigger] peers[i]).addr != peer.addr,
    ensures
        without_first(peers.push(peer), peer.addr) == peers,
{
    let grown = peers.push(peer);
    let n = peers.len() as int;
    assert forall|j: int| 0 <= j < n implies (#[trigger] grown[j]).addr != peer.addr by {
        assert(grown[j] == peers[j]);
    }
    assert(first_at(grown, peer.addr, n));
    let k = choose|k: int| first_at(grown, peer.addr, k);
    if k < n {
        assert(grown[k].addr != peer.addr);
    }
    assert(grown.remove(n) =~= peers);
}

/// Adding a peer puts its address after the others.
pub proof fn law_add_appends_address<C>(peers: Seq<Peer<C>>, peer: Peer<C>)
    ensures
        addresses(peers.push(peer)) == addresses(peers).push(peer.addr),
{
    assert(addresses(peers.push(peer)) =~= addresses(peers).push(peer.addr));
}

} // verus!
