use blockchain::peers_network::{Peer, PeerAddr, PeersNetwork};
use blockchain::service::{MyServer, WorldService};

fn addr(port: u16) -> PeerAddr {
    PeerAddr::V4 { ipv4: 0x7f00_0001, port }
}

#[test]
fn peers_are_listed_in_order_of_addition() {
    let mut net: PeersNetwork<u8> = PeersNetwork::new();
    assert!(net.peers().is_empty());
    net.add(Peer::new(addr(1), 10));
    net.add(Peer::new(addr(2), 20));
    net.add(Peer::new(addr(1), 30));
    assert_eq!(net.peers(), vec![addr(1), addr(2), addr(1)]);
}

#[test]
fn remove_drops_only_the_first_peer_with_the_address() {
    let mut net: PeersNetwork<u8> = PeersNetwork::new();
    net.add(Peer::new(addr(1), 10));
    net.add(Peer::new(addr(2), 20));
    net.add(Peer::new(addr(1), 30));
    net.remove(addr(1));
    assert_eq!(net.peers(), vec![addr(2), addr(1)]);
    assert_eq!(net.peers_mut()[1].connection, 30);
    net.remove(addr(9));
    assert_eq!(net.peers(), vec![addr(2), addr(1)]);
}

#[test]
fn remove_undoes_add_of_a_new_address() {
    let mut net: PeersNetwork<u8> = PeersNetwork::new();
    net.add(Peer::new(addr(1), 10));
    let v6 = PeerAddr::V6 { ipv6: 1, port: 80, flowinfo: 0, scope_id: 0 };
    net.add(Peer::new(v6, 20));
    net.remove(v6);
    assert_eq!(net.peers(), vec![addr(1)]);
}

#[test]
fn peers_can_be_worked_on_in_place() {
    let mut net: PeersNetwork<u8> = PeersNetwork::new();
    net.add(Peer::new(addr(1), 10));
    for p in net.peers_mut().iter_mut() {
        p.connection += 1;
    }
    assert_eq!(net.peers_mut()[0].connection, 11);
}

#[test]
fn hello_greets_by_name_and_shows_the_client() {
    let server = MyServer { client: "127.0.0.1:4000".to_string() };
    assert_eq!(server.hello("bob".to_string()), "[127.0.0.1:4000]: Hello, bob!");
}
