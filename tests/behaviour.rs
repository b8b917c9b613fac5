use std::time::Duration;

use network_libp2p::behaviour::{Behaviour, MAX_LISTEN_ADDRS};
use network_libp2p::discovery::{DiscoveryBehaviour, DiscoveryPoll, INITIAL_DELAY_MS, MAX_DELAY_MS};
use network_libp2p::events::{
    Action, BehaviourOut, CustomProtoOut, IdentifyEvent, IdentifyInfo, KademliaOut, MdnsEvent,
    PingEvent, Severity, SubProtocol, Warning,
};
use network_libp2p::types::{Address, ConnectedPoint, PeerId};

fn peer(n: u8) -> PeerId {
    PeerId::new(vec![0x12, 0x20, n])
}

fn addr(n: u8) -> Address {
    Address::new(vec![4, 127, 0, 0, n])
}

fn behaviour(known: Vec<(PeerId, Address)>) -> Behaviour<u32> {
    Behaviour::new(known, "substrate".to_string(), false, Ok(()), 0)
}

fn info(protocol: &str, n_addrs: usize) -> IdentifyInfo {
    IdentifyInfo {
        public_key: vec![1, 2, 3],
        protocol_version: protocol.to_string(),
        agent_version: "node/1.0".to_string(),
        listen_addrs: (0..n_addrs).map(|i| addr(i as u8)).collect(),
        protocols: vec!["/ipfs/ping/1.0.0".to_string()],
    }
}

fn identified(p: PeerId, i: IdentifyInfo) -> IdentifyEvent {
    IdentifyEvent::Identified { peer_id: p, info: i, observed_addr: addr(200) }
}

#[test]
fn identify_with_45_addresses_keeps_30() {
    let mut b = behaviour(vec![]);
    b.inject_identify_event(identified(peer(2), info("/substrate/1", 45)));
    let actions = b.take_actions();
    assert_eq!(actions.len(), 31);
    for (k, a) in actions[..30].iter().enumerate() {
        match a {
            Action::AddConnectedAddress { peer_id, address } => {
                assert_eq!(*peer_id, peer(2));
                assert_eq!(*address, addr(k as u8));
            }
            other => panic!("unexpected action {:?}", other),
        }
    }
    assert!(matches!(&actions[30], Action::AddDiscoveredNode(p) if *p == peer(2)));
    let warnings = b.take_warnings();
    assert_eq!(warnings.len(), 1);
    assert!(matches!(&warnings[0], Warning::TooManyAddresses { peer_id, reported: 45 } if *peer_id == peer(2)));
    match b.poll() {
        Some(BehaviourOut::Identified { peer_id, info }) => {
            assert_eq!(peer_id, peer(2));
            assert_eq!(info.listen_addrs.len(), MAX_LISTEN_ADDRS);
            assert_eq!(info.listen_addrs.len(), 30);
            assert_eq!(info.listen_addrs[29], addr(29));
            assert_eq!(info.agent_version, "node/1.0");
        }
        other => panic!("unexpected event {:?}", other),
    }
    assert!(b.poll().is_none());
}

#[test]
fn identify_with_30_addresses_keeps_all_without_warning() {
    let mut b = behaviour(vec![]);
    b.inject_identify_event(identified(peer(2), info("/substrate/1", 30)));
    assert_eq!(b.take_actions().len(), 31);
    assert!(b.take_warnings().is_empty());
    assert_eq!(b.pending_events(), 1);
}

#[test]
fn non_matching_protocol_still_identified() {
    let mut b = behaviour(vec![]);
    b.inject_identify_event(identified(peer(2), info("/ipfs/0.1.0", 1)));
    let warnings = b.take_warnings();
    assert_eq!(warnings.len(), 1);
    match &warnings[0] {
        Warning::NonMatchingProtocol { peer_id, protocol_version } => {
            assert_eq!(*peer_id, peer(2));
            assert_eq!(protocol_version, "/ipfs/0.1.0");
        }
        other => panic!("unexpected warning {:?}", other),
    }
    let actions = b.take_actions();
    assert_eq!(actions.len(), 2);
    assert!(matches!(&actions[0], Action::AddConnectedAddress { peer_id, address } if *peer_id == peer(2) && *address == addr(0)));
    assert!(matches!(&actions[1], Action::AddDiscoveredNode(p) if *p == peer(2)));
    assert!(matches!(b.poll(), Some(BehaviourOut::Identified { peer_id, .. }) if peer_id == peer(2)));
}

#[test]
fn both_identify_warnings_in_order() {
    let mut b = behaviour(vec![]);
    b.inject_identify_event(identified(peer(3), info("/other/2", 31)));
    let warnings = b.take_warnings();
    assert_eq!(warnings.len(), 2);
    assert!(matches!(&warnings[0], Warning::NonMatchingProtocol { .. }));
    assert!(matches!(&warnings[1], Warning::TooManyAddresses { reported: 31, .. }));
}

#[test]
fn identify_errors_change_nothing() {
    let mut b = behaviour(vec![]);
    b.inject_identify_event(IdentifyEvent::Error { peer_id: peer(1), error: "timeout".to_string() });
    b.inject_identify_event(IdentifyEvent::SendBack { peer_id: peer(1), result: Err("reset".to_string()) });
    assert_eq!(b.pending_events(), 0);
    assert!(b.take_actions().is_empty());
    assert!(b.take_warnings().is_empty());
}

#[test]
fn drop_node_without_session() {
    let mut b = behaviour(vec![]);
    b.drop_node(&peer(5));
    assert_eq!(b.pending_events(), 0);
    assert!(b.poll().is_none());
    assert!(b.take_warnings().is_empty());
    let actions = b.take_actions();
    assert_eq!(actions.len(), 1);
    assert!(matches!(&actions[0], Action::DisconnectPeer(p) if *p == peer(5)));
}

#[test]
fn poll_on_empty_queue() {
    let mut b = behaviour(vec![(peer(1), addr(1))]);
    assert!(b.poll().is_none());
    assert_eq!(b.pending_events(), 0);
    assert_eq!(b.take_actions().len(), 1);
}

#[test]
fn static_peer_addresses_after_construction() {
    let b = behaviour(vec![(peer(1), addr(1))]);
    assert!(!b.is_mdns_active());
    let list = b.addresses_of_peer(&peer(1), vec![]);
    assert_eq!(list, vec![addr(1)]);
}

#[test]
fn construction_seeds_dht() {
    let mut b = behaviour(vec![(peer(1), addr(1)), (peer(2), addr(2))]);
    let actions = b.take_actions();
    assert_eq!(actions.len(), 2);
    assert!(matches!(&actions[1], Action::AddConnectedAddress { peer_id, address } if *peer_id == peer(2) && *address == addr(2)));
    assert!(b.take_warnings().is_empty());
}

#[test]
fn addresses_static_first_then_dht() {
    let b = behaviour(vec![(peer(1), addr(1)), (peer(2), addr(2)), (peer(1), addr(3))]);
    let list = b.addresses_of_peer(&peer(1), vec![addr(9), addr(8)]);
    assert_eq!(list, vec![addr(1), addr(3), addr(9), addr(8)]);
    assert_eq!(b.addresses_of_peer(&peer(2), vec![]), vec![addr(2)]);
    assert!(b.addresses_of_peer(&peer(7), vec![]).is_empty());
    assert_eq!(b.addresses_of_peer(&peer(7), vec![addr(4)]), vec![addr(4)]);
}

#[test]
fn add_known_address_suppresses_identical_entries() {
    let mut b = behaviour(vec![(peer(1), addr(1))]);
    b.add_known_address(peer(1), addr(1));
    assert_eq!(b.addresses_of_peer(&peer(1), vec![]), vec![addr(1)]);
    b.add_known_address(peer(1), addr(2));
    b.add_known_address(peer(2), addr(1));
    b.add_known_address(peer(2), addr(1));
    assert_eq!(b.addresses_of_peer(&peer(1), vec![]), vec![addr(1), addr(2)]);
    assert_eq!(b.addresses_of_peer(&peer(2), vec![]), vec![addr(1)]);
}

#[test]
fn backoff_doubles_up_to_ceiling() {
    let mut d = DiscoveryBehaviour::new(vec![], 0);
    assert_eq!(d.current_delay(), INITIAL_DELAY_MS);
    let expected = [2000u64, 4000, 8000, 16000, 32000, 60000, 60000, 60000];
    let mut now = 0u64;
    for (n, want) in expected.iter().enumerate() {
        let fired_at = d.next_query_instant();
        now = now.max(fired_at);
        let before = d.current_delay();
        match d.poll(false, now, peer(n as u8)) {
            DiscoveryPoll::RandomQuery(target) => assert_eq!(target, peer(n as u8)),
            _ => panic!("timer should have fired"),
        }
        assert_eq!(d.next_query_instant(), now + before);
        assert_eq!(d.current_delay(), *want);
    }
    assert_eq!(d.current_delay(), MAX_DELAY_MS);
}

#[test]
fn timer_waits_for_deadline() {
    let mut d = DiscoveryBehaviour::new(vec![], 100);
    assert!(matches!(d.poll(false, 99, peer(1)), DiscoveryPoll::NotReady));
    assert_eq!(d.current_delay(), 1000);
    assert!(matches!(d.poll(false, 100, peer(1)), DiscoveryPoll::RandomQuery(_)));
    assert_eq!(d.next_query_instant(), 1100);
    assert!(matches!(d.poll(false, 1099, peer(1)), DiscoveryPoll::NotReady));
}

#[test]
fn ready_dht_output_takes_priority() {
    let mut b = behaviour(vec![]);
    assert!(matches!(b.poll_discovery(true, 5000, peer(1)), DiscoveryPoll::Dht));
    assert!(matches!(b.poll_discovery(false, 5000, peer(1)), DiscoveryPoll::RandomQuery(_)));
}

#[test]
fn deadline_saturates() {
    let mut d = DiscoveryBehaviour::new(vec![], u64::MAX - 10);
    assert!(matches!(d.poll(false, u64::MAX - 10, peer(1)), DiscoveryPoll::RandomQuery(_)));
    assert_eq!(d.next_query_instant(), u64::MAX);
}

#[test]
fn custom_protocol_events_pass_through_in_order() {
    let mut b = behaviour(vec![]);
    let ep = ConnectedPoint::Dialer { address: addr(1) };
    b.inject_custom_event(CustomProtoOut::CustomProtocolOpen { version: 2, peer_id: peer(1), endpoint: ep.clone() });
    b.inject_custom_event(CustomProtoOut::CustomMessage { peer_id: peer(1), endpoint: ep.clone(), message: 77 });
    b.inject_custom_event(CustomProtoOut::Clogged { peer_id: peer(1), messages: vec![1, 2] });
    b.inject_custom_event(CustomProtoOut::CustomProtocolClosed { peer_id: peer(1), endpoint: ep, result: Ok(()) });
    assert!(matches!(b.poll(), Some(BehaviourOut::CustomProtocolOpen { version: 2, .. })));
    assert!(matches!(b.poll(), Some(BehaviourOut::CustomMessage { message: 77, .. })));
    assert!(matches!(b.poll(), Some(BehaviourOut::Clogged { messages, .. }) if messages == vec![1, 2]));
    assert!(matches!(b.poll(), Some(BehaviourOut::CustomProtocolClosed { result: Ok(()), .. })));
    assert!(b.poll().is_none());
}

#[test]
fn ping_success_is_reported() {
    let mut b = behaviour(vec![]);
    b.inject_ping_event(PingEvent::PingSuccess { peer: peer(4), time: Duration::from_millis(12) });
    match b.poll() {
        Some(BehaviourOut::PingSuccess { peer_id, ping_time }) => {
            assert_eq!(peer_id, peer(4));
            assert_eq!(ping_time, Duration::from_millis(12));
        }
        other => panic!("unexpected event {:?}", other),
    }
}

#[test]
fn kademlia_events_register_and_warn() {
    let mut b = behaviour(vec![]);
    b.inject_kademlia_event(KademliaOut::KBucketAdded { peer_id: peer(6), replaced: None });
    b.inject_kademlia_event(KademliaOut::Discovered { peer_id: peer(7), addresses: vec![addr(7)] });
    b.inject_kademlia_event(KademliaOut::FindNodeResult { key: peer(8), closer_peers: vec![] });
    b.inject_kademlia_event(KademliaOut::FindNodeResult { key: peer(9), closer_peers: vec![peer(1)] });
    b.inject_kademlia_event(KademliaOut::GetProvidersResult { key: vec![1], provider_peers: vec![], closer_peers: vec![] });
    assert_eq!(b.pending_events(), 0);
    let actions = b.take_actions();
    assert_eq!(actions.len(), 1);
    assert!(matches!(&actions[0], Action::AddDiscoveredNode(p) if *p == peer(6)));
    let warnings = b.take_warnings();
    assert_eq!(warnings.len(), 1);
    assert!(matches!(&warnings[0], Warning::EmptyRandomQueryResult { key } if *key == peer(8)));
}

#[test]
fn mdns_discoveries_register_peers() {
    let mut b = behaviour(vec![]);
    b.inject_mdns_event(MdnsEvent::Discovered(vec![(peer(1), addr(1)), (peer(2), addr(2))]));
    b.inject_mdns_event(MdnsEvent::Expired(vec![(peer(1), addr(1))]));
    let actions = b.take_actions();
    assert_eq!(actions.len(), 2);
    assert!(matches!(&actions[0], Action::AddDiscoveredNode(p) if *p == peer(1)));
    assert!(matches!(&actions[1], Action::AddDiscoveredNode(p) if *p == peer(2)));
    assert_eq!(b.pending_events(), 0);
}

#[test]
fn mdns_failure_is_a_warning() {
    let mut b: Behaviour<u32> = Behaviour::new(vec![], "substrate".to_string(), true, Err("no socket".to_string()), 0);
    assert!(!b.is_mdns_active());
    let warnings = b.take_warnings();
    assert!(matches!(&warnings[0], Warning::MdnsUnavailable(e) if e == "no socket"));
    assert_eq!(b.sub_protocols().len(), 4);
}

#[test]
fn sub_protocol_order() {
    let b: Behaviour<u32> = Behaviour::new(vec![], "substrate".to_string(), true, Ok(()), 0);
    assert!(b.is_mdns_active());
    assert_eq!(
        b.sub_protocols(),
        vec![SubProtocol::Ping, SubProtocol::CustomProtocols, SubProtocol::Discovery, SubProtocol::Identify, SubProtocol::Mdns]
    );
    assert_eq!(behaviour(vec![]).sub_protocols().len(), 4);
}

#[test]
fn send_custom_message_is_requested() {
    let mut b = behaviour(vec![]);
    b.send_custom_message(&peer(3), 9);
    let actions = b.take_actions();
    assert!(matches!(&actions[0], Action::SendPacket { peer_id, message: 9 } if *peer_id == peer(3)));
    assert_eq!(b.pending_events(), 0);
}

#[test]
fn severity_text() {
    assert_eq!(Severity::Timeout.to_string(), "Timeout");
    assert_eq!(Severity::Useless("no answer".to_string()).to_string(), "Useless (no answer)");
    assert_eq!(Severity::Bad("garbage".to_string()).to_string(), "Bad (garbage)");
}
