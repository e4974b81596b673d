use cita_network::config::NetConfig;
use cita_network::node_manager::{
    first_unconnected, is_connected, take_nodes, AddConnectedNodeReq, AddNodeReq, BroadcastReq,
    DelConnectedNodeReq, DelNodeReq, GetPeerCountReq, GetRandomNodesReq, ManagerAction,
    ManagerEvent, NodesManager, NodesManagerMessage, RawAddr, CHECK_CONNECTED_NODES,
    DEFAULT_MAX_CONNECTS, DISCOVERY_PROTOCOL_ID, INITIAL_SCORE, TRANSFER_PROTOCOL_ID,
};
use cita_network::p2p_protocol::{DialError, SHandle, ServiceError, ServiceEvent, SessionType};
use fnv::FnvHashMap;
use std::collections::HashMap;

fn v4(a: u8, b: u8, c: u8, d: u8, port: u16) -> RawAddr {
    let ip = 0xffff_0000_0000u128
        | ((a as u128) << 24)
        | ((b as u128) << 16)
        | ((c as u128) << 8)
        | (d as u128);
    (ip, port)
}

fn manager_with(max_connects: usize, known: &[RawAddr]) -> NodesManager {
    let cfg = NetConfig { port: None, known_nodes: None, max_connects: Some(max_connects) };
    NodesManager::from_config(&cfg, known.to_vec())
}

fn known_of(mgr: &mut NodesManager) -> Vec<RawAddr> {
    let mut nodes = GetRandomNodesReq::new(usize::MAX).handle(mgr);
    nodes.sort();
    nodes
}

#[test]
fn constants() {
    assert_eq!(DEFAULT_MAX_CONNECTS, 4);
    assert_eq!(CHECK_CONNECTED_NODES, 3);
    assert_eq!(INITIAL_SCORE, 100);
    assert_eq!(DISCOVERY_PROTOCOL_ID, 0);
    assert_eq!(TRANSFER_PROTOCOL_ID, 1);
}

#[test]
fn new_manager_keeps_the_given_peers() {
    let a = v4(10, 0, 0, 1, 4000);
    let b = v4(10, 0, 0, 2, 4000);
    let mut known: FnvHashMap<RawAddr, i32> = FnvHashMap::default();
    known.insert(a, 7);
    known.insert(b, 100);
    let mut mgr = NodesManager::new(known);
    assert_eq!(mgr.max_connects(), 4);
    assert_eq!(mgr.score(&a), Some(7));
    assert_eq!(mgr.score(&b), Some(100));
    assert_eq!(mgr.score(&v4(10, 0, 0, 3, 4000)), None);
    assert_eq!(GetPeerCountReq::new().handle(&mut mgr), 0);
}

#[test]
fn default_manager_is_empty() {
    let mut mgr = NodesManager::default();
    assert_eq!(mgr.max_connects(), 4);
    assert_eq!(known_of(&mut mgr), vec![]);
    assert_eq!(GetPeerCountReq::new().handle(&mut mgr), 0);
    assert_eq!(mgr.dial_nodes(), None);
}

#[test]
fn from_config_enters_each_node_with_the_initial_score() {
    let a = v4(0, 0, 0, 0, 4001);
    let b = v4(0, 0, 0, 0, 4002);
    let mut mgr = manager_with(9, &[a, b, a]);
    assert_eq!(mgr.max_connects(), 9);
    assert_eq!(mgr.score(&a), Some(100));
    assert_eq!(mgr.score(&b), Some(100));
    assert_eq!(known_of(&mut mgr), vec![a, b]);
    assert_eq!(GetPeerCountReq::new().handle(&mut mgr), 0);
}

#[test]
fn add_node_enters_a_new_peer_with_score_100() {
    let a = v4(10, 0, 0, 1, 4000);
    let mut mgr = NodesManager::default();
    AddNodeReq::new(a).handle(&mut mgr);
    assert_eq!(mgr.score(&a), Some(100));
    assert_eq!(known_of(&mut mgr), vec![a]);
}

#[test]
fn add_node_leaves_a_known_peer_untouched() {
    let a = v4(10, 0, 0, 1, 4000);
    let mut known: FnvHashMap<RawAddr, i32> = FnvHashMap::default();
    known.insert(a, -3);
    let mut mgr = NodesManager::new(known);
    AddNodeReq::new(a).handle(&mut mgr);
    assert_eq!(mgr.score(&a), Some(-3));
    assert_eq!(known_of(&mut mgr), vec![a]);
}

#[test]
fn same_ip_with_another_port_is_another_peer() {
    let a = v4(10, 0, 0, 1, 4000);
    let b = v4(10, 0, 0, 1, 4001);
    let mut mgr = NodesManager::default();
    AddNodeReq::new(a).handle(&mut mgr);
    AddNodeReq::new(b).handle(&mut mgr);
    assert_eq!(known_of(&mut mgr), vec![a, b]);
}

#[test]
fn del_node_removes_the_peer_and_ignores_an_unknown_one() {
    let a = v4(10, 0, 0, 1, 4000);
    let b = v4(10, 0, 0, 2, 4000);
    let mut mgr = manager_with(4, &[a, b]);
    DelNodeReq::new(a).handle(&mut mgr);
    assert_eq!(mgr.score(&a), None);
    assert_eq!(known_of(&mut mgr), vec![b]);
    DelNodeReq::new(a).handle(&mut mgr);
    assert_eq!(known_of(&mut mgr), vec![b]);
}

#[test]
fn add_connected_records_the_session() {
    let a = v4(10, 0, 0, 1, 4000);
    let b = v4(10, 0, 0, 2, 4000);
    let mut mgr = NodesManager::default();
    AddConnectedNodeReq::new(a, 5).handle(&mut mgr);
    assert_eq!(mgr.connected_addr(5), Some(a));
    assert_eq!(mgr.connected_addr(6), None);
    // The same session again: the address is replaced.
    AddConnectedNodeReq::new(b, 5).handle(&mut mgr);
    assert_eq!(mgr.connected_addr(5), Some(b));
    assert_eq!(GetPeerCountReq::new().handle(&mut mgr), 1);
    // The known peers are not touched.
    assert_eq!(known_of(&mut mgr), vec![]);
}

#[test]
fn add_connected_goes_past_the_dial_budget() {
    let mut mgr = manager_with(1, &[]);
    AddConnectedNodeReq::new(v4(10, 0, 0, 1, 1), 1).handle(&mut mgr);
    AddConnectedNodeReq::new(v4(10, 0, 0, 2, 1), 2).handle(&mut mgr);
    assert_eq!(GetPeerCountReq::new().handle(&mut mgr), 2);
}

#[test]
fn a_session_recorded_and_then_dropped_is_gone() {
    let a = v4(10, 0, 0, 1, 4000);
    let mut mgr = NodesManager::default();
    AddConnectedNodeReq::new(a, 3).handle(&mut mgr);
    AddConnectedNodeReq::new(a, 4).handle(&mut mgr);
    DelConnectedNodeReq::new(3).handle(&mut mgr);
    assert_eq!(mgr.connected_addr(3), None);
    assert_eq!(mgr.connected_addr(4), Some(a));
    assert_eq!(GetPeerCountReq::new().handle(&mut mgr), 1);
    // Dropping it again changes nothing.
    DelConnectedNodeReq::new(3).handle(&mut mgr);
    assert_eq!(GetPeerCountReq::new().handle(&mut mgr), 1);
}

#[test]
fn peer_count_is_the_number_of_sessions() {
    let mut mgr = NodesManager::default();
    assert_eq!(GetPeerCountReq::new().handle(&mut mgr), 0);
    for id in 0..5usize {
        AddConnectedNodeReq::new(v4(10, 0, 0, id as u8, 4000), id).handle(&mut mgr);
        assert_eq!(GetPeerCountReq::new().handle(&mut mgr), id + 1);
    }
    DelConnectedNodeReq::new(2).handle(&mut mgr);
    assert_eq!(GetPeerCountReq::new().handle(&mut mgr), 4);
}

#[test]
fn random_nodes_are_distinct_known_peers() {
    let peers: Vec<RawAddr> = (1..=6u8).map(|i| v4(10, 0, 0, i, 4000)).collect();
    let mut mgr = manager_with(4, &peers);
    for num in 0..10usize {
        let mut nodes = GetRandomNodesReq::new(num).handle(&mut mgr);
        assert_eq!(nodes.len(), num.min(6));
        nodes.sort();
        nodes.dedup();
        assert_eq!(nodes.len(), num.min(6));
        for node in &nodes {
            assert!(peers.contains(node));
        }
    }
    // The request leaves the table as it is.
    assert_eq!(known_of(&mut mgr), peers);
}

#[test]
fn take_nodes_takes_the_first() {
    let keys = vec![v4(1, 1, 1, 1, 1), v4(2, 2, 2, 2, 2), v4(3, 3, 3, 3, 3)];
    assert_eq!(take_nodes(&keys, 0), vec![]);
    assert_eq!(take_nodes(&keys, 2), keys[..2].to_vec());
    assert_eq!(take_nodes(&keys, 3), keys);
    assert_eq!(take_nodes(&keys, 4), keys);
    assert_eq!(take_nodes(&vec![], 4), vec![]);
}

#[test]
fn is_connected_looks_at_the_addresses() {
    let a = v4(10, 0, 0, 1, 4000);
    let b = v4(10, 0, 0, 2, 4000);
    let mut connected: HashMap<usize, RawAddr> = HashMap::new();
    assert!(!is_connected(&connected, a));
    connected.insert(1, a);
    connected.insert(2, a);
    assert!(is_connected(&connected, a));
    assert!(!is_connected(&connected, b));
    assert!(!is_connected(&connected, (a.0, 4001)));
}

#[test]
fn first_unconnected_goes_by_the_order_given() {
    let a = v4(10, 0, 0, 1, 4000);
    let b = v4(10, 0, 0, 2, 4000);
    let c = v4(10, 0, 0, 3, 4000);
    let mut connected: HashMap<usize, RawAddr> = HashMap::new();
    assert_eq!(first_unconnected(&vec![a, b, c], &connected), Some(a));
    connected.insert(9, a);
    assert_eq!(first_unconnected(&vec![a, b, c], &connected), Some(b));
    assert_eq!(first_unconnected(&vec![c, b, a], &connected), Some(c));
    connected.insert(8, c);
    connected.insert(7, b);
    assert_eq!(first_unconnected(&vec![a, b, c], &connected), None);
    assert_eq!(first_unconnected(&vec![], &connected), None);
}

#[test]
fn dial_names_a_known_peer_without_a_session() {
    let a = v4(10, 0, 0, 1, 4000);
    let b = v4(10, 0, 0, 2, 4000);
    let mut mgr = manager_with(4, &[a, b]);
    let first = mgr.dial_nodes().unwrap();
    assert!(first == a || first == b);
    AddConnectedNodeReq::new(a, 1).handle(&mut mgr);
    assert_eq!(mgr.dial_nodes(), Some(b));
    AddConnectedNodeReq::new(b, 2).handle(&mut mgr);
    assert_eq!(mgr.dial_nodes(), None);
    DelConnectedNodeReq::new(1).handle(&mut mgr);
    assert_eq!(mgr.dial_nodes(), Some(a));
}

#[test]
fn dial_stops_at_the_budget() {
    let b = v4(10, 0, 0, 2, 4000);
    let c = v4(10, 0, 0, 3, 4000);
    let d = v4(10, 0, 0, 4, 4000);
    let mut mgr = manager_with(2, &[b, c, d]);
    let first = mgr.dial_nodes().unwrap();
    AddConnectedNodeReq::new(first, 1).handle(&mut mgr);
    let second = mgr.dial_nodes().unwrap();
    assert_ne!(first, second);
    AddConnectedNodeReq::new(second, 2).handle(&mut mgr);
    assert_eq!(GetPeerCountReq::new().handle(&mut mgr), 2);
    // Two sessions are alive: no third dial.
    assert_eq!(mgr.dial_nodes(), None);
    assert!(matches!(mgr.on_event(ManagerEvent::Tick), ManagerAction::Nothing));
}

#[test]
fn dial_with_a_budget_of_zero_or_no_known_peer() {
    let a = v4(10, 0, 0, 1, 4000);
    assert_eq!(manager_with(0, &[a]).dial_nodes(), None);
    assert_eq!(manager_with(3, &[]).dial_nodes(), None);
}

#[test]
fn repeated_connection_records_the_session_and_keeps_the_peer() {
    let b = v4(10, 0, 0, 2, 4000);
    let mut mgr = manager_with(4, &[b]);
    let mut handle = SHandle::new();
    let error = ServiceError::DialerError { address: b, error: DialError::RepeatedConnection(17) };
    let request = handle.handle_error(error).unwrap();
    assert!(matches!(request.handle(&mut mgr), ManagerAction::Nothing));
    assert_eq!(mgr.connected_addr(17), Some(b));
    assert_eq!(mgr.score(&b), Some(100));
    assert_eq!(mgr.dial_nodes(), None);
}

#[test]
fn failed_dial_forgets_the_peer() {
    let b = v4(10, 0, 0, 2, 4000);
    let mut mgr = manager_with(4, &[b]);
    let mut handle = SHandle::new();
    let error = ServiceError::DialerError { address: b, error: DialError::Other };
    let request = handle.handle_error(error).unwrap();
    assert!(matches!(request.handle(&mut mgr), ManagerAction::Nothing));
    assert_eq!(mgr.score(&b), None);
    assert_eq!(GetPeerCountReq::new().handle(&mut mgr), 0);
}

#[test]
fn listen_error_asks_for_nothing() {
    let mut handle = SHandle::new();
    let error = ServiceError::ListenError { address: v4(0, 0, 0, 0, 4000) };
    assert!(handle.handle_error(error).is_none());
}

#[test]
fn session_events_become_requests() {
    let a = v4(10, 0, 0, 1, 4000);
    let mut mgr = NodesManager::default();
    let mut handle = SHandle::new();

    let open = ServiceEvent::SessionOpen { id: 3, address: a, ty: SessionType::Client };
    handle.handle_event(open).unwrap().handle(&mut mgr);
    assert_eq!(mgr.connected_addr(3), Some(a));

    // A session that the node accepted is not recorded.
    let accepted = ServiceEvent::SessionOpen { id: 4, address: a, ty: SessionType::Server };
    assert!(handle.handle_event(accepted).is_none());

    handle.handle_event(ServiceEvent::SessionClose { id: 3 }).unwrap().handle(&mut mgr);
    assert_eq!(mgr.connected_addr(3), None);
    assert_eq!(GetPeerCountReq::new().handle(&mut mgr), 0);
}

#[test]
fn broadcast_builds_the_frame_for_the_transfer_protocol() {
    let mut mgr = NodesManager::default();
    let req = BroadcastReq::new("auth.request".to_string(), vec![0x01, 0x02, 0x03]);
    let message = req.handle(&mut mgr).unwrap();
    let mut expected = vec![0u8, 0, 0, 0, 0, 0, 0, 0, 0x0C];
    expected.extend_from_slice(b"auth.request");
    expected.extend_from_slice(&[0x01, 0x02, 0x03]);
    assert_eq!(message.data, expected);
    assert_eq!(message.proto_id, 1);
    assert_eq!(message.session_id, 0);
}

#[test]
fn broadcast_with_a_key_too_long_sends_nothing() {
    let mut mgr = NodesManager::default();
    assert!(BroadcastReq::new("k".repeat(256), vec![1]).handle(&mut mgr).is_none());
    assert!(BroadcastReq::new("k".repeat(255), vec![1]).handle(&mut mgr).is_some());
}

#[test]
fn requests_through_the_message() {
    let a = v4(10, 0, 0, 1, 4000);
    let b = v4(10, 0, 0, 2, 4000);
    let mut mgr = manager_with(1, &[]);

    let add = NodesManagerMessage::AddNodeReq(AddNodeReq::new(a));
    assert!(matches!(add.handle(&mut mgr), ManagerAction::Nothing));
    let add = NodesManagerMessage::AddNodeReq(AddNodeReq::new(b));
    assert!(matches!(add.handle(&mut mgr), ManagerAction::Nothing));
    let del = NodesManagerMessage::DelNodeReq(DelNodeReq::new(b));
    assert!(matches!(del.handle(&mut mgr), ManagerAction::Nothing));

    let get = NodesManagerMessage::GetRandomNodesReq(GetRandomNodesReq::new(5));
    match get.handle(&mut mgr) {
        ManagerAction::ReplyNodes(nodes) => assert_eq!(nodes, vec![a]),
        other => panic!("unexpected action {:?}", other),
    }

    match mgr.on_event(ManagerEvent::Tick) {
        ManagerAction::Dial(addr) => assert_eq!(addr, a),
        other => panic!("unexpected action {:?}", other),
    }

    let connect = NodesManagerMessage::AddConnectedNodeReq(AddConnectedNodeReq::new(a, 1));
    assert!(matches!(mgr.on_event(ManagerEvent::Request(connect)), ManagerAction::Nothing));
    let count = NodesManagerMessage::GetPeerCount(GetPeerCountReq::new());
    match count.handle(&mut mgr) {
        ManagerAction::ReplyPeerCount(n) => assert_eq!(n, 1),
        other => panic!("unexpected action {:?}", other),
    }
    assert!(matches!(mgr.on_event(ManagerEvent::Tick), ManagerAction::Nothing));

    let close = NodesManagerMessage::DelConnectedNodeReq(DelConnectedNodeReq::new(1));
    assert!(matches!(close.handle(&mut mgr), ManagerAction::Nothing));
    assert_eq!(mgr.connected_addr(1), None);

    let send = NodesManagerMessage::Broadcast(BroadcastReq::new("a.b".to_string(), vec![9]));
    match send.handle(&mut mgr) {
        ManagerAction::Send(m) => {
            assert_eq!(m.data, vec![0u8, 0, 0, 0, 0, 0, 0, 0, 3, b'a', b'.', b'b', 9]);
            assert_eq!(m.proto_id, 1);
        },
        other => panic!("unexpected action {:?}", other),
    }
    let send = NodesManagerMessage::Broadcast(BroadcastReq::new("k".repeat(300), vec![9]));
    assert!(matches!(send.handle(&mut mgr), ManagerAction::Nothing));
}

#[test]
fn sessions_stay_among_known_and_undialed_addresses() {
    let a = v4(10, 0, 0, 1, 4000);
    let b = v4(10, 0, 0, 2, 4000);
    let c = v4(10, 0, 0, 3, 4000);
    let mut mgr = manager_with(4, &[a, b]);
    let mut undialed: Vec<RawAddr> = Vec::new();

    // Dialed sessions to known peers, one session that was not dialed.
    AddConnectedNodeReq::new(a, 1).handle(&mut mgr);
    AddConnectedNodeReq::new(c, 2).handle(&mut mgr);
    undialed.push(c);
    AddNodeReq::new(c).handle(&mut mgr);
    DelNodeReq::new(c).handle(&mut mgr);
    DelNodeReq::new(b).handle(&mut mgr);
    AddConnectedNodeReq::new(a, 3).handle(&mut mgr);
    DelConnectedNodeReq::new(1).handle(&mut mgr);

    for session in 0..5usize {
        if let Some(addr) = mgr.connected_addr(session) {
            assert!(mgr.score(&addr).is_some() || undialed.contains(&addr));
        }
    }
    assert_eq!(mgr.connected_addr(2), Some(c));
    assert_eq!(mgr.connected_addr(3), Some(a));
}
