//! The peer tables, the requests that change them and the choice of the
//! next peer to dial.
//!
//! One `NodesManager` owns both tables.  Every change is a request value
//! handled in turn, so the tables are only ever touched by their owner.

use crate::citaprotocol::{buffer_to_vec, encoded, pubsub_message_to_network_message};
use crate::citaprotocol::{FRAME_HEADER_LEN, MAX_KEY_LEN};
use crate::config::NetConfig;
use bytes::BytesMut;
use fnv::FnvHashMap;
use std::collections::HashMap;
use vstd::prelude::*;

verus! {

broadcast use vstd::std_specs::hash::group_hash_axioms;

/// Sessions that the manager dials up to when the configuration is silent.
pub const DEFAULT_MAX_CONNECTS: usize = 4;

/// Seconds between two looks at the tables for a peer to dial.
pub const CHECK_CONNECTED_NODES: u64 = 3;

/// Score of a peer that was just learned.
pub const INITIAL_SCORE: i32 = 100;

/// Protocol identifier of the discovery sessions.
pub const DISCOVERY_PROTOCOL_ID: usize = 0;

/// Protocol identifier of the sessions that carry routed messages.
pub const TRANSFER_PROTOCOL_ID: usize = 1;

/// A socket address in normal form: the IP address as 128 bits (an IPv4
/// address in its IPv6-mapped form) and the port.
pub type RawAddr = (u128, u16);

/// Identifier that the peer-to-peer service gives to a session.
pub type SessionId = usize;

#[verifier::external_type_specification]
#[verifier::external_body]
pub struct ExFnvHasher(fnv::FnvHasher);

#[verifier::external_type_specification]
#[verifier::external_body]
#[verifier::reject_recursive_types(H)]
pub struct ExBuildHasherDefault<H>(std::hash::BuildHasherDefault<H>);

/// `HashMap::get` on a table hashed with FNV, copied out: the score that
/// the address maps to, or nothing where it is no key.
#[verifier::external_body]
fn known_get(known: &FnvHashMap<RawAddr, i32>, addr: &RawAddr) -> (score: Option<i32>)
    ensures
        score == if known@.contains_key(*addr) {
            Some(known@[*addr])
        } else {
            None
        },
{
    known.get(addr).copied()
}

/// `HashMap::insert` on a table hashed with FNV: afterwards the address
/// maps to the score, and every other entry is as before.
#[verifier::external_body]
fn known_insert(known: &mut FnvHashMap<RawAddr, i32>, addr: RawAddr, score: i32)
    ensures
        final(known)@ == old(known)@.insert(addr, score),
{
    known.insert(addr, score);
}

/// `HashMap::remove` on a table hashed with FNV: afterwards the address is
/// no key, and every other entry is as before.
#[verifier::external_body]
fn known_remove(known: &mut FnvHashMap<RawAddr, i32>, addr: &RawAddr)
    ensures
        final(known)@ == old(known)@.remove(*addr),
{
    known.remove(addr);
}

/// `HashMap::keys` on a table hashed with FNV, copied out: each key once,
/// in the order in which the table hands them out.
#[verifier::external_body]
fn known_keys(known: &FnvHashMap<RawAddr, i32>) -> (keys: Vec<RawAddr>)
    ensures
        keys@.no_duplicates(),
        keys@.to_set() == known@.dom(),
{
    known.keys().copied().collect()
}

/// Whether some session is linked to `addr`.
pub open spec fn linked(connected: Map<SessionId, RawAddr>, addr: RawAddr) -> bool {
    connected.values().contains(addr)
}

/// The first of `candidates` that no session is linked to.
pub open spec fn first_unlinked(
    candidates: Seq<RawAddr>,
    connected: Map<SessionId, RawAddr>,
) -> Option<RawAddr>
    decreases candidates.len(),
{
    if candidates.len() == 0 {
        None
    } else if !linked(connected, candidates[0]) {
        Some(candidates[0])
    } else {
        first_unlinked(candidates.drop_first(), connected)
    }
}

/// What `first_unlinked` finds is a candidate without a session, and it
/// finds one whenever there is one.
pub proof fn lemma_first_unlinked(candidates: Seq<RawAddr>, connected: Map<SessionId, RawAddr>)
    ensures
        first_unlinked(candidates, connected) matches Some(addr) ==> candidates.contains(addr)
            && !linked(connected, addr),
        first_unlinked(candidates, connected) is None ==> forall|addr: RawAddr|
            candidates.contains(addr) ==> linked(connected, addr),
    decreases candidates.len(),
{
    if candidates.len() > 0 {
        let rest = candidates.drop_first();
        lemma_first_unlinked(rest, connected);
        if linked(connected, candidates[0]) {
            if first_unlinked(rest, connected) is Some {
                let addr = first_unlinked(rest, connected)->0;
                let i = choose|i: int| 0 <= i < rest.len() && rest[i] == addr;
                assert(candidates[i + 1] == addr);
            } else {
                assert forall|addr: RawAddr| candidates.contains(addr) implies linked(
                    connected,
                    addr,
                ) by {
                    let i = choose|i: int| 0 <= i < candidates.len() && candidates[i] == addr;
                    if i > 0 {
                        assert(rest[i - 1] == addr);
                    }
                }
            }
        } else {
            assert(candidates.contains(candidates[0]));
        }
    }
}

/// The tables as mathematical maps, with the dial budget.
pub struct ManagerState {
    /// Score of each known peer.
    pub known: Map<RawAddr, i32>,
    /// Address behind each open session.
    pub connected: Map<SessionId, RawAddr>,
    /// Number of sessions up to which the manager dials.
    pub max_connects: usize,
}

impl ManagerState {
    /// A new peer enters with the initial score; a known one keeps its score.
    pub open spec fn add_node(self, addr: RawAddr) -> ManagerState {
        if self.known.contains_key(addr) {
            self
        } else {
            ManagerState { known: self.known.insert(addr, INITIAL_SCORE), ..self }
        }
    }

    /// The peer is forgotten.
    pub open spec fn del_node(self, addr: RawAddr) -> ManagerState {
        ManagerState { known: self.known.remove(addr), ..self }
    }

    /// The session is recorded with the address behind it.
    pub open spec fn add_connected(self, addr: RawAddr, session_id: SessionId) -> ManagerState {
        ManagerState { connected: self.connected.insert(session_id, addr), ..self }
    }

    /// The session is no longer recorded.
    pub open spec fn del_connected(self, session_id: SessionId) -> ManagerState {
        ManagerState { connected: self.connected.remove(session_id), ..self }
    }

    /// Whether there are fewer sessions than the manager dials up to.
    pub open spec fn wants_peers(self) -> bool {
        self.connected.len() < self.max_connects
    }

    /// A known peer that no session is linked to.
    pub open spec fn dialable(self, addr: RawAddr) -> bool {
        self.known.contains_key(addr) && !linked(self.connected, addr)
    }
}

/// One frame for the peer-to-peer service to send.
#[derive(Debug)]
pub struct Message {
    pub session_id: SessionId,
    pub proto_id: usize,
    pub data: Vec<u8>,
}

/// Owner of the known-peers and connected-peers tables.
pub struct NodesManager {
    known_addrs: FnvHashMap<RawAddr, i32>,
    connected_addrs: HashMap<SessionId, RawAddr>,
    max_connects: usize,
}

impl View for NodesManager {
    type V = ManagerState;

    closed spec fn view(&self) -> ManagerState {
        ManagerState {
            known: self.known_addrs@,
            connected: self.connected_addrs@,
            max_connects: self.max_connects,
        }
    }
}

/// Whether some session is linked to `addr`.
pub fn is_connected(connected: &HashMap<SessionId, RawAddr>, addr: RawAddr) -> (found: bool)
    ensures
        found == linked(connected@, addr),
{
    for value in it: connected.values()
        invariant
            forall|i: int| 0 <= i < it.index() ==> *it.seq()[i] != addr,
    {
        if value.0 == addr.0 && value.1 == addr.1 {
            return true;
        }
    }
    false
}

/// The first of `candidates`, in the order given, that no session is linked
/// to.
pub fn first_unconnected(candidates: &Vec<RawAddr>, connected: &HashMap<SessionId, RawAddr>) -> (target:
    Option<RawAddr>)
    ensures
        target == first_unlinked(candidates@, connected@),
{
    let mut i: usize = 0;
    assert(candidates@.skip(0) =~= candidates@);
    while i < candidates.len()
        invariant
            i <= candidates@.len(),
            first_unlinked(candidates@, connected@) == first_unlinked(
                candidates@.skip(i as int),
                connected@,
            ),
        decreases candidates@.len() - i,
    {
        let addr = candidates[i];
        assert(candidates@.skip(i as int)[0] == addr);
        if !is_connected(connected, addr) {
            return Some(addr);
        }
        assert(candidates@.skip(i as int).drop_first() =~= candidates@.skip(i as int + 1));
        i = i + 1;
    }
    None
}

/// The first `num` of `keys`, or all of them where there are fewer.
pub fn take_nodes(keys: &Vec<RawAddr>, num: usize) -> (nodes: Vec<RawAddr>)
    ensures
        nodes@ == keys@.take(if num <= keys@.len() { num as int } else { keys@.len() as int }),
{
    let count = if num <= keys.len() {
        num
    } else {
        keys.len()
    };
    let mut nodes: Vec<RawAddr> = Vec::with_capacity(count);
    let mut i: usize = 0;
    while i < count
        invariant
            i <= count <= keys@.len(),
            nodes@ == keys@.take(i as int),
        decreases count - i,
    {
        nodes.push(keys[i]);
        i = i + 1;
        assert(nodes@ =~= keys@.take(i as int));
    }
    nodes
}

impl NodesManager {
    /// A manager that knows the given peers, has no session and dials up to
    /// the default number of them.
    pub fn new(known_addrs: FnvHashMap<RawAddr, i32>) -> (mgr: Self)
        ensures
            mgr@ == (ManagerState {
                known: known_addrs@,
                connected: Map::empty(),
                max_connects: DEFAULT_MAX_CONNECTS,
            }),
    {
        NodesManager {
            known_addrs,
            connected_addrs: HashMap::new(),
            max_connects: DEFAULT_MAX_CONNECTS,
        }
    }

    /// A manager set up from the configuration.  `known_nodes` are the
    /// addresses of the nodes that the configuration names; each enters with
    /// the initial score.
    pub fn from_config(cfg: &NetConfig, known_nodes: Vec<RawAddr>) -> (mgr: Self)
        requires
            cfg.max_connects is Some,
        ensures
            mgr@.max_connects == cfg.max_connects->0,
            mgr@.connected == Map::<SessionId, RawAddr>::empty(),
            forall|addr: RawAddr| mgr@.known.contains_key(addr) <==> known_nodes@.contains(addr),
            forall|addr: RawAddr| mgr@.known.contains_key(addr) ==> mgr@.known[addr] == INITIAL_SCORE,
    {
        let mut known_addrs: FnvHashMap<RawAddr, i32> = FnvHashMap::default();
        let mut i: usize = 0;
        while i < known_nodes.len()
            invariant
                i <= known_nodes@.len(),
                forall|addr: RawAddr|
                    known_addrs@.contains_key(addr) <==> known_nodes@.take(i as int).contains(addr),
                forall|addr: RawAddr|
                    known_addrs@.contains_key(addr) ==> known_addrs@[addr] == INITIAL_SCORE,
            decreases known_nodes@.len() - i,
        {
            known_insert(&mut known_addrs, known_nodes[i], INITIAL_SCORE);
            assert forall|addr: RawAddr|
                known_addrs@.contains_key(addr) <==> known_nodes@.take(i as int + 1).contains(
                    addr,
                ) by {
                let next = known_nodes@.take(i as int + 1);
                let prev = known_nodes@.take(i as int);
                assert(next =~= prev.push(known_nodes@[i as int]));
                if prev.contains(addr) {
                    let j = choose|j: int| 0 <= j < prev.len() && prev[j] == addr;
                    assert(next[j] == addr);
                }
                if addr == known_nodes@[i as int] {
                    assert(next[i as int] == addr);
                }
                if next.contains(addr) {
                    let j = choose|j: int| 0 <= j < next.len() && next[j] == addr;
                    if j < i {
                        assert(prev[j] == addr);
                    }
                }
            }
            i = i + 1;
        }
        assert(known_nodes@.take(i as int) =~= known_nodes@);
        let max_connects = match cfg.max_connects {
            Some(n) => n,
            None => DEFAULT_MAX_CONNECTS,
        };
        NodesManager { known_addrs, connected_addrs: HashMap::new(), max_connects }
    }

    /// The score of a known peer.
    pub fn score(&self, addr: &RawAddr) -> (score: Option<i32>)
        ensures
            score == if self@.known.contains_key(*addr) {
                Some(self@.known[*addr])
            } else {
                None
            },
    {
        known_get(&self.known_addrs, addr)
    }

    /// The address behind an open session.
    pub fn connected_addr(&self, session_id: SessionId) -> (addr: Option<RawAddr>)
        ensures
            addr == if self@.connected.contains_key(session_id) {
                Some(self@.connected[session_id])
            } else {
                None
            },
    {
        match self.connected_addrs.get(&session_id) {
            Some(addr) => Some(*addr),
            None => None,
        }
    }

    /// The number of sessions up to which the manager dials.
    pub fn max_connects(&self) -> (max: usize)
        ensures
            max == self@.max_connects,
    {
        self.max_connects
    }

    /// The peer to dial now, if any: while there are fewer sessions than the
    /// manager dials up to, a known peer that no session is linked to.  At
    /// most one peer is named per call.
    pub fn dial_nodes(&self) -> (target: Option<RawAddr>)
        ensures
            target is Some <==> self@.wants_peers() && exists|addr: RawAddr| self@.dialable(addr),
            target matches Some(addr) ==> self@.dialable(addr),
    {
        if self.connected_addrs.len() < self.max_connects {
            let keys = known_keys(&self.known_addrs);
            let target = first_unconnected(&keys, &self.connected_addrs);
            proof {
                lemma_first_unlinked(keys@, self.connected_addrs@);
                assert forall|addr: RawAddr| keys@.contains(addr) <==> self@.known.contains_key(
                    addr,
                ) by {
                    assert(keys@.to_set().contains(addr) <==> keys@.contains(addr));
                }
                assert(self@.wants_peers());
                if target is Some {
                    assert(self@.dialable(target->0));
                } else {
                    assert forall|addr: RawAddr| !self@.dialable(addr) by {
                        if self@.known.contains_key(addr) {
                            assert(keys@.contains(addr));
                        }
                    }
                }
            }
            target
        } else {
            None
        }
    }
}

impl Default for NodesManager {
    /// A manager that knows no peer, has no session and dials up to the
    /// default number of them.
    fn default() -> (mgr: NodesManager)
        ensures
            mgr@ == (ManagerState {
                known: Map::empty(),
                connected: Map::empty(),
                max_connects: DEFAULT_MAX_CONNECTS,
            }),
    {
        NodesManager {
            known_addrs: FnvHashMap::default(),
            connected_addrs: HashMap::new(),
            max_connects: DEFAULT_MAX_CONNECTS,
        }
    }
}

/// Request to learn a peer.
pub struct AddNodeReq {
    addr: RawAddr,
}

impl AddNodeReq {
    /// The peer to learn.
    pub closed spec fn addr(self) -> RawAddr {
        self.addr
    }

    pub fn new(addr: RawAddr) -> (req: Self)
        ensures
            req.addr() == addr,
    {
        AddNodeReq { addr }
    }

    /// Enters the peer with the initial score unless it is known already.
    pub fn handle(self, service: &mut NodesManager)
        ensures
            final(service)@ == old(service)@.add_node(self.addr()),
    {
        if known_get(&service.known_addrs, &self.addr).is_none() {
            known_insert(&mut service.known_addrs, self.addr, INITIAL_SCORE);
        }
    }
}

/// Request to forget a peer.
pub struct DelNodeReq {
    addr: RawAddr,
}

impl DelNodeReq {
    /// The peer to forget.
    pub closed spec fn addr(self) -> RawAddr {
        self.addr
    }

    pub fn new(addr: RawAddr) -> (req: Self)
        ensures
            req.addr() == addr,
    {
        DelNodeReq { addr }
    }

    /// Removes the peer from the known peers; an unknown one changes nothing.
    pub fn handle(self, service: &mut NodesManager)
        ensures
            final(service)@ == old(service)@.del_node(self.addr()),
    {
        known_remove(&mut service.known_addrs, &self.addr);
    }
}

/// Whether `nodes` answers a request for `num` known peers: distinct known
/// peers, `num` of them or all where fewer are known.
pub open spec fn is_sample(state: ManagerState, num: usize, nodes: Seq<RawAddr>) -> bool {
    &&& nodes.no_duplicates()
    &&& forall|i: int| 0 <= i < nodes.len() ==> state.known.contains_key(#[trigger] nodes[i])
    &&& state.known.dom().finite()
    &&& nodes.len() == if num <= state.known.len() {
        num as nat
    } else {
        state.known.len()
    }
}

/// Request for some of the known peers.
pub struct GetRandomNodesReq {
    num: usize,
}

impl GetRandomNodesReq {
    /// The number of peers asked for.
    pub closed spec fn num(self) -> usize {
        self.num
    }

    pub fn new(num: usize) -> (req: Self)
        ensures
            req.num() == num,
    {
        GetRandomNodesReq { num }
    }

    /// Picks the peers to answer with: as many as asked for, or all that are
    /// known, in the order in which the table hands them out.
    pub fn handle(self, service: &mut NodesManager) -> (nodes: Vec<RawAddr>)
        ensures
            final(service)@ == old(service)@,
            is_sample(old(service)@, self.num(), nodes@),
    {
        let keys = known_keys(&service.known_addrs);
        let nodes = take_nodes(&keys, self.num);
        proof {
            keys@.unique_seq_to_set();
            assert forall|i: int| 0 <= i < nodes@.len() implies service@.known.contains_key(
                #[trigger] nodes@[i],
            ) by {
                assert(keys@[i] == nodes@[i]);
                assert(keys@.to_set().contains(keys@[i]));
            }
        }
        nodes
    }
}

/// Request to record an open session.
pub struct AddConnectedNodeReq {
    addr: RawAddr,
    session_id: SessionId,
}

impl AddConnectedNodeReq {
    /// The address behind the session.
    pub closed spec fn addr(self) -> RawAddr {
        self.addr
    }

    /// The session to record.
    pub closed spec fn session_id(self) -> SessionId {
        self.session_id
    }

    pub fn new(addr: RawAddr, session_id: SessionId) -> (req: Self)
        ensures
            req.addr() == addr,
            req.session_id() == session_id,
    {
        AddConnectedNodeReq { addr, session_id }
    }

    /// Records the session, also where that takes the table past the number
    /// of sessions that the manager dials up to.
    pub fn handle(self, service: &mut NodesManager)
        ensures
            final(service)@ == old(service)@.add_connected(self.addr(), self.session_id()),
    {
        service.connected_addrs.insert(self.session_id, self.addr);
    }
}

/// Request to drop a closed session.
pub struct DelConnectedNodeReq {
    session_id: SessionId,
}

impl DelConnectedNodeReq {
    /// The session to drop.
    pub closed spec fn session_id(self) -> SessionId {
        self.session_id
    }

    pub fn new(session_id: SessionId) -> (req: Self)
        ensures
            req.session_id() == session_id,
    {
        DelConnectedNodeReq { session_id }
    }

    /// Removes the session; one that is not recorded changes nothing.
    pub fn handle(self, service: &mut NodesManager)
        ensures
            final(service)@ == old(service)@.del_connected(self.session_id()),
    {
        service.connected_addrs.remove(&self.session_id);
    }
}

/// Request to send a bus message to every peer.
#[derive(Debug)]
pub struct BroadcastReq {
    key: String,
    msg: Vec<u8>,
}

impl BroadcastReq {
    /// The routing key to send under.
    pub closed spec fn key(self) -> Seq<char> {
        self.key@
    }

    /// The serialized bus message.
    pub closed spec fn msg(self) -> Seq<u8> {
        self.msg@
    }

    /// The frame to send: the one that carries the key and the message,
    /// unless the key is too long for a frame or the frame too long for a
    /// buffer.
    pub open spec fn frame(self) -> Option<Seq<u8>> {
        match encoded(self.key(), self.msg()) {
            Some(frame) => if frame.len() <= isize::MAX {
                Some(frame)
            } else {
                None
            },
            None => None,
        }
    }

    pub fn new(key: String, msg: Vec<u8>) -> (req: Self)
        ensures
            req.key() == key@,
            req.msg() == msg@,
    {
        BroadcastReq { key, msg }
    }

    /// Builds the frame for the transfer protocol.  Where no frame can be
    /// built nothing is to be sent.
    pub fn handle(self, service: &mut NodesManager) -> (out: Option<Message>)
        ensures
            final(service)@ == old(service)@,
            match self.frame() {
                Some(frame) => out matches Some(m) && m.data@ == frame && m.proto_id
                    == TRANSFER_PROTOCOL_ID && m.session_id == 0,
                None => out is None,
            },
    {
        let key_len = self.key.as_str().as_bytes().len();
        let msg_len = self.msg.len();
        if key_len > MAX_KEY_LEN {
            return None;
        }
        let room = isize::MAX as usize - FRAME_HEADER_LEN - key_len;
        if msg_len > room {
            return None;
        }
        let mut buf = BytesMut::with_capacity(FRAME_HEADER_LEN + key_len + msg_len);
        pubsub_message_to_network_message(&mut buf, Some((self.key, self.msg)));
        let data = buffer_to_vec(&buf);
        Some(Message { session_id: 0, proto_id: TRANSFER_PROTOCOL_ID, data })
    }
}

/// Request for the number of open sessions.
pub struct GetPeerCountReq {}

impl GetPeerCountReq {
    pub fn new() -> (req: Self) {
        GetPeerCountReq {  }
    }

    /// The number of sessions recorded at this point.
    pub fn handle(self, service: &mut NodesManager) -> (count: usize)
        ensures
            final(service)@ == old(service)@,
            count == old(service)@.connected.len(),
    {
        service.connected_addrs.len()
    }
}

/// What the manager asks of its surroundings after a request or a tick.
#[derive(Debug)]
pub enum ManagerAction {
    /// Nothing beyond the change to the tables.
    Nothing,
    /// Ask the peer-to-peer service to dial this peer.
    Dial(RawAddr),
    /// Answer a request for known peers with these.
    ReplyNodes(Vec<RawAddr>),
    /// Answer a request for the number of sessions with this.
    ReplyPeerCount(usize),
    /// Hand this frame to the peer-to-peer service for every session.
    Send(Message),
}

/// A request to the manager.
pub enum NodesManagerMessage {
    AddNodeReq(AddNodeReq),
    DelNodeReq(DelNodeReq),
    GetRandomNodesReq(GetRandomNodesReq),
    AddConnectedNodeReq(AddConnectedNodeReq),
    DelConnectedNodeReq(DelConnectedNodeReq),
    Broadcast(BroadcastReq),
    GetPeerCount(GetPeerCountReq),
}

impl NodesManagerMessage {
    /// The tables after this request.
    pub open spec fn next_state(self, state: ManagerState) -> ManagerState {
        match self {
            NodesManagerMessage::AddNodeReq(req) => state.add_node(req.addr()),
            NodesManagerMessage::DelNodeReq(req) => state.del_node(req.addr()),
            NodesManagerMessage::AddConnectedNodeReq(req) => state.add_connected(
                req.addr(),
                req.session_id(),
            ),
            NodesManagerMessage::DelConnectedNodeReq(req) => state.del_connected(req.session_id()),
            NodesManagerMessage::GetRandomNodesReq(_) => state,
            NodesManagerMessage::Broadcast(_) => state,
            NodesManagerMessage::GetPeerCount(_) => state,
        }
    }

    /// Whether `action` is what this request asks for on the tables `state`.
    pub open spec fn asks_for(self, state: ManagerState, action: ManagerAction) -> bool {
        match self {
            NodesManagerMessage::GetRandomNodesReq(req) => action matches ManagerAction::ReplyNodes(
                nodes,
            ) && is_sample(state, req.num(), nodes@),
            NodesManagerMessage::Broadcast(req) => match req.frame() {
                Some(frame) => action matches ManagerAction::Send(m) && m.data@ == frame
                    && m.proto_id == TRANSFER_PROTOCOL_ID && m.session_id == 0,
                None => action is Nothing,
            },
            NodesManagerMessage::GetPeerCount(_) => action == ManagerAction::ReplyPeerCount(
                state.connected.len() as usize,
            ) && state.connected.len() <= usize::MAX,
            _ => action is Nothing,
        }
    }

    /// Handles the request on the manager's tables and says what is left to
    /// do outside them.
    pub fn handle(self, service: &mut NodesManager) -> (action: ManagerAction)
        ensures
            final(service)@ == self.next_state(old(service)@),
            self.asks_for(old(service)@, action),
    {
        match self {
            NodesManagerMessage::AddNodeReq(req) => {
                req.handle(service);
                ManagerAction::Nothing
            },
            NodesManagerMessage::DelNodeReq(req) => {
                req.handle(service);
                ManagerAction::Nothing
            },
            NodesManagerMessage::GetRandomNodesReq(req) => ManagerAction::ReplyNodes(
                req.handle(service),
            ),
            NodesManagerMessage::AddConnectedNodeReq(req) => {
                req.handle(service);
                ManagerAction::Nothing
            },
            NodesManagerMessage::DelConnectedNodeReq(req) => {
                req.handle(service);
                ManagerAction::Nothing
            },
            NodesManagerMessage::Broadcast(req) => match req.handle(service) {
                Some(message) => ManagerAction::Send(message),
                None => ManagerAction::Nothing,
            },
            NodesManagerMessage::GetPeerCount(req) => ManagerAction::ReplyPeerCount(
                req.handle(service),
            ),
        }
    }
}

/// What wakes the manager: a request, or the tick that makes it look for a
/// peer to dial.
pub enum ManagerEvent {
    Request(NodesManagerMessage),
    Tick,
}

impl NodesManager {
    /// One turn of the manager.  A request is handled on the tables; a tick
    /// leaves them as they are and names at most one peer to dial.
    pub fn on_event(&mut self, event: ManagerEvent) -> (action: ManagerAction)
        ensures
            match event {
                ManagerEvent::Request(msg) => final(self)@ == msg.next_state(old(self)@)
                    && msg.asks_for(old(self)@, action),
                ManagerEvent::Tick => final(self)@ == old(self)@ && match action {
                    ManagerAction::Dial(addr) => old(self)@.wants_peers() && old(self)@.dialable(
                        addr,
                    ),
                    ManagerAction::Nothing => !old(self)@.wants_peers() || forall|addr: RawAddr|
                        !old(self)@.dialable(addr),
                    _ => false,
                },
            },
    {
        match event {
            ManagerEvent::Request(msg) => msg.handle(self),
            ManagerEvent::Tick => match self.dial_nodes() {
                Some(addr) => ManagerAction::Dial(addr),
                None => ManagerAction::Nothing,
            },
        }
    }
}

/// A change to the tables, with the reason for which a session was recorded.
pub enum TableEvent {
    /// A peer was learned.
    AddNode(RawAddr),
    /// A peer was forgotten.
    DelNode(RawAddr),
    /// A session was recorded.  `dialed` says that it goes back to a dial of
    /// the manager's own.
    AddConnected { addr: RawAddr, session_id: SessionId, dialed: bool },
    /// A session was dropped.
    DelConnected(SessionId),
}

impl TableEvent {
    /// The tables after this change.
    pub open spec fn apply(self, state: ManagerState) -> ManagerState {
        match self {
            TableEvent::AddNode(addr) => state.add_node(addr),
            TableEvent::DelNode(addr) => state.del_node(addr),
            TableEvent::AddConnected { addr, session_id, dialed } => state.add_connected(
                addr,
                session_id,
            ),
            TableEvent::DelConnected(session_id) => state.del_connected(session_id),
        }
    }

    /// The addresses recorded without a dial, `before` and by this change.
    pub open spec fn undialed(self, before: Set<RawAddr>) -> Set<RawAddr> {
        match self {
            TableEvent::AddConnected { addr, session_id, dialed } => if dialed {
                before
            } else {
                before.insert(addr)
            },
            _ => before,
        }
    }

    /// Whether this change comes in an order that the manager's own rules
    /// produce: a dialed session is to a peer that is known or was recorded
    /// without a dial before, and no peer is forgotten while a dialed
    /// session is linked to it.
    pub open spec fn in_order(self, state: ManagerState, undialed: Set<RawAddr>) -> bool {
        match self {
            TableEvent::AddConnected { addr, session_id, dialed } => dialed
                ==> state.known.contains_key(addr) || undialed.contains(addr),
            TableEvent::DelNode(addr) => linked(state.connected, addr) ==> undialed.contains(addr),
            _ => true,
        }
    }
}

/// The tables after the changes `events`, first to last, from `start`.
pub open spec fn tables_after(start: ManagerState, events: Seq<TableEvent>) -> ManagerState
    decreases events.len(),
{
    if events.len() == 0 {
        start
    } else {
        events.last().apply(tables_after(start, events.drop_last()))
    }
}

/// The addresses that `events` recorded a session for without a dial.
pub open spec fn undialed_by(events: Seq<TableEvent>) -> Set<RawAddr>
    decreases events.len(),
{
    if events.len() == 0 {
        Set::empty()
    } else {
        events.last().undialed(undialed_by(events.drop_last()))
    }
}

/// Whether each of `events` comes in order, given those before it.
pub open spec fn all_in_order(start: ManagerState, events: Seq<TableEvent>) -> bool
    decreases events.len(),
{
    if events.len() == 0 {
        true
    } else {
        &&& all_in_order(start, events.drop_last())
        &&& events.last().in_order(
            tables_after(start, events.drop_last()),
            undialed_by(events.drop_last()),
        )
    }
}

/// Whether every address with a session is a known peer or one of `others`.
pub open spec fn sessions_covered(state: ManagerState, others: Set<RawAddr>) -> bool {
    forall|addr: RawAddr| #[trigger]
        linked(state.connected, addr) ==> state.known.contains_key(addr) || others.contains(addr)
}

/// One change in order keeps every address with a session among the known
/// peers and the addresses recorded without a dial.
pub proof fn lemma_change_keeps_sessions_covered(
    state: ManagerState,
    undialed: Set<RawAddr>,
    event: TableEvent,
)
    requires
        sessions_covered(state, undialed),
        event.in_order(state, undialed),
    ensures
        sessions_covered(event.apply(state), event.undialed(undialed)),
{
    let after = event.apply(state);
    let others = event.undialed(undialed);
    assert forall|addr: RawAddr| #[trigger] linked(after.connected, addr) implies after.known.contains_key(
        addr,
    ) || others.contains(addr) by {
        let session = choose|s: SessionId| #[trigger]
            after.connected.contains_key(s) && after.connected[s] == addr;
        match event {
            TableEvent::AddNode(added) => {
                assert(linked(state.connected, addr));
            },
            TableEvent::DelNode(removed) => {
                assert(linked(state.connected, addr));
            },
            TableEvent::AddConnected { addr: to, session_id, dialed } => {
                if session != session_id {
                    assert(state.connected.contains_key(session) && state.connected[session]
                        == addr);
                    assert(linked(state.connected, addr));
                }
            },
            TableEvent::DelConnected(session_id) => {
                assert(state.connected.contains_key(session) && state.connected[session] == addr);
                assert(linked(state.connected, addr));
            },
        }
    }
}

/// After any changes in order, every address with a session is a known peer
/// or was recorded for a session without a dial.
pub proof fn lemma_sessions_stay_covered(start: ManagerState, events: Seq<TableEvent>)
    requires
        sessions_covered(start, Set::empty()),
        all_in_order(start, events),
    ensures
        sessions_covered(tables_after(start, events), undialed_by(events)),
    decreases events.len(),
{
    if events.len() > 0 {
        lemma_sessions_stay_covered(start, events.drop_last());
        lemma_change_keeps_sessions_covered(
            tables_after(start, events.drop_last()),
            undialed_by(events.drop_last()),
            events.last(),
        );
    }
}

/// A session that is recorded and then dropped is not in the table.
pub proof fn lemma_dropped_session_is_gone(state: ManagerState, addr: RawAddr, session_id: SessionId)
    ensures
        !state.add_connected(addr, session_id).del_connected(session_id).connected.contains_key(
            session_id,
        ),
{
}

} // verus!
