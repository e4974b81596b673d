//! The engine between the message bus and the peers.
//!
//! A message from the bus is a local message, one from a peer a remote
//! message.  The engine looks at the routing key and says what is to be done
//! with the message.  While a snapshot is under way the engine is paused:
//! it then lets only the snapshot's own messages through.

use crate::router::{MsgType, RoutingKey, SubModules};
use std::sync::atomic::AtomicBool;
use std::sync::atomic::Ordering;
use std::sync::Arc;
use vstd::prelude::*;

verus! {

/// The commands of a snapshot request.
#[derive(Clone, Copy, Debug, PartialEq, Eq, Structural)]
pub enum Cmd {
    Snapshot,
    Begin,
    Restore,
    Clear,
    End,
}

/// The acknowledgements that the network gives to snapshot commands.
#[derive(Clone, Copy, Debug, PartialEq, Eq, Structural)]
pub enum Resp {
    BeginAck,
    ClearAck,
    EndAck,
}

/// Answer to a snapshot command.
#[derive(Clone, Copy, Debug, PartialEq, Eq, Structural)]
pub struct SnapshotResp {
    pub resp: Resp,
    pub flag: bool,
}

/// The bus channels that the network publishes on.
#[derive(Clone, Copy, Debug, PartialEq, Eq, Structural)]
pub enum BusChannel {
    Auth,
    Consensus,
    Other,
}

/// A message for the bus.
#[derive(Debug)]
pub struct PubMessage {
    pub key: RoutingKey,
    pub data: Vec<u8>,
}

impl PubMessage {
    pub fn new(key: RoutingKey, data: Vec<u8>) -> (msg: Self)
        ensures
            msg.key == key,
            msg.data == data,
    {
        PubMessage { key, data }
    }
}

/// What a snapshot command does: the value it gives the pause flag, if it
/// sets it, and the answer it gets, if it gets one.
pub struct SnapshotStep {
    pub pause: Option<bool>,
    pub resp: Option<SnapshotResp>,
}

/// The effect of a snapshot command.  `Begin` pauses and `End` resumes;
/// both are acknowledged, as is `Clear`, which leaves the flag alone.
/// `Snapshot` and `Restore` change nothing and get no answer.
pub open spec fn snapshot_effect(cmd: Cmd) -> SnapshotStep {
    match cmd {
        Cmd::Begin => SnapshotStep {
            pause: Some(true),
            resp: Some(SnapshotResp { resp: Resp::BeginAck, flag: true }),
        },
        Cmd::Clear => SnapshotStep {
            pause: None,
            resp: Some(SnapshotResp { resp: Resp::ClearAck, flag: true }),
        },
        Cmd::End => SnapshotStep {
            pause: Some(false),
            resp: Some(SnapshotResp { resp: Resp::EndAck, flag: true }),
        },
        Cmd::Snapshot => SnapshotStep { pause: None, resp: None },
        Cmd::Restore => SnapshotStep { pause: None, resp: None },
    }
}

/// The pause flag after a snapshot command.
pub open spec fn paused_after(paused: bool, cmd: Cmd) -> bool {
    match snapshot_effect(cmd).pause {
        Some(value) => value,
        None => paused,
    }
}

/// `Begin` pauses the engine and `End` resumes it, whatever the flag held;
/// every other command leaves the flag as it is.
pub proof fn lemma_pause_transitions(paused: bool, cmd: Cmd)
    ensures
        paused_after(paused, cmd) == match cmd {
            Cmd::Begin => true,
            Cmd::End => false,
            _ => paused,
        },
{
}

/// Computes the effect of a snapshot command.
pub fn snapshot_step(cmd: Cmd) -> (step: SnapshotStep)
    ensures
        step == snapshot_effect(cmd),
{
    match cmd {
        Cmd::Begin => SnapshotStep {
            pause: Some(true),
            resp: Some(SnapshotResp { resp: Resp::BeginAck, flag: true }),
        },
        Cmd::Clear => SnapshotStep {
            pause: None,
            resp: Some(SnapshotResp { resp: Resp::ClearAck, flag: true }),
        },
        Cmd::End => SnapshotStep {
            pause: Some(false),
            resp: Some(SnapshotResp { resp: Resp::EndAck, flag: true }),
        },
        Cmd::Snapshot => SnapshotStep { pause: None, resp: None },
        Cmd::Restore => SnapshotStep { pause: None, resp: None },
    }
}

/// Whether the pause gate holds a message back: the engine is paused and
/// the message is not the snapshot's.
pub open spec fn held_back(paused: bool, rt_key: RoutingKey) -> bool {
    paused && rt_key.sub_module != SubModules::Snapshot
}

/// The rule for a message from the bus.
#[derive(Clone, Copy, Debug, PartialEq, Eq, Structural)]
pub enum LocalRoute {
    /// Held back by the pause gate.
    Dropped,
    /// Kept for the synchronizer; nothing is done yet.
    Reserved,
    /// Sent to every peer under the synchronizer's key.
    Broadcast,
    /// A request to the network itself.
    ReplyRpc,
    /// A snapshot command.
    SnapshotReq,
    /// No rule: reported as an error.
    Unexpected,
}

/// The rule that a message from the bus falls under.
pub open spec fn local_route(paused: bool, rt_key: RoutingKey) -> LocalRoute {
    if held_back(paused, rt_key) {
        LocalRoute::Dropped
    } else if rt_key.names(SubModules::Chain, MsgType::Status) {
        LocalRoute::Reserved
    } else if rt_key.names(SubModules::Chain, MsgType::SyncResponse) {
        LocalRoute::Broadcast
    } else if rt_key.names(SubModules::Jsonrpc, MsgType::RequestNet) {
        LocalRoute::ReplyRpc
    } else if rt_key.names(SubModules::Snapshot, MsgType::SnapshotReq) {
        LocalRoute::SnapshotReq
    } else {
        LocalRoute::Unexpected
    }
}

/// The rule for a message from a peer.
#[derive(Clone, Copy, Debug, PartialEq, Eq, Structural)]
pub enum RemoteRoute {
    /// Held back by the pause gate.
    Dropped,
    /// Kept for the synchronizer; nothing is done yet.
    Reserved,
    /// Published on this channel as the network's message of this kind.
    Publish(BusChannel, MsgType),
    /// No rule: reported as an error.
    Unexpected,
}

/// The rule that a message from a peer falls under.
pub open spec fn remote_route(paused: bool, rt_key: RoutingKey) -> RemoteRoute {
    if held_back(paused, rt_key) {
        RemoteRoute::Dropped
    } else if rt_key.names(SubModules::Synchronizer, MsgType::Status) || rt_key.names(
        SubModules::Synchronizer,
        MsgType::SyncResponse,
    ) || rt_key.names(SubModules::Synchronizer, MsgType::SyncRequest) {
        RemoteRoute::Reserved
    } else if rt_key.names(SubModules::Consensus, MsgType::CompactSignedProposal) {
        RemoteRoute::Publish(BusChannel::Consensus, MsgType::CompactSignedProposal)
    } else if rt_key.names(SubModules::Consensus, MsgType::RawBytes) {
        RemoteRoute::Publish(BusChannel::Consensus, MsgType::RawBytes)
    } else if rt_key.names(SubModules::Auth, MsgType::Request) {
        RemoteRoute::Publish(BusChannel::Auth, MsgType::Request)
    } else if rt_key.names(SubModules::Auth, MsgType::GetBlockTxn) {
        RemoteRoute::Publish(BusChannel::Auth, MsgType::GetBlockTxn)
    } else if rt_key.names(SubModules::Auth, MsgType::BlockTxn) {
        RemoteRoute::Publish(BusChannel::Auth, MsgType::BlockTxn)
    } else {
        RemoteRoute::Unexpected
    }
}

/// With the engine paused, a message from the bus that is not the
/// snapshot's is dropped; with the engine running, the same message is
/// dispatched by its key.
pub proof fn lemma_pause_gate(rt_key: RoutingKey)
    requires
        rt_key.sub_module != SubModules::Snapshot,
    ensures
        local_route(true, rt_key) == LocalRoute::Dropped,
        local_route(false, rt_key) != LocalRoute::Dropped,
        remote_route(true, rt_key) == RemoteRoute::Dropped,
        remote_route(false, rt_key) != RemoteRoute::Dropped,
{
}

/// The snapshot's own messages are let through whether the engine is
/// paused or not.
pub proof fn lemma_snapshot_is_let_through(paused: bool, rt_key: RoutingKey)
    requires
        rt_key.sub_module == SubModules::Snapshot,
    ensures
        local_route(paused, rt_key) == local_route(false, rt_key),
        local_route(paused, rt_key) != LocalRoute::Dropped,
        remote_route(paused, rt_key) == remote_route(false, rt_key),
{
}

/// Finds the rule for a message from the bus.
pub fn route_local(paused: bool, rt_key: RoutingKey) -> (route: LocalRoute)
    ensures
        route == local_route(paused, rt_key),
{
    if paused && rt_key.sub_module != SubModules::Snapshot {
        return LocalRoute::Dropped;
    }
    match (rt_key.sub_module, rt_key.msg_type) {
        (SubModules::Chain, MsgType::Status) => LocalRoute::Reserved,
        (SubModules::Chain, MsgType::SyncResponse) => LocalRoute::Broadcast,
        (SubModules::Jsonrpc, MsgType::RequestNet) => LocalRoute::ReplyRpc,
        (SubModules::Snapshot, MsgType::SnapshotReq) => LocalRoute::SnapshotReq,
        _ => LocalRoute::Unexpected,
    }
}

/// Finds the rule for a message from a peer.
pub fn route_remote(paused: bool, rt_key: RoutingKey) -> (route: RemoteRoute)
    ensures
        route == remote_route(paused, rt_key),
{
    if paused && rt_key.sub_module != SubModules::Snapshot {
        return RemoteRoute::Dropped;
    }
    match (rt_key.sub_module, rt_key.msg_type) {
        (SubModules::Synchronizer, MsgType::Status) => RemoteRoute::Reserved,
        (SubModules::Synchronizer, MsgType::SyncResponse) => RemoteRoute::Reserved,
        (SubModules::Synchronizer, MsgType::SyncRequest) => RemoteRoute::Reserved,
        (SubModules::Consensus, MsgType::CompactSignedProposal) => RemoteRoute::Publish(
            BusChannel::Consensus,
            MsgType::CompactSignedProposal,
        ),
        (SubModules::Consensus, MsgType::RawBytes) => RemoteRoute::Publish(
            BusChannel::Consensus,
            MsgType::RawBytes,
        ),
        (SubModules::Auth, MsgType::Request) => RemoteRoute::Publish(
            BusChannel::Auth,
            MsgType::Request,
        ),
        (SubModules::Auth, MsgType::GetBlockTxn) => RemoteRoute::Publish(
            BusChannel::Auth,
            MsgType::GetBlockTxn,
        ),
        (SubModules::Auth, MsgType::BlockTxn) => RemoteRoute::Publish(
            BusChannel::Auth,
            MsgType::BlockTxn,
        ),
        _ => RemoteRoute::Unexpected,
    }
}

/// The engine's own state: the pause flag.
pub struct Network {
    is_pause: Arc<AtomicBool>,
}

impl Network {
    /// An engine that is not paused.
    pub fn new() -> (engine: Self) {
        Network { is_pause: Arc::new(AtomicBool::new(false)) }
    }

    /// The engine's pause flag.
    pub closed spec fn flag(self) -> Arc<AtomicBool> {
        self.is_pause
    }

    /// A handle to the pause flag, for whoever else has to read it.
    pub fn pause_flag(&self) -> (flag: Arc<AtomicBool>)
        ensures
            flag == self.flag(),
    {
        self.is_pause.clone()
    }

    /// Reads the pause flag.
    pub fn is_paused(&self) -> (paused: bool) {
        self.is_pause.load(Ordering::SeqCst)
    }

    /// Carries out a snapshot command: sets the pause flag where the
    /// command says so, and returns the answer to publish, if there is one.
    pub fn snapshot_req(&mut self, cmd: Cmd) -> (resp: Option<SnapshotResp>)
        ensures
            resp == snapshot_effect(cmd).resp,
            final(self).flag() == old(self).flag(),
    {
        let step = snapshot_step(cmd);
        match step.pause {
            Some(value) => self.is_pause.store(value, Ordering::SeqCst),
            None => {},
        }
        step.resp
    }
}

/// What is to be done with a message from the bus.
#[derive(Debug)]
pub enum LocalAction {
    /// Nothing: the pause gate held the message back.
    Dropped,
    /// Nothing yet: the message is kept for the synchronizer.
    Reserved,
    /// Send the message to every peer under this key.
    Broadcast { key: RoutingKey, data: Vec<u8> },
    /// Answer this request to the network.
    ReplyRpc(Vec<u8>),
    /// Carry out the snapshot command in this message.
    SnapshotReq(Vec<u8>),
    /// Report this key, for which there is no rule.
    Unexpected(String),
}

impl LocalAction {
    /// Whether this is what the rule `route` makes of a message with this
    /// key text and these bytes.
    pub open spec fn follows(self, route: LocalRoute, key: Seq<char>, data: Seq<u8>) -> bool {
        match route {
            LocalRoute::Dropped => self is Dropped,
            LocalRoute::Reserved => self is Reserved,
            LocalRoute::Broadcast => self matches LocalAction::Broadcast { key: k, data: d } && k.names(
                SubModules::Synchronizer,
                MsgType::SyncResponse,
            ) && d@ == data,
            LocalRoute::ReplyRpc => self matches LocalAction::ReplyRpc(d) && d@ == data,
            LocalRoute::SnapshotReq => self matches LocalAction::SnapshotReq(d) && d@ == data,
            LocalRoute::Unexpected => self matches LocalAction::Unexpected(k) && k@ == key,
        }
    }
}

/// A message that came from the bus.
pub struct LocalMessage {
    key: String,
    data: Vec<u8>,
}

impl LocalMessage {
    /// The text of the routing key.
    pub closed spec fn key(self) -> Seq<char> {
        self.key@
    }

    /// The body of the message.
    pub closed spec fn data(self) -> Seq<u8> {
        self.data@
    }

    pub fn new(key: String, data: Vec<u8>) -> (msg: Self)
        ensures
            msg.key() == key@,
            msg.data() == data@,
    {
        LocalMessage { key, data }
    }

    /// The text of the routing key.
    pub fn key_text(&self) -> (text: &String)
        ensures
            text@ == self.key(),
    {
        &self.key
    }

    /// Says what is to be done with the message, given the routing key that
    /// its key text spells and the value of the pause flag.
    pub fn dispatch(self, paused: bool, rt_key: RoutingKey) -> (action: LocalAction)
        ensures
            action.follows(local_route(paused, rt_key), self.key(), self.data()),
    {
        match route_local(paused, rt_key) {
            LocalRoute::Dropped => LocalAction::Dropped,
            LocalRoute::Reserved => LocalAction::Reserved,
            LocalRoute::Broadcast => LocalAction::Broadcast {
                key: RoutingKey::new(SubModules::Synchronizer, MsgType::SyncResponse),
                data: self.data,
            },
            LocalRoute::ReplyRpc => LocalAction::ReplyRpc(self.data),
            LocalRoute::SnapshotReq => LocalAction::SnapshotReq(self.data),
            LocalRoute::Unexpected => LocalAction::Unexpected(self.key),
        }
    }

    /// Reads the engine's pause flag and dispatches the message.  The flag
    /// is shared, so the result is the one for either of its values.
    pub fn handle(self, rt_key: RoutingKey, service: &mut Network) -> (action: LocalAction)
        ensures
            action.follows(local_route(true, rt_key), self.key(), self.data()) || action.follows(
                local_route(false, rt_key),
                self.key(),
                self.data(),
            ),
            final(service).flag() == old(service).flag(),
    {
        let paused = service.is_paused();
        self.dispatch(paused, rt_key)
    }
}

/// What is to be done with a message from a peer.
#[derive(Debug)]
pub enum RemoteAction {
    /// Nothing: the pause gate held the message back.
    Dropped,
    /// Nothing yet: the message is kept for the synchronizer.
    Reserved,
    /// Publish the message on this channel of the bus.
    Publish(BusChannel, PubMessage),
    /// Report this key, for which there is no rule.
    Unexpected(String),
}

impl RemoteAction {
    /// Whether this is what the rule `route` makes of a message with this
    /// key text and these bytes.
    pub open spec fn follows(self, route: RemoteRoute, key: Seq<char>, data: Seq<u8>) -> bool {
        match route {
            RemoteRoute::Dropped => self is Dropped,
            RemoteRoute::Reserved => self is Reserved,
            RemoteRoute::Publish(channel, msg_type) => self matches RemoteAction::Publish(c, m)
                && c == channel && m.key.names(SubModules::Net, msg_type) && m.data@ == data,
            RemoteRoute::Unexpected => self matches RemoteAction::Unexpected(k) && k@ == key,
        }
    }
}

/// A message that came from a peer.
pub struct RemoteMessage {
    key: String,
    data: Vec<u8>,
}

impl RemoteMessage {
    /// The text of the routing key.
    pub closed spec fn key(self) -> Seq<char> {
        self.key@
    }

    /// The body of the message.
    pub closed spec fn data(self) -> Seq<u8> {
        self.data@
    }

    pub fn new(key: String, data: Vec<u8>) -> (msg: Self)
        ensures
            msg.key() == key@,
            msg.data() == data@,
    {
        RemoteMessage { key, data }
    }

    /// The text of the routing key.
    pub fn key_text(&self) -> (text: &String)
        ensures
            text@ == self.key(),
    {
        &self.key
    }

    /// Says what is to be done with the message, given the routing key that
    /// its key text spells and the value of the pause flag.
    pub fn dispatch(self, paused: bool, rt_key: RoutingKey) -> (action: RemoteAction)
        ensures
            action.follows(remote_route(paused, rt_key), self.key(), self.data()),
    {
        match route_remote(paused, rt_key) {
            RemoteRoute::Dropped => RemoteAction::Dropped,
            RemoteRoute::Reserved => RemoteAction::Reserved,
            RemoteRoute::Publish(channel, msg_type) => RemoteAction::Publish(
                channel,
                PubMessage::new(RoutingKey::net(msg_type), self.data),
            ),
            RemoteRoute::Unexpected => RemoteAction::Unexpected(self.key),
        }
    }

    /// Reads the engine's pause flag and dispatches the message.  The flag
    /// is shared, so the result is the one for either of its values.
    pub fn handle(self, rt_key: RoutingKey, service: &mut Network) -> (action: RemoteAction)
        ensures
            action.follows(remote_route(true, rt_key), self.key(), self.data()) || action.follows(
                remote_route(false, rt_key),
                self.key(),
                self.data(),
            ),
            final(service).flag() == old(service).flag(),
    {
        let paused = service.is_paused();
        self.dispatch(paused, rt_key)
    }
}

/// What the engine asks of its surroundings for one message.
#[derive(Debug)]
pub enum NetworkAction {
    Local(LocalAction),
    Remote(RemoteAction),
}

/// A message for the engine.
pub enum NetworkMessage {
    LocalMessage(LocalMessage),
    RemoteMessage(RemoteMessage),
}

impl NetworkMessage {
    /// Whether `action` is what is to be done with this message when the
    /// pause flag has the value `paused`.
    pub open spec fn leads_to(self, paused: bool, rt_key: RoutingKey, action: NetworkAction) -> bool {
        match self {
            NetworkMessage::LocalMessage(msg) => action matches NetworkAction::Local(a) && a.follows(
                local_route(paused, rt_key),
                msg.key(),
                msg.data(),
            ),
            NetworkMessage::RemoteMessage(msg) => action matches NetworkAction::Remote(a)
                && a.follows(remote_route(paused, rt_key), msg.key(), msg.data()),
        }
    }

    /// The text of the message's routing key.
    pub fn key_text(&self) -> (text: &String)
        ensures
            text@ == match *self {
                NetworkMessage::LocalMessage(msg) => msg.key(),
                NetworkMessage::RemoteMessage(msg) => msg.key(),
            },
    {
        match self {
            NetworkMessage::LocalMessage(msg) => msg.key_text(),
            NetworkMessage::RemoteMessage(msg) => msg.key_text(),
        }
    }

    /// Hands the message to the handler for its side.
    pub fn handle(self, rt_key: RoutingKey, service: &mut Network) -> (action: NetworkAction)
        ensures
            self.leads_to(true, rt_key, action) || self.leads_to(false, rt_key, action),
            final(service).flag() == old(service).flag(),
    {
        match self {
            NetworkMessage::LocalMessage(msg) => NetworkAction::Local(msg.handle(rt_key, service)),
            NetworkMessage::RemoteMessage(msg) => NetworkAction::Remote(
                msg.handle(rt_key, service),
            ),
        }
    }
}

/// What a request to the network holds, as far as the network reads it.
#[derive(Debug)]
pub struct NetRequest {
    pub request_id: Vec<u8>,
    /// Whether the request asks for the number of peers.
    pub peercount: bool,
}

/// Answer to a request for the number of peers, published as the network's
/// `Response`.
#[derive(Debug)]
pub struct PeerCountResponse {
    pub key: RoutingKey,
    pub request_id: Vec<u8>,
    pub peercount: u32,
}

/// The number of peers as it goes into the answer: its low 32 bits.
pub open spec fn peercount_field(peer_count: usize) -> u32 {
    (peer_count as int % 0x1_0000_0000) as u32
}

/// The identifier of the request to answer with the number of peers, if
/// the bus message holds a request and the request asks for that number.
pub fn reply_rpc(request: Option<NetRequest>) -> (request_id: Option<Vec<u8>>)
    ensures
        request_id == match request {
            Some(req) => if req.peercount {
                Some(req.request_id)
            } else {
                None
            },
            None => None,
        },
{
    match request {
        Some(req) => if req.peercount {
            Some(req.request_id)
        } else {
            None
        },
        None => None,
    }
}

/// The answer to a request for the number of peers.
pub fn peer_count_response(request_id: Vec<u8>, peer_count: usize) -> (response: PeerCountResponse)
    ensures
        response.key.names(SubModules::Net, MsgType::Response),
        response.request_id == request_id,
        response.peercount == peercount_field(peer_count),
{
    let low = (peer_count as u64) % 0x1_0000_0000u64;
    PeerCountResponse {
        key: RoutingKey::net(MsgType::Response),
        request_id,
        peercount: low as u32,
    }
}

} // verus!
