//! The discovery side: the address manager that the discovery protocol
//! asks for peers, and the record kept of each discovery session.

use crate::node_manager::{AddNodeReq, GetRandomNodesReq, NodesManagerMessage, RawAddr, SessionId};
use crate::p2p_protocol::SessionType;
use std::collections::HashMap;
use vstd::prelude::*;

verus! {

broadcast use vstd::std_specs::hash::group_hash_axioms;

/// Frames that may wait on one discovery session before further ones are
/// dropped.
pub const DISCOVERY_CHANNEL_CAPACITY: usize = 8;

/// Why the address manager could not do what it was asked.
#[derive(Clone, Copy, Debug, PartialEq, Eq, Structural)]
pub enum AddressManagerError {
    /// The operation has no implementation.
    NotImplemented,
}

/// The address manager that discovery works with.  It keeps nothing
/// itself: what discovery learns and asks goes to the manager as requests.
#[derive(Clone, Debug)]
pub struct NodesAddressManager {}

impl NodesAddressManager {
    pub fn new() -> (mgr: Self) {
        NodesAddressManager {  }
    }

    /// The request that makes a newly discovered address known.
    pub fn add_new(&mut self, addr: RawAddr) -> (request: NodesManagerMessage)
        ensures
            request matches NodesManagerMessage::AddNodeReq(req) && req.addr() == addr,
    {
        NodesManagerMessage::AddNodeReq(AddNodeReq::new(addr))
    }

    /// Scoring of a misbehaving peer is not implemented.
    pub fn misbehave(&mut self, addr: RawAddr, ty: u64) -> (score: Result<i32, AddressManagerError>)
        ensures
            score == Err::<i32, AddressManagerError>(AddressManagerError::NotImplemented),
    {
        Err(AddressManagerError::NotImplemented)
    }

    /// The request for `n` of the known peers.
    pub fn get_random(&mut self, n: usize) -> (request: NodesManagerMessage)
        ensures
            request matches NodesManagerMessage::GetRandomNodesReq(req) && req.num() == n,
    {
        NodesManagerMessage::GetRandomNodesReq(GetRandomNodesReq::new(n))
    }

    /// The peers to hand to discovery: those of the manager's answer, or
    /// none where no answer came in time.
    pub fn random_reply(reply: Option<Vec<RawAddr>>) -> (nodes: Vec<RawAddr>)
        ensures
            nodes@ == match reply {
                Some(list) => list@,
                None => Seq::<RawAddr>::empty(),
            },
    {
        match reply {
            Some(list) => list,
            None => Vec::new(),
        }
    }
}

/// The direction of a discovery session, seen from this node.
#[derive(Clone, Copy, Debug, PartialEq, Eq, Structural)]
pub enum Direction {
    Inbound,
    Outbound,
}

/// The direction of a session of the given type: one that this node
/// accepted is inbound, one that it dialed outbound.
pub open spec fn direction_of(ty: SessionType) -> Direction {
    match ty {
        SessionType::Server => Direction::Inbound,
        SessionType::Client => Direction::Outbound,
    }
}

/// Computes the direction of a session.
pub fn session_direction(ty: SessionType) -> (direction: Direction)
    ensures
        direction == direction_of(ty),
{
    match ty {
        SessionType::Server => Direction::Inbound,
        SessionType::Client => Direction::Outbound,
    }
}

/// What is kept of a discovery session, as mathematical values.
pub struct SessionRecord {
    pub ty: SessionType,
    pub address: RawAddr,
    pub frames: Seq<Seq<u8>>,
}

/// What is kept of a discovery session while it lasts: the side that
/// opened it, the peer's address and the frames received so far.
pub struct SessionData {
    ty: SessionType,
    address: RawAddr,
    data: Vec<Vec<u8>>,
}

impl View for SessionData {
    type V = SessionRecord;

    closed spec fn view(&self) -> SessionRecord {
        SessionRecord {
            ty: self.ty,
            address: self.address,
            frames: Seq::new(self.data@.len(), |i: int| self.data@[i]@),
        }
    }
}

impl SessionData {
    /// The record of a session on which nothing was received yet.
    pub fn new(address: RawAddr, ty: SessionType) -> (session: Self)
        ensures
            session@ == (SessionRecord { ty, address, frames: Seq::empty() }),
    {
        let session = SessionData { ty, address, data: Vec::new() };
        assert(session@.frames =~= Seq::<Seq<u8>>::empty());
        session
    }

    /// Adds a received frame to the record.
    pub fn push_data(&mut self, data: Vec<u8>)
        ensures
            final(self)@ == (SessionRecord { frames: old(self)@.frames.push(data@), ..old(self)@ }),
    {
        self.data.push(data);
        assert(self@.frames =~= old(self)@.frames.push(data@));
    }

    /// The peer's address.
    pub fn address(&self) -> (address: RawAddr)
        ensures
            address == self@.address,
    {
        self.address
    }

    /// The number of frames received so far.
    pub fn frame_count(&self) -> (count: usize)
        ensures
            count == self@.frames.len(),
    {
        self.data.len()
    }

    /// The direction of the session.
    pub fn direction(&self) -> (direction: Direction)
        ensures
            direction == direction_of(self@.ty),
    {
        session_direction(self.ty)
    }
}

/// Description of the discovery protocol for the service.
pub struct DiscoveryProtocolMeta {
    pub id: usize,
    pub addr_mgr: NodesAddressManager,
}

impl DiscoveryProtocolMeta {
    pub fn new(id: usize, addr_mgr: NodesAddressManager) -> (meta: Self)
        ensures
            meta.id == id,
    {
        DiscoveryProtocolMeta { id, addr_mgr }
    }

    pub fn id(&self) -> (id: usize)
        ensures
            id == self.id,
    {
        self.id
    }

    /// A handler for the protocol, with no session yet.
    pub fn service_handle(&self) -> (handle: DiscoveryProtocol)
        ensures
            handle.proto_id() == self.id,
            handle@ == Map::<SessionId, SessionRecord>::empty(),
    {
        let handle = DiscoveryProtocol { id: self.id, sessions: HashMap::new() };
        assert(handle@ =~= Map::<SessionId, SessionRecord>::empty());
        handle
    }
}

/// Handler of the discovery sessions.  It keeps a record of each open
/// session.
pub struct DiscoveryProtocol {
    id: usize,
    sessions: HashMap<SessionId, SessionData>,
}

impl View for DiscoveryProtocol {
    type V = Map<SessionId, SessionRecord>;

    closed spec fn view(&self) -> Map<SessionId, SessionRecord> {
        self.sessions@.map_values(|session: SessionData| session@)
    }
}

impl DiscoveryProtocol {
    /// The protocol identifier.
    pub closed spec fn proto_id(self) -> usize {
        self.id
    }

    /// The number of frames received so far on a session that has a record.
    pub fn frames_received(&self, session_id: SessionId) -> (count: Option<usize>)
        ensures
            count == if self@.contains_key(session_id) {
                Some(self@[session_id].frames.len() as usize)
            } else {
                None
            },
    {
        match self.sessions.get(&session_id) {
            Some(session) => Some(session.frame_count()),
            None => None,
        }
    }

    /// A session opened.  A record is started for it unless it has one, and
    /// the direction of the session is returned for the substream.
    pub fn connected(&mut self, session_id: SessionId, address: RawAddr, ty: SessionType) -> (direction:
        Direction)
        ensures
            direction == direction_of(ty),
            final(self).proto_id() == old(self).proto_id(),
            final(self)@ == if old(self)@.contains_key(session_id) {
                old(self)@
            } else {
                old(self)@.insert(session_id, SessionRecord { ty, address, frames: Seq::empty() })
            },
    {
        if !self.sessions.contains_key(&session_id) {
            self.sessions.insert(session_id, SessionData::new(address, ty));
            assert(self@ =~= old(self)@.insert(
                session_id,
                SessionRecord { ty, address, frames: Seq::empty() },
            ));
        }
        session_direction(ty)
    }

    /// A session closed: its record is dropped.
    pub fn disconnected(&mut self, session_id: SessionId)
        ensures
            final(self).proto_id() == old(self).proto_id(),
            final(self)@ == old(self)@.remove(session_id),
    {
        self.sessions.remove(&session_id);
        assert(self@ =~= old(self)@.remove(session_id));
    }

    /// A frame came in on a session.  It is added to that session's record;
    /// the result says whether the session has one.  A frame on a session
    /// without a record changes nothing.
    pub fn received(&mut self, session_id: SessionId, data: Vec<u8>) -> (known: bool)
        ensures
            known == old(self)@.contains_key(session_id),
            final(self).proto_id() == old(self).proto_id(),
            final(self)@ == if known {
                old(self)@.insert(
                    session_id,
                    SessionRecord {
                        frames: old(self)@[session_id].frames.push(data@),
                        ..old(self)@[session_id]
                    },
                )
            } else {
                old(self)@
            },
    {
        match self.sessions.remove(&session_id) {
            Some(session) => {
                let mut session = session;
                session.push_data(data);
                self.sessions.insert(session_id, session);
                assert(self@ =~= old(self)@.insert(
                    session_id,
                    SessionRecord {
                        frames: old(self)@[session_id].frames.push(data@),
                        ..old(self)@[session_id]
                    },
                ));
                true
            },
            None => {
                assert(self@ =~= old(self)@);
                false
            },
        }
    }
}

} // verus!
