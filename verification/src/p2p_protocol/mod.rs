//! What the peer-to-peer service reports, and the requests to the manager
//! that follow from it.

use crate::node_manager::{AddConnectedNodeReq, DelConnectedNodeReq, DelNodeReq};
use crate::node_manager::{NodesManagerMessage, RawAddr, SessionId};
use vstd::prelude::*;

pub mod node_discovery;
pub mod transfer;

verus! {

/// The side that opened a session: `Client` where this node dialed,
/// `Server` where it accepted.
#[derive(Clone, Copy, Debug, PartialEq, Eq, Structural)]
pub enum SessionType {
    Client,
    Server,
}

/// Why a dial failed, as far as the handler tells the reasons apart.
#[derive(Clone, Copy, Debug, PartialEq, Eq, Structural)]
pub enum DialError {
    /// The peer is linked already, by this session.
    RepeatedConnection(SessionId),
    /// Any other reason.
    Other,
}

/// An error that the service reports.
#[derive(Clone, Copy, Debug)]
pub enum ServiceError {
    DialerError { address: RawAddr, error: DialError },
    ListenError { address: RawAddr },
}

/// An event in the life of a session.
#[derive(Clone, Copy, Debug)]
pub enum ServiceEvent {
    SessionOpen { id: SessionId, address: RawAddr, ty: SessionType },
    SessionClose { id: SessionId },
}

/// Whether `request` records the session `session_id` to `address`.
pub open spec fn records_session(
    request: Option<NodesManagerMessage>,
    address: RawAddr,
    session_id: SessionId,
) -> bool {
    request matches Some(NodesManagerMessage::AddConnectedNodeReq(req)) && req.addr() == address
        && req.session_id() == session_id
}

/// Whether `request` drops the session `session_id`.
pub open spec fn drops_session(request: Option<NodesManagerMessage>, session_id: SessionId) -> bool {
    request matches Some(NodesManagerMessage::DelConnectedNodeReq(req)) && req.session_id()
        == session_id
}

/// Whether `request` forgets the peer at `address`.
pub open spec fn forgets_peer(request: Option<NodesManagerMessage>, address: RawAddr) -> bool {
    request matches Some(NodesManagerMessage::DelNodeReq(req)) && req.addr() == address
}

/// The handler that every protocol shares: it turns what the service
/// reports into requests to the manager.
pub struct SHandle {}

impl SHandle {
    pub fn new() -> (handle: Self) {
        SHandle {  }
    }

    /// The request that follows from an error.  A dial that found the peer
    /// linked already records that session; any other failed dial forgets
    /// the peer; a listen error asks for nothing.
    pub fn handle_error(&mut self, error: ServiceError) -> (request: Option<NodesManagerMessage>)
        ensures
            match error {
                ServiceError::DialerError { address, error: DialError::RepeatedConnection(id) } =>
                    records_session(request, address, id),
                ServiceError::DialerError { address, error: DialError::Other } => forgets_peer(
                    request,
                    address,
                ),
                ServiceError::ListenError { address } => request is None,
            },
    {
        match error {
            ServiceError::DialerError { address, error } => match error {
                DialError::RepeatedConnection(session_id) => Some(
                    NodesManagerMessage::AddConnectedNodeReq(
                        AddConnectedNodeReq::new(address, session_id),
                    ),
                ),
                DialError::Other => Some(NodesManagerMessage::DelNodeReq(DelNodeReq::new(address))),
            },
            ServiceError::ListenError { address } => None,
        }
    }

    /// The request that follows from an event.  A session that this node
    /// dialed is recorded when it opens; one that it accepted is not.  A
    /// session that closes is dropped.
    pub fn handle_event(&mut self, event: ServiceEvent) -> (request: Option<NodesManagerMessage>)
        ensures
            match event {
                ServiceEvent::SessionOpen { id, address, ty: SessionType::Client } =>
                    records_session(request, address, id),
                ServiceEvent::SessionOpen { id, address, ty: SessionType::Server } => request is None,
                ServiceEvent::SessionClose { id } => drops_session(request, id),
            },
    {
        match event {
            ServiceEvent::SessionOpen { id, address, ty } => match ty {
                SessionType::Client => Some(
                    NodesManagerMessage::AddConnectedNodeReq(AddConnectedNodeReq::new(address, id)),
                ),
                SessionType::Server => None,
            },
            ServiceEvent::SessionClose { id } => Some(
                NodesManagerMessage::DelConnectedNodeReq(DelConnectedNodeReq::new(id)),
            ),
        }
    }
}

} // verus!
