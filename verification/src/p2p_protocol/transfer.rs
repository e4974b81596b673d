//! The protocol that carries routed messages between two nodes.

use crate::citaprotocol::{buffer_from_vec, decoded, network_message_to_pubsub_message};
use crate::node_manager::SessionId;
use vstd::prelude::*;

verus! {

/// A routed message that came in on a session.
#[derive(Debug)]
pub struct Inbound {
    /// The text of the routing key.
    pub key: String,
    /// The serialized bus message.
    pub payload: Vec<u8>,
    /// The session it came in on, to be stamped on the bus message.
    pub origin: u32,
}

/// The origin that stands for a session: the low 32 bits of its identifier.
pub open spec fn origin_of(session_id: SessionId) -> u32 {
    (session_id as int % 0x1_0000_0000) as u32
}

/// Description of the transfer protocol for the service.
pub struct TransferProtocolMeta {
    id: usize,
}

impl TransferProtocolMeta {
    /// The protocol identifier.
    pub closed spec fn proto_id(self) -> usize {
        self.id
    }

    pub fn new(id: usize) -> (meta: Self)
        ensures
            meta.proto_id() == id,
    {
        TransferProtocolMeta { id }
    }

    pub fn id(&self) -> (id: usize)
        ensures
            id == self.proto_id(),
    {
        self.id
    }

    /// A handler for the protocol, with no session yet.
    pub fn service_handle(&self) -> (handle: TransferProtocol)
        ensures
            handle.proto_id() == self.proto_id(),
            handle.sessions() == Seq::<SessionId>::empty(),
    {
        TransferProtocol { proto_id: self.id, connected_session_ids: Vec::new() }
    }
}

/// Handler of the transfer sessions.  It keeps the list of open sessions
/// and decodes what comes in on them.
pub struct TransferProtocol {
    proto_id: usize,
    connected_session_ids: Vec<SessionId>,
}

impl TransferProtocol {
    /// The protocol identifier.
    pub closed spec fn proto_id(self) -> usize {
        self.proto_id
    }

    /// The open sessions, in the order in which they opened.
    pub closed spec fn sessions(self) -> Seq<SessionId> {
        self.connected_session_ids@
    }

    /// The open sessions.
    pub fn connected_session_ids(&self) -> (ids: &Vec<SessionId>)
        ensures
            ids@ == self.sessions(),
    {
        &self.connected_session_ids
    }

    /// A session opened: it joins the list.
    pub fn connected(&mut self, session_id: SessionId)
        ensures
            final(self).sessions() == old(self).sessions().push(session_id),
            final(self).proto_id() == old(self).proto_id(),
    {
        self.connected_session_ids.push(session_id);
    }

    /// A session closed: it leaves the list, wherever it stands in it.
    pub fn disconnected(&mut self, session_id: SessionId)
        ensures
            final(self).sessions() == old(self).sessions().filter(|id: SessionId| id != session_id),
            final(self).proto_id() == old(self).proto_id(),
    {
        let ghost keep = |id: SessionId| id != session_id;
        let mut new_list: Vec<SessionId> = Vec::new();
        let mut i: usize = 0;
        assert(self.connected_session_ids@.take(0) =~= Seq::<SessionId>::empty());
        while i < self.connected_session_ids.len()
            invariant
                i <= self.connected_session_ids@.len(),
                keep == |id: SessionId| id != session_id,
                new_list@ == self.connected_session_ids@.take(i as int).filter(keep),
            decreases self.connected_session_ids@.len() - i,
        {
            let id = self.connected_session_ids[i];
            proof {
                let prefix = self.connected_session_ids@.take(i as int);
                assert(self.connected_session_ids@.take(i as int + 1) =~= prefix.push(id));
                assert(prefix.push(id).drop_last() =~= prefix);
                reveal(Seq::filter);
            }
            if id != session_id {
                new_list.push(id);
            }
            i = i + 1;
        }
        assert(self.connected_session_ids@.take(i as int) =~= self.connected_session_ids@);
        self.connected_session_ids = new_list;
    }

    /// A frame came in on a session.  A frame that decodes gives the routed
    /// message with the session as its origin; any other frame is dropped.
    pub fn received(&mut self, session_id: SessionId, data: Vec<u8>) -> (msg: Option<Inbound>)
        ensures
            final(self).sessions() == old(self).sessions(),
            final(self).proto_id() == old(self).proto_id(),
            match decoded(data@) {
                Some((key, payload)) => msg matches Some(m) && m.key@ == key && m.payload@
                    == payload && m.origin == origin_of(session_id),
                None => msg is None,
            },
    {
        let mut buf = buffer_from_vec(data);
        match network_message_to_pubsub_message(&mut buf) {
            Some((key, payload)) => {
                let low = (session_id as u64) % 0x1_0000_0000u64;
                Some(Inbound { key, payload, origin: low as u32 })
            },
            None => None,
        }
    }
}

} // verus!
