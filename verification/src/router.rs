//! Routing keys: the sub-module that a bus message belongs to and the kind
//! of message it is.

use vstd::prelude::*;

verus! {

/// The subsystems that exchange messages over the bus.
#[derive(Clone, Copy, Debug, PartialEq, Eq, Structural)]
pub enum SubModules {
    Jsonrpc,
    Net,
    Chain,
    Consensus,
    Auth,
    Synchronizer,
    Snapshot,
    /// Any sub-module that the network has no rule for.
    Other,
}

/// The kinds of message that the network has a rule for.
#[derive(Clone, Copy, Debug, PartialEq, Eq, Structural)]
pub enum MsgType {
    Request,
    Response,
    RequestNet,
    Status,
    SyncRequest,
    SyncResponse,
    RawBytes,
    CompactSignedProposal,
    GetBlockTxn,
    BlockTxn,
    SnapshotReq,
    SnapshotResp,
    /// Any kind of message that the network has no rule for.
    Other,
}

/// A routing key, `<SubModule>.<MsgType>`.
#[derive(Clone, Copy, Debug, PartialEq, Eq, Structural)]
pub struct RoutingKey {
    pub sub_module: SubModules,
    pub msg_type: MsgType,
}

impl RoutingKey {
    pub fn new(sub_module: SubModules, msg_type: MsgType) -> (key: Self)
        ensures
            key == (RoutingKey { sub_module, msg_type }),
    {
        RoutingKey { sub_module, msg_type }
    }

    /// The sub-module of the key.
    pub fn get_sub_module(&self) -> (sub_module: SubModules)
        ensures
            sub_module == self.sub_module,
    {
        self.sub_module
    }

    /// Whether the key is this sub-module's message of this kind.
    pub open spec fn names(self, sub_module: SubModules, msg_type: MsgType) -> bool {
        self.sub_module == sub_module && self.msg_type == msg_type
    }

    /// The key under which the network publishes a message of this kind.
    pub fn net(msg_type: MsgType) -> (key: Self)
        ensures
            key.names(SubModules::Net, msg_type),
    {
        RoutingKey { sub_module: SubModules::Net, msg_type }
    }
}

} // verus!
