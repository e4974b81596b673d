//! Networking layer of a blockchain node: the peer tables and their
//! requests, the routing of bus and peer messages, the snapshot pause gate
//! and the frame that carries a routed message between two nodes.

pub mod citaprotocol;
pub mod config;
pub mod network;
pub mod node_manager;
pub mod p2p_protocol;
pub mod router;
