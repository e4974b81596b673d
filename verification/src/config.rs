//! What the configuration file says, as plain values.

use vstd::prelude::*;

verus! {

/// Address of the node that is assumed known when the file names none.
pub const DEFAULT_KNOWN_IP: &'static str = "127.0.0.1";

/// Port of the node that is assumed known when the file names none.
pub const DEFAULT_KNOWN_PORT: usize = 1337;

/// Port to listen on when the file names none.
pub const DEFAULT_PORT: usize = 4000;

/// The network section of the configuration.
#[derive(Debug, Clone)]
pub struct NetConfig {
    pub port: Option<usize>,
    pub known_nodes: Option<Vec<NodeConfig>>,
    pub max_connects: Option<usize>,
}

/// One entry of the list of known nodes.
#[derive(Debug, Clone)]
pub struct NodeConfig {
    pub ip: Option<String>,
    pub port: Option<usize>,
}

impl NodeConfig {
    /// Whether this is the entry for `127.0.0.1:1337`.
    pub open spec fn is_default_known(self) -> bool {
        &&& self.ip matches Some(ip) && ip@ == DEFAULT_KNOWN_IP@
        &&& self.port == Some(DEFAULT_KNOWN_PORT)
    }

    /// The entry that stands in for a missing list of known nodes.
    pub fn default_known() -> (node: NodeConfig)
        ensures
            node.is_default_known(),
    {
        NodeConfig { ip: Some(DEFAULT_KNOWN_IP.to_owned()), port: Some(DEFAULT_KNOWN_PORT) }
    }

    /// A copy of this entry.
    pub fn duplicate(&self) -> (node: NodeConfig)
        ensures
            node == *self,
    {
        let ip = match &self.ip {
            Some(ip) => Some(ip.clone()),
            None => None,
        };
        NodeConfig { ip, port: self.port }
    }
}

impl NetConfig {
    /// The port to listen on: the configured one, or 4000.
    pub fn listen_port(&self) -> (port: usize)
        ensures
            port == match self.port {
                Some(p) => p,
                None => DEFAULT_PORT,
            },
    {
        match self.port {
            Some(p) => p,
            None => DEFAULT_PORT,
        }
    }

    /// The nodes to start from: the configured list, or the single default
    /// entry when the file has no list.
    pub fn known_nodes_or_default(&self) -> (nodes: Vec<NodeConfig>)
        ensures
            self.known_nodes matches Some(list) ==> nodes@ == list@,
            self.known_nodes is None ==> nodes@.len() == 1 && nodes@[0].is_default_known(),
    {
        match &self.known_nodes {
            Some(list) => {
                let mut nodes: Vec<NodeConfig> = Vec::with_capacity(list.len());
                let mut i: usize = 0;
                while i < list.len()
                    invariant
                        i <= list@.len(),
                        nodes@ == list@.take(i as int),
                    decreases list@.len() - i,
                {
                    nodes.push(list[i].duplicate());
                    i = i + 1;
                    assert(nodes@ =~= list@.take(i as int));
                }
                assert(list@.take(i as int) =~= list@);
                nodes
            },
            None => {
                let mut nodes: Vec<NodeConfig> = Vec::with_capacity(1);
                nodes.push(NodeConfig::default_known());
                nodes
            },
        }
    }
}

} // verus!
