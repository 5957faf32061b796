//! Where the peers of the consensus group are reached.

use vstd::prelude::*;
use std::collections::HashMap;
use crate::daemon::{numeric_id, raft_node_id};
use crate::storage::HiveNode;
use crate::types::PeerInfo;

verus! {

/// The addresses of the peers, by their numeric identifier.
pub struct HiveNetworkFactory {
    connections: HashMap<u64, String>,
}

impl HiveNetworkFactory {
    /// The address registered for each peer.
    pub closed spec fn addrs(&self) -> Map<u64, Seq<char>> {
        Map::new(|k: u64| self.connections@.contains_key(k), |k: u64| self.connections@[k]@)
    }

    /// A factory that knows no peer.
    pub fn new() -> (r: Self)
        ensures
            r.addrs() == Map::<u64, Seq<char>>::empty(),
    {
        let r = HiveNetworkFactory { connections: HashMap::new() };
        assert(r.addrs() =~= Map::<u64, Seq<char>>::empty());
        r
    }

    /// Registers `addr` as the address of the peer `node_id`, in place of
    /// any other.
    pub fn register_node(&mut self, node_id: u64, addr: String)
        ensures
            final(self).addrs() == old(self).addrs().insert(node_id, addr@),
    {
        broadcast use vstd::std_specs::hash::group_hash_axioms;

        self.connections.insert(node_id, addr);
        assert(self.addrs() =~= old(self).addrs().insert(node_id, addr@));
    }

    /// The address of the peer `node_id`, if one is registered.
    pub fn get_addr(&self, node_id: u64) -> (r: Option<String>)
        ensures
            match r {
                Some(a) => self.addrs().contains_key(node_id) && self.addrs()[node_id] == a@,
                None => !self.addrs().contains_key(node_id),
            },
    {
        broadcast use vstd::std_specs::hash::group_hash_axioms;

        match self.connections.get(&node_id) {
            Some(a) => Some(a.clone()),
            None => None,
        }
    }
}

impl Default for HiveNetworkFactory {
    fn default() -> (r: Self)
        ensures
            r.addrs() == Map::<u64, Seq<char>>::empty(),
    {
        HiveNetworkFactory::new()
    }
}

/// How a peer joins the consensus group: under which number, as which node,
/// and whether with a vote.
#[derive(Debug)]
pub struct PeerPlan {
    pub node_id: u64,
    pub node: HiveNode,
    pub voter: bool,
}

/// How `peer` joins under the number `node_id`: it is reached at its
/// address and goes by its identifier as its host name; it votes if it is
/// marked as a voter, and else only learns.
pub fn plan_peer(peer: &PeerInfo, node_id: u64) -> (r: PeerPlan)
    ensures
        r.node_id == node_id,
        r.node.addr@ == peer.addr@,
        r.node.hostname@ == peer.node_id@,
        r.voter == peer.is_voter,
{
    PeerPlan {
        node_id,
        node: HiveNode { addr: peer.addr.clone(), hostname: peer.node_id.clone() },
        voter: peer.is_voter,
    }
}

impl HiveNetworkFactory {
    /// Takes note of the address of `peer` and says how it joins. A peer
    /// goes by the number that its identifier gives by the one mapping that
    /// every node uses for itself, so that a node and its peers agree on it.
    pub fn add_peer(&mut self, peer: &PeerInfo) -> (r: PeerPlan)
        ensures
            r.node_id == numeric_id(peer.node_id@),
            r.node.addr@ == peer.addr@,
            r.node.hostname@ == peer.node_id@,
            r.voter == peer.is_voter,
            final(self).addrs() == old(self).addrs().insert(numeric_id(peer.node_id@), peer.addr@),
    {
        let node_id = raft_node_id(peer.node_id.as_str());
        self.register_node(node_id, peer.addr.clone());
        plan_peer(peer, node_id)
    }
}

} // verus!
