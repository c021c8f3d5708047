//! Status reports of a node: its transaction counts, its consensus status and
//! its peers, and the services it runs.

use vstd::prelude::*;

verus! {

/// The node's memory pool and transaction counts.
#[derive(Clone, Copy, Debug, PartialEq, Eq, Structural)]
pub struct StatsInfo {
    /// Uncommitted transactions in the persistent pool.
    pub tx_pool_size: u64,
    /// Transactions in the blockchain.
    pub tx_count: u64,
    /// Transactions in the cache.
    pub tx_cache_size: usize,
}

/// Whether the validators can reach consensus from this node's view.
#[derive(Clone, Copy, Debug, PartialEq, Eq, Structural)]
pub enum ConsensusStatus {
    /// Consensus is disabled on this node.
    Disabled,
    /// Consensus is enabled on this node.
    Enabled,
    /// Consensus is enabled and the node has enough connected peers.
    Active,
}

/// The node's consensus status and its number of connected peers.
#[derive(Clone, Copy, Debug, PartialEq, Eq, Structural)]
pub struct HealthCheckInfo {
    pub consensus_status: ConsensusStatus,
    pub connected_peers: usize,
}

/// A service that the node runs.
#[derive(Debug)]
pub struct ServiceInfo {
    pub name: String,
    pub id: u16,
}

/// The services that the node runs.
#[derive(Debug)]
pub struct ServicesResponse {
    pub services: Vec<ServiceInfo>,
}

/// What the node shares with its status reports.
#[derive(Clone, Copy, Debug, PartialEq, Eq, Structural)]
pub struct SharedNodeState {
    pub enabled: bool,
    pub consensus_active: bool,
    pub incoming_connections: usize,
    pub outgoing_connections: usize,
    pub tx_cache_size: usize,
}

/// The node's status reports.
#[derive(Clone, Copy, Debug)]
pub struct SystemApi {
    pub shared_api_state: SharedNodeState,
}

/// The consensus status for a node that is `enabled` and sees consensus as
/// `active`.
pub open spec fn consensus_status_of(enabled: bool, active: bool) -> ConsensusStatus {
    if !enabled {
        ConsensusStatus::Disabled
    } else if active {
        ConsensusStatus::Active
    } else {
        ConsensusStatus::Enabled
    }
}

impl SystemApi {
    pub fn new(shared_api_state: SharedNodeState) -> (r: SystemApi)
        ensures
            r.shared_api_state == shared_api_state,
    {
        SystemApi { shared_api_state }
    }

    /// Incoming and outgoing connections together: between two nodes there is
    /// one connection, in one direction.
    pub fn get_number_of_connected_peers(&self) -> (r: usize)
        requires
            self.shared_api_state.incoming_connections + self.shared_api_state.outgoing_connections
                <= usize::MAX,
        ensures
            r == self.shared_api_state.incoming_connections
                + self.shared_api_state.outgoing_connections,
    {
        self.shared_api_state.incoming_connections + self.shared_api_state.outgoing_connections
    }

    pub fn get_consensus_status(&self) -> (r: ConsensusStatus)
        ensures
            r == consensus_status_of(
                self.shared_api_state.enabled,
                self.shared_api_state.consensus_active,
            ),
    {
        if self.shared_api_state.enabled {
            if self.shared_api_state.consensus_active {
                ConsensusStatus::Active
            } else {
                ConsensusStatus::Enabled
            }
        } else {
            ConsensusStatus::Disabled
        }
    }

    /// The health report: consensus status and connected peers.
    pub fn healthcheck_info(&self) -> (r: HealthCheckInfo)
        requires
            self.shared_api_state.incoming_connections + self.shared_api_state.outgoing_connections
                <= usize::MAX,
        ensures
            r.consensus_status == consensus_status_of(
                self.shared_api_state.enabled,
                self.shared_api_state.consensus_active,
            ),
            r.connected_peers == self.shared_api_state.incoming_connections
                + self.shared_api_state.outgoing_connections,
    {
        HealthCheckInfo {
            consensus_status: self.get_consensus_status(),
            connected_peers: self.get_number_of_connected_peers(),
        }
    }

    /// The statistics report for a pool of `tx_pool_size` and a chain of
    /// `tx_count` transactions.
    pub fn stats_info(&self, tx_pool_size: u64, tx_count: u64) -> (r: StatsInfo)
        ensures
            r == (StatsInfo {
                tx_pool_size,
                tx_count,
                tx_cache_size: self.shared_api_state.tx_cache_size,
            }),
    {
        StatsInfo { tx_pool_size, tx_count, tx_cache_size: self.shared_api_state.tx_cache_size }
    }

    /// The list of services, from the node's pairs of identifier and name.
    pub fn list_services_info(services: &Vec<(u16, String)>) -> (r: ServicesResponse)
        ensures
            r.services@.len() == services@.len(),
            forall|i: int|
                0 <= i < services@.len() ==> (#[trigger] r.services@[i]).id == services@[i].0
                    && r.services@[i].name@ == services@[i].1@,
    {
        let mut out: Vec<ServiceInfo> = Vec::new();
        let mut i: usize = 0;
        while i < services.len()
            invariant
                i <= services@.len(),
                out@.len() == i,
                forall|j: int|
                    0 <= j < i ==> (#[trigger] out@[j]).id == services@[j].0 && out@[j].name@
                        == services@[j].1@,
            decreases services.len() - i,
        {
            let (id, name) = &services[i];
            out.push(ServiceInfo { name: name.clone(), id: *id });
            i += 1;
        }
        ServicesResponse { services: out }
    }
}

} // verus!
