use crate::data::broker::{roles_defined, BrokerInfo};
use crate::gateway;
use vstd::prelude::*;

verus! {

/// The topology of the zeebe cluster.
#[derive(Clone, Debug, PartialEq)]
pub struct Topology {
    pub brokers: Vec<BrokerInfo>,
}

/// Every partition of every broker has a role that the protocol defines.
pub open spec fn all_roles_defined(brokers: Seq<gateway::BrokerInfo>) -> bool {
    forall|i: int| 0 <= i < brokers.len() ==> roles_defined(#[trigger] brokers[i].partitions@)
}

/// The broker read from the gateway's broker: same node, host and port, and each
/// partition read in order.
pub open spec fn broker_read_from(b: BrokerInfo, g: gateway::BrokerInfo) -> bool {
    &&& b.node_id == g.node_id
    &&& b.host == g.host
    &&& b.port == g.port
    &&& b.partitions@.len() == g.partitions@.len()
    &&& forall|k: int|
        0 <= k < g.partitions@.len() ==> b.partitions@[k]
            == crate::data::partition::Partition::spec_from(#[trigger] g.partitions@[k])
}

impl Topology {
    /// Read the gateway's topology, each broker in order.
    pub fn from_raw(topology_response: gateway::TopologyResponse) -> (r: Topology)
        requires
            all_roles_defined(topology_response.brokers@),
        ensures
            r.brokers@.len() == topology_response.brokers@.len(),
            forall|i: int|
                0 <= i < r.brokers@.len() ==> broker_read_from(
                    #[trigger] r.brokers@[i],
                    topology_response.brokers@[i],
                ),
    {
        let ghost src = topology_response.brokers@;
        let mut brokers: Vec<BrokerInfo> = Vec::new();
        for b in it: topology_response.brokers.into_iter()
            invariant
                it.seq() == src,
                all_roles_defined(src),
                brokers@.len() == it.index(),
                forall|j: int|
                    0 <= j < it.index() ==> broker_read_from(#[trigger] brokers@[j], src[j]),
        {
            assert(roles_defined(src[it.index() as int].partitions@));
            brokers.push(BrokerInfo::from_gateway(b));
        }
        Topology { brokers }
    }
}

} // verus!
