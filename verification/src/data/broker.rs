use crate::data::partition::{is_role_number, Partition};
use crate::gateway;
use vstd::prelude::*;

verus! {

/// Describes a zeebe broker.
#[derive(Clone, Debug, PartialEq)]
pub struct BrokerInfo {
    pub node_id: i32,
    pub host: String,
    pub port: i32,
    pub partitions: Vec<Partition>,
}

/// Every partition of the broker has a role that the protocol defines.
pub open spec fn roles_defined(partitions: Seq<gateway::Partition>) -> bool {
    forall|i: int| 0 <= i < partitions.len() ==> is_role_number(#[trigger] partitions[i].role)
}

impl BrokerInfo {
    /// Read the gateway's broker, each of its partitions in order.
    pub fn from_gateway(bi: gateway::BrokerInfo) -> (r: Self)
        requires
            roles_defined(bi.partitions@),
        ensures
            r.node_id == bi.node_id,
            r.host == bi.host,
            r.port == bi.port,
            r.partitions@.len() == bi.partitions@.len(),
            forall|i: int|
                0 <= i < bi.partitions@.len() ==> r.partitions@[i] == Partition::spec_from(
                    #[trigger] bi.partitions@[i],
                ),
    {
        let ghost src = bi.partitions@;
        let mut partitions: Vec<Partition> = Vec::new();
        for p in it: bi.partitions.into_iter()
            invariant
                it.seq() == src,
                roles_defined(src),
                partitions@.len() == it.index(),
                forall|j: int|
                    0 <= j < it.index() ==> partitions@[j] == Partition::spec_from(#[trigger] src[j]),
        {
            assert(is_role_number(src[it.index() as int].role));
            partitions.push(Partition::from_gateway(p));
        }
        BrokerInfo { node_id: bi.node_id, host: bi.host, port: bi.port, partitions }
    }
}

} // verus!
