use crate::gateway;
use vstd::prelude::*;

verus! {

/// Is this broker a leader or not?
#[derive(Clone, Copy, Debug, PartialEq, Eq)]
pub enum BrokerRole {
    LEADER,
    FOLLOWER,
}

impl From<gateway::PartitionBrokerRole> for BrokerRole {
    fn from(pbr: gateway::PartitionBrokerRole) -> (r: Self) {
        match pbr {
            gateway::PartitionBrokerRole::Follower => BrokerRole::FOLLOWER,
            gateway::PartitionBrokerRole::Leader => BrokerRole::LEADER,
        }
    }
}

impl vstd::std_specs::convert::FromSpecImpl<gateway::PartitionBrokerRole> for BrokerRole {
    open spec fn obeys_from_spec() -> bool {
        true
    }

    open spec fn from_spec(pbr: gateway::PartitionBrokerRole) -> Self {
        match pbr {
            gateway::PartitionBrokerRole::Follower => BrokerRole::FOLLOWER,
            gateway::PartitionBrokerRole::Leader => BrokerRole::LEADER,
        }
    }
}

} // verus!
