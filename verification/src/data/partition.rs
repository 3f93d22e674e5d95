use crate::data::broker_role::BrokerRole;
use crate::gateway;
use vstd::prelude::*;

verus! {

/// Describes a partition on a broker.
#[derive(Clone, Debug, PartialEq)]
pub struct Partition {
    pub partition_id: i32,
    pub role: BrokerRole,
}

/// The gateway numbers a leader 0 and a follower 1; no other number is a role.
pub open spec fn is_role_number(role: i32) -> bool {
    role == 0 || role == 1
}

/// The role that the gateway's number stands for.
pub open spec fn role_of_number(role: i32) -> BrokerRole {
    if role == 0 {
        BrokerRole::LEADER
    } else {
        BrokerRole::FOLLOWER
    }
}

impl Partition {
    pub open spec fn spec_from(p: gateway::Partition) -> Partition {
        Partition { partition_id: p.partition_id, role: role_of_number(p.role) }
    }

    /// Read the gateway's partition; its role must be one that the protocol defines.
    pub fn from_gateway(p: gateway::Partition) -> (r: Self)
        requires
            is_role_number(p.role),
        ensures
            r == Self::spec_from(p),
    {
        let role = if p.role == 0 {
            BrokerRole::LEADER
        } else {
            BrokerRole::FOLLOWER
        };
        Partition { partition_id: p.partition_id, role }
    }
}

} // verus!
