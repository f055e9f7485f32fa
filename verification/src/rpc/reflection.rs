//! The reflection service's own names for the capability families.

use vstd::prelude::*;
use crate::capabilities::CapabilityId;

verus! {

/// A capability family as it goes over the wire.
#[derive(Debug, Clone, Copy, PartialEq, Eq, Structural)]
pub enum RpcCapabilityId {
    LedController,
    Gps,
    LightSensor,
    Thermometer,
    Barometer,
}

pub open spec fn spec_map_capability(cap: CapabilityId) -> RpcCapabilityId {
    match cap {
        CapabilityId::LEDController => RpcCapabilityId::LedController,
        CapabilityId::GPS => RpcCapabilityId::Gps,
        CapabilityId::LightSensor => RpcCapabilityId::LightSensor,
        CapabilityId::Thermometer => RpcCapabilityId::Thermometer,
        CapabilityId::Barometer => RpcCapabilityId::Barometer,
    }
}

#[verifier::when_used_as_spec(spec_map_capability)]
pub fn map_capability_to_rpc(cap: CapabilityId) -> (wire: RpcCapabilityId)
    ensures
        wire == spec_map_capability(cap),
{
    match cap {
        CapabilityId::LEDController => RpcCapabilityId::LedController,
        CapabilityId::GPS => RpcCapabilityId::Gps,
        CapabilityId::LightSensor => RpcCapabilityId::LightSensor,
        CapabilityId::Thermometer => RpcCapabilityId::Thermometer,
        CapabilityId::Barometer => RpcCapabilityId::Barometer,
    }
}

pub fn map_capabilities_to_rpc(caps: Vec<CapabilityId>) -> (wire: Vec<RpcCapabilityId>)
    ensures
        wire@ == caps@.map_values(|c: CapabilityId| spec_map_capability(c)),
{
    let mut wire: Vec<RpcCapabilityId> = Vec::new();
    let n = caps.len();
    let mut i: usize = 0;
    while i < n
        invariant
            i <= n,
            n == caps@.len(),
            wire@.len() == i,
            forall|j: int| 0 <= j < i ==> wire@[j] == spec_map_capability(caps@[j]),
        decreases n - i,
    {
        wire.push(map_capability_to_rpc(caps[i]));
        i += 1;
    }
    proof {
        assert(wire@ =~= caps@.map_values(|c: CapabilityId| spec_map_capability(c)));
    }
    wire
}

} // verus!
