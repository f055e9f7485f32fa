//! The capability families that a device driver may offer.

use vstd::prelude::*;

verus! {

/// Marks a type that implements at least one capability interface.
pub trait Capability {

}

/// The name of a capability family.
#[derive(Debug, Clone, Copy, PartialEq, Eq, Structural, Hash)]
pub enum CapabilityId {
    LEDController,
    GPS,
    LightSensor,
    Thermometer,
    Barometer,
}

/// The band that an LED controller lights.
#[derive(Debug, Clone, Copy, PartialEq, Eq, Structural)]
pub enum LEDMode {
    Visible,
    Infrared,
}

/// Every capability family, in the order in which a driver is probed.
pub open spec fn known_capabilities() -> Seq<CapabilityId> {
    seq![
        CapabilityId::LEDController,
        CapabilityId::GPS,
        CapabilityId::LightSensor,
        CapabilityId::Thermometer,
        CapabilityId::Barometer,
    ]
}

/// What a driver says of the capabilities it offers.
pub trait CapabilityProbe {
    /// Whether the driver implements the interface of `capability`.
    fn has_capability(&self, capability: CapabilityId) -> bool;
}

/// A driver's adapter to the capability interface `C`: the driver seen
/// through `C`, or nothing where the driver does not implement it.
pub trait CapabilityCast<C: ?Sized> {
    fn cast_ref(&self) -> Option<&C>;

    fn cast_mut(&mut self) -> Option<&mut C>;
}

/// The capability at position `i` of the probing order.
pub fn capability_at(i: usize) -> (c: CapabilityId)
    requires
        i < 5,
    ensures
        c == known_capabilities()[i as int],
{
    if i == 0 {
        CapabilityId::LEDController
    } else if i == 1 {
        CapabilityId::GPS
    } else if i == 2 {
        CapabilityId::LightSensor
    } else if i == 3 {
        CapabilityId::Thermometer
    } else {
        CapabilityId::Barometer
    }
}

/// The capabilities that `answers` says yes to: `answers[i]` is the answer
/// for the capability at position `i` of the probing order.
pub open spec fn selected(answers: Seq<bool>, upto: int) -> Seq<CapabilityId>
    decreases upto,
{
    if upto <= 0 {
        Seq::empty()
    } else if answers[upto - 1] {
        selected(answers, upto - 1).push(known_capabilities()[upto - 1])
    } else {
        selected(answers, upto - 1)
    }
}

/// Lists the capabilities that a driver offers, from its five answers.
pub fn select_capabilities(answers: &[bool; 5]) -> (found: Vec<CapabilityId>)
    ensures
        found@ == selected(answers@, 5),
{
    let mut found: Vec<CapabilityId> = Vec::new();
    let mut i: usize = 0;
    while i < 5
        invariant
            i <= 5,
            found@ == selected(answers@, i as int),
        decreases 5 - i,
    {
        if answers[i] {
            found.push(capability_at(i));
        }
        i += 1;
    }
    found
}

/// Probes `device` once for every capability family, in probing order, and
/// lists those that it says it offers.
pub fn get_device_capabilities<T: CapabilityProbe + ?Sized>(device: &T) -> (found: Vec<
    CapabilityId,
>)
    ensures
        exists|answers: Seq<bool>| answers.len() == 5 && found@ == selected(answers, 5),
{
    let mut answers = [false; 5];
    let mut i: usize = 0;
    while i < 5
        invariant
            i <= 5,
        decreases 5 - i,
    {
        let answer = device.has_capability(capability_at(i));
        answers[i] = answer;
        i += 1;
    }
    let found = select_capabilities(&answers);
    proof {
        assert(answers@.len() == 5 && found@ == selected(answers@, 5));
    }
    found
}

} // verus!
