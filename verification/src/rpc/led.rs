//! The LED service's own names for the LED modes.

use vstd::prelude::*;
use crate::capabilities::LEDMode;

verus! {

/// An LED mode as it goes over the wire.
#[derive(Debug, Clone, Copy, PartialEq, Eq, Structural)]
pub enum LedMode {
    Vis,
    Ir,
}

pub open spec fn spec_map_led_mode(mode: LEDMode) -> LedMode {
    match mode {
        LEDMode::Visible => LedMode::Vis,
        LEDMode::Infrared => LedMode::Ir,
    }
}

pub open spec fn spec_reverse_map_led_mode(mode: LedMode) -> LEDMode {
    match mode {
        LedMode::Vis => LEDMode::Visible,
        LedMode::Ir => LEDMode::Infrared,
    }
}

#[verifier::when_used_as_spec(spec_map_led_mode)]
pub fn map_led_mode(mode: LEDMode) -> (wire: LedMode)
    ensures
        wire == spec_map_led_mode(mode),
{
    match mode {
        LEDMode::Visible => LedMode::Vis,
        LEDMode::Infrared => LedMode::Ir,
    }
}

#[verifier::when_used_as_spec(spec_reverse_map_led_mode)]
pub fn reverse_map_led_mode(mode: LedMode) -> (local: LEDMode)
    ensures
        local == spec_reverse_map_led_mode(mode),
{
    match mode {
        LedMode::Vis => LEDMode::Visible,
        LedMode::Ir => LEDMode::Infrared,
    }
}

/// Mapping a mode to the wire and back gives the mode again, and so the
/// other way round.
pub proof fn lemma_led_mode_round_trip(mode: LEDMode, wire: LedMode)
    ensures
        reverse_map_led_mode(map_led_mode(mode)) == mode,
        map_led_mode(reverse_map_led_mode(wire)) == wire,
{
}

} // verus!
