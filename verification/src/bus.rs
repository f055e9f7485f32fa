//! Bus controllers: each claims the pins of its channels through the pin
//! arbiter and keeps the books on which channels are open. The hardware
//! itself is driven by the caller, between `check_open` and `open`.

use vstd::prelude::*;

pub mod i2c;
pub mod pwm;
pub mod uart;
pub mod raw;
pub mod raw_sysfs;
pub mod i2c_sysfs;
pub mod pwm_sysfs;

verus! {

/// What every bus controller offers: a stable name, by which the device
/// server tells controllers apart.
pub trait BusController {
    fn name(&self) -> String;
}

} // verus!
