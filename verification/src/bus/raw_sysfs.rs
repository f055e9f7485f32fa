//! The raw GPIO controller over the sysfs interface. The kernel names a
//! pin by its hardware identifier, so closing starts from that.

use vstd::prelude::*;
use vstd::string::StringExecFns;
use crate::bus::raw::{InputMode, OpenedPin, OutputMode, PinSetup, RawBusController, RawState};
use crate::bus::BusController;
use crate::config::BusControllerConfig;
use crate::gpio::{pins_below, ArbiterState, GpioBorrowChecker, GpioError, PinState};
use crate::text::joined;

verus! {

/// What the sysfs GPIO interface can fail with, as plain values, each with
/// its text.
#[derive(Debug, PartialEq)]
pub enum SysfsGpioFault {
    Io(String),
    Unexpected(String),
    InvalidPath(String),
    Unsupported(String),
    /// Any other failure.
    Unknown(String),
}

/// The arbiter's error for a fault of the sysfs GPIO interface: `Io` and
/// `Unexpected` are `OsError`, `InvalidPath` and `Unsupported` are
/// `Unsupported`, each with the fault's text; anything else is `Other` with
/// `default_err_msg`, a colon and the fault's text.
pub fn sysfs_map_err(err: SysfsGpioFault, default_err_msg: &str) -> (e: GpioError)
    ensures
        match err {
            SysfsGpioFault::Io(t) => e == GpioError::OsError(t),
            SysfsGpioFault::Unexpected(t) => e == GpioError::OsError(t),
            SysfsGpioFault::InvalidPath(t) => e == GpioError::Unsupported(t),
            SysfsGpioFault::Unsupported(t) => e == GpioError::Unsupported(t),
            SysfsGpioFault::Unknown(t) => e matches GpioError::Other(m) && m@ == default_err_msg@
                + ": "@ + t@,
        },
{
    match err {
        SysfsGpioFault::Io(t) => GpioError::OsError(t),
        SysfsGpioFault::Unexpected(t) => GpioError::OsError(t),
        SysfsGpioFault::InvalidPath(t) => GpioError::Unsupported(t),
        SysfsGpioFault::Unsupported(t) => GpioError::Unsupported(t),
        SysfsGpioFault::Unknown(t) => {
            let mut m = joined(default_err_msg, ": ");
            m.append(t.as_str());
            GpioError::Other(m)
        },
    }
}

/// The first of `pins` whose hardware identifier is `bcm_id`.
pub open spec fn first_with_bcm(pins: Seq<PinState>, bcm_id: u8, i: int) -> bool {
    &&& 0 <= i < pins.len()
    &&& pins[i].spec_bcm_id() == bcm_id
    &&& forall|j: int| 0 <= j < i ==> (#[trigger] pins[j]).spec_bcm_id() != bcm_id
}

/// Whether none of `pins` has the hardware identifier `bcm_id`.
pub open spec fn none_with_bcm(pins: Seq<PinState>, bcm_id: u8) -> bool {
    forall|i: int| 0 <= i < pins.len() ==> (#[trigger] pins[i]).spec_bcm_id() != bcm_id
}

/// The leased pins of `gpio`, by ascending pin identifier.
pub open spec fn leased_pins(gpio: ArbiterState) -> Seq<PinState> {
    pins_below(gpio.pool, 256, true)
}

/// The logical identifier of the leased pin whose hardware identifier is
/// `bcm_id`: the least such pin, if there are several.
pub fn leased_pin_for_bcm(gpio_borrow: &GpioBorrowChecker, bcm_id: u8) -> (r: Option<u8>)
    ensures
        none_with_bcm(leased_pins(gpio_borrow@), bcm_id) ==> r is None,
        forall|i: int| #[trigger]
            first_with_bcm(leased_pins(gpio_borrow@), bcm_id, i) ==> r == Some(
                leased_pins(gpio_borrow@)[i].spec_pin_id(),
            ),
{
    let held = gpio_borrow.get_borrowed();
    let ghost pins = leased_pins(gpio_borrow@);
    let n = held.len();
    let mut i: usize = 0;
    while i < n
        invariant
            i <= n,
            n == held@.len(),
            pins == leased_pins(gpio_borrow@),
            held@.len() == pins.len(),
            forall|j: int| 0 <= j < held@.len() ==> *held@[j] == pins[j],
            forall|j: int| 0 <= j < i ==> (#[trigger] pins[j]).spec_bcm_id() != bcm_id,
        decreases n - i,
    {
        if held[i].bcm_id() == bcm_id {
            proof {
                assert(first_with_bcm(pins, bcm_id, i as int));
                assert(!none_with_bcm(pins, bcm_id));
                assert forall|k: int| #[trigger] first_with_bcm(pins, bcm_id, k) implies k == i by {
                    if k < i {
                        assert(pins[k].spec_bcm_id() != bcm_id);
                    } else if i < k {
                        assert(pins[i as int].spec_bcm_id() == bcm_id);
                    }
                }
            }
            return Some(held[i].pin_id());
        }
        i += 1;
    }
    proof {
        assert forall|k: int| !(#[trigger] first_with_bcm(pins, bcm_id, k)) by {
            if 0 <= k < pins.len() {
                assert(pins[k].spec_bcm_id() != bcm_id);
            }
        }
    }
    None
}

/// The raw GPIO controller over sysfs.
pub struct SysfsRawBusController {
    inner: RawBusController,
}

impl View for SysfsRawBusController {
    type V = RawState;

    closed spec fn view(&self) -> RawState {
        self.inner@
    }
}

impl BusController for SysfsRawBusController {
    fn name(&self) -> (name: String)
        ensures
            name@ == "raw_sysfs"@,
    {
        String::from_str("raw_sysfs")
    }
}

impl SysfsRawBusController {
    /// A controller with no pin open. `supported` says whether the system
    /// has the sysfs GPIO class; without it the controller is refused with
    /// `OsError`.
    pub fn new(supported: bool) -> (r: Result<Self, GpioError>)
        ensures
            supported ==> (r matches Ok(c) && c@.owned == Map::<u8, u128>::empty()),
            !supported ==> (r matches Err(GpioError::OsError(m)) && m@
                == "GPIO is not supported on this system"@),
    {
        if !supported {
            return Err(
                GpioError::OsError(String::from_str("GPIO is not supported on this system")),
            );
        }
        Ok(SysfsRawBusController { inner: RawBusController::new() })
    }

    /// A controller from its configuration entry, of which it needs
    /// nothing: as `new`.
    pub fn from_config(config: &BusControllerConfig, supported: bool) -> (r: Result<
        Self,
        GpioError,
    >)
        ensures
            supported ==> (r matches Ok(c) && c@.owned == Map::<u8, u128>::empty()),
            !supported ==> (r matches Err(GpioError::OsError(m)) && m@
                == "GPIO is not supported on this system"@),
    {
        Self::new(supported)
    }

    /// Whether `pin` can be opened now, and its hardware identifier. As
    /// `RawBusController::check_open`.
    pub fn check_open(&self, gpio_borrow: &GpioBorrowChecker, pin: u8) -> (r: Result<u8, GpioError>)
        ensures
            match self@.open_refusal(gpio_borrow@, pin) {
                Some(e) => r == Err::<u8, GpioError>(e),
                None => r == Ok::<u8, GpioError>(gpio_borrow@.pool[pin].spec_bcm_id()),
            },
    {
        self.inner.check_open(gpio_borrow, pin)
    }

    /// Opens `pin` as an input.
    pub fn open_in(&mut self, gpio_borrow: &mut GpioBorrowChecker, pin: u8) -> (r: Result<
        OpenedPin,
        GpioError,
    >)
        ensures
            old(gpio_borrow)@.wf() ==> final(gpio_borrow)@.wf(),
            old(self)@.open_outcome(
                old(gpio_borrow)@,
                pin,
                PinSetup::Input(InputMode::Normal),
                final(self)@,
                final(gpio_borrow)@,
                r,
            ),
    {
        self.inner.open_in(gpio_borrow, pin, InputMode::Normal)
    }

    /// Opens `pin` as an output.
    pub fn open_out(&mut self, gpio_borrow: &mut GpioBorrowChecker, pin: u8) -> (r: Result<
        OpenedPin,
        GpioError,
    >)
        ensures
            old(gpio_borrow)@.wf() ==> final(gpio_borrow)@.wf(),
            old(self)@.open_outcome(
                old(gpio_borrow)@,
                pin,
                PinSetup::Output(OutputMode::Normal),
                final(self)@,
                final(gpio_borrow)@,
                r,
            ),
    {
        self.inner.open_out(gpio_borrow, pin, OutputMode::Normal)
    }

    /// The pin that closing the hardware pin `bcm_id` is about: the leased
    /// pin with that hardware identifier, if this controller has it open.
    /// To be asked before the hardware pin is reset. Anything else is
    /// `LeaseNotFound`.
    pub fn check_close(&self, gpio_borrow: &GpioBorrowChecker, bcm_id: u8) -> (r: Result<
        u8,
        GpioError,
    >)
        ensures
            none_with_bcm(leased_pins(gpio_borrow@), bcm_id) ==> r == Err::<u8, GpioError>(
                GpioError::LeaseNotFound,
            ),
            forall|i: int| #[trigger]
                first_with_bcm(leased_pins(gpio_borrow@), bcm_id, i) ==> r == (if self@.owned.contains_key(
                    leased_pins(gpio_borrow@)[i].spec_pin_id(),
                ) {
                    Ok::<u8, GpioError>(leased_pins(gpio_borrow@)[i].spec_pin_id())
                } else {
                    Err::<u8, GpioError>(GpioError::LeaseNotFound)
                }),
    {
        let pin = match leased_pin_for_bcm(gpio_borrow, bcm_id) {
            Some(pin) => pin,
            None => return Err(GpioError::LeaseNotFound),
        };
        if !self.inner.is_open(pin) {
            return Err(GpioError::LeaseNotFound);
        }
        Ok(pin)
    }

    /// Closes `pin` and gives its lease back. As
    /// `RawBusController::close`.
    pub fn close(&mut self, gpio_borrow: &mut GpioBorrowChecker, pin: u8) -> (r: Result<
        (),
        GpioError,
    >)
        ensures
            old(gpio_borrow)@.wf() ==> final(gpio_borrow)@.wf(),
            r is Err ==> final(self)@ == old(self)@ && final(gpio_borrow)@ == old(gpio_borrow)@,
            r is Ok <==> old(self)@.owned.contains_key(pin) && old(
                gpio_borrow)@.leases.contains_key(old(self)@.owned[pin]),
            r matches Err(e) ==> e == GpioError::LeaseNotFound,
            r is Ok ==> final(gpio_borrow)@ == old(gpio_borrow)@.released(old(self)@.owned[pin])
                && final(self)@.owned == old(self)@.owned.remove(pin),
    {
        self.inner.close(gpio_borrow, pin)
    }
}

} // verus!
