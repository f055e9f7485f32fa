//! The raw GPIO controller: it opens one pin at a time.

use std::collections::HashMap;
use vstd::prelude::*;
use vstd::string::StringExecFns;
use crate::bus::BusController;
use crate::config::BusControllerConfig;
use crate::gpio::{ArbiterState, GpioBorrowChecker, GpioError, LeaseId};
use crate::uuid_text::is_random_uuid;

verus! {

broadcast use vstd::std_specs::hash::group_hash_axioms;

/// How an input pin is biased.
#[derive(Debug, Clone, Copy, PartialEq, Eq, Structural)]
pub enum InputMode {
    Normal,
    PullUp,
    PullDown,
}

/// The level that an output pin starts at.
#[derive(Debug, Clone, Copy, PartialEq, Eq, Structural)]
pub enum OutputMode {
    Normal,
    LogicHigh,
    LogicLow,
}

/// What the hardware pin is to be set up as.
#[derive(Debug, Clone, Copy, PartialEq, Eq, Structural)]
pub enum PinSetup {
    Input(InputMode),
    Output(OutputMode),
    Bidirectional,
}

/// A pin that the controller has opened: its hardware identifier, the
/// lease that holds it, and what it is to be set up as.
#[derive(Debug, Clone, Copy, PartialEq, Eq, Structural)]
pub struct OpenedPin {
    pub pin_id: u8,
    pub bcm_id: u8,
    pub lease: LeaseId,
    pub setup: PinSetup,
}

/// What the GPIO peripheral can fail with, as plain values.
#[derive(Debug, PartialEq)]
pub enum GpioFault {
    PinNotAvailable(u8),
    PinUsed(u8),
    PermissionDenied(String),
    /// Any other failure.
    Unknown,
}

/// The arbiter's error for a fault of the GPIO peripheral. An `Unknown`
/// fault is reported as `default_err_msg`.
pub fn rppal_map_err(err: GpioFault, default_err_msg: &str) -> (e: GpioError)
    ensures
        match err {
            GpioFault::PinNotAvailable(p) => e == GpioError::PinNotFound(p),
            GpioFault::PinUsed(p) => e == GpioError::Busy(p),
            GpioFault::PermissionDenied(s) => e == GpioError::PermissionDenied(s),
            GpioFault::Unknown => e matches GpioError::Other(m) && m@ == default_err_msg@,
        },
{
    match err {
        GpioFault::PinNotAvailable(p) => GpioError::PinNotFound(p),
        GpioFault::PinUsed(p) => GpioError::Busy(p),
        GpioFault::PermissionDenied(s) => GpioError::PermissionDenied(s),
        GpioFault::Unknown => GpioError::Other(String::from_str(default_err_msg)),
    }
}

/// Whether the answer `r` to a request to open a free pin is what the token
/// `t` decides: the pin under the lease `t`, unless `t` names a lease
/// already.
pub open spec fn opened_as(gpio: ArbiterState, t: u128, r: Result<OpenedPin, GpioError>) -> bool {
    if gpio.leases.contains_key(t) {
        r is Err
    } else {
        r matches Ok(opened) && opened.lease.value == t
    }
}

/// The mathematical state of a raw GPIO controller: the lease of each pin
/// that it has open.
pub struct RawState {
    pub owned: Map<u8, u128>,
}

impl RawState {
    /// The controller's answer to a request to open `pin`, before the pin
    /// is leased: `None` where nothing stands against it.
    pub open spec fn open_refusal(self, gpio: ArbiterState, pin: u8) -> Option<GpioError> {
        if self.owned.contains_key(pin) {
            Some(GpioError::Busy(pin))
        } else if !gpio.has(pin) {
            Some(GpioError::PinNotFound(pin))
        } else if gpio.leased(pin) {
            Some(GpioError::Busy(pin))
        } else {
            None
        }
    }

    /// What opening `pin` for `setup` leads to: `after` and `gpio_after`
    /// are the states afterwards, `r` the answer.
    pub open spec fn open_outcome(
        self,
        gpio: ArbiterState,
        pin: u8,
        setup: PinSetup,
        after: RawState,
        gpio_after: ArbiterState,
        r: Result<OpenedPin, GpioError>,
    ) -> bool {
        &&& r is Err ==> after == self && gpio_after == gpio
        &&& match self.open_refusal(gpio, pin) {
            Some(e) => r == Err::<OpenedPin, GpioError>(e),
            None => (exists|t: u128| #[trigger]
                is_random_uuid(t) && opened_as(gpio, t, r)) && (gpio.no_lease() ==> r is Ok)
                && match r {
                Ok(opened) => {
                    &&& opened.pin_id == pin
                    &&& opened.bcm_id == gpio.pool[pin].spec_bcm_id()
                    &&& opened.setup == setup
                    &&& !gpio.leases.contains_key(opened.lease.value)
                    &&& gpio_after == gpio.granted(opened.lease.value, seq![pin])
                    &&& after.owned == self.owned.insert(pin, opened.lease.value)
                },
                Err(e) => e matches GpioError::Other(m) && m@
                    == "lease identifier is already in use"@,
            },
        }
    }
}

/// The raw GPIO controller. It holds the lease of every pin that it has
/// open.
pub struct RawBusController {
    owned_pins: HashMap<u8, LeaseId>,
}

impl View for RawBusController {
    type V = RawState;

    closed spec fn view(&self) -> RawState {
        RawState {
            owned: Map::new(
                |id: u8| self.owned_pins@.contains_key(id),
                |id: u8| self.owned_pins@[id].value,
            ),
        }
    }
}

impl BusController for RawBusController {
    fn name(&self) -> (name: String)
        ensures
            name@ == "RAW"@,
    {
        String::from_str("RAW")
    }
}

impl RawBusController {
    /// A controller with no pin open.
    pub fn new() -> (c: Self)
        ensures
            c@.owned == Map::<u8, u128>::empty(),
    {
        let c = RawBusController { owned_pins: HashMap::new() };
        proof {
            assert(c@.owned =~= Map::<u8, u128>::empty());
        }
        c
    }

    /// A controller from its configuration entry, of which it needs
    /// nothing: as `new`.
    pub fn from_config(config: &BusControllerConfig) -> (c: Self)
        ensures
            c@.owned == Map::<u8, u128>::empty(),
    {
        Self::new()
    }

    /// Whether `pin` is open.
    pub fn is_open(&self, pin: u8) -> (r: bool)
        ensures
            r == self@.owned.contains_key(pin),
    {
        self.owned_pins.contains_key(&pin)
    }

    /// Whether `pin` can be opened now, and its hardware identifier. To be
    /// asked before the hardware pin is touched; nothing is reserved.
    ///
    /// A pin that this controller has open is `Busy`, one that is not in
    /// the pool `PinNotFound`, one that is leased `Busy`.
    pub fn check_open(&self, gpio_borrow: &GpioBorrowChecker, pin: u8) -> (r: Result<u8, GpioError>)
        ensures
            match self@.open_refusal(gpio_borrow@, pin) {
                Some(e) => r == Err::<u8, GpioError>(e),
                None => r == Ok::<u8, GpioError>(gpio_borrow@.pool[pin].spec_bcm_id()),
            },
    {
        if self.owned_pins.contains_key(&pin) {
            return Err(GpioError::Busy(pin));
        }
        let bcm_id = match gpio_borrow.get(&pin) {
            Ok(state) => state.bcm_id(),
            Err(e) => return Err(e),
        };
        if !gpio_borrow.can_borrow_one(pin) {
            return Err(GpioError::Busy(pin));
        }
        Ok(bcm_id)
    }

    /// Leases `pin_id` and records the lease, for a hardware pin that is to
    /// be set up as `setup`.
    ///
    /// The refusals are those of `check_open`. Past them the arbiter
    /// decides: its lease is recorded, or its error is returned. A refusal
    /// changes neither the controller nor the arbiter.
    pub fn borrow_pin(&mut self, gpio_borrow: &mut GpioBorrowChecker, pin_id: u8, setup: PinSetup) -> (r:
        Result<OpenedPin, GpioError>)
        ensures
            old(gpio_borrow)@.wf() ==> final(gpio_borrow)@.wf(),
            old(self)@.open_outcome(
                old(gpio_borrow)@,
                pin_id,
                setup,
                final(self)@,
                final(gpio_borrow)@,
                r,
            ),
    {
        let bcm_id = match self.check_open(gpio_borrow, pin_id) {
            Ok(b) => b,
            Err(e) => return Err(e),
        };
        match gpio_borrow.borrow_one(pin_id) {
            Ok(lease) => {
                self.owned_pins.insert(pin_id, lease);
                proof {
                    assert(final(self)@.owned =~= old(self)@.owned.insert(pin_id, lease.value));
                }
                Ok(OpenedPin { pin_id, bcm_id, lease, setup })
            },
            Err(e) => Err(e),
        }
    }

    /// Opens `pin` as an input.
    pub fn open_in(&mut self, gpio_borrow: &mut GpioBorrowChecker, pin: u8, mode: InputMode) -> (r:
        Result<OpenedPin, GpioError>)
        ensures
            old(gpio_borrow)@.wf() ==> final(gpio_borrow)@.wf(),
            old(self)@.open_outcome(
                old(gpio_borrow)@,
                pin,
                PinSetup::Input(mode),
                final(self)@,
                final(gpio_borrow)@,
                r,
            ),
    {
        self.borrow_pin(gpio_borrow, pin, PinSetup::Input(mode))
    }

    /// Opens `pin` as an output.
    pub fn open_out(&mut self, gpio_borrow: &mut GpioBorrowChecker, pin: u8, mode: OutputMode) -> (r:
        Result<OpenedPin, GpioError>)
        ensures
            old(gpio_borrow)@.wf() ==> final(gpio_borrow)@.wf(),
            old(self)@.open_outcome(
                old(gpio_borrow)@,
                pin,
                PinSetup::Output(mode),
                final(self)@,
                final(gpio_borrow)@,
                r,
            ),
    {
        self.borrow_pin(gpio_borrow, pin, PinSetup::Output(mode))
    }

    /// Opens `pin` for both directions.
    pub fn open_io(&mut self, gpio_borrow: &mut GpioBorrowChecker, pin: u8) -> (r: Result<
        OpenedPin,
        GpioError,
    >)
        ensures
            old(gpio_borrow)@.wf() ==> final(gpio_borrow)@.wf(),
            old(self)@.open_outcome(
                old(gpio_borrow)@,
                pin,
                PinSetup::Bidirectional,
                final(self)@,
                final(gpio_borrow)@,
                r,
            ),
    {
        self.borrow_pin(gpio_borrow, pin, PinSetup::Bidirectional)
    }

    /// Closes `pin` and gives its lease back.
    ///
    /// A pin that is not open is `LeaseNotFound`, and so is a lease that
    /// the arbiter does not know. A refusal changes neither the controller
    /// nor the arbiter.
    pub fn close(&mut self, gpio_borrow: &mut GpioBorrowChecker, pin: u8) -> (r: Result<
        (),
        GpioError,
    >)
        ensures
            old(gpio_borrow)@.wf() ==> final(gpio_borrow)@.wf(),
            r is Err ==> final(self)@ == old(self)@ && final(gpio_borrow)@ == old(gpio_borrow)@,
            r is Ok <==> old(self)@.owned.contains_key(pin) && old(
                gpio_borrow)@.leases.contains_key(old(self)@.owned[pin]),
            r matches Err(e) ==> e == GpioError::LeaseNotFound,
            r is Ok ==> final(gpio_borrow)@ == old(gpio_borrow)@.released(old(self)@.owned[pin])
                && final(self)@.owned == old(self)@.owned.remove(pin),
    {
        let lease = match self.owned_pins.get(&pin) {
            Some(id) => *id,
            None => return Err(GpioError::LeaseNotFound),
        };
        match gpio_borrow.release(&lease) {
            Ok(()) => {},
            Err(e) => return Err(e),
        }
        self.owned_pins.remove(&pin);
        proof {
            assert(final(self)@.owned =~= old(self)@.owned.remove(pin));
        }
        Ok(())
    }
}

} // verus!
