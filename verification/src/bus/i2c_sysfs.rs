//! The I2C controller over the sysfs interface.

use std::collections::HashMap;
use vstd::prelude::*;
use vstd::string::StringExecFns;
use crate::bus::i2c::{
    first_issue, issue_text, valid_config, I2CBusController, I2CError, I2CPinDefinition,
    I2cConfigData, I2cState,
};
use crate::bus::BusController;
use crate::config::BusControllerConfig;
use crate::gpio::{token_decides, GpioBorrowChecker, GpioError, LeaseId};
use crate::uuid_text::is_random_uuid;

verus! {

/// The I2C controller over sysfs. It keeps the books as `I2CBusController`
/// does.
pub struct SysfsI2CBusController {
    inner: I2CBusController,
}

impl View for SysfsI2CBusController {
    type V = I2cState;

    closed spec fn view(&self) -> I2cState {
        self.inner@
    }
}

impl BusController for SysfsI2CBusController {
    fn name(&self) -> (name: String)
        ensures
            name@ == "i2c_sysfs"@,
    {
        String::from_str("i2c_sysfs")
    }
}

impl SysfsI2CBusController {
    /// A controller over the channel table `pin_config`, with no bus open.
    /// `supported` says whether the system has the I2C device class;
    /// without it the controller is refused with `OsError`. The table is
    /// checked as `I2CBusController::new` checks it.
    pub fn new(
        gpio_borrow: &GpioBorrowChecker,
        pin_config: HashMap<u8, I2CPinDefinition>,
        supported: bool,
    ) -> (r: Result<Self, I2CError>)
        ensures
            !supported ==> (r matches Err(I2CError::OsError(m)) && m@
                == "I2C is not supported on this system"@),
            supported ==> (r is Ok <==> valid_config(gpio_borrow@.pool, pin_config@)),
            supported ==> match r {
                Ok(c) => c@.config == pin_config@ && c@.owned == Map::<u8, u128>::empty(),
                Err(e) => first_issue(gpio_borrow@.pool, pin_config@, 0) matches Some(issue) && (
                e matches I2CError::InvalidConfig(m) && m@ == issue_text(pin_config@, issue)),
            },
    {
        if !supported {
            return Err(I2CError::OsError(String::from_str("I2C is not supported on this system")));
        }
        match I2CBusController::new(gpio_borrow, pin_config) {
            Ok(inner) => Ok(SysfsI2CBusController { inner }),
            Err(e) => Err(e),
        }
    }

    /// A controller from its configuration entry, as
    /// `I2CBusController::from_config` makes it. `supported` is as in
    /// `new`, and is asked only of a table that parsed.
    pub fn from_config(
        gpio_borrow: &GpioBorrowChecker,
        config: &mut BusControllerConfig,
        parsed: Result<I2cConfigData, String>,
        default_data: &str,
        supported: bool,
    ) -> (r: Result<Self, I2CError>)
        ensures
            final(config).name == old(config).name,
            match parsed {
                Ok(d) => {
                    &&& *final(config) == *old(config)
                    &&& !supported ==> (r matches Err(I2CError::OsError(m)) && m@
                        == "I2C is not supported on this system"@)
                    &&& supported ==> (r is Ok <==> valid_config(gpio_borrow@.pool, d.channels@))
                    &&& r matches Ok(c) ==> c@.config == d.channels@ && c@.owned == Map::<
                        u8,
                        u128,
                    >::empty()
                    &&& supported ==> (r matches Err(e) ==> first_issue(
                        gpio_borrow@.pool,
                        d.channels@,
                        0,
                    ) matches Some(issue) && (e matches I2CError::InvalidConfig(m) && m@
                        == issue_text(d.channels@, issue)))
                },
                Err(complaint) => {
                    &&& final(config).data@ == (if old(config).data@ == "null"@ {
                        default_data@
                    } else {
                        old(config).data@
                    })
                    &&& r matches Err(I2CError::InvalidConfig(m)) && m@
                        == "serialize/parse error: "@ + ("invalid I2C data struct json"@ + ": "@
                        + complaint@)
                },
            },
    {
        match parsed {
            Ok(d) => Self::new(gpio_borrow, d.channels, supported),
            Err(complaint) => {
                match I2CBusController::from_config(
                    gpio_borrow,
                    config,
                    Err(complaint),
                    default_data,
                ) {
                    Ok(inner) => Ok(SysfsI2CBusController { inner }),
                    Err(e) => Err(e),
                }
            },
        }
    }

    /// Whether `bus_id` is open.
    pub fn is_open(&self, bus_id: u8) -> (r: bool)
        ensures
            r == self@.owned.contains_key(bus_id),
    {
        self.inner.is_open(bus_id)
    }

    /// Whether `bus_id` can be opened now. To be asked before the bus
    /// device is touched; nothing is reserved.
    ///
    /// An open bus is `ChannelBusy`, an unknown one `BusNotFound`, and one
    /// whose pins are not both free `HardwareError`.
    pub fn check_open(&self, gpio_borrow: &GpioBorrowChecker, bus_id: u8) -> (r: Result<
        I2CPinDefinition,
        I2CError,
    >)
        ensures
            match self@.open_refusal(bus_id) {
                Some(e) => r == Err::<I2CPinDefinition, I2CError>(e),
                None => if gpio_borrow@.all_free(self@.pins_of(bus_id)) {
                    r == Ok::<I2CPinDefinition, I2CError>(self@.config[bus_id])
                } else {
                    r matches Err(I2CError::HardwareError(m)) && m@
                        == "I2C channel pins are already in use"@
                },
            },
    {
        self.inner.check_open(gpio_borrow, bus_id)
    }

    /// Opens `bus_id`: leases its two pins and records the lease.
    ///
    /// The refusals are those of `check_open`. Past them the arbiter
    /// decides: its lease is recorded, or its error is passed on as
    /// `HardwareError` with the error's text. A refusal changes neither the
    /// controller nor the arbiter.
    pub fn open(&mut self, gpio_borrow: &mut GpioBorrowChecker, bus_id: u8) -> (r: Result<
        LeaseId,
        I2CError,
    >)
        ensures
            old(self)@.open_refusal(bus_id) is None && old(gpio_borrow)@.all_free(
                old(self)@.pins_of(bus_id),
            ) ==> exists|t: u128| #[trigger]
                is_random_uuid(t) && token_decides(old(gpio_borrow)@, t, r),
            old(self)@.open_refusal(bus_id) is None && old(gpio_borrow)@.all_free(
                old(self)@.pins_of(bus_id),
            ) && old(gpio_borrow)@.no_lease() ==> r is Ok,
            old(gpio_borrow)@.wf() ==> final(gpio_borrow)@.wf(),
            final(self)@.config == old(self)@.config,
            r is Err ==> final(self)@ == old(self)@ && final(gpio_borrow)@ == old(gpio_borrow)@,
            match old(self)@.open_refusal(bus_id) {
                Some(e) => r == Err::<LeaseId, I2CError>(e),
                None => if old(gpio_borrow)@.all_free(old(self)@.pins_of(bus_id)) {
                    match r {
                        Ok(id) => !old(gpio_borrow)@.leases.contains_key(id.value) && final(gpio_borrow)@ == old(gpio_borrow)@.granted(id.value, old(self)@.pins_of(bus_id))
                            && final(self)@.owned == old(self)@.owned.insert(bus_id, id.value),
                        Err(e) => e matches I2CError::HardwareError(m) && m@
                            == "lease identifier is already in use"@,
                    }
                } else {
                    r matches Err(I2CError::HardwareError(m)) && m@
                        == "I2C channel pins are already in use"@
                },
            },
    {
        self.inner.open(gpio_borrow, bus_id)
    }

    /// The lease of `bus_id`, opening the bus first where it is not open.
    pub fn get(&mut self, gpio_borrow: &mut GpioBorrowChecker, bus_id: u8) -> (r: Result<
        LeaseId,
        I2CError,
    >)
        ensures
            old(self)@.open_refusal(bus_id) is None && old(gpio_borrow)@.all_free(
                old(self)@.pins_of(bus_id),
            ) ==> exists|t: u128| #[trigger]
                is_random_uuid(t) && token_decides(old(gpio_borrow)@, t, r),
            old(self)@.open_refusal(bus_id) is None && old(gpio_borrow)@.all_free(
                old(self)@.pins_of(bus_id),
            ) && old(gpio_borrow)@.no_lease() ==> r is Ok,
            old(gpio_borrow)@.wf() ==> final(gpio_borrow)@.wf(),
            final(self)@.config == old(self)@.config,
            r is Err ==> final(self)@ == old(self)@ && final(gpio_borrow)@ == old(gpio_borrow)@,
            old(self)@.owned.contains_key(bus_id) ==> r == Ok::<LeaseId, I2CError>(
                LeaseId { value: old(self)@.owned[bus_id] },
            ) && final(self)@ == old(self)@ && final(gpio_borrow)@ == old(gpio_borrow)@,
            !old(self)@.owned.contains_key(bus_id) ==> (if !old(self)@.config.contains_key(bus_id) {
                r == Err::<LeaseId, I2CError>(I2CError::BusNotFound(bus_id))
            } else if old(gpio_borrow)@.all_free(old(self)@.pins_of(bus_id)) {
                match r {
                    Ok(id) => !old(gpio_borrow)@.leases.contains_key(id.value) && final(
                        gpio_borrow)@ == old(gpio_borrow)@.granted(
                        id.value,
                        old(self)@.pins_of(bus_id),
                    ) && final(self)@.owned == old(self)@.owned.insert(bus_id, id.value),
                    Err(e) => e matches I2CError::HardwareError(m) && m@
                        == "lease identifier is already in use"@,
                }
            } else {
                r matches Err(I2CError::HardwareError(m)) && m@
                    == "I2C channel pins are already in use"@
            }),
    {
        self.inner.get(gpio_borrow, bus_id)
    }

    /// Closes `bus_id` and gives its lease back. `handle_refs` is the
    /// number of references to the bus handle that are alive, the
    /// controller's own among them.
    ///
    /// A bus that is not open is `LeaseNotFound`. While anyone but the
    /// controller still holds the handle the bus is `ChannelBusy`. A lease
    /// that the arbiter does not know is `HardwareError` with the arbiter's
    /// text. A refusal changes neither the controller nor the arbiter.
    pub fn close(&mut self, gpio_borrow: &mut GpioBorrowChecker, bus_id: u8, handle_refs: usize) -> (r:
        Result<(), I2CError>)
        ensures
            old(gpio_borrow)@.wf() ==> final(gpio_borrow)@.wf(),
            final(self)@.config == old(self)@.config,
            r is Err ==> final(self)@ == old(self)@ && final(gpio_borrow)@ == old(gpio_borrow)@,
            !old(self)@.owned.contains_key(bus_id) ==> r == Err::<(), I2CError>(
                I2CError::LeaseNotFound,
            ),
            old(self)@.owned.contains_key(bus_id) && handle_refs > 1 ==> r == Err::<(), I2CError>(
                I2CError::ChannelBusy(bus_id),
            ),
            old(self)@.owned.contains_key(bus_id) && handle_refs <= 1 ==> {
                let lease = old(self)@.owned[bus_id];
                if old(gpio_borrow)@.leases.contains_key(lease) {
                    &&& r == Ok::<(), I2CError>(())
                    &&& final(gpio_borrow)@ == old(gpio_borrow)@.released(lease)
                    &&& final(self)@.owned == old(self)@.owned.remove(bus_id)
                } else {
                    r matches Err(I2CError::HardwareError(m)) && m@
                        == GpioError::LeaseNotFound.message()
                }
            },
    {
        self.inner.close(gpio_borrow, bus_id, handle_refs)
    }
}

} // verus!
