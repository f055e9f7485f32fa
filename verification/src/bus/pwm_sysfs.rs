//! The PWM controller over the sysfs interface. A channel is a channel of
//! a PWM chip, on one pin.

use std::collections::HashMap;
use vstd::prelude::*;
use vstd::string::StringExecFns;
use crate::bus::pwm::{
    channel_opened_as, first_issue, issue_text, lemma_valid_iff_no_issue, polarity_noted,
    polarity_warning, valid_config, validate_channels, OpenedChannel, PWMError, PwmState,
};
use crate::bus::BusController;
use crate::config::{parse_failure_text, write_default_if_null, BusControllerConfig};
use crate::gpio::{GpioBorrowChecker, GpioError, LeaseId};
use crate::uuid_text::is_random_uuid;

verus! {

broadcast use vstd::std_specs::hash::group_hash_axioms;

/// One sysfs PWM channel: the chip, the channel of the chip, and the pin
/// that the channel drives.
#[derive(Debug, Default, Clone, Copy, PartialEq, Eq)]
pub struct PWMChannel {
    pub chip_num: u8,
    pub chip_channel: u8,
    pub gpio_num: u8,
}

impl PWMChannel {
    pub fn new(chip_num: u8, chip_channel: u8, gpio_num: u8) -> (c: Self)
        ensures
            c.chip_num == chip_num,
            c.chip_channel == chip_channel,
            c.gpio_num == gpio_num,
    {
        Self { chip_num, chip_channel, gpio_num }
    }
}

/// The channel table of a sysfs PWM controller, as it is configured.
#[derive(Debug, Default)]
pub struct SysfsPWMConfigData {
    pub channels: HashMap<u8, PWMChannel>,
}

impl SysfsPWMConfigData {
    pub fn new(channels: HashMap<u8, PWMChannel>) -> (data: Self)
        ensures
            data.channels == channels,
    {
        Self { channels }
    }
}

/// The pin of each channel of `chips`.
pub open spec fn pin_table(chips: Map<u8, PWMChannel>) -> Map<u8, u8> {
    Map::new(|c: u8| chips.contains_key(c), |c: u8| chips[c].gpio_num)
}

/// The mathematical state of a sysfs PWM controller: its channel table and
/// the lease of each open channel.
pub struct SysfsPwmState {
    pub chips: Map<u8, PWMChannel>,
    pub owned: Map<u8, u128>,
}

impl SysfsPwmState {
    /// The same state with each channel reduced to its pin.
    pub open spec fn pwm(self) -> PwmState {
        PwmState { config: pin_table(self.chips), owned: self.owned }
    }
}

/// The PWM controller over sysfs.
pub struct SysfsPWMBusController {
    pin_config: HashMap<u8, PWMChannel>,
    owned_channels: HashMap<u8, LeaseId>,
}

impl View for SysfsPWMBusController {
    type V = SysfsPwmState;

    closed spec fn view(&self) -> SysfsPwmState {
        SysfsPwmState {
            chips: self.pin_config@,
            owned: Map::new(
                |id: u8| self.owned_channels@.contains_key(id),
                |id: u8| self.owned_channels@[id].value,
            ),
        }
    }
}

impl BusController for SysfsPWMBusController {
    fn name(&self) -> (name: String)
        ensures
            name@ == "pwm_sysfs"@,
    {
        String::from_str("pwm_sysfs")
    }
}

fn pins_of(pin_config: &HashMap<u8, PWMChannel>) -> (pins: HashMap<u8, u8>)
    ensures
        pins@ == pin_table(pin_config@),
{
    let mut pins: HashMap<u8, u8> = HashMap::new();
    let mut key: u16 = 0;
    while key < 256
        invariant
            key <= 256,
            forall|c: u8| pins@.contains_key(c) <==> (c < key && pin_config@.contains_key(c)),
            forall|c: u8| pins@.contains_key(c) ==> pins@[c] == pin_config@[c].gpio_num,
        decreases 256 - key,
    {
        let channel = key as u8;
        if let Some(chip) = pin_config.get(&channel) {
            pins.insert(channel, chip.gpio_num);
        }
        key += 1;
    }
    proof {
        assert(pins@ =~= pin_table(pin_config@));
    }
    pins
}

impl SysfsPWMBusController {
    /// A controller over the channel table `pin_config`, with no channel
    /// open. `supported` says whether the system has the PWM class; without
    /// it the controller is refused with `OsError`.
    ///
    /// The table is checked against the pool of `gpio_borrow`: every pin
    /// has to be in the pool, and no two channels may be on one pin. An
    /// invalid table is refused with `InvalidConfig` and the report of the
    /// issue of its least channel that has one.
    pub fn new(
        gpio_borrow: &GpioBorrowChecker,
        pin_config: HashMap<u8, PWMChannel>,
        supported: bool,
    ) -> (r: Result<Self, PWMError>)
        ensures
            !supported ==> (r matches Err(PWMError::OsError(m)) && m@
                == "PWM is not supported on this system"@),
            supported ==> (r is Ok <==> valid_config(
                gpio_borrow@.pool,
                pin_table(pin_config@),
                false,
            )),
            supported ==> match r {
                Ok(c) => c@.chips == pin_config@ && c@.owned == Map::<u8, u128>::empty(),
                Err(e) => first_issue(
                    gpio_borrow@.pool,
                    pin_table(pin_config@),
                    false,
                    0,
                ) matches Some(issue) && (e matches PWMError::InvalidConfig(m) && m@ == issue_text(
                    pin_table(pin_config@),
                    issue,
                )),
            },
    {
        if !supported {
            return Err(PWMError::OsError(String::from_str("PWM is not supported on this system")));
        }
        let pins = pins_of(&pin_config);
        proof {
            lemma_valid_iff_no_issue(gpio_borrow@.pool, pins@, false);
        }
        match validate_channels(gpio_borrow, &pins, false) {
            Some(report) => Err(PWMError::InvalidConfig(report)),
            None => {
                let c = SysfsPWMBusController { pin_config, owned_channels: HashMap::new() };
                proof {
                    assert(c@.owned =~= Map::<u8, u128>::empty());
                }
                Ok(c)
            },
        }
    }

    /// A controller from its configuration entry. `parsed` is the channel
    /// table that the entry's data holds, or the parser's complaint;
    /// `default_data` is the JSON text of an empty table; `supported` is as
    /// in `new`, and is asked only of a table that parsed.
    ///
    /// Data that did not parse is `InvalidConfig`; where the data was
    /// `null`, the entry is left with `default_data` in its place. A table
    /// that parsed is handed to `new`.
    pub fn from_config(
        gpio_borrow: &GpioBorrowChecker,
        config: &mut BusControllerConfig,
        parsed: Result<SysfsPWMConfigData, String>,
        default_data: &str,
        supported: bool,
    ) -> (r: Result<Self, PWMError>)
        ensures
            final(config).name == old(config).name,
            match parsed {
                Ok(d) => {
                    &&& *final(config) == *old(config)
                    &&& !supported ==> (r matches Err(PWMError::OsError(m)) && m@
                        == "PWM is not supported on this system"@)
                    &&& supported ==> (r is Ok <==> valid_config(
                        gpio_borrow@.pool,
                        pin_table(d.channels@),
                        false,
                    ))
                    &&& r matches Ok(c) ==> c@.chips == d.channels@ && c@.owned == Map::<
                        u8,
                        u128,
                    >::empty()
                    &&& supported ==> (r matches Err(e) ==> first_issue(
                        gpio_borrow@.pool,
                        pin_table(d.channels@),
                        false,
                        0,
                    ) matches Some(issue) && (e matches PWMError::InvalidConfig(m) && m@
                        == issue_text(pin_table(d.channels@), issue)))
                },
                Err(complaint) => {
                    &&& final(config).data@ == (if old(config).data@ == "null"@ {
                        default_data@
                    } else {
                        old(config).data@
                    })
                    &&& r matches Err(PWMError::InvalidConfig(m)) && m@
                        == "serialize/parse error: "@ + ("invalid PWM data struct json"@ + ": "@
                        + complaint@)
                },
            },
    {
        match parsed {
            Ok(d) => Self::new(gpio_borrow, d.channels, supported),
            Err(complaint) => {
                write_default_if_null(&mut config.data, default_data);
                Err(
                    PWMError::InvalidConfig(
                        parse_failure_text("invalid PWM data struct json", complaint.as_str()),
                    ),
                )
            },
        }
    }

    /// Whether `channel` can be opened now, and where it is. To be asked
    /// before the channel is exported; nothing is reserved.
    ///
    /// An open channel is `ChannelBusy`, an unknown one `ChannelNotFound`,
    /// and one whose pin is not free `HardwareError` with the text of the
    /// arbiter's `Busy`.
    pub fn check_open(&self, gpio_borrow: &GpioBorrowChecker, channel: u8) -> (r: Result<
        PWMChannel,
        PWMError,
    >)
        ensures
            match self@.pwm().open_refusal(channel) {
                Some(e) => r == Err::<PWMChannel, PWMError>(e),
                None => if gpio_borrow@.free(self@.chips[channel].gpio_num) {
                    r == Ok::<PWMChannel, PWMError>(self@.chips[channel])
                } else {
                    r matches Err(PWMError::HardwareError(m)) && m@ == GpioError::Busy(
                        self@.chips[channel].gpio_num,
                    ).message()
                },
            },
    {
        if self.owned_channels.contains_key(&channel) {
            return Err(PWMError::ChannelBusy(channel));
        }
        let chip = match self.pin_config.get(&channel) {
            Some(chip) => *chip,
            None => return Err(PWMError::ChannelNotFound(channel)),
        };
        if !gpio_borrow.can_borrow_one(chip.gpio_num) {
            return Err(PWMError::HardwareError(GpioError::Busy(chip.gpio_num).to_string()));
        }
        Ok(chip)
    }

    /// Whether `channel` can be closed, and where it is. To be asked
    /// before the channel is unexported. A channel that is not open is
    /// `LeaseNotFound`.
    pub fn check_close(&self, channel: u8) -> (r: Result<PWMChannel, PWMError>)
        ensures
            !self@.owned.contains_key(channel) ==> r == Err::<PWMChannel, PWMError>(
                PWMError::LeaseNotFound,
            ),
            self@.owned.contains_key(channel) && !self@.chips.contains_key(channel) ==> r == Err::<
                PWMChannel,
                PWMError,
            >(PWMError::ChannelNotFound(channel)),
            self@.owned.contains_key(channel) && self@.chips.contains_key(channel) ==> r == Ok::<
                PWMChannel,
                PWMError,
            >(self@.chips[channel]),
    {
        if !self.owned_channels.contains_key(&channel) {
            return Err(PWMError::LeaseNotFound);
        }
        match self.pin_config.get(&channel) {
            Some(chip) => Ok(*chip),
            None => Err(PWMError::ChannelNotFound(channel)),
        }
    }

    /// Whether `channel` is open.
    pub fn is_open(&self, channel: u8) -> (r: bool)
        ensures
            r == self@.owned.contains_key(channel),
    {
        self.owned_channels.contains_key(&channel)
    }

    /// Opens `channel`: leases its pin and records the lease. `polarity` is
    /// what the attempt to set normal polarity on the exported channel came
    /// to; a refusal there is handed back as a warning and keeps nothing
    /// from opening.
    ///
    /// The refusals are those of `check_open`. Past them the arbiter
    /// decides: its lease is recorded, or its error is passed on as
    /// `HardwareError` with the error's text. A refusal changes neither the
    /// controller nor the arbiter.
    pub fn open(
        &mut self,
        gpio_borrow: &mut GpioBorrowChecker,
        channel: u8,
        polarity: Result<(), String>,
    ) -> (r: Result<OpenedChannel, PWMError>)
        ensures
            old(self)@.pwm().open_refusal(channel) is None && old(gpio_borrow)@.free(
                old(self)@.chips[channel].gpio_num,
            ) ==> exists|t: u128| #[trigger]
                is_random_uuid(t) && channel_opened_as(old(gpio_borrow)@, t, r),
            old(self)@.pwm().open_refusal(channel) is None && old(gpio_borrow)@.free(
                old(self)@.chips[channel].gpio_num,
            ) && old(gpio_borrow)@.no_lease() ==> r is Ok,
            old(gpio_borrow)@.wf() ==> final(gpio_borrow)@.wf(),
            final(self)@.chips == old(self)@.chips,
            r is Err ==> final(self)@ == old(self)@ && final(gpio_borrow)@ == old(gpio_borrow)@,
            match old(self)@.pwm().open_refusal(channel) {
                Some(e) => r == Err::<OpenedChannel, PWMError>(e),
                None => if old(gpio_borrow)@.free(pin_table(old(self)@.chips)[channel]) {
                    match r {
                        Ok(opened) => polarity_noted(polarity, opened.warning) && !old(gpio_borrow)@.leases.contains_key(opened.lease.value) && final(
                            gpio_borrow)@ == old(gpio_borrow)@.granted(
                            opened.lease.value,
                            seq![pin_table(old(self)@.chips)[channel]],
                        ) && final(self)@.owned == old(self)@.owned.insert(channel, opened.lease.value),
                        Err(e) => e matches PWMError::HardwareError(m) && m@
                            == "lease identifier is already in use"@,
                    }
                } else {
                    r matches Err(PWMError::HardwareError(m)) && m@ == GpioError::Busy(
                        pin_table(old(self)@.chips)[channel],
                    ).message()
                },
            },
    {
        let chip = match self.check_open(gpio_borrow, channel) {
            Ok(chip) => chip,
            Err(e) => return Err(e),
        };
        match gpio_borrow.borrow_one(chip.gpio_num) {
            Ok(id) => {
                self.owned_channels.insert(channel, id);
                proof {
                    assert(final(self)@.owned =~= old(self)@.owned.insert(channel, id.value));
                }
                Ok(OpenedChannel { lease: id, warning: polarity_warning(polarity) })
            },
            Err(e) => Err(PWMError::HardwareError(e.to_string())),
        }
    }

    /// Closes `channel` and gives its lease back.
    ///
    /// A channel that is not open is `LeaseNotFound`. A lease that the
    /// arbiter does not know is `HardwareError` with the arbiter's text. A
    /// refusal changes neither the controller nor the arbiter.
    pub fn close(&mut self, gpio_borrow: &mut GpioBorrowChecker, channel: u8) -> (r: Result<
        (),
        PWMError,
    >)
        ensures
            old(gpio_borrow)@.wf() ==> final(gpio_borrow)@.wf(),
            final(self)@.chips == old(self)@.chips,
            r is Err ==> final(self)@ == old(self)@ && final(gpio_borrow)@ == old(gpio_borrow)@,
            !old(self)@.owned.contains_key(channel) ==> r == Err::<(), PWMError>(
                PWMError::LeaseNotFound,
            ),
            old(self)@.owned.contains_key(channel) ==> {
                let lease = old(self)@.owned[channel];
                if old(gpio_borrow)@.leases.contains_key(lease) {
                    &&& r == Ok::<(), PWMError>(())
                    &&& final(gpio_borrow)@ == old(gpio_borrow)@.released(lease)
                    &&& final(self)@.owned == old(self)@.owned.remove(channel)
                } else {
                    r matches Err(PWMError::HardwareError(m)) && m@
                        == GpioError::LeaseNotFound.message()
                }
            },
    {
        let lease = match self.owned_channels.get(&channel) {
            Some(id) => *id,
            None => return Err(PWMError::LeaseNotFound),
        };
        match gpio_borrow.release(&lease) {
            Ok(()) => {},
            Err(e) => return Err(PWMError::HardwareError(e.to_string())),
        }
        self.owned_channels.remove(&channel);
        proof {
            assert(final(self)@.owned =~= old(self)@.owned.remove(channel));
        }
        Ok(())
    }
}

} // verus!
