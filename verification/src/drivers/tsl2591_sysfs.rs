//! The TSL2591 ambient-light sensor.

use vstd::prelude::*;
use vstd::string::StringExecFns;
use crate::config::DeviceConfig;
use crate::device::DeviceError;
use crate::drivers::{
    check_entry, entry_refusal, invalid_state, unsupported_value, wrong_chip, wrong_chip_text,
};
use crate::text::{decimal_text, push_num};

verus! {

pub const DEFAULT_I2C_ADDR: u8 = 0x29;

pub const CHIP_ID: u8 = 0x50;

/// A reading at or above which the gain is too high: 94.5 % of full scale.
pub const HIGH_WATER: u16 = 61930;

/// A third of full scale.
pub const LOW_WATER: u16 = 21845;

/// How long the sensor integrates.
#[derive(Copy, Clone, PartialEq, Eq, Debug, Structural)]
pub enum IntegrationTime {
    _100MS,
    _200MS,
    _300MS,
    _400MS,
    _500MS,
    _600MS,
}

impl IntegrationTime {
    pub open spec fn spec_into_millis(self) -> u16 {
        match self {
            IntegrationTime::_100MS => 100,
            IntegrationTime::_200MS => 200,
            IntegrationTime::_300MS => 300,
            IntegrationTime::_400MS => 400,
            IntegrationTime::_500MS => 500,
            IntegrationTime::_600MS => 600,
        }
    }

    #[verifier::when_used_as_spec(spec_into_millis)]
    pub fn into_millis(self) -> (ms: u16)
        ensures
            ms == self.spec_into_millis(),
    {
        match self {
            IntegrationTime::_100MS => 100,
            IntegrationTime::_200MS => 200,
            IntegrationTime::_300MS => 300,
            IntegrationTime::_400MS => 400,
            IntegrationTime::_500MS => 500,
            IntegrationTime::_600MS => 600,
        }
    }

    /// The integration time of `value` milliseconds, if there is one.
    pub fn from_millis(value: u16) -> (r: Option<Self>)
        ensures
            r matches Some(t) ==> t.spec_into_millis() == value,
            r is None ==> forall|t: IntegrationTime| t.spec_into_millis() != value,
    {
        if value == 100 {
            Some(IntegrationTime::_100MS)
        } else if value == 200 {
            Some(IntegrationTime::_200MS)
        } else if value == 300 {
            Some(IntegrationTime::_300MS)
        } else if value == 400 {
            Some(IntegrationTime::_400MS)
        } else if value == 500 {
            Some(IntegrationTime::_500MS)
        } else if value == 600 {
            Some(IntegrationTime::_600MS)
        } else {
            None
        }
    }

    /// The bits of the control register that select the time.
    pub open spec fn spec_code(self) -> u8 {
        match self {
            IntegrationTime::_100MS => 0x00,
            IntegrationTime::_200MS => 0x01,
            IntegrationTime::_300MS => 0x02,
            IntegrationTime::_400MS => 0x03,
            IntegrationTime::_500MS => 0x04,
            IntegrationTime::_600MS => 0x05,
        }
    }

    #[verifier::when_used_as_spec(spec_code)]
    pub fn code(self) -> (c: u8)
        ensures
            c == self.spec_code(),
    {
        match self {
            IntegrationTime::_100MS => 0x00,
            IntegrationTime::_200MS => 0x01,
            IntegrationTime::_300MS => 0x02,
            IntegrationTime::_400MS => 0x03,
            IntegrationTime::_500MS => 0x04,
            IntegrationTime::_600MS => 0x05,
        }
    }
}

/// How much the sensor amplifies.
#[derive(Copy, Clone, PartialEq, Eq, Debug, Structural)]
pub enum GainValue {
    _1X,
    _25X,
    _428X,
    _9876X,
}

impl GainValue {
    pub open spec fn spec_into_multiplier(self) -> u16 {
        match self {
            GainValue::_1X => 1,
            GainValue::_25X => 25,
            GainValue::_428X => 428,
            GainValue::_9876X => 9876,
        }
    }

    #[verifier::when_used_as_spec(spec_into_multiplier)]
    pub fn into_multiplier(self) -> (m: u16)
        ensures
            m == self.spec_into_multiplier(),
    {
        match self {
            GainValue::_1X => 1,
            GainValue::_25X => 25,
            GainValue::_428X => 428,
            GainValue::_9876X => 9876,
        }
    }

    /// The gain of multiplier `value`, if there is one.
    pub fn from_multiplier(value: u16) -> (r: Option<Self>)
        ensures
            r matches Some(g) ==> g.spec_into_multiplier() == value,
            r is None ==> forall|g: GainValue| g.spec_into_multiplier() != value,
    {
        if value == 1 {
            Some(GainValue::_1X)
        } else if value == 25 {
            Some(GainValue::_25X)
        } else if value == 428 {
            Some(GainValue::_428X)
        } else if value == 9876 {
            Some(GainValue::_9876X)
        } else {
            None
        }
    }

    /// The bits of the control register that select the gain.
    pub open spec fn spec_code(self) -> u8 {
        match self {
            GainValue::_1X => 0x00,
            GainValue::_25X => 0x10,
            GainValue::_428X => 0x20,
            GainValue::_9876X => 0x30,
        }
    }

    #[verifier::when_used_as_spec(spec_code)]
    pub fn code(self) -> (c: u8)
        ensures
            c == self.spec_code(),
    {
        match self {
            GainValue::_1X => 0x00,
            GainValue::_25X => 0x10,
            GainValue::_428X => 0x20,
            GainValue::_9876X => 0x30,
        }
    }
}

/// The light that a reading is about.
#[derive(PartialEq, Eq, Copy, Clone, Debug, Structural)]
pub enum ChannelId {
    FullSpectrum,
    Infrared,
    Visible,
}

impl ChannelId {
    pub fn from(value: u8) -> (r: Option<Self>)
        ensures
            r == match value {
                0 => Some(ChannelId::FullSpectrum),
                1 => Some(ChannelId::Infrared),
                2 => Some(ChannelId::Visible),
                _ => None::<ChannelId>,
            },
    {
        if value == 0 {
            Some(ChannelId::FullSpectrum)
        } else if value == 1 {
            Some(ChannelId::Infrared)
        } else if value == 2 {
            Some(ChannelId::Visible)
        } else {
            None
        }
    }
}

/// The gains that the sensor supports, by their identifier.
pub open spec fn supported_gains() -> Seq<u16> {
    seq![1u16, 25u16, 428u16, 9876u16]
}

/// The integration times that the sensor supports, by their identifier.
pub open spec fn supported_intervals() -> Seq<u16> {
    seq![100u16, 200u16, 300u16, 400u16, 500u16, 600u16]
}

/// The byte that sets the control register to `timing` and `gain`.
pub fn control_byte(timing: IntegrationTime, gain: GainValue) -> (b: u8)
    ensures
        b == timing.spec_code() | gain.spec_code(),
        b == timing.spec_code() + gain.spec_code(),
{
    let t = timing.code();
    let g = gain.code();
    assert(t <= 5 && (g == 0x00 || g == 0x10 || g == 0x20 || g == 0x30) ==> (t | g) == t + g)
        by (bit_vector);
    t | g
}

/// One 16-bit reading from its two bytes, low byte first.
pub fn adc_word(low: u8, high: u8) -> (w: u16)
    ensures
        w == high as u16 * 256 + low as u16,
{
    let h = high as u16;
    let l = low as u16;
    assert(h <= 255 && l <= 255 ==> ((h << 8) | l) == h * 256 + l) by (bit_vector);
    (h << 8) | l
}

/// Whether bit 0 of the status register, "reading valid", is set.
pub fn status_valid(status: u8) -> (valid: bool)
    ensures
        valid == (status & 0x01 != 0),
{
    (status & 0x01) != 0
}

#[derive(Debug, Clone, Copy, PartialEq, Eq, Structural)]
pub struct Tsl2591SysfsConfig {
    pub auto_gain_enabled: bool,
    pub default_gain: u16,
    pub default_integration_time: u16,
    pub device_address: u8,
    pub bus_id: u8,
}

impl Default for Tsl2591SysfsConfig {
    fn default() -> (config: Self)
        ensures
            config == (Tsl2591SysfsConfig {
                auto_gain_enabled: true,
                default_gain: 1,
                default_integration_time: 100,
                device_address: 0x29,
                bus_id: 0,
            }),
    {
        Tsl2591SysfsConfig {
            auto_gain_enabled: true,
            default_gain: GainValue::_1X.into_multiplier(),
            default_integration_time: IntegrationTime::_100MS.into_millis(),
            device_address: DEFAULT_I2C_ADDR,
            bus_id: 0,
        }
    }
}

/// The gain that the sensor is to go to after a full-spectrum reading of
/// `c0` at `gain` and `timing`: up where the reading is under a third
/// of full scale even at the higher gain, down where it is above 94.5 % of
/// what the integration time can reach.
pub open spec fn next_gain(gain: GainValue, timing: IntegrationTime, c0: u16) -> GainValue {
    let high: int = if timing == IntegrationTime::_100MS {
        30965
    } else {
        61930
    };
    match gain {
        GainValue::_1X => if c0 < 51 {
            GainValue::_428X
        } else if c0 < 873 {
            GainValue::_25X
        } else {
            gain
        },
        GainValue::_25X => if c0 < 55 {
            GainValue::_9876X
        } else if c0 < 1285 {
            GainValue::_428X
        } else if c0 > high {
            GainValue::_1X
        } else {
            gain
        },
        GainValue::_428X => if c0 < 949 {
            GainValue::_9876X
        } else if c0 > high {
            GainValue::_25X
        } else {
            gain
        },
        GainValue::_9876X => if c0 > high {
            GainValue::_428X
        } else {
            gain
        },
    }
}

/// Whether the sensor has a gain of multiplier `value`.
pub open spec fn gain_supported(value: u16) -> bool {
    exists|g: GainValue| g.spec_into_multiplier() == value
}

/// Whether the sensor has an integration time of `value` milliseconds.
pub open spec fn interval_supported(value: u16) -> bool {
    exists|t: IntegrationTime| t.spec_into_millis() == value
}

/// The complaint about a configuration that the sensor cannot take: an
/// unsupported default gain first, then an unsupported default integration
/// time. `None` where the sensor can take it.
pub open spec fn config_refusal(config: Tsl2591SysfsConfig) -> Option<Seq<char>> {
    if !gain_supported(config.default_gain) {
        Some(
            "invalid config entry: "@ + ("invalid gain multiplier: "@ + decimal_text(
                config.default_gain as nat,
            ) + ", supported gain values are "@ + "1, 25, 428, 9876"@),
        )
    } else if !interval_supported(config.default_integration_time) {
        Some(
            "invalid config entry: "@ + ("invalid integration time: "@ + decimal_text(
                config.default_integration_time as nat,
            ) + ", supported values are "@ + "100, 200, 300, 400, 500, 600"@),
        )
    } else {
        None
    }
}

/// The driver's state right after it was made from `config`.
pub open spec fn configured(config: Tsl2591SysfsConfig, state: Tsl2591State) -> bool {
    &&& state.auto_gain_enabled == config.auto_gain_enabled
    &&& state.config == config
    &&& !state.bus_attached
    &&& !state.is_loaded
    &&& state.gain.spec_into_multiplier() == config.default_gain
    &&& state.integration_time.spec_into_millis() == config.default_integration_time
}

/// The state of the TSL2591 driver.
pub struct Tsl2591SysfsDriver {
    auto_gain_enabled: bool,
    config: Tsl2591SysfsConfig,
    bus_attached: bool,
    gain: GainValue,
    integration_time: IntegrationTime,
    is_loaded: bool,
}

/// The mathematical state of the driver.
pub struct Tsl2591State {
    pub auto_gain_enabled: bool,
    pub config: Tsl2591SysfsConfig,
    pub bus_attached: bool,
    pub gain: GainValue,
    pub integration_time: IntegrationTime,
    pub is_loaded: bool,
}

impl View for Tsl2591SysfsDriver {
    type V = Tsl2591State;

    closed spec fn view(&self) -> Tsl2591State {
        Tsl2591State {
            auto_gain_enabled: self.auto_gain_enabled,
            config: self.config,
            bus_attached: self.bus_attached,
            gain: self.gain,
            integration_time: self.integration_time,
            is_loaded: self.is_loaded,
        }
    }
}

impl Tsl2591State {
    /// Whether the state allows an operation; with `check_bus`, one that
    /// needs the bus.
    pub open spec fn ready(self, check_bus: bool) -> bool {
        self.is_loaded && (!check_bus || self.bus_attached)
    }
}

impl Tsl2591SysfsDriver {
    /// A driver in its configured state, not loaded.
    ///
    /// A default gain or integration time that the sensor does not support
    /// is `InvalidConfig`, the gain first.
    pub fn from_config(config: Tsl2591SysfsConfig) -> (r: Result<Self, DeviceError>)
        ensures
            match config_refusal(config) {
                None => r matches Ok(d) && configured(config, d@),
                Some(text) => r matches Err(DeviceError::InvalidConfig(m)) && m@ == text,
            },
    {
        let gain = match GainValue::from_multiplier(config.default_gain) {
            Some(g) => g,
            None => return Err(
                unsupported_value(
                    "invalid gain multiplier: ",
                    config.default_gain,
                    ", supported gain values are ",
                    "1, 25, 428, 9876",
                ),
            ),
        };
        let integration_time = match IntegrationTime::from_millis(config.default_integration_time) {
            Some(t) => t,
            None => return Err(
                unsupported_value(
                    "invalid integration time: ",
                    config.default_integration_time,
                    ", supported values are ",
                    "100, 200, 300, 400, 500, 600",
                ),
            ),
        };
        Ok(
            Tsl2591SysfsDriver {
                auto_gain_enabled: config.auto_gain_enabled,
                config,
                bus_attached: false,
                gain,
                integration_time,
                is_loaded: false,
            },
        )
    }

    /// A driver from its configuration entry. `parsed` is the
    /// configuration that the entry's data holds, or the parser's
    /// complaint; `default_data` is the JSON text of the default
    /// configuration.
    ///
    /// The entry is judged as `check_entry` says; a configuration that
    /// parsed is handed to `from_config`.
    pub fn new(
        config: Option<&mut DeviceConfig>,
        parsed: Result<Tsl2591SysfsConfig, String>,
        default_data: &str,
    ) -> (r: Result<Self, DeviceError>)
        ensures
            match config {
                None => r matches Err(DeviceError::InvalidConfig(m)) && m@
                    == "this driver requires a configuration object but none was provided"@,
                Some(entry) => match parsed {
                    Ok(c) => *final(entry) == *entry && match config_refusal(c) {
                        None => r matches Ok(d) && configured(c, d@),
                        Some(text) => r matches Err(DeviceError::InvalidConfig(m)) && m@ == text,
                    },
                    Err(complaint) => {
                        &&& r matches Err(DeviceError::InvalidConfig(m)) && m@ == entry_refusal(
                            entry.driver_data@,
                            complaint@,
                        )
                        &&& final(entry).driver == entry.driver
                        &&& final(entry).friendly_name == entry.friendly_name
                        &&& final(entry).driver_data@ == (if entry.driver_data@ == "null"@ {
                            default_data@
                        } else {
                            entry.driver_data@
                        })
                    },
                },
            },
    {
        match parsed {
            Ok(c) => {
                match check_entry(config, true, "", default_data) {
                    Ok(()) => {},
                    Err(e) => return Err(e),
                }
                Self::from_config(c)
            },
            Err(complaint) => {
                match check_entry(config, false, complaint.as_str(), default_data) {
                    Ok(()) => Err(DeviceError::Internal),
                    Err(e) => Err(e),
                }
            },
        }
    }

    /// The driver's name.
    pub fn name(&self) -> (name: String)
        ensures
            name@ == "tsl2591_sysfs"@,
    {
        String::from_str("tsl2591_sysfs")
    }

    pub fn is_running(&self) -> (r: bool)
        ensures
            r == self@.is_loaded,
    {
        self.is_loaded
    }

    /// The configuration that the driver was made with.
    pub fn config(&self) -> (c: Tsl2591SysfsConfig)
        ensures
            c == self@.config,
    {
        self.config
    }

    /// Whether the state allows an operation; with `check_bus`, one that
    /// needs the bus. If not, the operation is `InvalidOperation`.
    pub fn assert_state(&self, check_bus: bool) -> (r: Result<(), DeviceError>)
        ensures
            self@.ready(check_bus) ==> r is Ok,
            !self@.ready(check_bus) ==> (r matches Err(DeviceError::InvalidOperation(m)) && m@
                == "device is in an invalid state"@),
    {
        if self.is_loaded && (!check_bus || self.bus_attached) {
            Ok(())
        } else {
            Err(invalid_state())
        }
    }

    /// Whether the driver can be started: a loaded driver is
    /// `InvalidOperation`.
    pub fn check_start(&self) -> (r: Result<(), DeviceError>)
        ensures
            !self@.is_loaded ==> r is Ok,
            self@.is_loaded ==> (r matches Err(DeviceError::InvalidOperation(m)) && m@
                == "device load requested but this device is already loaded"@),
    {
        if self.is_loaded {
            return Err(
                DeviceError::InvalidOperation(
                    String::from_str("device load requested but this device is already loaded"),
                ),
            );
        }
        Ok(())
    }

    /// Whether the chip that answered is a TSL2591: any other identifier
    /// is `HardwareError`.
    pub fn check_chip(&self, chip_id: u8) -> (r: Result<(), DeviceError>)
        ensures
            chip_id == CHIP_ID ==> r is Ok,
            chip_id != CHIP_ID ==> (r matches Err(DeviceError::HardwareError(m)) && m@
                == wrong_chip_text(
                self@.config.bus_id,
                self@.config.device_address,
                chip_id,
                CHIP_ID,
            )),
    {
        if chip_id != CHIP_ID {
            return Err(
                wrong_chip(self.config.bus_id, self.config.device_address, chip_id, CHIP_ID),
            );
        }
        Ok(())
    }

    /// The byte that sets the sensor to the driver's integration time and
    /// gain.
    pub fn current_control_byte(&self) -> (b: u8)
        ensures
            b == self@.integration_time.spec_code() + self@.gain.spec_code(),
    {
        control_byte(self.integration_time, self.gain)
    }

    /// Books a start that went through: the driver is loaded and has its
    /// bus.
    pub fn finish_start(&mut self)
        ensures
            final(self)@ == (Tsl2591State { bus_attached: true, is_loaded: true, ..old(self)@ }),
    {
        self.bus_attached = true;
        self.is_loaded = true;
    }

    /// Stops the driver: it is not loaded any more and lets go of its bus.
    /// Says whether there was a bus, on which the sensor is to be
    /// disabled. A driver that is not loaded is `InvalidOperation`, and
    /// stays as it was.
    pub fn stop(&mut self) -> (r: Result<bool, DeviceError>)
        ensures
            !old(self)@.is_loaded ==> (r matches Err(DeviceError::InvalidOperation(m)) && m@
                == "device unload requested but this device isn't loaded"@) && final(self)@
                == old(self)@,
            old(self)@.is_loaded ==> r == Ok::<bool, DeviceError>(old(self)@.bus_attached)
                && final(self)@ == (Tsl2591State {
                bus_attached: false,
                is_loaded: false,
                ..old(self)@
            }),
    {
        if !self.is_loaded {
            return Err(
                DeviceError::InvalidOperation(
                    String::from_str("device unload requested but this device isn't loaded"),
                ),
            );
        }
        let had_bus = self.bus_attached;
        self.bus_attached = false;
        self.is_loaded = false;
        Ok(had_bus)
    }

    pub fn get_auto_gain_enabled(&self) -> (r: Result<bool, DeviceError>)
        ensures
            self@.is_loaded ==> r == Ok::<bool, DeviceError>(self@.auto_gain_enabled),
            !self@.is_loaded ==> (r matches Err(DeviceError::InvalidOperation(m)) && m@
                == "device is in an invalid state"@),
    {
        match self.assert_state(false) {
            Ok(()) => Ok(self.auto_gain_enabled),
            Err(e) => Err(e),
        }
    }

    pub fn set_auto_gain_enabled(&mut self, enabled: bool) -> (r: Result<(), DeviceError>)
        ensures
            old(self)@.is_loaded ==> r is Ok && final(self)@ == (Tsl2591State {
                auto_gain_enabled: enabled,
                ..old(self)@
            }),
            !old(self)@.is_loaded ==> (r matches Err(DeviceError::InvalidOperation(m)) && m@
                == "device is in an invalid state"@) && final(self)@ == old(self)@,
    {
        match self.assert_state(false) {
            Ok(()) => {
                self.auto_gain_enabled = enabled;
                Ok(())
            },
            Err(e) => Err(e),
        }
    }

    /// The gain, as its multiplier.
    pub fn get_gain(&self) -> (r: Result<u16, DeviceError>)
        ensures
            self@.is_loaded ==> r == Ok::<u16, DeviceError>(self@.gain.spec_into_multiplier()),
            !self@.is_loaded ==> (r matches Err(DeviceError::InvalidOperation(m)) && m@
                == "device is in an invalid state"@),
    {
        match self.assert_state(false) {
            Ok(()) => Ok(self.gain.into_multiplier()),
            Err(e) => Err(e),
        }
    }

    /// The integration time, in milliseconds.
    pub fn get_interval(&self) -> (r: Result<u16, DeviceError>)
        ensures
            self@.is_loaded ==> r == Ok::<u16, DeviceError>(
                self@.integration_time.spec_into_millis(),
            ),
            !self@.is_loaded ==> (r matches Err(DeviceError::InvalidOperation(m)) && m@
                == "device is in an invalid state"@),
    {
        match self.assert_state(false) {
            Ok(()) => Ok(self.integration_time.into_millis()),
            Err(e) => Err(e),
        }
    }

    /// The multiplier of the gain with identifier `gain_id`.
    pub fn get_supported_gain(gain_id: u8) -> (r: Option<u16>)
        ensures
            gain_id < 4 ==> r == Some(supported_gains()[gain_id as int]),
            gain_id >= 4 ==> r is None,
    {
        if gain_id == 0 {
            Some(1)
        } else if gain_id == 1 {
            Some(25)
        } else if gain_id == 2 {
            Some(428)
        } else if gain_id == 3 {
            Some(9876)
        } else {
            None
        }
    }

    /// The milliseconds of the integration time with identifier
    /// `interval_id`.
    pub fn get_supported_interval(interval_id: u8) -> (r: Option<u16>)
        ensures
            interval_id < 6 ==> r == Some(supported_intervals()[interval_id as int]),
            interval_id >= 6 ==> r is None,
    {
        if interval_id < 6 {
            Some((interval_id as u16 + 1) * 100)
        } else {
            None
        }
    }

    /// What setting the gain with identifier `gain_id` asks of the sensor:
    /// the gain and the byte for the control register. The driver's state
    /// is not touched.
    ///
    /// Without a loaded driver on its bus the request is
    /// `InvalidOperation`, and so is an identifier that names no gain.
    pub fn plan_gain(&self, gain_id: u8) -> (r: Result<(GainValue, u8), DeviceError>)
        ensures
            !self@.ready(true) ==> (r matches Err(DeviceError::InvalidOperation(m)) && m@
                == "device is in an invalid state"@),
            self@.ready(true) && gain_id >= 4 ==> (r matches Err(DeviceError::InvalidOperation(m))
                && m@ == "gain value ID is not supported: "@ + decimal_text(gain_id as nat)),
            self@.ready(true) && gain_id < 4 ==> (r matches Ok(plan)
                && plan.0.spec_into_multiplier() == supported_gains()[gain_id as int] && plan.1
                == self@.integration_time.spec_code() + plan.0.spec_code()),
    {
        match self.assert_state(true) {
            Ok(()) => {},
            Err(e) => return Err(e),
        }
        let multiplier = match Self::get_supported_gain(gain_id) {
            Some(m) => m,
            None => {
                let mut m = String::from_str("gain value ID is not supported: ");
                push_num(&mut m, gain_id as u64);
                return Err(DeviceError::InvalidOperation(m));
            },
        };
        let gain = match GainValue::from_multiplier(multiplier) {
            Some(g) => g,
            None => {
                proof {
                    assert(GainValue::_1X.spec_into_multiplier() == 1);
                    assert(GainValue::_25X.spec_into_multiplier() == 25);
                    assert(GainValue::_428X.spec_into_multiplier() == 428);
                    assert(GainValue::_9876X.spec_into_multiplier() == 9876);
                }
                return Err(DeviceError::Internal);
            },
        };
        Ok((gain, control_byte(self.integration_time, gain)))
    }

    /// What setting the integration time with identifier `interval_id`
    /// asks of the sensor: the time and the byte for the control register.
    /// The driver's state is not touched.
    ///
    /// Without a loaded driver on its bus the request is
    /// `InvalidOperation`, and so is an identifier that names no time.
    pub fn plan_interval(&self, interval_id: u8) -> (r: Result<(IntegrationTime, u8), DeviceError>)
        ensures
            !self@.ready(true) ==> (r matches Err(DeviceError::InvalidOperation(m)) && m@
                == "device is in an invalid state"@),
            self@.ready(true) && interval_id >= 6 ==> (r matches Err(
                DeviceError::InvalidOperation(m),
            ) && m@ == "integration time ID is not supported: "@ + decimal_text(
                interval_id as nat,
            )),
            self@.ready(true) && interval_id < 6 ==> (r matches Ok(plan)
                && plan.0.spec_into_millis() == supported_intervals()[interval_id as int] && plan.1
                == plan.0.spec_code() + self@.gain.spec_code()),
    {
        match self.assert_state(true) {
            Ok(()) => {},
            Err(e) => return Err(e),
        }
        let millis = match Self::get_supported_interval(interval_id) {
            Some(m) => m,
            None => {
                let mut m = String::from_str("integration time ID is not supported: ");
                push_num(&mut m, interval_id as u64);
                return Err(DeviceError::InvalidOperation(m));
            },
        };
        let time = match IntegrationTime::from_millis(millis) {
            Some(t) => t,
            None => {
                proof {
                    assert(IntegrationTime::_100MS.spec_into_millis() == 100);
                    assert(IntegrationTime::_200MS.spec_into_millis() == 200);
                    assert(IntegrationTime::_300MS.spec_into_millis() == 300);
                    assert(IntegrationTime::_400MS.spec_into_millis() == 400);
                    assert(IntegrationTime::_500MS.spec_into_millis() == 500);
                    assert(IntegrationTime::_600MS.spec_into_millis() == 600);
                }
                return Err(DeviceError::Internal);
            },
        };
        Ok((time, control_byte(time, self.gain)))
    }

    /// Books a gain that the sensor has taken.
    pub fn set_gain(&mut self, gain: GainValue)
        ensures
            final(self)@ == (Tsl2591State { gain, ..old(self)@ }),
    {
        self.gain = gain;
    }

    /// Books an integration time that the sensor has taken.
    pub fn set_interval(&mut self, integration_time: IntegrationTime)
        ensures
            final(self)@ == (Tsl2591State { integration_time, ..old(self)@ }),
    {
        self.integration_time = integration_time;
    }

    /// What automatic gain asks of the sensor after a full-spectrum reading
    /// of `c0`: the gain to go to and the byte for the control register,
    /// or `None` where automatic gain is off or the gain is to stay.
    pub fn auto_gain_update(&self, c0: u16) -> (r: Option<(GainValue, u8)>)
        ensures
            match r {
                Some(plan) => self@.auto_gain_enabled && plan.0 == next_gain(
                    self@.gain,
                    self@.integration_time,
                    c0,
                ) && plan.0 != self@.gain && plan.1 == self@.integration_time.spec_code()
                    + plan.0.spec_code(),
                None => !self@.auto_gain_enabled || next_gain(
                    self@.gain,
                    self@.integration_time,
                    c0,
                ) == self@.gain,
            },
    {
        if !self.auto_gain_enabled {
            return None;
        }
        let high: u16 = if self.integration_time == IntegrationTime::_100MS {
            HIGH_WATER / 2
        } else {
            HIGH_WATER
        };
        let current = self.gain;
        let mut target = current;
        match current {
            GainValue::_1X => {
                if c0 < LOW_WATER / 428 {
                    target = GainValue::_428X;
                } else if c0 < LOW_WATER / 25 {
                    target = GainValue::_25X;
                }
            },
            GainValue::_25X => {
                if c0 < LOW_WATER / (9876 / 25) {
                    target = GainValue::_9876X;
                } else if c0 < LOW_WATER / (428 / 25) {
                    target = GainValue::_428X;
                } else if c0 > high {
                    target = GainValue::_1X;
                }
            },
            GainValue::_428X => {
                if c0 < LOW_WATER / (9876 / 428) {
                    target = GainValue::_9876X;
                } else if c0 > high {
                    target = GainValue::_25X;
                }
            },
            GainValue::_9876X => {
                if c0 > high {
                    target = GainValue::_428X;
                }
            },
        }
        if target == current {
            None
        } else {
            Some((target, control_byte(self.integration_time, target)))
        }
    }

    /// The luminosity of channel `channel_id` in a reading of `c0` (full
    /// spectrum) and `c1` (infrared).
    ///
    /// A driver that is not loaded is `InvalidOperation`, and so is an
    /// identifier that names no channel. Visible light is the difference
    /// of the two; more infrared than full spectrum is `Other`.
    pub fn get_luminosity(&self, channel_id: u8, c0: u16, c1: u16) -> (r: Result<u32, DeviceError>)
        ensures
            !self@.is_loaded ==> (r matches Err(DeviceError::InvalidOperation(m)) && m@
                == "device is in an invalid state"@),
            self@.is_loaded ==> match channel_id {
                0 => r == Ok::<u32, DeviceError>(c0 as u32),
                1 => r == Ok::<u32, DeviceError>(c1 as u32),
                2 => if c1 > c0 {
                    r matches Err(DeviceError::Other(m)) && m@ == "infrared overflow"@
                } else {
                    r == Ok::<u32, DeviceError>((c0 - c1) as u32)
                },
                _ => r matches Err(DeviceError::InvalidOperation(m)) && m@
                    == "channel ID is not supported: "@ + decimal_text(channel_id as nat),
            },
    {
        match self.assert_state(false) {
            Ok(()) => {},
            Err(e) => return Err(e),
        }
        let channel = match ChannelId::from(channel_id) {
            Some(c) => c,
            None => {
                let mut m = String::from_str("channel ID is not supported: ");
                push_num(&mut m, channel_id as u64);
                return Err(DeviceError::InvalidOperation(m));
            },
        };
        match channel {
            ChannelId::FullSpectrum => Ok(c0 as u32),
            ChannelId::Infrared => Ok(c1 as u32),
            ChannelId::Visible => {
                if c1 > c0 {
                    Err(DeviceError::Other(String::from_str("infrared overflow")))
                } else {
                    Ok((c0 - c1) as u32)
                }
            },
        }
    }

    /// Whether a reading is at the ceiling of what the integration time
    /// can count, so that no illuminance follows from it.
    pub fn reading_overflows(&self, c0: u16, c1: u16) -> (r: bool)
        ensures
            r == {
                let ceiling: u16 = if self@.integration_time == IntegrationTime::_100MS {
                    36863
                } else {
                    65535
                };
                c0 == ceiling || c1 == ceiling
            },
    {
        let ceiling: u16 = if self.integration_time == IntegrationTime::_100MS {
            36863
        } else {
            65535
        };
        c0 == ceiling || c1 == ceiling
    }
}

} // verus!
