//! The BMP280 barometer and thermometer.

use vstd::prelude::*;
use vstd::string::StringExecFns;
use crate::config::DeviceConfig;
use crate::device::DeviceError;
use crate::drivers::{
    check_entry, entry_refusal, invalid_state, unsupported_value, wrong_chip, wrong_chip_text,
};
use crate::text::{decimal_text, joined, push_num};

verus! {

/// The milliseconds between two looks at the status register while the
/// driver waits for the converter.
pub const SPINWAIT_INTERVAL: u16 = 10;

pub const DEFAULT_I2C_ADDR: u8 = 0x76;

pub const CHIP_ID: u8 = 0x58;

/// What the chip does between conversions.
#[derive(Copy, Clone, PartialEq, Eq, Debug, Structural)]
pub enum PowerMode {
    Sleep,
    Once,
    Normal,
}

impl PowerMode {
    pub open spec fn spec_code(self) -> u8 {
        match self {
            PowerMode::Sleep => 0x00,
            PowerMode::Once => 0x01,
            PowerMode::Normal => 0x03,
        }
    }

    #[verifier::when_used_as_spec(spec_code)]
    pub fn code(self) -> (c: u8)
        ensures
            c == self.spec_code(),
    {
        match self {
            PowerMode::Sleep => 0x00,
            PowerMode::Once => 0x01,
            PowerMode::Normal => 0x03,
        }
    }
}

/// How long the chip rests between conversions.
#[derive(Copy, Clone, PartialEq, Eq, Debug, Structural)]
pub enum StandbyTime {
    _1MS,
    _63MS,
    _125MS,
    _250MS,
    _500MS,
    _1000MS,
    _2000MS,
    _4000MS,
}

impl StandbyTime {
    pub open spec fn spec_into_millis(self) -> u16 {
        match self {
            StandbyTime::_1MS => 1,
            StandbyTime::_63MS => 63,
            StandbyTime::_125MS => 125,
            StandbyTime::_250MS => 250,
            StandbyTime::_500MS => 500,
            StandbyTime::_1000MS => 1000,
            StandbyTime::_2000MS => 2000,
            StandbyTime::_4000MS => 4000,
        }
    }

    #[verifier::when_used_as_spec(spec_into_millis)]
    pub fn into_millis(self) -> (ms: u16)
        ensures
            ms == self.spec_into_millis(),
    {
        match self {
            StandbyTime::_1MS => 1,
            StandbyTime::_63MS => 63,
            StandbyTime::_125MS => 125,
            StandbyTime::_250MS => 250,
            StandbyTime::_500MS => 500,
            StandbyTime::_1000MS => 1000,
            StandbyTime::_2000MS => 2000,
            StandbyTime::_4000MS => 4000,
        }
    }

    /// The standby time of `value` milliseconds, if there is one.
    pub fn from_millis(value: u16) -> (r: Option<Self>)
        ensures
            r matches Some(t) ==> t.spec_into_millis() == value,
            r is None ==> forall|t: StandbyTime| t.spec_into_millis() != value,
    {
        if value == 1 {
            Some(StandbyTime::_1MS)
        } else if value == 63 {
            Some(StandbyTime::_63MS)
        } else if value == 125 {
            Some(StandbyTime::_125MS)
        } else if value == 250 {
            Some(StandbyTime::_250MS)
        } else if value == 500 {
            Some(StandbyTime::_500MS)
        } else if value == 1000 {
            Some(StandbyTime::_1000MS)
        } else if value == 2000 {
            Some(StandbyTime::_2000MS)
        } else if value == 4000 {
            Some(StandbyTime::_4000MS)
        } else {
            None
        }
    }

    /// The field of the configuration register that selects the time.
    pub open spec fn spec_code(self) -> u8 {
        match self {
            StandbyTime::_1MS => 0,
            StandbyTime::_63MS => 1,
            StandbyTime::_125MS => 2,
            StandbyTime::_250MS => 3,
            StandbyTime::_500MS => 4,
            StandbyTime::_1000MS => 5,
            StandbyTime::_2000MS => 6,
            StandbyTime::_4000MS => 7,
        }
    }

    #[verifier::when_used_as_spec(spec_code)]
    pub fn code(self) -> (c: u8)
        ensures
            c == self.spec_code(),
    {
        match self {
            StandbyTime::_1MS => 0,
            StandbyTime::_63MS => 1,
            StandbyTime::_125MS => 2,
            StandbyTime::_250MS => 3,
            StandbyTime::_500MS => 4,
            StandbyTime::_1000MS => 5,
            StandbyTime::_2000MS => 6,
            StandbyTime::_4000MS => 7,
        }
    }
}

/// How often the chip oversamples.
#[derive(Copy, Clone, PartialEq, Eq, Debug, Structural)]
pub enum GainValue {
    _1X,
    _2X,
    _4X,
    _8X,
    _16X,
}

impl GainValue {
    pub open spec fn spec_into_multiplier(self) -> u16 {
        match self {
            GainValue::_1X => 1,
            GainValue::_2X => 2,
            GainValue::_4X => 4,
            GainValue::_8X => 8,
            GainValue::_16X => 16,
        }
    }

    #[verifier::when_used_as_spec(spec_into_multiplier)]
    pub fn into_multiplier(self) -> (m: u16)
        ensures
            m == self.spec_into_multiplier(),
    {
        match self {
            GainValue::_1X => 1,
            GainValue::_2X => 2,
            GainValue::_4X => 4,
            GainValue::_8X => 8,
            GainValue::_16X => 16,
        }
    }

    /// The gain of multiplier `value`, if there is one.
    pub fn from_multiplier(value: u16) -> (r: Option<Self>)
        ensures
            r matches Some(g) ==> g.spec_into_multiplier() == value,
            r is None ==> forall|g: GainValue| g.spec_into_multiplier() != value,
    {
        if value == 1 {
            Some(GainValue::_1X)
        } else if value == 2 {
            Some(GainValue::_2X)
        } else if value == 4 {
            Some(GainValue::_4X)
        } else if value == 8 {
            Some(GainValue::_8X)
        } else if value == 16 {
            Some(GainValue::_16X)
        } else {
            None
        }
    }

    /// The field of the control register that selects the gain.
    pub open spec fn spec_code(self) -> u8 {
        match self {
            GainValue::_1X => 1,
            GainValue::_2X => 2,
            GainValue::_4X => 3,
            GainValue::_8X => 4,
            GainValue::_16X => 5,
        }
    }

    #[verifier::when_used_as_spec(spec_code)]
    pub fn code(self) -> (c: u8)
        ensures
            c == self.spec_code(),
    {
        match self {
            GainValue::_1X => 1,
            GainValue::_2X => 2,
            GainValue::_4X => 3,
            GainValue::_8X => 4,
            GainValue::_16X => 5,
        }
    }
}

/// The gains that the chip supports, by their identifier.
pub open spec fn supported_gains() -> Seq<u16> {
    seq![1u16, 2u16, 4u16, 8u16, 16u16]
}

/// The standby times that the chip supports, by their identifier.
pub open spec fn supported_standby_times() -> Seq<u16> {
    seq![1u16, 63u16, 125u16, 250u16, 500u16, 1000u16, 2000u16, 4000u16]
}

/// The byte that sets the control register: the thermometer gain in bits 5
/// to 7, the pressure gain in bits 2 to 4 (shifted by 3, as the chip is
/// driven here), the power mode in bits 0 and 1.
pub fn control_byte(thermometer_gain: GainValue, pressure_gain: GainValue, mode: PowerMode) -> (b:
    u8)
    ensures
        b == ((thermometer_gain.spec_code() << 5) | (pressure_gain.spec_code() << 3))
            | mode.spec_code(),
{
    let t = thermometer_gain.code();
    let p = pressure_gain.code();
    let m = mode.code();
    ((t << 5) | (p << 3)) | m
}

/// The byte that sets the configuration register to the standby time
/// `time`.
pub fn config_byte(time: StandbyTime) -> (b: u8)
    ensures
        b == time.spec_code() * 32,
{
    let c = time.code();
    assert(c <= 7 ==> (c << 5) == c * 32) by (bit_vector);
    c << 5
}

/// One 20-bit reading from its three bytes, most significant first.
pub fn adc_value(msb: u8, lsb: u8, xlsb: u8) -> (v: u32)
    ensures
        v == msb as u32 * 4096 + lsb as u32 * 16 + xlsb as u32 / 16,
{
    let a = msb as u32;
    let b = lsb as u32;
    let c = xlsb as u32;
    assert(a <= 255 && b <= 255 && c <= 255 ==> (((a << 12) | (b << 4)) | (c >> 4)) == a * 4096 + b
        * 16 + c / 16) by (bit_vector);
    ((a << 12) | (b << 4)) | (c >> 4)
}

/// Whether the status register shows neither a conversion nor a copy of
/// the trimming values under way.
pub fn status_ready(status: u8) -> (ready: bool)
    ensures
        ready == (status & 0x09 == 0x00),
{
    (status & 0x09) == 0x00
}

/// One unsigned trimming value from its two bytes, low byte first.
pub fn trimming_word(low: u8, high: u8) -> (w: u16)
    ensures
        w == high as u16 * 256 + low as u16,
{
    let h = high as u16;
    let l = low as u16;
    assert(h <= 255 && l <= 255 ==> ((h << 8) | l) == h * 256 + l) by (bit_vector);
    (h << 8) | l
}

/// The trimming values of one chip.
#[allow(non_snake_case)]
#[derive(Copy, Clone, PartialEq, Eq, Debug, Structural)]
pub struct CalibrationData {
    pub dig_T1: u16,
    pub dig_T2: i16,
    pub dig_T3: i16,
    pub dig_P1: u16,
    pub dig_P2: i16,
    pub dig_P3: i16,
    pub dig_P4: i16,
    pub dig_P5: i16,
    pub dig_P6: i16,
    pub dig_P7: i16,
    pub dig_P8: i16,
    pub dig_P9: i16,
}

/// What the driver does next while it waits for the converter.
#[derive(Debug, PartialEq)]
pub enum WaitStep {
    /// The converter is ready.
    Ready,
    /// Sleep for the step, then look again with this many milliseconds
    /// elapsed.
    Sleep(u32),
    /// Give up with this error.
    Fail(DeviceError),
}

/// One step of waiting for the converter. `elapsed` is the time waited so
/// far, `status` is the status register as it was just read, or the text
/// of the failure to read it. The register is to be read only where
/// `elapsed` is under `timeout`.
///
/// Past the timeout the wait fails with `HardwareError`, and so does a
/// status that could not be read. A ready converter ends the wait;
/// otherwise the driver sleeps for `step` milliseconds.
pub fn wait_adc_valid(elapsed: u32, step: u16, timeout: u16, status: Result<u8, String>) -> (r:
    WaitStep)
    requires
        elapsed <= u32::MAX - step,
    ensures
        elapsed >= timeout ==> (r matches WaitStep::Fail(DeviceError::HardwareError(m)) && m@
            == "timed out waiting for the chip to become ready"@),
        elapsed < timeout ==> match status {
            Ok(s) => if s & 0x09 == 0x00 {
                r == WaitStep::Ready
            } else {
                r == WaitStep::Sleep((elapsed + step) as u32)
            },
            Err(t) => r matches WaitStep::Fail(DeviceError::HardwareError(m)) && m@
                == "failed to read chip status: "@ + t@,
        },
{
    if elapsed >= timeout as u32 {
        return WaitStep::Fail(
            DeviceError::HardwareError(
                String::from_str("timed out waiting for the chip to become ready"),
            ),
        );
    }
    match status {
        Ok(s) => {
            if status_ready(s) {
                WaitStep::Ready
            } else {
                WaitStep::Sleep(elapsed + step as u32)
            }
        },
        Err(t) => WaitStep::Fail(
            DeviceError::HardwareError(
                joined("failed to read chip status: ", t.as_str()),
            ),
        ),
    }
}

#[derive(Debug, Clone, Copy, PartialEq, Eq, Structural)]
pub struct Bmp280SysfsConfig {
    pub default_thermometer_gain: u16,
    pub default_pressure_gain: u16,
    pub default_standby_time: u16,
    pub device_address: u8,
    pub device_ready_timeout: u16,
    pub bus_id: u8,
}

impl Default for Bmp280SysfsConfig {
    fn default() -> (config: Self)
        ensures
            config == (Bmp280SysfsConfig {
                default_thermometer_gain: 1,
                default_pressure_gain: 4,
                default_standby_time: 63,
                device_address: 0x76,
                device_ready_timeout: 100,
                bus_id: 0,
            }),
    {
        Self {
            default_thermometer_gain: GainValue::_1X.into_multiplier(),
            default_pressure_gain: GainValue::_4X.into_multiplier(),
            default_standby_time: StandbyTime::_63MS.into_millis(),
            device_address: DEFAULT_I2C_ADDR,
            device_ready_timeout: 100,
            bus_id: 0,
        }
    }
}

/// The state of the BMP280 driver.
pub struct Bmp280SysfsDriver {
    config: Bmp280SysfsConfig,
    bus_attached: bool,
    calibration_data: Option<CalibrationData>,
    thermometer_gain: GainValue,
    pressure_gain: GainValue,
    standby_time: StandbyTime,
    is_loaded: bool,
}

/// The mathematical state of the driver.
pub struct Bmp280State {
    pub config: Bmp280SysfsConfig,
    pub bus_attached: bool,
    pub calibration_data: Option<CalibrationData>,
    pub thermometer_gain: GainValue,
    pub pressure_gain: GainValue,
    pub standby_time: StandbyTime,
    pub is_loaded: bool,
}

impl View for Bmp280SysfsDriver {
    type V = Bmp280State;

    closed spec fn view(&self) -> Bmp280State {
        Bmp280State {
            config: self.config,
            bus_attached: self.bus_attached,
            calibration_data: self.calibration_data,
            thermometer_gain: self.thermometer_gain,
            pressure_gain: self.pressure_gain,
            standby_time: self.standby_time,
            is_loaded: self.is_loaded,
        }
    }
}

impl Bmp280State {
    /// Whether the state allows an operation; with `check_bus`, one that
    /// needs the bus.
    pub open spec fn ready(self, check_bus: bool) -> bool {
        self.is_loaded && (!check_bus || self.bus_attached)
    }
}

/// Whether the chip supports a gain of multiplier `value`.
pub open spec fn gain_supported(value: u16) -> bool {
    exists|g: GainValue| g.spec_into_multiplier() == value
}

/// Whether the chip supports a standby time of `value` milliseconds.
pub open spec fn standby_supported(value: u16) -> bool {
    exists|t: StandbyTime| t.spec_into_millis() == value
}

/// The complaint about a configuration that the chip cannot take: an
/// unsupported thermometer gain first, then an unsupported pressure gain,
/// then an unsupported standby time. `None` where the chip can take it.
pub open spec fn config_refusal(config: Bmp280SysfsConfig) -> Option<Seq<char>> {
    if !gain_supported(config.default_thermometer_gain) {
        Some(
            "invalid config entry: "@ + ("invalid thermometer gain multiplier: "@ + decimal_text(
                config.default_thermometer_gain as nat,
            ) + ", supported gain values are "@ + "1, 2, 4, 8, 16"@),
        )
    } else if !gain_supported(config.default_pressure_gain) {
        Some(
            "invalid config entry: "@ + ("invalid thermometer gain multiplier: "@ + decimal_text(
                config.default_pressure_gain as nat,
            ) + ", supported gain values are "@ + "1, 2, 4, 8, 16"@),
        )
    } else if !standby_supported(config.default_standby_time) {
        Some(
            "invalid config entry: "@ + ("invalid standby time: "@ + decimal_text(
                config.default_standby_time as nat,
            ) + ", supported values are "@ + "1, 63, 125, 250, 500, 1000, 2000, 4000"@),
        )
    } else {
        None
    }
}

/// The driver's state right after it was made from `config`.
pub open spec fn configured(config: Bmp280SysfsConfig, state: Bmp280State) -> bool {
    &&& state.config == config
    &&& !state.bus_attached
    &&& state.calibration_data is None
    &&& !state.is_loaded
    &&& state.thermometer_gain.spec_into_multiplier() == config.default_thermometer_gain
    &&& state.pressure_gain.spec_into_multiplier() == config.default_pressure_gain
    &&& state.standby_time.spec_into_millis() == config.default_standby_time
}

impl Bmp280SysfsDriver {
    /// A driver in its configured state, not loaded.
    ///
    /// A default gain or standby time that the chip does not support is
    /// `InvalidConfig`: the thermometer gain first, then the pressure
    /// gain, then the standby time.
    pub fn from_config(config: Bmp280SysfsConfig) -> (r: Result<Self, DeviceError>)
        ensures
            match config_refusal(config) {
                None => r matches Ok(d) && configured(config, d@),
                Some(text) => r matches Err(DeviceError::InvalidConfig(m)) && m@ == text,
            },
    {
        let thermometer_gain = match GainValue::from_multiplier(config.default_thermometer_gain) {
            Some(g) => g,
            None => return Err(
                unsupported_value(
                    "invalid thermometer gain multiplier: ",
                    config.default_thermometer_gain,
                    ", supported gain values are ",
                    "1, 2, 4, 8, 16",
                ),
            ),
        };
        let pressure_gain = match GainValue::from_multiplier(config.default_pressure_gain) {
            Some(g) => g,
            None => return Err(
                unsupported_value(
                    "invalid thermometer gain multiplier: ",
                    config.default_pressure_gain,
                    ", supported gain values are ",
                    "1, 2, 4, 8, 16",
                ),
            ),
        };
        let standby_time = match StandbyTime::from_millis(config.default_standby_time) {
            Some(t) => t,
            None => return Err(
                unsupported_value(
                    "invalid standby time: ",
                    config.default_standby_time,
                    ", supported values are ",
                    "1, 63, 125, 250, 500, 1000, 2000, 4000",
                ),
            ),
        };
        Ok(
            Self {
                config,
                bus_attached: false,
                calibration_data: None,
                thermometer_gain,
                pressure_gain,
                standby_time,
                is_loaded: false,
            },
        )
    }

    /// A driver from its configuration entry. `parsed` is the
    /// configuration that the entry's data holds, or the parser's
    /// complaint; `default_data` is the JSON text of the default
    /// configuration.
    ///
    /// The entry is judged as `check_entry` says; a configuration that
    /// parsed is handed to `from_config`.
    pub fn new(
        config: Option<&mut DeviceConfig>,
        parsed: Result<Bmp280SysfsConfig, String>,
        default_data: &str,
    ) -> (r: Result<Self, DeviceError>)
        ensures
            match config {
                None => r matches Err(DeviceError::InvalidConfig(m)) && m@
                    == "this driver requires a configuration object but none was provided"@,
                Some(entry) => match parsed {
                    Ok(c) => *final(entry) == *entry && match config_refusal(c) {
                        None => r matches Ok(d) && configured(c, d@),
                        Some(text) => r matches Err(DeviceError::InvalidConfig(m)) && m@ == text,
                    },
                    Err(complaint) => {
                        &&& r matches Err(DeviceError::InvalidConfig(m)) && m@ == entry_refusal(
                            entry.driver_data@,
                            complaint@,
                        )
                        &&& final(entry).driver == entry.driver
                        &&& final(entry).friendly_name == entry.friendly_name
                        &&& final(entry).driver_data@ == (if entry.driver_data@ == "null"@ {
                            default_data@
                        } else {
                            entry.driver_data@
                        })
                    },
                },
            },
    {
        match parsed {
            Ok(c) => {
                match check_entry(config, true, "", default_data) {
                    Ok(()) => {},
                    Err(e) => return Err(e),
                }
                Self::from_config(c)
            },
            Err(complaint) => {
                match check_entry(config, false, complaint.as_str(), default_data) {
                    Ok(()) => Err(DeviceError::Internal),
                    Err(e) => Err(e),
                }
            },
        }
    }

    /// The driver's name.
    pub fn name(&self) -> (name: String)
        ensures
            name@ == "bmp280-sysfs"@,
    {
        String::from_str("bmp280-sysfs")
    }

    pub fn is_running(&self) -> (r: bool)
        ensures
            r == self@.is_loaded,
    {
        self.is_loaded
    }

    /// The configuration that the driver was made with.
    pub fn config(&self) -> (c: Bmp280SysfsConfig)
        ensures
            c == self@.config,
    {
        self.config
    }

    /// Whether the state allows an operation; with `check_bus`, one that
    /// needs the bus. If not, the operation is `InvalidOperation`.
    pub fn assert_state(&self, check_bus: bool) -> (r: Result<(), DeviceError>)
        ensures
            self@.ready(check_bus) ==> r is Ok,
            !self@.ready(check_bus) ==> (r matches Err(DeviceError::InvalidOperation(m)) && m@
                == "device is in an invalid state"@),
    {
        if self.is_loaded && (!check_bus || self.bus_attached) {
            Ok(())
        } else {
            Err(invalid_state())
        }
    }

    /// Whether the driver can be started: a loaded driver is
    /// `InvalidOperation`.
    pub fn check_start(&self) -> (r: Result<(), DeviceError>)
        ensures
            !self@.is_loaded ==> r is Ok,
            self@.is_loaded ==> (r matches Err(DeviceError::InvalidOperation(m)) && m@
                == "device load requested but this device is already loaded"@),
    {
        if self.is_loaded {
            return Err(
                DeviceError::InvalidOperation(
                    String::from_str("device load requested but this device is already loaded"),
                ),
            );
        }
        Ok(())
    }

    /// Whether the chip that answered is a BMP280: any other identifier is
    /// `HardwareError`.
    pub fn check_chip(&self, chip_id: u8) -> (r: Result<(), DeviceError>)
        ensures
            chip_id == CHIP_ID ==> r is Ok,
            chip_id != CHIP_ID ==> (r matches Err(DeviceError::HardwareError(m)) && m@
                == wrong_chip_text(
                self@.config.bus_id,
                self@.config.device_address,
                chip_id,
                CHIP_ID,
            )),
    {
        if chip_id != CHIP_ID {
            return Err(
                wrong_chip(self.config.bus_id, self.config.device_address, chip_id, CHIP_ID),
            );
        }
        Ok(())
    }

    /// The bytes that a start writes: the control register for the
    /// driver's gains in normal mode, then the configuration register for
    /// its standby time.
    pub fn start_bytes(&self) -> (bytes: (u8, u8))
        ensures
            bytes.0 == ((self@.thermometer_gain.spec_code() << 5) | (
            self@.pressure_gain.spec_code() << 3)) | PowerMode::Normal.spec_code(),
            bytes.1 == self@.standby_time.spec_code() * 32,
    {
        (
            control_byte(self.thermometer_gain, self.pressure_gain, PowerMode::Normal),
            config_byte(self.standby_time),
        )
    }

    /// The byte that a stop writes to the control register: least gains,
    /// sleep mode.
    pub fn stop_byte() -> (b: u8)
        ensures
            b == ((GainValue::_1X.spec_code() << 5) | (GainValue::_1X.spec_code() << 3))
                | PowerMode::Sleep.spec_code(),
    {
        control_byte(GainValue::_1X, GainValue::_1X, PowerMode::Sleep)
    }

    /// Books a start that went through: the driver is loaded, has its bus
    /// and the chip's trimming values.
    pub fn finish_start(&mut self, calibration: CalibrationData)
        ensures
            final(self)@ == (Bmp280State {
                bus_attached: true,
                calibration_data: Some(calibration),
                is_loaded: true,
                ..old(self)@
            }),
    {
        self.bus_attached = true;
        self.calibration_data = Some(calibration);
        self.is_loaded = true;
    }

    /// Stops the driver: it is not loaded any more and lets go of its bus
    /// and of the trimming values. Says whether there was a bus, on which
    /// the chip is to be put to sleep. A driver that is not loaded is
    /// `InvalidOperation`, and stays as it was.
    pub fn stop(&mut self) -> (r: Result<bool, DeviceError>)
        ensures
            !old(self)@.is_loaded ==> (r matches Err(DeviceError::InvalidOperation(m)) && m@
                == "device unload requested but this device isn't loaded"@) && final(self)@
                == old(self)@,
            old(self)@.is_loaded ==> r == Ok::<bool, DeviceError>(old(self)@.bus_attached)
                && final(self)@ == (Bmp280State {
                bus_attached: false,
                calibration_data: None,
                is_loaded: false,
                ..old(self)@
            }),
    {
        if !self.is_loaded {
            return Err(
                DeviceError::InvalidOperation(
                    String::from_str("device unload requested but this device isn't loaded"),
                ),
            );
        }
        let had_bus = self.bus_attached;
        self.bus_attached = false;
        self.calibration_data = None;
        self.is_loaded = false;
        Ok(had_bus)
    }

    /// The thermometer gain, as its multiplier.
    pub fn get_gain(&self) -> (r: Result<u16, DeviceError>)
        ensures
            self@.is_loaded ==> r == Ok::<u16, DeviceError>(
                self@.thermometer_gain.spec_into_multiplier(),
            ),
            !self@.is_loaded ==> (r matches Err(DeviceError::InvalidOperation(m)) && m@
                == "device is in an invalid state"@),
    {
        match self.assert_state(false) {
            Ok(()) => Ok(self.thermometer_gain.into_multiplier()),
            Err(e) => Err(e),
        }
    }

    /// The standby time, in milliseconds.
    pub fn get_interval(&self) -> (r: Result<u16, DeviceError>)
        ensures
            self@.is_loaded ==> r == Ok::<u16, DeviceError>(self@.standby_time.spec_into_millis()),
            !self@.is_loaded ==> (r matches Err(DeviceError::InvalidOperation(m)) && m@
                == "device is in an invalid state"@),
    {
        match self.assert_state(false) {
            Ok(()) => Ok(self.standby_time.into_millis()),
            Err(e) => Err(e),
        }
    }

    /// How long a change of settings waits for the converter at most: the
    /// standby time and one step more, in milliseconds.
    pub fn settle_timeout(&self) -> (ms: u16)
        ensures
            ms == self@.standby_time.spec_into_millis() + SPINWAIT_INTERVAL,
    {
        self.standby_time.into_millis() + SPINWAIT_INTERVAL
    }

    /// The multiplier of the gain with identifier `gain_id`.
    pub fn get_supported_gain(gain_id: u8) -> (r: Option<u16>)
        ensures
            gain_id < 5 ==> r == Some(supported_gains()[gain_id as int]),
            gain_id >= 5 ==> r is None,
    {
        if gain_id == 0 {
            Some(1)
        } else if gain_id == 1 {
            Some(2)
        } else if gain_id == 2 {
            Some(4)
        } else if gain_id == 3 {
            Some(8)
        } else if gain_id == 4 {
            Some(16)
        } else {
            None
        }
    }

    /// The milliseconds of the standby time with identifier `interval_id`.
    pub fn get_supported_interval(interval_id: u8) -> (r: Option<u16>)
        ensures
            interval_id < 8 ==> r == Some(supported_standby_times()[interval_id as int]),
            interval_id >= 8 ==> r is None,
    {
        if interval_id == 0 {
            Some(1)
        } else if interval_id == 1 {
            Some(63)
        } else if interval_id == 2 {
            Some(125)
        } else if interval_id == 3 {
            Some(250)
        } else if interval_id == 4 {
            Some(500)
        } else if interval_id == 5 {
            Some(1000)
        } else if interval_id == 6 {
            Some(2000)
        } else if interval_id == 7 {
            Some(4000)
        } else {
            None
        }
    }

    /// What setting the thermometer gain with identifier `gain_id` asks of
    /// the chip: the gain and the byte for the control register. The
    /// driver's state is not touched.
    ///
    /// Without a loaded driver on its bus the request is
    /// `InvalidOperation`, and so is an identifier that names no gain.
    pub fn plan_gain(&self, gain_id: u8) -> (r: Result<(GainValue, u8), DeviceError>)
        ensures
            !self@.ready(true) ==> (r matches Err(DeviceError::InvalidOperation(m)) && m@
                == "device is in an invalid state"@),
            self@.ready(true) && gain_id >= 5 ==> (r matches Err(DeviceError::InvalidOperation(m))
                && m@ == "gain value ID is not supported: "@ + decimal_text(gain_id as nat)),
            self@.ready(true) && gain_id < 5 ==> (r matches Ok(plan)
                && plan.0.spec_into_multiplier() == supported_gains()[gain_id as int] && plan.1 == (
            (plan.0.spec_code() << 5) | (self@.pressure_gain.spec_code() << 3))
                | PowerMode::Normal.spec_code()),
    {
        match self.assert_state(true) {
            Ok(()) => {},
            Err(e) => return Err(e),
        }
        let multiplier = match Self::get_supported_gain(gain_id) {
            Some(m) => m,
            None => {
                let mut m = String::from_str("gain value ID is not supported: ");
                push_num(&mut m, gain_id as u64);
                return Err(DeviceError::InvalidOperation(m));
            },
        };
        let gain = match GainValue::from_multiplier(multiplier) {
            Some(g) => g,
            None => {
                proof {
                    assert(GainValue::_1X.spec_into_multiplier() == 1);
                    assert(GainValue::_2X.spec_into_multiplier() == 2);
                    assert(GainValue::_4X.spec_into_multiplier() == 4);
                    assert(GainValue::_8X.spec_into_multiplier() == 8);
                    assert(GainValue::_16X.spec_into_multiplier() == 16);
                }
                return Err(DeviceError::Internal);
            },
        };
        Ok((gain, control_byte(gain, self.pressure_gain, PowerMode::Normal)))
    }

    /// What setting the standby time with identifier `interval_id` asks of
    /// the chip: the time and the byte for the configuration register. The
    /// driver's state is not touched.
    ///
    /// Without a loaded driver on its bus the request is
    /// `InvalidOperation`; an identifier that names no time is
    /// `HardwareError`.
    pub fn plan_interval(&self, interval_id: u8) -> (r: Result<(StandbyTime, u8), DeviceError>)
        ensures
            !self@.ready(true) ==> (r matches Err(DeviceError::InvalidOperation(m)) && m@
                == "device is in an invalid state"@),
            self@.ready(true) && interval_id >= 8 ==> (r matches Err(DeviceError::HardwareError(m))
                && m@ == "standby time ID is not supported: "@ + decimal_text(
                interval_id as nat,
            )),
            self@.ready(true) && interval_id < 8 ==> (r matches Ok(plan)
                && plan.0.spec_into_millis() == supported_standby_times()[interval_id as int]
                && plan.1 == plan.0.spec_code() * 32),
    {
        match self.assert_state(true) {
            Ok(()) => {},
            Err(e) => return Err(e),
        }
        let millis = match Self::get_supported_interval(interval_id) {
            Some(m) => m,
            None => {
                let mut m = String::from_str("standby time ID is not supported: ");
                push_num(&mut m, interval_id as u64);
                return Err(DeviceError::HardwareError(m));
            },
        };
        let time = match StandbyTime::from_millis(millis) {
            Some(t) => t,
            None => {
                proof {
                    assert(StandbyTime::_1MS.spec_into_millis() == 1);
                    assert(StandbyTime::_63MS.spec_into_millis() == 63);
                    assert(StandbyTime::_125MS.spec_into_millis() == 125);
                    assert(StandbyTime::_250MS.spec_into_millis() == 250);
                    assert(StandbyTime::_500MS.spec_into_millis() == 500);
                    assert(StandbyTime::_1000MS.spec_into_millis() == 1000);
                    assert(StandbyTime::_2000MS.spec_into_millis() == 2000);
                    assert(StandbyTime::_4000MS.spec_into_millis() == 4000);
                }
                return Err(DeviceError::Internal);
            },
        };
        Ok((time, config_byte(time)))
    }

    /// Books a thermometer gain that the chip has taken.
    pub fn set_gain(&mut self, gain: GainValue)
        ensures
            final(self)@ == (Bmp280State { thermometer_gain: gain, ..old(self)@ }),
    {
        self.thermometer_gain = gain;
    }

    /// Books a standby time that the chip has taken.
    pub fn set_interval(&mut self, standby_time: StandbyTime)
        ensures
            final(self)@ == (Bmp280State { standby_time, ..old(self)@ }),
    {
        self.standby_time = standby_time;
    }

    /// The trimming values for a temperature reading. Without a loaded
    /// driver on its bus the request is `InvalidOperation`; a loaded driver
    /// without trimming values is `Internal`.
    pub fn calibration(&self) -> (r: Result<CalibrationData, DeviceError>)
        ensures
            !self@.ready(true) ==> (r matches Err(DeviceError::InvalidOperation(m)) && m@
                == "device is in an invalid state"@),
            self@.ready(true) ==> match self@.calibration_data {
                Some(c) => r == Ok::<CalibrationData, DeviceError>(c),
                None => r == Err::<CalibrationData, DeviceError>(DeviceError::Internal),
            },
    {
        match self.assert_state(true) {
            Ok(()) => {},
            Err(e) => return Err(e),
        }
        match self.calibration_data {
            Some(c) => Ok(c),
            None => Err(DeviceError::Internal),
        }
    }
}

} // verus!
