//! The decisions of the device drivers: what a configuration is worth,
//! which state allows which operation, and what is to be written to the
//! device. The drivers' bus transactions are made by the caller.

pub mod bmp280_sysfs;
pub mod gps_uart;
pub mod sysfs_led;
pub mod tsl2591_sysfs;

use vstd::prelude::*;
use vstd::string::StringExecFns;
use crate::config::{parse_failure_text, write_default_if_null, ConfigError, DeviceConfig};
use crate::device::DeviceError;
use crate::text::{decimal_text, push_num};

verus! {

/// The complaint about an entry whose data did not parse: data that is
/// `null` is reported as missing, other data with the parser's complaint.
pub open spec fn entry_refusal(driver_data: Seq<char>, complaint: Seq<char>) -> Seq<char> {
    if driver_data == "null"@ {
        "missing config entry: "@ + "device was missing config data, default config was written"@
    } else {
        "serialize/parse error: "@ + ("failed to deserialize device config data"@ + ": "@
            + complaint)
    }
}

/// What a driver makes of its configuration entry before it looks at the
/// data itself. `parsed_ok` says whether the entry's data parsed,
/// `complaint` is what the parser said where it did not, `default_data` is
/// the JSON text of the driver's default configuration.
///
/// Without an entry the driver cannot be made. Data that is `null` is
/// replaced by `default_data` and reported as missing; other data that did
/// not parse is reported with the parser's complaint. All three are
/// `InvalidConfig`.
pub fn check_entry(
    config: Option<&mut DeviceConfig>,
    parsed_ok: bool,
    complaint: &str,
    default_data: &str,
) -> (r: Result<(), DeviceError>)
    ensures
        match config {
            None => r matches Err(DeviceError::InvalidConfig(m)) && m@
                == "this driver requires a configuration object but none was provided"@,
            Some(entry) => {
                &&& final(entry).driver == entry.driver
                &&& final(entry).friendly_name == entry.friendly_name
                &&& parsed_ok ==> r is Ok && *final(entry) == *entry
                &&& !parsed_ok ==> (r matches Err(DeviceError::InvalidConfig(m)) && m@
                    == entry_refusal(entry.driver_data@, complaint@))
                &&& !parsed_ok && entry.driver_data@ == "null"@ ==> final(entry).driver_data@
                    == default_data@
                &&& !parsed_ok && entry.driver_data@ != "null"@ ==> *final(entry) == *entry
            },
        },
{
    let entry = match config {
        Some(entry) => entry,
        None => return Err(
            DeviceError::InvalidConfig(
                String::from_str(
                    "this driver requires a configuration object but none was provided",
                ),
            ),
        ),
    };
    if parsed_ok {
        return Ok(());
    }
    if write_default_if_null(&mut entry.driver_data, default_data) {
        return Err(
            DeviceError::InvalidConfig(
                ConfigError::MissingEntry(
                    String::from_str("device was missing config data, default config was written"),
                ).to_string(),
            ),
        );
    }
    Err(
        DeviceError::InvalidConfig(
            parse_failure_text("failed to deserialize device config data", complaint),
        ),
    )
}

/// The error of an operation that the driver's state does not allow.
pub fn invalid_state() -> (e: DeviceError)
    ensures
        e matches DeviceError::InvalidOperation(m) && m@ == "device is in an invalid state"@,
{
    DeviceError::InvalidOperation(String::from_str("device is in an invalid state"))
}

/// The error for a chip that does not identify as the driver's.
pub fn wrong_chip(bus_id: u8, address: u8, chip_id: u8, expected: u8) -> (e: DeviceError)
    ensures
        e matches DeviceError::HardwareError(m) && m@ == wrong_chip_text(
            bus_id,
            address,
            chip_id,
            expected,
        ),
{
    let mut m = String::from_str("bus ");
    push_num(&mut m, bus_id as u64);
    m.append(" address ");
    push_num(&mut m, address as u64);
    m.append(" contains an invalid device - reported chipID ");
    push_num(&mut m, chip_id as u64);
    m.append(" but expected ");
    push_num(&mut m, expected as u64);
    DeviceError::HardwareError(m)
}

/// The text that reports a chip which does not identify as the driver's.
pub open spec fn wrong_chip_text(bus_id: u8, address: u8, chip_id: u8, expected: u8) -> Seq<char> {
    "bus "@ + decimal_text(bus_id as nat) + " address "@ + decimal_text(address as nat)
        + " contains an invalid device - reported chipID "@ + decimal_text(chip_id as nat)
        + " but expected "@ + decimal_text(expected as nat)
}

/// The error for a configured value that the device does not support:
/// `InvalidConfig` over `what`, the value, `hint` and the supported values.
pub fn unsupported_value(what: &str, value: u16, hint: &str, supported: &str) -> (e: DeviceError)
    ensures
        e matches DeviceError::InvalidConfig(m) && m@ == "invalid config entry: "@ + (what@
            + decimal_text(value as nat) + hint@ + supported@),
{
    let mut m = String::from_str(what);
    push_num(&mut m, value as u64);
    m.append(hint);
    m.append(supported);
    DeviceError::InvalidConfig(ConfigError::InvalidEntry(m).to_string())
}

} // verus!
