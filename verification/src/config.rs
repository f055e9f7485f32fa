//! The configuration of the supervisor, section by section, and the rules
//! that a configuration has to meet.

use std::collections::HashMap;
use vstd::prelude::*;
use vstd::string::StringExecFns;
use crate::text::{decimal_text, joined, push_num};

verus! {

broadcast use vstd::std_specs::hash::group_hash_axioms;

#[derive(Debug, PartialEq)]
pub enum ConfigError {
    SerializeError(String),
    InvalidEntry(String),
    MissingEntry(String),
    DuplicateEntry(String),
    Other(String),
}

impl ConfigError {
    /// The text that `to_string` renders.
    pub open spec fn message(&self) -> Seq<char> {
        match self {
            ConfigError::SerializeError(m) => "serialize/parse error: "@ + m@,
            ConfigError::InvalidEntry(m) => "invalid config entry: "@ + m@,
            ConfigError::MissingEntry(m) => "missing config entry: "@ + m@,
            ConfigError::DuplicateEntry(m) => "duplicate config entry: "@ + m@,
            ConfigError::Other(m) => "config error: "@ + m@,
        }
    }

    pub fn to_string(&self) -> (s: String)
        ensures
            s@ == self.message(),
    {
        match self {
            ConfigError::SerializeError(m) => joined("serialize/parse error: ", m.as_str()),
            ConfigError::InvalidEntry(m) => joined("invalid config entry: ", m.as_str()),
            ConfigError::MissingEntry(m) => joined("missing config entry: ", m.as_str()),
            ConfigError::DuplicateEntry(m) => joined("duplicate config entry: ", m.as_str()),
            ConfigError::Other(m) => joined("config error: ", m.as_str()),
        }
    }
}

/// `s` without its leading and trailing white space, as `str::trim` gives
/// it.
pub uninterp spec fn trimmed(s: Seq<char>) -> Seq<char>;

/// Strips leading and trailing white space with `str::trim`. What counts as
/// white space is the standard library's matter; the result depends on the
/// text alone.
#[verifier::external_body]
fn trim(s: &str) -> (t: &str)
    ensures
        t@ == trimmed(s@),
{
    s.trim()
}

/// Where `data` is JSON `null`, replaces it by `default_data`, so that an
/// entry without data is left with a template to edit. Says whether it did.
pub fn write_default_if_null(data: &mut String, default_data: &str) -> (written: bool)
    ensures
        written == (old(data)@ == "null"@),
        written ==> final(data)@ == default_data@,
        !written ==> *final(data) == *old(data),
{
    let null = String::from_str("null");
    if *data == null {
        *data = String::from_str(default_data);
        true
    } else {
        false
    }
}

/// The text of the error that a controller or driver reports for data that
/// did not parse: `SerializeError` over `what`, a colon and the parser's
/// complaint.
pub fn parse_failure_text(what: &str, complaint: &str) -> (m: String)
    ensures
        m@ == "serialize/parse error: "@ + (what@ + ": "@ + complaint@),
{
    let mut inner = joined(what, ": ");
    inner.append(complaint);
    ConfigError::SerializeError(inner).to_string()
}

/// Checks a server section. `host_error` is the complaint of whoever
/// resolved `server_host`, if there was one.
fn check_endpoint(server_port: u16, host_error: Option<&str>) -> (r: Result<(), ConfigError>)
    ensures
        match host_error {
            Some(e) => r matches Err(ConfigError::InvalidEntry(m)) && m@
                == "failed to parse server host: "@ + e@,
            None => if server_port == 0 {
                r matches Err(ConfigError::InvalidEntry(m)) && m@ == "invalid server port"@
            } else {
                r is Ok
            },
        },
{
    if let Some(e) = host_error {
        return Err(ConfigError::InvalidEntry(joined("failed to parse server host: ", e)));
    }
    if server_port == 0 {
        return Err(ConfigError::InvalidEntry(String::from_str("invalid server port")));
    }
    Ok(())
}

/// Where the RPC server listens.
#[derive(Debug)]
pub struct ConfigSectionRPC {
    pub server_host: String,
    pub server_port: u16,
}

impl ConfigSectionRPC {
    pub fn new(server_host: String, server_port: u16) -> (section: Self)
        ensures
            section.server_host == server_host,
            section.server_port == server_port,
    {
        Self { server_host, server_port }
    }

    /// Checks the section. `host_error` is what parsing `server_host` as an
    /// IP address complained of, if it did.
    ///
    /// A host that does not parse is `InvalidEntry` with the complaint, a
    /// port of zero is `InvalidEntry`.
    pub fn validate(&self, host_error: Option<&str>) -> (r: Result<(), ConfigError>)
        ensures
            match host_error {
                Some(e) => r matches Err(ConfigError::InvalidEntry(m)) && m@
                    == "failed to parse server host: "@ + e@,
                None => if self.server_port == 0 {
                    r matches Err(ConfigError::InvalidEntry(m)) && m@ == "invalid server port"@
                } else {
                    r is Ok
                },
            },
    {
        check_endpoint(self.server_port, host_error)
    }
}

impl Default for ConfigSectionRPC {
    fn default() -> (section: Self)
        ensures
            section.server_host@ == "0.0.0.0"@,
            section.server_port == 30000,
    {
        Self::new(String::from_str("0.0.0.0"), 30000)
    }
}

/// Where the ADB server is reached, and how long it may take to answer.
#[derive(Debug)]
pub struct ConfigSectionADB {
    pub server_host: String,
    pub server_port: u16,
    pub read_timeout_ms: u64,
    pub write_timeout_ms: u64,
}

impl ConfigSectionADB {
    pub fn new(
        server_host: String,
        server_port: u16,
        read_timeout_ms: u64,
        write_timeout_ms: u64,
    ) -> (section: Self)
        ensures
            section.server_host == server_host,
            section.server_port == server_port,
            section.read_timeout_ms == read_timeout_ms,
            section.write_timeout_ms == write_timeout_ms,
    {
        Self { server_host, server_port, read_timeout_ms, write_timeout_ms }
    }

    /// Checks the section. `host_error` is what resolving `server_host` and
    /// `server_port` to a socket address complained of, if it did.
    ///
    /// A host that does not resolve is `InvalidEntry` with the complaint, a
    /// port of zero is `InvalidEntry`.
    pub fn validate(&self, host_error: Option<&str>) -> (r: Result<(), ConfigError>)
        ensures
            match host_error {
                Some(e) => r matches Err(ConfigError::InvalidEntry(m)) && m@
                    == "failed to parse server host: "@ + e@,
                None => if self.server_port == 0 {
                    r matches Err(ConfigError::InvalidEntry(m)) && m@ == "invalid server port"@
                } else {
                    r is Ok
                },
            },
    {
        check_endpoint(self.server_port, host_error)
    }
}

impl Default for ConfigSectionADB {
    fn default() -> (section: Self)
        ensures
            section.server_host@ == "localhost"@,
            section.server_port == 5037,
            section.read_timeout_ms == 1000,
            section.write_timeout_ms == 1000,
    {
        Self::new(String::from_str("localhost"), 5037, 1000, 1000)
    }
}

/// The pin pool: the hardware identifier of each logical pin.
#[derive(Debug, Default)]
pub struct ConfigSectionGPIO {
    pub pin_config: HashMap<u8, u8>,
}

/// Whether a pin below `id` has the hardware identifier of pin `id`.
pub open spec fn reuses_bcm(pins: Map<u8, u8>, id: u8) -> bool {
    exists|k: u8| k < id && #[trigger] pins.contains_key(k) && pins[k] == pins[id]
}

/// `id` is the least pin whose hardware identifier a lower pin has too.
pub open spec fn first_reuse(pins: Map<u8, u8>, id: u8) -> bool {
    &&& pins.contains_key(id)
    &&& reuses_bcm(pins, id)
    &&& forall|k: u8| k < id && #[trigger] pins.contains_key(k) ==> !reuses_bcm(pins, k)
}

/// No two pins have the same hardware identifier.
pub open spec fn bcm_unique(pins: Map<u8, u8>) -> bool {
    forall|a: u8, b: u8|
        a != b && #[trigger] pins.contains_key(a) && #[trigger] pins.contains_key(b) ==> pins[a]
            != pins[b]
}

impl ConfigSectionGPIO {
    pub fn new(pin_config: HashMap<u8, u8>) -> (section: Self)
        ensures
            section.pin_config == pin_config,
    {
        Self { pin_config }
    }

    /// Checks that no hardware identifier is given to two pins. The least
    /// pin that repeats the identifier of a lower one is reported as
    /// `InvalidEntry`.
    pub fn validate(&self) -> (r: Result<(), ConfigError>)
        ensures
            r is Ok <==> bcm_unique(self.pin_config@),
            forall|id: u8| #[trigger]
                first_reuse(self.pin_config@, id) ==> (r matches Err(ConfigError::InvalidEntry(m))
                    && m@ == "invalid pin configuration: ("@ + decimal_text(id as nat) + " -> "@
                    + decimal_text(self.pin_config@[id] as nat) + "), pin BCM ID "@ + decimal_text(
                    self.pin_config@[id] as nat,
                ) + " is defined more than once"@),
    {
        let ghost pins = self.pin_config@;
        let mut key: u16 = 0;
        while key < 256
            invariant
                key <= 256,
                pins == self.pin_config@,
                forall|k: u8| k < key && #[trigger] pins.contains_key(k) ==> !reuses_bcm(pins, k),
            decreases 256 - key,
        {
            let id = key as u8;
            if let Some(b) = self.pin_config.get(&id) {
                let bcm = *b;
                let mut lower: u16 = 0;
                while lower < key
                    invariant
                        lower <= key,
                        key < 256,
                        id == key,
                        pins == self.pin_config@,
                        pins.contains_key(id),
                        pins[id] == bcm,
                        forall|k: u8|
                            k < key && #[trigger] pins.contains_key(k) ==> !reuses_bcm(pins, k),
                        forall|k: u8| k < lower && #[trigger] pins.contains_key(k) ==> pins[k] != bcm,
                    decreases key - lower,
                {
                    let other = lower as u8;
                    if let Some(o) = self.pin_config.get(&other) {
                        if *o == bcm {
                            let mut m = String::from_str("invalid pin configuration: (");
                            push_num(&mut m, id as u64);
                            m.append(" -> ");
                            push_num(&mut m, bcm as u64);
                            m.append("), pin BCM ID ");
                            push_num(&mut m, bcm as u64);
                            m.append(" is defined more than once");
                            proof {
                                assert(pins.contains_key(other) && pins[other] == pins[id]);
                                assert(reuses_bcm(pins, id));
                                assert(first_reuse(pins, id));
                                assert forall|x: u8| #[trigger] first_reuse(pins, x) implies x
                                    == id by {
                                    if x < id {
                                        assert(pins.contains_key(x));
                                    } else if id < x {
                                        assert(pins.contains_key(id));
                                    }
                                }
                                assert(!bcm_unique(pins));
                            }
                            return Err(ConfigError::InvalidEntry(m));
                        }
                    }
                    lower += 1;
                }
            }
            key += 1;
        }
        proof {
            assert forall|a: u8, b: u8|
                a != b && #[trigger] pins.contains_key(a) && #[trigger] pins.contains_key(
                    b,
                ) implies pins[a] != pins[b] by {
                if a < b {
                    assert(!reuses_bcm(pins, b));
                } else {
                    assert(!reuses_bcm(pins, a));
                }
            }
            assert forall|id: u8| !(#[trigger] first_reuse(pins, id)) by {}
        }
        Ok(())
    }
}

/// The configuration entry of one device: the name of its driver, the
/// friendly name of the device if it has one, and the driver's own data as
/// JSON text.
#[derive(Debug)]
pub struct DeviceConfig {
    pub driver: String,
    pub friendly_name: Option<String>,
    pub driver_data: String,
}

/// Refuses a name that is empty once it is trimmed, with `InvalidEntry` and
/// `complaint`.
pub fn check_trimmed_name(trimmed_name: &str, complaint: &str) -> (r: Result<(), ConfigError>)
    ensures
        trimmed_name@.len() == 0 ==> (r matches Err(ConfigError::InvalidEntry(m)) && m@
            == complaint@),
        trimmed_name@.len() > 0 ==> r is Ok,
{
    if trimmed_name.is_empty() {
        return Err(ConfigError::InvalidEntry(String::from_str(complaint)));
    }
    Ok(())
}

impl DeviceConfig {
    pub fn new(driver: String, friendly_name: Option<String>, driver_data: String) -> (entry: Self)
        ensures
            entry.driver == driver,
            entry.friendly_name == friendly_name,
            entry.driver_data == driver_data,
    {
        Self { driver, friendly_name, driver_data }
    }

    /// An entry whose driver data is JSON `null`.
    pub fn new_without_data(driver: String, friendly_name: Option<String>) -> (entry: Self)
        ensures
            entry.driver == driver,
            entry.friendly_name == friendly_name,
            entry.driver_data@ == "null"@,
    {
        Self { driver, friendly_name, driver_data: String::from_str("null") }
    }

    /// Whether the entry names a driver.
    pub open spec fn valid(&self) -> bool {
        trimmed(self.driver@).len() > 0
    }

    /// A driver name that is blank is `InvalidEntry`.
    pub fn validate(&self) -> (r: Result<(), ConfigError>)
        ensures
            r is Ok <==> self.valid(),
            r matches Err(e) ==> (e matches ConfigError::InvalidEntry(m) && m@
                == "invalid device config: driver name cannot be empty"@),
    {
        check_trimmed_name(
            trim(self.driver.as_str()),
            "invalid device config: driver name cannot be empty",
        )
    }
}

#[derive(Debug, Default)]
pub struct ConfigSectionDevices {
    pub devices: Vec<DeviceConfig>,
}

impl ConfigSectionDevices {
    pub fn new(devices: Vec<DeviceConfig>) -> (section: Self)
        ensures
            section.devices == devices,
    {
        Self { devices }
    }

    pub open spec fn valid(&self) -> bool {
        forall|i: int| 0 <= i < self.devices@.len() ==> (#[trigger] self.devices@[i]).valid()
    }

    /// An entry with a blank driver name is `InvalidEntry`.
    pub fn validate(&self) -> (r: Result<(), ConfigError>)
        ensures
            r is Ok <==> self.valid(),
            r matches Err(e) ==> (e matches ConfigError::InvalidEntry(m) && m@
                == "invalid device config: driver name cannot be empty"@),
    {
        let n = self.devices.len();
        let mut i: usize = 0;
        while i < n
            invariant
                i <= n,
                n == self.devices@.len(),
                forall|j: int| 0 <= j < i ==> (#[trigger] self.devices@[j]).valid(),
            decreases n - i,
        {
            match self.devices[i].validate() {
                Ok(()) => {},
                Err(e) => return Err(e),
            }
            i += 1;
        }
        Ok(())
    }
}

/// The configuration entry of one bus controller: its name and its own
/// data as JSON text.
#[derive(Debug)]
pub struct BusControllerConfig {
    pub name: String,
    pub data: String,
}

impl BusControllerConfig {
    pub fn new(bus: String, data: String) -> (entry: Self)
        ensures
            entry.name == bus,
            entry.data == data,
    {
        Self { name: bus, data }
    }

    /// An entry whose data is JSON `null`.
    pub fn new_without_data(bus: String) -> (entry: Self)
        ensures
            entry.name == bus,
            entry.data@ == "null"@,
    {
        Self { name: bus, data: String::from_str("null") }
    }

    /// Whether the entry names a controller.
    pub open spec fn valid(&self) -> bool {
        trimmed(self.name@).len() > 0
    }

    /// A controller name that is blank is `InvalidEntry`.
    pub fn validate(&self) -> (r: Result<(), ConfigError>)
        ensures
            r is Ok <==> self.valid(),
            r matches Err(e) ==> (e matches ConfigError::InvalidEntry(m) && m@
                == "invalid bus controller config: bus name cannot be empty"@),
    {
        check_trimmed_name(
            trim(self.name.as_str()),
            "invalid bus controller config: bus name cannot be empty",
        )
    }
}

#[derive(Debug, Default)]
pub struct ConfigSectionControllers {
    pub controllers: Vec<BusControllerConfig>,
}

impl ConfigSectionControllers {
    pub fn new(controllers: Vec<BusControllerConfig>) -> (section: Self)
        ensures
            section.controllers == controllers,
    {
        Self { controllers }
    }

    /// The entry at `j` is the first whose name an earlier entry has too.
    pub open spec fn first_repeat(&self, j: int) -> bool {
        &&& 0 <= j < self.controllers@.len()
        &&& exists|i: int| 0 <= i < j && (#[trigger] self.controllers@[i]).name@
            == self.controllers@[j].name@
        &&& forall|a: int, b: int|
            0 <= a < b < j ==> (#[trigger] self.controllers@[a]).name@ != (
            #[trigger] self.controllers@[b]).name@
    }

    /// No two entries have the same name.
    pub open spec fn names_distinct(&self) -> bool {
        forall|a: int, b: int|
            0 <= a < b < self.controllers@.len() ==> (#[trigger] self.controllers@[a]).name@ != (
            #[trigger] self.controllers@[b]).name@
    }

    pub open spec fn entries_valid(&self) -> bool {
        forall|i: int|
            0 <= i < self.controllers@.len() ==> (#[trigger] self.controllers@[i]).valid()
    }

    /// The first entry that repeats the name of an earlier one is
    /// `DuplicateEntry`. Where no name repeats, an entry with a blank name
    /// is `InvalidEntry`.
    pub fn validate(&self) -> (r: Result<(), ConfigError>)
        ensures
            r is Ok <==> self.names_distinct() && self.entries_valid(),
            forall|j: int| #[trigger]
                self.first_repeat(j) ==> (r matches Err(ConfigError::DuplicateEntry(m)) && m@
                    == "bus controller "@ + self.controllers@[j].name@
                    + " is defined more than once"@),
            self.names_distinct() && !self.entries_valid() ==> (r matches Err(
                ConfigError::InvalidEntry(m),
            ) && m@ == "invalid bus controller config: bus name cannot be empty"@),
    {
        let n = self.controllers.len();
        let mut j: usize = 0;
        while j < n
            invariant
                j <= n,
                n == self.controllers@.len(),
                forall|a: int, b: int|
                    0 <= a < b < j ==> (#[trigger] self.controllers@[a]).name@ != (
                    #[trigger] self.controllers@[b]).name@,
            decreases n - j,
        {
            let mut i: usize = 0;
            while i < j
                invariant
                    i <= j,
                    j < n,
                    n == self.controllers@.len(),
                    forall|a: int, b: int|
                        0 <= a < b < j ==> (#[trigger] self.controllers@[a]).name@ != (
                        #[trigger] self.controllers@[b]).name@,
                    forall|a: int|
                        0 <= a < i ==> (#[trigger] self.controllers@[a]).name@
                            != self.controllers@[j as int].name@,
                decreases j - i,
            {
                if self.controllers[i].name == self.controllers[j].name {
                    let mut m = joined("bus controller ", self.controllers[j].name.as_str());
                    m.append(" is defined more than once");
                    proof {
                        assert(self.first_repeat(j as int));
                        assert forall|x: int| #[trigger] self.first_repeat(x) implies x == j by {
                            if x < j {
                                let w = choose|w: int|
                                    0 <= w < x && (#[trigger] self.controllers@[w]).name@
                                        == self.controllers@[x].name@;
                                assert(self.controllers@[w].name@ != self.controllers@[x].name@);
                            } else if j < x {
                                assert(self.controllers@[i as int].name@
                                    != self.controllers@[j as int].name@);
                            }
                        }
                        assert(!self.names_distinct());
                    }
                    return Err(ConfigError::DuplicateEntry(m));
                }
                i += 1;
            }
            j += 1;
        }
        proof {
            assert(self.names_distinct());
            assert forall|x: int| !(#[trigger] self.first_repeat(x)) by {
                if self.first_repeat(x) {
                    let w = choose|w: int|
                        0 <= w < x && (#[trigger] self.controllers@[w]).name@
                            == self.controllers@[x].name@;
                    assert(self.controllers@[w].name@ != self.controllers@[x].name@);
                }
            }
        }
        let mut i: usize = 0;
        while i < n
            invariant
                i <= n,
                n == self.controllers@.len(),
                self.names_distinct(),
                forall|x: int| !(#[trigger] self.first_repeat(x)),
                forall|k: int| 0 <= k < i ==> (#[trigger] self.controllers@[k]).valid(),
            decreases n - i,
        {
            match self.controllers[i].validate() {
                Ok(()) => {},
                Err(e) => return Err(e),
            }
            i += 1;
        }
        Ok(())
    }
}

/// The whole configuration.
#[derive(Debug, Default)]
pub struct Configuration {
    pub rpc_section: ConfigSectionRPC,
    pub adb_section: ConfigSectionADB,
    pub gpio_section: ConfigSectionGPIO,
    pub device_section: ConfigSectionDevices,
    pub controller_section: ConfigSectionControllers,
}

impl Configuration {
    /// Checks the sections in turn: RPC, ADB, GPIO, devices, controllers.
    /// The first complaint is returned. `rpc_host_error` and
    /// `adb_host_error` are as in the sections' own `validate`.
    pub fn validate(&self, rpc_host_error: Option<&str>, adb_host_error: Option<&str>) -> (r:
        Result<(), ConfigError>)
        ensures
            r is Ok <==> {
                &&& rpc_host_error is None
                &&& self.rpc_section.server_port != 0
                &&& adb_host_error is None
                &&& self.adb_section.server_port != 0
                &&& bcm_unique(self.gpio_section.pin_config@)
                &&& self.device_section.valid()
                &&& self.controller_section.names_distinct()
                &&& self.controller_section.entries_valid()
            },
    {
        match self.rpc_section.validate(rpc_host_error) {
            Ok(()) => {},
            Err(e) => return Err(e),
        }
        match self.adb_section.validate(adb_host_error) {
            Ok(()) => {},
            Err(e) => return Err(e),
        }
        match self.gpio_section.validate() {
            Ok(()) => {},
            Err(e) => return Err(e),
        }
        match self.device_section.validate() {
            Ok(()) => {},
            Err(e) => return Err(e),
        }
        self.controller_section.validate()
    }
}

} // verus!
