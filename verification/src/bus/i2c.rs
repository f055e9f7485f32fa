//! The I2C controller: each bus takes two pins, SDA and SCL.

use std::collections::HashMap;
use vstd::prelude::*;
use vstd::string::StringExecFns;
use crate::bus::BusController;
use crate::config::{parse_failure_text, write_default_if_null, BusControllerConfig};
use crate::gpio::{token_decides, GpioBorrowChecker, GpioError, LeaseId, PinState};
use crate::text::{decimal_text, joined, push_num};
use crate::uuid_text::is_random_uuid;

verus! {

broadcast use vstd::std_specs::hash::group_hash_axioms;

/// The two pins of one I2C bus.
#[derive(Clone, Copy, Debug, PartialEq, Eq)]
pub struct I2CPinDefinition {
    pub sda: u8,
    pub scl: u8,
}

impl I2CPinDefinition {
    pub fn new(sda: u8, scl: u8) -> (d: Self)
        ensures
            d.sda == sda,
            d.scl == scl,
    {
        I2CPinDefinition { sda, scl }
    }

    /// Whether the two definitions share a pin.
    pub open spec fn spec_overlap(&self, other: &Self) -> bool {
        self.sda == other.sda || self.scl == other.scl || self.sda == other.scl || self.scl
            == other.sda
    }

    #[verifier::when_used_as_spec(spec_overlap)]
    pub fn overlap(&self, other: &Self) -> (r: bool)
        ensures
            r == self.spec_overlap(other),
    {
        self.sda == other.sda || self.scl == other.scl || self.sda == other.scl || self.scl
            == other.sda
    }

    pub fn to_vec(&self) -> (pins: Vec<u8>)
        ensures
            pins@ == seq![self.sda, self.scl],
    {
        let pins = vec![self.sda, self.scl];
        proof {
            assert(pins@ =~= seq![self.sda, self.scl]);
        }
        pins
    }

    pub fn to_arr(&self) -> (pins: [u8; 2])
        ensures
            pins@ == seq![self.sda, self.scl],
    {
        let pins = [self.sda, self.scl];
        proof {
            assert(pins@ =~= seq![self.sda, self.scl]);
        }
        pins
    }
}

#[derive(Debug, PartialEq)]
pub enum I2CError {
    InvalidConfig(String),
    BusNotFound(u8),
    LeaseNotFound,
    InvalidAddress(u16),
    Unsupported,
    ChannelBusy(u8),
    HardwareError(String),
    OsError(String),
    Other(String),
}

impl I2CError {
    /// The text that `to_string` renders.
    pub open spec fn message(&self) -> Seq<char> {
        match self {
            I2CError::InvalidConfig(m) => "invalid config: "@ + m@,
            I2CError::BusNotFound(id) => "I2C channel "@ + decimal_text(*id as nat)
                + " does not exist"@,
            I2CError::LeaseNotFound => "specified I2C channel is not open"@,
            I2CError::InvalidAddress(a) => "invalid slave address: "@ + decimal_text(*a as nat),
            I2CError::Unsupported => "not supported"@,
            I2CError::ChannelBusy(id) => "I2C channel "@ + decimal_text(*id as nat) + " is busy"@,
            I2CError::HardwareError(m) => "hardware error: "@ + m@,
            I2CError::OsError(m) => "os error: "@ + m@,
            I2CError::Other(m) => m@,
        }
    }

    pub fn to_string(&self) -> (s: String)
        ensures
            s@ == self.message(),
    {
        match self {
            I2CError::InvalidConfig(m) => joined("invalid config: ", m.as_str()),
            I2CError::BusNotFound(id) => {
                let mut s = String::from_str("I2C channel ");
                push_num(&mut s, *id as u64);
                s.append(" does not exist");
                s
            },
            I2CError::LeaseNotFound => String::from_str("specified I2C channel is not open"),
            I2CError::InvalidAddress(a) => {
                let mut s = String::from_str("invalid slave address: ");
                push_num(&mut s, *a as u64);
                s
            },
            I2CError::Unsupported => String::from_str("not supported"),
            I2CError::ChannelBusy(id) => {
                let mut s = String::from_str("I2C channel ");
                push_num(&mut s, *id as u64);
                s.append(" is busy");
                s
            },
            I2CError::HardwareError(m) => joined("hardware error: ", m.as_str()),
            I2CError::OsError(m) => joined("os error: ", m.as_str()),
            I2CError::Other(m) => m.clone(),
        }
    }
}

/// What opening or driving the bus device can fail with, as plain values.
#[derive(Debug, PartialEq)]
pub enum I2cFault {
    /// An I/O error, with its text.
    Io(String),
    InvalidSlaveAddress(u16),
    FeatureNotSupported,
    /// Any other failure, with its text.
    Unknown(String),
}

/// The controller's error for a fault of the bus device. An `Unknown` fault
/// is reported as `default_err_msg`, a colon and the fault's text.
pub fn rppal_map_err(err: I2cFault, default_err_msg: &str) -> (e: I2CError)
    ensures
        match err {
            I2cFault::Io(t) => e matches I2CError::HardwareError(m) && m@ == "I/O error: "@ + t@,
            I2cFault::InvalidSlaveAddress(a) => e == I2CError::InvalidAddress(a),
            I2cFault::FeatureNotSupported => e == I2CError::Unsupported,
            I2cFault::Unknown(t) => e matches I2CError::Other(m) && m@ == default_err_msg@ + ": "@
                + t@,
        },
{
    match err {
        I2cFault::Io(t) => I2CError::HardwareError(joined("I/O error: ", t.as_str())),
        I2cFault::InvalidSlaveAddress(a) => I2CError::InvalidAddress(a),
        I2cFault::FeatureNotSupported => I2CError::Unsupported,
        I2cFault::Unknown(t) => {
            let mut m = joined(default_err_msg, ": ");
            m.append(t.as_str());
            I2CError::Other(m)
        },
    }
}

/// The controller's error for an I/O failure of the sysfs bus device:
/// `HardwareError` with `default_err_msg`, a colon and the failure's text.
pub fn sysfs_map_err(err: &str, default_err_msg: &str) -> (e: I2CError)
    ensures
        e matches I2CError::HardwareError(m) && m@ == default_err_msg@ + ": "@ + err@,
{
    let mut m = joined(default_err_msg, ": ");
    m.append(err);
    I2CError::HardwareError(m)
}

/// The channel table of an I2C controller, as it is configured.
#[derive(Debug, Default)]
pub struct I2cConfigData {
    pub channels: HashMap<u8, I2CPinDefinition>,
}

impl I2cConfigData {
    pub fn new(channels: HashMap<u8, I2CPinDefinition>) -> (data: Self)
        ensures
            data.channels == channels,
    {
        Self { channels }
    }
}

/// What is wrong with a channel table.
pub enum I2cConfigIssue {
    /// The bus names one pin as both SDA and SCL.
    SamePin(u8),
    /// The SDA pin of the bus is not in the pool.
    UnknownSda(u8),
    /// The SCL pin of the bus is not in the pool.
    UnknownScl(u8),
    /// The first bus shares a pin with the second.
    Overlap(u8, u8),
}

/// The least bus from `from` on, other than `bus`, that shares a pin with
/// `bus`.
pub open spec fn first_overlap(config: Map<u8, I2CPinDefinition>, bus: u8, from: int) -> Option<u8>
    decreases 256 - from,
{
    if from >= 256 || from < 0 {
        None
    } else if from != bus && config.contains_key(from as u8) && config[bus].spec_overlap(
        &config[from as u8],
    ) {
        Some(from as u8)
    } else {
        first_overlap(config, bus, from + 1)
    }
}

/// What is wrong with the definition of `bus`, if anything.
pub open spec fn issue_of(pool: Map<u8, PinState>, config: Map<u8, I2CPinDefinition>, bus: u8)
    -> Option<I2cConfigIssue> {
    let d = config[bus];
    if d.sda == d.scl {
        Some(I2cConfigIssue::SamePin(bus))
    } else if !pool.contains_key(d.sda) {
        Some(I2cConfigIssue::UnknownSda(bus))
    } else if !pool.contains_key(d.scl) {
        Some(I2cConfigIssue::UnknownScl(bus))
    } else {
        match first_overlap(config, bus, 0) {
            Some(other) => Some(I2cConfigIssue::Overlap(bus, other)),
            None => None,
        }
    }
}

/// The issue of the least bus from `from` on that has one.
pub open spec fn first_issue(
    pool: Map<u8, PinState>,
    config: Map<u8, I2CPinDefinition>,
    from: int,
) -> Option<I2cConfigIssue>
    decreases 256 - from,
{
    if from >= 256 || from < 0 {
        None
    } else if config.contains_key(from as u8) && issue_of(pool, config, from as u8) is Some {
        issue_of(pool, config, from as u8)
    } else {
        first_issue(pool, config, from + 1)
    }
}

/// A channel table is valid if every bus has two distinct pins of the pool
/// and no two buses share a pin.
pub open spec fn valid_config(pool: Map<u8, PinState>, config: Map<u8, I2CPinDefinition>) -> bool {
    &&& forall|bus: u8| #[trigger]
        config.contains_key(bus) ==> config[bus].sda != config[bus].scl && pool.contains_key(
            config[bus].sda,
        ) && pool.contains_key(config[bus].scl)
    &&& forall|a: u8, b: u8|
        a != b && #[trigger] config.contains_key(a) && #[trigger] config.contains_key(b)
            ==> !config[a].spec_overlap(&config[b])
}

/// The text that reports `issue`.
pub open spec fn issue_text(config: Map<u8, I2CPinDefinition>, issue: I2cConfigIssue) -> Seq<char> {
    match issue {
        I2cConfigIssue::SamePin(bus) => "I2C bus is attempting to use the same pin twice: bus "@
            + decimal_text(bus as nat) + " -> (SDA: "@ + decimal_text(config[bus].sda as nat)
            + ". SCL: "@ + decimal_text(config[bus].scl as nat) + ")"@,
        I2cConfigIssue::UnknownSda(bus) => "I2C bus is attempting to use invalid pin: bus "@
            + decimal_text(bus as nat) + " pin "@ + decimal_text(config[bus].sda as nat)
            + " (SDA)"@,
        I2cConfigIssue::UnknownScl(bus) => "I2C bus is attempting to use invalid pin: bus "@
            + decimal_text(bus as nat) + " pin "@ + decimal_text(config[bus].scl as nat)
            + " (SCL)"@,
        I2cConfigIssue::Overlap(bus, other) => "I2C bus pin definitions overlap: bus "@
            + decimal_text(bus as nat) + " -> (SDA: "@ + decimal_text(config[bus].sda as nat)
            + ", SCL: "@ + decimal_text(config[bus].scl as nat) + ") with bus "@ + decimal_text(
            other as nat,
        ) + " -> (SDA: "@ + decimal_text(config[other].sda as nat) + ", SCL: "@ + decimal_text(
            config[other].scl as nat,
        ) + ")"@,
    }
}

proof fn lemma_no_overlap(config: Map<u8, I2CPinDefinition>, bus: u8, from: int, other: u8)
    requires
        first_overlap(config, bus, from) is None,
        0 <= from <= other,
        other != bus,
        config.contains_key(other),
    ensures
        !config[bus].spec_overlap(&config[other]),
    decreases 256 - from,
{
    if from < other {
        lemma_no_overlap(config, bus, from + 1, other);
    }
}

proof fn lemma_overlap_found(config: Map<u8, I2CPinDefinition>, bus: u8, from: int)
    requires
        0 <= from,
    ensures
        match first_overlap(config, bus, from) {
            Some(other) => other != bus && config.contains_key(other) && config[bus].spec_overlap(
                &config[other],
            ),
            None => true,
        },
    decreases 256 - from,
{
    if from < 256 {
        lemma_overlap_found(config, bus, from + 1);
    }
}

proof fn lemma_no_issue(
    pool: Map<u8, PinState>,
    config: Map<u8, I2CPinDefinition>,
    from: int,
    bus: u8,
)
    requires
        first_issue(pool, config, from) is None,
        0 <= from <= bus,
        config.contains_key(bus),
    ensures
        issue_of(pool, config, bus) is None,
    decreases 256 - from,
{
    if from < bus {
        lemma_no_issue(pool, config, from + 1, bus);
    }
}

proof fn lemma_issue_found(pool: Map<u8, PinState>, config: Map<u8, I2CPinDefinition>, from: int)
    requires
        0 <= from,
    ensures
        match first_issue(pool, config, from) {
            Some(issue) => exists|bus: u8| #[trigger]
                config.contains_key(bus) && issue_of(pool, config, bus) == Some(issue),
            None => true,
        },
    decreases 256 - from,
{
    if from < 256 {
        if config.contains_key(from as u8) && issue_of(pool, config, from as u8) is Some {
        } else {
            lemma_issue_found(pool, config, from + 1);
        }
    }
}

/// A channel table is valid exactly if no bus of it has an issue.
pub proof fn lemma_valid_iff_no_issue(pool: Map<u8, PinState>, config: Map<u8, I2CPinDefinition>)
    ensures
        valid_config(pool, config) <==> first_issue(pool, config, 0) is None,
{
    if first_issue(pool, config, 0) is None {
        assert forall|bus: u8| #[trigger] config.contains_key(bus) implies config[bus].sda
            != config[bus].scl && pool.contains_key(config[bus].sda) && pool.contains_key(
            config[bus].scl,
        ) by {
            lemma_no_issue(pool, config, 0, bus);
        }
        assert forall|a: u8, b: u8|
            a != b && #[trigger] config.contains_key(a) && #[trigger] config.contains_key(
                b,
            ) implies !config[a].spec_overlap(&config[b]) by {
            lemma_no_issue(pool, config, 0, a);
            lemma_no_overlap(config, a, 0, b);
        }
    } else {
        lemma_issue_found(pool, config, 0);
        let issue = first_issue(pool, config, 0)->Some_0;
        let bus = choose|bus: u8| #[trigger]
            config.contains_key(bus) && issue_of(pool, config, bus) == Some(issue);
        lemma_overlap_found(config, bus, 0);
    }
}

/// The mathematical state of an I2C controller: its channel table and the
/// lease of each open bus.
pub struct I2cState {
    pub config: Map<u8, I2CPinDefinition>,
    pub owned: Map<u8, u128>,
}

impl I2cState {
    /// The controller's answer to a request to open `bus_id`, before any
    /// pin is leased: `None` where nothing stands against it.
    pub open spec fn open_refusal(self, bus_id: u8) -> Option<I2CError> {
        if self.owned.contains_key(bus_id) {
            Some(I2CError::ChannelBusy(bus_id))
        } else if !self.config.contains_key(bus_id) {
            Some(I2CError::BusNotFound(bus_id))
        } else {
            None
        }
    }

    /// The two pins of `bus_id`, as a lease request.
    pub open spec fn pins_of(self, bus_id: u8) -> Seq<u8> {
        seq![self.config[bus_id].sda, self.config[bus_id].scl]
    }
}

/// The I2C controller. It knows which pins each bus takes and holds the
/// lease of every bus that is open.
pub struct I2CBusController {
    pin_config: HashMap<u8, I2CPinDefinition>,
    owned_buses: HashMap<u8, LeaseId>,
}

impl View for I2CBusController {
    type V = I2cState;

    closed spec fn view(&self) -> I2cState {
        I2cState {
            config: self.pin_config@,
            owned: Map::new(
                |id: u8| self.owned_buses@.contains_key(id),
                |id: u8| self.owned_buses@[id].value,
            ),
        }
    }
}

impl BusController for I2CBusController {
    fn name(&self) -> (name: String)
        ensures
            name@ == "I2C"@,
    {
        String::from_str("I2C")
    }
}

fn same_pin_text(bus: u8, d: &I2CPinDefinition) -> (m: String)
    ensures
        m@ == "I2C bus is attempting to use the same pin twice: bus "@ + decimal_text(bus as nat)
            + " -> (SDA: "@ + decimal_text(d.sda as nat) + ". SCL: "@ + decimal_text(d.scl as nat)
            + ")"@,
{
    let mut m = String::from_str("I2C bus is attempting to use the same pin twice: bus ");
    push_num(&mut m, bus as u64);
    m.append(" -> (SDA: ");
    push_num(&mut m, d.sda as u64);
    m.append(". SCL: ");
    push_num(&mut m, d.scl as u64);
    m.append(")");
    m
}

fn unknown_pin_text(bus: u8, pin: u8, line: &str) -> (m: String)
    ensures
        m@ == "I2C bus is attempting to use invalid pin: bus "@ + decimal_text(bus as nat)
            + " pin "@ + decimal_text(pin as nat) + line@,
{
    let mut m = String::from_str("I2C bus is attempting to use invalid pin: bus ");
    push_num(&mut m, bus as u64);
    m.append(" pin ");
    push_num(&mut m, pin as u64);
    m.append(line);
    m
}

fn overlap_text(bus: u8, d: &I2CPinDefinition, other: u8, o: &I2CPinDefinition) -> (m: String)
    ensures
        m@ == "I2C bus pin definitions overlap: bus "@ + decimal_text(bus as nat) + " -> (SDA: "@
            + decimal_text(d.sda as nat) + ", SCL: "@ + decimal_text(d.scl as nat)
            + ") with bus "@ + decimal_text(other as nat) + " -> (SDA: "@ + decimal_text(
            o.sda as nat,
        ) + ", SCL: "@ + decimal_text(o.scl as nat) + ")"@,
{
    let mut m = String::from_str("I2C bus pin definitions overlap: bus ");
    push_num(&mut m, bus as u64);
    m.append(" -> (SDA: ");
    push_num(&mut m, d.sda as u64);
    m.append(", SCL: ");
    push_num(&mut m, d.scl as u64);
    m.append(") with bus ");
    push_num(&mut m, other as u64);
    m.append(" -> (SDA: ");
    push_num(&mut m, o.sda as u64);
    m.append(", SCL: ");
    push_num(&mut m, o.scl as u64);
    m.append(")");
    m
}

/// Looks for the issue of the least bus that has one, and renders it.
pub fn validate_channels(gpio: &GpioBorrowChecker, pin_config: &HashMap<u8, I2CPinDefinition>) -> (r:
    Option<String>)
    ensures
        match first_issue(gpio@.pool, pin_config@, 0) {
            Some(issue) => r matches Some(m) && m@ == issue_text(pin_config@, issue),
            None => r is None,
        },
{
    let mut key: u16 = 0;
    while key < 256
        invariant
            key <= 256,
            first_issue(gpio@.pool, pin_config@, 0) == first_issue(
                gpio@.pool,
                pin_config@,
                key as int,
            ),
        decreases 256 - key,
    {
        let bus = key as u8;
        if let Some(d) = pin_config.get(&bus) {
            if d.sda == d.scl {
                return Some(same_pin_text(bus, d));
            }
            if !gpio.has_pin(d.sda) {
                return Some(unknown_pin_text(bus, d.sda, " (SDA)"));
            }
            if !gpio.has_pin(d.scl) {
                return Some(unknown_pin_text(bus, d.scl, " (SCL)"));
            }
            let mut other_key: u16 = 0;
            while other_key < 256
                invariant
                    other_key <= 256,
                    key < 256,
                    bus == key,
                    pin_config@.contains_key(bus),
                    *d == pin_config@[bus],
                    d.sda != d.scl,
                    gpio@.pool.contains_key(d.sda),
                    gpio@.pool.contains_key(d.scl),
                    first_issue(gpio@.pool, pin_config@, 0) == first_issue(
                        gpio@.pool,
                        pin_config@,
                        key as int,
                    ),
                    first_overlap(pin_config@, bus, 0) == first_overlap(
                        pin_config@,
                        bus,
                        other_key as int,
                    ),
                decreases 256 - other_key,
            {
                let other = other_key as u8;
                if other != bus {
                    if let Some(o) = pin_config.get(&other) {
                        if d.overlap(o) {
                            proof {
                                assert(first_overlap(pin_config@, bus, other_key as int) == Some(
                                    other,
                                ));
                                assert(issue_of(gpio@.pool, pin_config@, bus) == Some(
                                    I2cConfigIssue::Overlap(bus, other),
                                ));
                            }
                            return Some(overlap_text(bus, d, other, o));
                        }
                    }
                }
                other_key += 1;
            }
        }
        key += 1;
    }
    None
}

impl I2CBusController {
    /// A controller over the channel table `pin_config`, with no bus open.
    ///
    /// The table is checked against the pool of `gpio_borrow` first: an
    /// invalid table is refused with `InvalidConfig` and the report of the
    /// issue of its least bus that has one.
    pub fn new(gpio_borrow: &GpioBorrowChecker, pin_config: HashMap<u8, I2CPinDefinition>) -> (r:
        Result<Self, I2CError>)
        ensures
            r is Ok <==> valid_config(gpio_borrow@.pool, pin_config@),
            match r {
                Ok(c) => c@.config == pin_config@ && c@.owned == Map::<u8, u128>::empty(),
                Err(e) => first_issue(gpio_borrow@.pool, pin_config@, 0) matches Some(issue) && (
                e matches I2CError::InvalidConfig(m) && m@ == issue_text(pin_config@, issue)),
            },
    {
        proof {
            lemma_valid_iff_no_issue(gpio_borrow@.pool, pin_config@);
        }
        match validate_channels(gpio_borrow, &pin_config) {
            Some(report) => Err(I2CError::InvalidConfig(report)),
            None => {
                let c = I2CBusController { pin_config, owned_buses: HashMap::new() };
                proof {
                    assert(c@.owned =~= Map::<u8, u128>::empty());
                }
                Ok(c)
            },
        }
    }

    /// A controller from its configuration entry. `parsed` is the channel
    /// table that the entry's data holds, or the parser's complaint;
    /// `default_data` is the JSON text of an empty table.
    ///
    /// Data that did not parse is `InvalidConfig`; where the data was
    /// `null`, the entry is left with `default_data` in its place. A table
    /// that parsed is handed to `new`.
    pub fn from_config(
        gpio_borrow: &GpioBorrowChecker,
        config: &mut BusControllerConfig,
        parsed: Result<I2cConfigData, String>,
        default_data: &str,
    ) -> (r: Result<Self, I2CError>)
        ensures
            final(config).name == old(config).name,
            match parsed {
                Ok(d) => {
                    &&& *final(config) == *old(config)
                    &&& r is Ok <==> valid_config(gpio_borrow@.pool, d.channels@)
                    &&& match r {
                        Ok(c) => c@.config == d.channels@ && c@.owned == Map::<u8, u128>::empty(),
                        Err(e) => first_issue(gpio_borrow@.pool, d.channels@, 0) matches Some(
                            issue,
                        ) && (e matches I2CError::InvalidConfig(m) && m@ == issue_text(
                            d.channels@,
                            issue,
                        )),
                    }
                },
                Err(complaint) => {
                    &&& final(config).data@ == (if old(config).data@ == "null"@ {
                        default_data@
                    } else {
                        old(config).data@
                    })
                    &&& r matches Err(I2CError::InvalidConfig(m)) && m@
                        == "serialize/parse error: "@ + ("invalid I2C data struct json"@ + ": "@
                        + complaint@)
                },
            },
    {
        match parsed {
            Ok(d) => Self::new(gpio_borrow, d.channels),
            Err(complaint) => {
                write_default_if_null(&mut config.data, default_data);
                Err(
                    I2CError::InvalidConfig(
                        parse_failure_text("invalid I2C data struct json", complaint.as_str()),
                    ),
                )
            },
        }
    }

    /// Whether `bus_id` is open.
    pub fn is_open(&self, bus_id: u8) -> (r: bool)
        ensures
            r == self@.owned.contains_key(bus_id),
    {
        self.owned_buses.contains_key(&bus_id)
    }

    /// Whether `bus_id` can be opened now. To be asked before the bus
    /// device is touched; nothing is reserved.
    ///
    /// An open bus is `ChannelBusy`, an unknown one `BusNotFound`, and one
    /// whose pins are not both free `HardwareError`.
    pub fn check_open(&self, gpio_borrow: &GpioBorrowChecker, bus_id: u8) -> (r: Result<
        I2CPinDefinition,
        I2CError,
    >)
        ensures
            match self@.open_refusal(bus_id) {
                Some(e) => r == Err::<I2CPinDefinition, I2CError>(e),
                None => if gpio_borrow@.all_free(self@.pins_of(bus_id)) {
                    r == Ok::<I2CPinDefinition, I2CError>(self@.config[bus_id])
                } else {
                    r matches Err(I2CError::HardwareError(m)) && m@
                        == "I2C channel pins are already in use"@
                },
            },
    {
        if self.owned_buses.contains_key(&bus_id) {
            return Err(I2CError::ChannelBusy(bus_id));
        }
        let definition = match self.pin_config.get(&bus_id) {
            Some(d) => *d,
            None => return Err(I2CError::BusNotFound(bus_id)),
        };
        let pins = definition.to_arr();
        if !gpio_borrow.can_borrow_many(&pins) {
            return Err(
                I2CError::HardwareError(String::from_str("I2C channel pins are already in use")),
            );
        }
        Ok(definition)
    }

    /// Opens `bus_id`: leases its two pins and records the lease.
    ///
    /// The refusals are those of `check_open`. Past them the arbiter
    /// decides: its lease is recorded, or its error is passed on as
    /// `HardwareError` with the error's text. A refusal changes neither the
    /// controller nor the arbiter.
    pub fn open(&mut self, gpio_borrow: &mut GpioBorrowChecker, bus_id: u8) -> (r: Result<
        LeaseId,
        I2CError,
    >)
        ensures
            old(self)@.open_refusal(bus_id) is None && old(gpio_borrow)@.all_free(
                old(self)@.pins_of(bus_id),
            ) ==> exists|t: u128| #[trigger]
                is_random_uuid(t) && token_decides(old(gpio_borrow)@, t, r),
            old(self)@.open_refusal(bus_id) is None && old(gpio_borrow)@.all_free(
                old(self)@.pins_of(bus_id),
            ) && old(gpio_borrow)@.no_lease() ==> r is Ok,
            old(gpio_borrow)@.wf() ==> final(gpio_borrow)@.wf(),
            final(self)@.config == old(self)@.config,
            r is Err ==> final(self)@ == old(self)@ && final(gpio_borrow)@ == old(gpio_borrow)@,
            match old(self)@.open_refusal(bus_id) {
                Some(e) => r == Err::<LeaseId, I2CError>(e),
                None => if old(gpio_borrow)@.all_free(old(self)@.pins_of(bus_id)) {
                    match r {
                        Ok(id) => !old(gpio_borrow)@.leases.contains_key(id.value) && final(gpio_borrow)@ == old(gpio_borrow)@.granted(id.value, old(self)@.pins_of(bus_id))
                            && final(self)@.owned == old(self)@.owned.insert(bus_id, id.value),
                        Err(e) => e matches I2CError::HardwareError(m) && m@
                            == "lease identifier is already in use"@,
                    }
                } else {
                    r matches Err(I2CError::HardwareError(m)) && m@
                        == "I2C channel pins are already in use"@
                },
            },
    {
        let definition = match self.check_open(gpio_borrow, bus_id) {
            Ok(d) => d,
            Err(e) => return Err(e),
        };
        match gpio_borrow.borrow_many(definition.to_vec()) {
            Ok(id) => {
                self.owned_buses.insert(bus_id, id);
                proof {
                    assert(final(self)@.owned =~= old(self)@.owned.insert(bus_id, id.value));
                }
                Ok(id)
            },
            Err(e) => Err(I2CError::HardwareError(e.to_string())),
        }
    }

    /// The lease of `bus_id`, opening the bus first where it is not open.
    pub fn get(&mut self, gpio_borrow: &mut GpioBorrowChecker, bus_id: u8) -> (r: Result<
        LeaseId,
        I2CError,
    >)
        ensures
            old(self)@.open_refusal(bus_id) is None && old(gpio_borrow)@.all_free(
                old(self)@.pins_of(bus_id),
            ) ==> exists|t: u128| #[trigger]
                is_random_uuid(t) && token_decides(old(gpio_borrow)@, t, r),
            old(self)@.open_refusal(bus_id) is None && old(gpio_borrow)@.all_free(
                old(self)@.pins_of(bus_id),
            ) && old(gpio_borrow)@.no_lease() ==> r is Ok,
            old(gpio_borrow)@.wf() ==> final(gpio_borrow)@.wf(),
            final(self)@.config == old(self)@.config,
            r is Err ==> final(self)@ == old(self)@ && final(gpio_borrow)@ == old(gpio_borrow)@,
            old(self)@.owned.contains_key(bus_id) ==> r == Ok::<LeaseId, I2CError>(
                LeaseId { value: old(self)@.owned[bus_id] },
            ) && final(self)@ == old(self)@ && final(gpio_borrow)@ == old(gpio_borrow)@,
            !old(self)@.owned.contains_key(bus_id) ==> (if !old(self)@.config.contains_key(bus_id) {
                r == Err::<LeaseId, I2CError>(I2CError::BusNotFound(bus_id))
            } else if old(gpio_borrow)@.all_free(old(self)@.pins_of(bus_id)) {
                match r {
                    Ok(id) => !old(gpio_borrow)@.leases.contains_key(id.value) && final(
                        gpio_borrow)@ == old(gpio_borrow)@.granted(
                        id.value,
                        old(self)@.pins_of(bus_id),
                    ) && final(self)@.owned == old(self)@.owned.insert(bus_id, id.value),
                    Err(e) => e matches I2CError::HardwareError(m) && m@
                        == "lease identifier is already in use"@,
                }
            } else {
                r matches Err(I2CError::HardwareError(m)) && m@
                    == "I2C channel pins are already in use"@
            }),
    {
        let held = match self.owned_buses.get(&bus_id) {
            Some(id) => Some(*id),
            None => None,
        };
        match held {
            Some(id) => Ok(id),
            None => self.open(gpio_borrow, bus_id),
        }
    }

    /// Closes `bus_id` and gives its lease back. `handle_refs` is the
    /// number of references to the bus handle that are alive, the
    /// controller's own among them.
    ///
    /// A bus that is not open is `LeaseNotFound`. While anyone but the
    /// controller still holds the handle the bus is `ChannelBusy`. A lease
    /// that the arbiter does not know is `HardwareError` with the arbiter's
    /// text. A refusal changes neither the controller nor the arbiter.
    pub fn close(&mut self, gpio_borrow: &mut GpioBorrowChecker, bus_id: u8, handle_refs: usize) -> (r:
        Result<(), I2CError>)
        ensures
            old(gpio_borrow)@.wf() ==> final(gpio_borrow)@.wf(),
            final(self)@.config == old(self)@.config,
            r is Err ==> final(self)@ == old(self)@ && final(gpio_borrow)@ == old(gpio_borrow)@,
            !old(self)@.owned.contains_key(bus_id) ==> r == Err::<(), I2CError>(
                I2CError::LeaseNotFound,
            ),
            old(self)@.owned.contains_key(bus_id) && handle_refs > 1 ==> r == Err::<(), I2CError>(
                I2CError::ChannelBusy(bus_id),
            ),
            old(self)@.owned.contains_key(bus_id) && handle_refs <= 1 ==> {
                let lease = old(self)@.owned[bus_id];
                if old(gpio_borrow)@.leases.contains_key(lease) {
                    &&& r == Ok::<(), I2CError>(())
                    &&& final(gpio_borrow)@ == old(gpio_borrow)@.released(lease)
                    &&& final(self)@.owned == old(self)@.owned.remove(bus_id)
                } else {
                    r matches Err(I2CError::HardwareError(m)) && m@
                        == GpioError::LeaseNotFound.message()
                }
            },
    {
        let lease = match self.owned_buses.get(&bus_id) {
            Some(id) => *id,
            None => return Err(I2CError::LeaseNotFound),
        };
        if handle_refs > 1 {
            return Err(I2CError::ChannelBusy(bus_id));
        }
        match gpio_borrow.release(&lease) {
            Ok(()) => {},
            Err(e) => return Err(I2CError::HardwareError(e.to_string())),
        }
        self.owned_buses.remove(&bus_id);
        proof {
            assert(final(self)@.owned =~= old(self)@.owned.remove(bus_id));
        }
        Ok(())
    }
}

} // verus!
