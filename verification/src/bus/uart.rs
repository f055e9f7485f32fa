//! The UART controller. An internal port has a device path and two pins,
//! RX and TX; any other device path can be opened as an external port,
//! which takes no pin.

use std::collections::HashMap;
use vstd::prelude::*;
use vstd::string::StringExecFns;
use crate::bus::BusController;
use crate::config::{parse_failure_text, write_default_if_null, BusControllerConfig, ConfigError};
use crate::gpio::{token_decides, ArbiterState, GpioBorrowChecker, GpioError, LeaseId, PinState};
use crate::text::{decimal_text, joined, push_num};
use crate::uuid_text::is_random_uuid;

verus! {

broadcast use vstd::std_specs::hash::group_hash_axioms;

/// The device path and the two pins of one internal port.
#[derive(Debug)]
pub struct UARTDefinition {
    pub path: String,
    pub rx: u8,
    pub tx: u8,
}

impl UARTDefinition {
    pub fn new(path: &str, rx: u8, tx: u8) -> (d: Self)
        ensures
            d.path@ == path@,
            d.rx == rx,
            d.tx == tx,
    {
        UARTDefinition { path: String::from_str(path), rx, tx }
    }

    /// Whether the two definitions share the device path or a pin.
    pub open spec fn spec_overlap(&self, other: &Self) -> bool {
        self.path@ == other.path@ || self.tx == other.tx || self.rx == other.rx || self.tx
            == other.rx || self.rx == other.tx
    }

    #[verifier::when_used_as_spec(spec_overlap)]
    pub fn overlap(&self, other: &Self) -> (r: bool)
        ensures
            r == self.spec_overlap(other),
    {
        self.path == other.path || self.tx == other.tx || self.rx == other.rx || self.tx
            == other.rx || self.rx == other.tx
    }

    pub fn to_vec(&self) -> (pins: Vec<u8>)
        ensures
            pins@ == seq![self.rx, self.tx],
    {
        let pins = vec![self.rx, self.tx];
        proof {
            assert(pins@ =~= seq![self.rx, self.tx]);
        }
        pins
    }

    pub fn to_arr(&self) -> (pins: [u8; 2])
        ensures
            pins@ == seq![self.rx, self.tx],
    {
        let pins = [self.rx, self.tx];
        proof {
            assert(pins@ =~= seq![self.rx, self.tx]);
        }
        pins
    }
}

#[derive(Debug, PartialEq)]
pub enum UARTError {
    InvalidConfig(String),
    PortNotFound,
    LeaseNotFound,
    Busy,
    HardwareError(String),
    Unsupported,
    Other(String),
}

impl UARTError {
    /// The text that `to_string` renders.
    pub open spec fn message(&self) -> Seq<char> {
        match self {
            UARTError::InvalidConfig(m) => "invalid config: "@ + m@,
            UARTError::PortNotFound => "specified internal UART channel does not exist"@,
            UARTError::LeaseNotFound => "specified internal UART channel is not open"@,
            UARTError::Busy => "UART channel is busy"@,
            UARTError::HardwareError(m) => "hardware error: "@ + m@,
            UARTError::Unsupported => "not supported"@,
            UARTError::Other(m) => m@,
        }
    }

    pub fn to_string(&self) -> (s: String)
        ensures
            s@ == self.message(),
    {
        match self {
            UARTError::InvalidConfig(m) => joined("invalid config: ", m.as_str()),
            UARTError::PortNotFound => String::from_str(
                "specified internal UART channel does not exist",
            ),
            UARTError::LeaseNotFound => String::from_str(
                "specified internal UART channel is not open",
            ),
            UARTError::Busy => String::from_str("UART channel is busy"),
            UARTError::HardwareError(m) => joined("hardware error: ", m.as_str()),
            UARTError::Unsupported => String::from_str("not supported"),
            UARTError::Other(m) => m.clone(),
        }
    }
}

/// What opening or driving a serial device can fail with, as plain values.
#[derive(Debug, PartialEq)]
pub enum UartFault {
    /// An I/O error, with its text.
    Io(String),
    /// A failure of the GPIO peripheral, with its text.
    Gpio(String),
    InvalidValue,
    /// Any other failure, with its text.
    Unknown(String),
}

/// The controller's error for a fault of the serial device. An `Unknown`
/// fault is reported as `default_err_msg`, a colon and the fault's text.
pub fn rppal_map_err(err: UartFault, default_err_msg: &str) -> (e: UARTError)
    ensures
        match err {
            UartFault::Io(t) => e matches UARTError::HardwareError(m) && m@ == "I/O error: "@ + t@,
            UartFault::Gpio(t) => e matches UARTError::HardwareError(m) && m@ == "GPIO error: "@
                + t@,
            UartFault::InvalidValue => e == UARTError::Unsupported,
            UartFault::Unknown(t) => e matches UARTError::Other(m) && m@ == default_err_msg@
                + ": "@ + t@,
        },
{
    match err {
        UartFault::Io(t) => UARTError::HardwareError(joined("I/O error: ", t.as_str())),
        UartFault::Gpio(t) => UARTError::HardwareError(joined("GPIO error: ", t.as_str())),
        UartFault::InvalidValue => UARTError::Unsupported,
        UartFault::Unknown(t) => {
            let mut m = joined(default_err_msg, ": ");
            m.append(t.as_str());
            UARTError::Other(m)
        },
    }
}

/// The table of internal ports of a UART controller, as it is configured.
#[derive(Debug, Default)]
pub struct UARTConfigData {
    pub internal_ports: Option<HashMap<u8, UARTDefinition>>,
}

impl UARTConfigData {
    pub fn new(internal_ports: Option<HashMap<u8, UARTDefinition>>) -> (data: Self)
        ensures
            data.internal_ports == internal_ports,
    {
        Self { internal_ports }
    }
}

/// What is wrong with a table of internal ports.
pub enum UartConfigIssue {
    /// The device path of the port does not exist.
    MissingPath(u8),
    /// The port names one pin as both RX and TX.
    SamePin(u8),
    /// The RX pin of the port is not in the pool.
    UnknownRx(u8),
    /// The TX pin of the port is not in the pool.
    UnknownTx(u8),
    /// The first port shares its path or a pin with the second.
    Overlap(u8, u8),
}

/// The least port from `from` on, other than `port`, that shares its path
/// or a pin with `port`.
pub open spec fn first_overlap(config: Map<u8, UARTDefinition>, port: u8, from: int) -> Option<u8>
    decreases 256 - from,
{
    if from >= 256 || from < 0 {
        None
    } else if from != port && config.contains_key(from as u8) && config[port].spec_overlap(
        &config[from as u8],
    ) {
        Some(from as u8)
    } else {
        first_overlap(config, port, from + 1)
    }
}

/// What is wrong with the definition of `port`, if anything. `missing`
/// lists the ports whose device path does not exist.
pub open spec fn issue_of(
    pool: Map<u8, PinState>,
    config: Map<u8, UARTDefinition>,
    missing: Seq<u8>,
    port: u8,
) -> Option<UartConfigIssue> {
    let d = config[port];
    if missing.contains(port) {
        Some(UartConfigIssue::MissingPath(port))
    } else if d.rx == d.tx {
        Some(UartConfigIssue::SamePin(port))
    } else if !pool.contains_key(d.rx) {
        Some(UartConfigIssue::UnknownRx(port))
    } else if !pool.contains_key(d.tx) {
        Some(UartConfigIssue::UnknownTx(port))
    } else {
        match first_overlap(config, port, 0) {
            Some(other) => Some(UartConfigIssue::Overlap(port, other)),
            None => None,
        }
    }
}

/// The issue of the least port from `from` on that has one.
pub open spec fn first_issue(
    pool: Map<u8, PinState>,
    config: Map<u8, UARTDefinition>,
    missing: Seq<u8>,
    from: int,
) -> Option<UartConfigIssue>
    decreases 256 - from,
{
    if from >= 256 || from < 0 {
        None
    } else if config.contains_key(from as u8) && issue_of(pool, config, missing, from as u8)
        is Some {
        issue_of(pool, config, missing, from as u8)
    } else {
        first_issue(pool, config, missing, from + 1)
    }
}

/// A table is valid if the device path of every port exists, every port
/// has two distinct pins of the pool, and no two ports share their path or
/// a pin.
pub open spec fn valid_config(
    pool: Map<u8, PinState>,
    config: Map<u8, UARTDefinition>,
    missing: Seq<u8>,
) -> bool {
    &&& forall|port: u8| #[trigger]
        config.contains_key(port) ==> !missing.contains(port) && config[port].rx
            != config[port].tx && pool.contains_key(config[port].rx) && pool.contains_key(
            config[port].tx,
        )
    &&& forall|a: u8, b: u8|
        a != b && #[trigger] config.contains_key(a) && #[trigger] config.contains_key(b)
            ==> !config[a].spec_overlap(&config[b])
}

/// The part of a report that names a port: its number and its path.
pub open spec fn port_text(config: Map<u8, UARTDefinition>, port: u8) -> Seq<char> {
    "port "@ + decimal_text(port as nat) + " (at "@ + config[port].path@ + ")"@
}

/// The part of a report that names the pins of a port.
pub open spec fn pins_text(config: Map<u8, UARTDefinition>, port: u8, sep: Seq<char>) -> Seq<char> {
    " -> (RX: "@ + decimal_text(config[port].rx as nat) + sep + decimal_text(
        config[port].tx as nat,
    ) + ")"@
}

/// The text that reports `issue`.
pub open spec fn issue_text(config: Map<u8, UARTDefinition>, issue: UartConfigIssue) -> Seq<char> {
    match issue {
        UartConfigIssue::MissingPath(port) =>
            "device path provided by UART port does not exist: "@ + config[port].path@,
        UartConfigIssue::SamePin(port) => "UART port is attempting to use the same pin twice: "@
            + port_text(config, port) + pins_text(config, port, ". TX: "@),
        UartConfigIssue::UnknownRx(port) => "UART port is attempting to use invalid pin: "@
            + port_text(config, port) + " pin "@ + decimal_text(config[port].rx as nat)
            + " (RX)"@,
        UartConfigIssue::UnknownTx(port) => "UART port is attempting to use invalid pin: "@
            + port_text(config, port) + " pin "@ + decimal_text(config[port].tx as nat)
            + " (TX)"@,
        UartConfigIssue::Overlap(port, other) => "UART port definitions overlap: "@ + port_text(
            config,
            port,
        ) + pins_text(config, port, ", TX: "@) + " with "@ + port_text(config, other) + pins_text(
            config,
            other,
            ", TX: "@,
        ),
    }
}

proof fn lemma_no_overlap(config: Map<u8, UARTDefinition>, port: u8, from: int, other: u8)
    requires
        first_overlap(config, port, from) is None,
        0 <= from <= other,
        other != port,
        config.contains_key(other),
    ensures
        !config[port].spec_overlap(&config[other]),
    decreases 256 - from,
{
    if from < other {
        lemma_no_overlap(config, port, from + 1, other);
    }
}

proof fn lemma_overlap_found(config: Map<u8, UARTDefinition>, port: u8, from: int)
    requires
        0 <= from,
    ensures
        match first_overlap(config, port, from) {
            Some(other) => other != port && config.contains_key(other) && config[port].spec_overlap(
                &config[other],
            ),
            None => true,
        },
    decreases 256 - from,
{
    if from < 256 {
        lemma_overlap_found(config, port, from + 1);
    }
}

proof fn lemma_no_issue(
    pool: Map<u8, PinState>,
    config: Map<u8, UARTDefinition>,
    missing: Seq<u8>,
    from: int,
    port: u8,
)
    requires
        first_issue(pool, config, missing, from) is None,
        0 <= from <= port,
        config.contains_key(port),
    ensures
        issue_of(pool, config, missing, port) is None,
    decreases 256 - from,
{
    if from < port {
        lemma_no_issue(pool, config, missing, from + 1, port);
    }
}

proof fn lemma_issue_found(
    pool: Map<u8, PinState>,
    config: Map<u8, UARTDefinition>,
    missing: Seq<u8>,
    from: int,
)
    requires
        0 <= from,
    ensures
        match first_issue(pool, config, missing, from) {
            Some(issue) => exists|port: u8| #[trigger]
                config.contains_key(port) && issue_of(pool, config, missing, port) == Some(issue),
            None => true,
        },
    decreases 256 - from,
{
    if from < 256 {
        if config.contains_key(from as u8) && issue_of(pool, config, missing, from as u8)
            is Some {
        } else {
            lemma_issue_found(pool, config, missing, from + 1);
        }
    }
}

/// A table is valid exactly if no port of it has an issue.
pub proof fn lemma_valid_iff_no_issue(
    pool: Map<u8, PinState>,
    config: Map<u8, UARTDefinition>,
    missing: Seq<u8>,
)
    ensures
        valid_config(pool, config, missing) <==> first_issue(pool, config, missing, 0) is None,
{
    if first_issue(pool, config, missing, 0) is None {
        assert forall|port: u8| #[trigger] config.contains_key(port) implies !missing.contains(
            port,
        ) && config[port].rx != config[port].tx && pool.contains_key(config[port].rx)
            && pool.contains_key(config[port].tx) by {
            lemma_no_issue(pool, config, missing, 0, port);
        }
        assert forall|a: u8, b: u8|
            a != b && #[trigger] config.contains_key(a) && #[trigger] config.contains_key(
                b,
            ) implies !config[a].spec_overlap(&config[b]) by {
            lemma_no_issue(pool, config, missing, 0, a);
            lemma_no_overlap(config, a, 0, b);
        }
    } else {
        lemma_issue_found(pool, config, missing, 0);
        let issue = first_issue(pool, config, missing, 0)->Some_0;
        let port = choose|port: u8| #[trigger]
            config.contains_key(port) && issue_of(pool, config, missing, port) == Some(issue);
        lemma_overlap_found(config, port, 0);
    }
}

fn push_port(m: &mut String, port: u8, d: &UARTDefinition)
    ensures
        final(m)@ == old(m)@ + ("port "@ + decimal_text(port as nat) + " (at "@ + d.path@ + ")"@),
{
    let mut t = String::from_str("port ");
    push_num(&mut t, port as u64);
    t.append(" (at ");
    t.append(d.path.as_str());
    t.append(")");
    m.append(t.as_str());
}

fn push_pins(m: &mut String, d: &UARTDefinition, sep: &str)
    ensures
        final(m)@ == old(m)@ + (" -> (RX: "@ + decimal_text(d.rx as nat) + sep@ + decimal_text(
            d.tx as nat,
        ) + ")"@),
{
    let mut t = String::from_str(" -> (RX: ");
    push_num(&mut t, d.rx as u64);
    t.append(sep);
    push_num(&mut t, d.tx as u64);
    t.append(")");
    m.append(t.as_str());
}

fn unknown_pin_text(port: u8, d: &UARTDefinition, pin: u8, line: &str) -> (m: String)
    ensures
        m@ == "UART port is attempting to use invalid pin: "@ + ("port "@ + decimal_text(
            port as nat,
        ) + " (at "@ + d.path@ + ")"@) + " pin "@ + decimal_text(pin as nat) + line@,
{
    let mut m = String::from_str("UART port is attempting to use invalid pin: ");
    push_port(&mut m, port, d);
    m.append(" pin ");
    push_num(&mut m, pin as u64);
    m.append(line);
    m
}

fn contains_port(ports: &Vec<u8>, port: u8) -> (r: bool)
    ensures
        r == ports@.contains(port),
{
    let n = ports.len();
    let mut i: usize = 0;
    while i < n
        invariant
            i <= n,
            n == ports@.len(),
            forall|j: int| 0 <= j < i ==> ports@[j] != port,
        decreases n - i,
    {
        if ports[i] == port {
            return true;
        }
        i += 1;
    }
    false
}

/// Looks for the issue of the least port that has one, and renders it.
/// `missing` lists the ports whose device path does not exist.
pub fn validate_ports(
    gpio: &GpioBorrowChecker,
    internal_ports: &HashMap<u8, UARTDefinition>,
    missing: &Vec<u8>,
) -> (r: Option<String>)
    ensures
        match first_issue(gpio@.pool, internal_ports@, missing@, 0) {
            Some(issue) => r matches Some(m) && m@ == issue_text(internal_ports@, issue),
            None => r is None,
        },
{
    let ghost config = internal_ports@;
    let mut key: u16 = 0;
    while key < 256
        invariant
            key <= 256,
            config == internal_ports@,
            first_issue(gpio@.pool, config, missing@, 0) == first_issue(
                gpio@.pool,
                config,
                missing@,
                key as int,
            ),
        decreases 256 - key,
    {
        let port = key as u8;
        if let Some(d) = internal_ports.get(&port) {
            if contains_port(missing, port) {
                return Some(
                    joined("device path provided by UART port does not exist: ", d.path.as_str()),
                );
            }
            if d.rx == d.tx {
                let mut m = String::from_str("UART port is attempting to use the same pin twice: ");
                push_port(&mut m, port, d);
                push_pins(&mut m, d, ". TX: ");
                return Some(m);
            }
            if !gpio.has_pin(d.rx) {
                return Some(unknown_pin_text(port, d, d.rx, " (RX)"));
            }
            if !gpio.has_pin(d.tx) {
                return Some(unknown_pin_text(port, d, d.tx, " (TX)"));
            }
            let mut other_key: u16 = 0;
            while other_key < 256
                invariant
                    other_key <= 256,
                    key < 256,
                    port == key,
                    config == internal_ports@,
                    config.contains_key(port),
                    *d == config[port],
                    !missing@.contains(port),
                    d.rx != d.tx,
                    gpio@.pool.contains_key(d.rx),
                    gpio@.pool.contains_key(d.tx),
                    first_issue(gpio@.pool, config, missing@, 0) == first_issue(
                        gpio@.pool,
                        config,
                        missing@,
                        key as int,
                    ),
                    first_overlap(config, port, 0) == first_overlap(config, port, other_key as int),
                decreases 256 - other_key,
            {
                let other = other_key as u8;
                if other != port {
                    if let Some(o) = internal_ports.get(&other) {
                        if d.overlap(o) {
                            proof {
                                assert(first_overlap(config, port, other_key as int) == Some(
                                    other,
                                ));
                                assert(issue_of(gpio@.pool, config, missing@, port) == Some(
                                    UartConfigIssue::Overlap(port, other),
                                ));
                            }
                            let mut m = String::from_str("UART port definitions overlap: ");
                            push_port(&mut m, port, d);
                            push_pins(&mut m, d, ", TX: ");
                            m.append(" with ");
                            push_port(&mut m, other, o);
                            push_pins(&mut m, o, ", TX: ");
                            return Some(m);
                        }
                    }
                }
                other_key += 1;
            }
        }
        key += 1;
    }
    None
}

/// One open port: its device path and, for an internal port, the lease
/// over its pins.
pub struct OpenPort {
    pub path: Seq<char>,
    pub lease: Option<u128>,
}

/// The mathematical state of a UART controller: its internal ports and the
/// ports that are open, in the order in which they were opened.
pub struct UartState {
    pub config: Map<u8, UARTDefinition>,
    pub owned: Seq<OpenPort>,
}

impl UartState {
    /// Whether the device at `path` is open.
    pub open spec fn owns(self, path: Seq<char>) -> bool {
        exists|i: int| 0 <= i < self.owned.len() && (#[trigger] self.owned[i]).path == path
    }

    /// The open port at `i` is the first on `path`.
    pub open spec fn is_first(self, path: Seq<char>, i: int) -> bool {
        &&& 0 <= i < self.owned.len()
        &&& self.owned[i].path == path
        &&& forall|j: int| 0 <= j < i ==> (#[trigger] self.owned[j]).path != path
    }

    /// No device path is open twice.
    pub open spec fn wf(self) -> bool {
        forall|i: int, j: int|
            0 <= i < j < self.owned.len() ==> (#[trigger] self.owned[i]).path != (
            #[trigger] self.owned[j]).path
    }

    /// The two pins of `port`, as a lease request.
    pub open spec fn pins_of(self, port: u8) -> Seq<u8> {
        seq![self.config[port].rx, self.config[port].tx]
    }
}

struct UartInfo {
    path: String,
    lease_id: Option<LeaseId>,
}

/// The UART controller.
pub struct UARTBusController {
    owned_ports: Vec<UartInfo>,
    internal_ports: HashMap<u8, UARTDefinition>,
}

impl View for UARTBusController {
    type V = UartState;

    closed spec fn view(&self) -> UartState {
        UartState {
            config: self.internal_ports@,
            owned: Seq::new(
                self.owned_ports@.len(),
                |i: int|
                    OpenPort {
                        path: self.owned_ports@[i].path@,
                        lease: match self.owned_ports@[i].lease_id {
                            Some(id) => Some(id.value),
                            None => None,
                        },
                    },
            ),
        }
    }
}

impl BusController for UARTBusController {
    fn name(&self) -> (name: String)
        ensures
            name@ == "UART"@,
    {
        String::from_str("UART")
    }
}

impl UARTBusController {
    /// A controller without internal ports, with no port open.
    pub fn new() -> (c: Self)
        ensures
            c@.config == Map::<u8, UARTDefinition>::empty(),
            c@.owned == Seq::<OpenPort>::empty(),
    {
        let c = UARTBusController { owned_ports: Vec::new(), internal_ports: HashMap::new() };
        proof {
            assert(c@.owned =~= Seq::<OpenPort>::empty());
        }
        c
    }

    /// A controller over the internal ports `internal_ports`, with no port
    /// open. `missing` lists the ports whose device path does not exist.
    ///
    /// The table is checked against the pool of `gpio_borrow` first: an
    /// invalid table is refused with `InvalidConfig` and the report of the
    /// issue of its least port that has one.
    pub fn with_internals(
        gpio_borrow: &GpioBorrowChecker,
        internal_ports: HashMap<u8, UARTDefinition>,
        missing: &Vec<u8>,
    ) -> (r: Result<Self, UARTError>)
        ensures
            r is Ok <==> valid_config(gpio_borrow@.pool, internal_ports@, missing@),
            match r {
                Ok(c) => c@.config == internal_ports@ && c@.owned == Seq::<OpenPort>::empty(),
                Err(e) => first_issue(gpio_borrow@.pool, internal_ports@, missing@, 0) matches Some(
                    issue,
                ) && (e matches UARTError::InvalidConfig(m) && m@ == issue_text(
                    internal_ports@,
                    issue,
                )),
            },
    {
        proof {
            lemma_valid_iff_no_issue(gpio_borrow@.pool, internal_ports@, missing@);
        }
        match validate_ports(gpio_borrow, &internal_ports, missing) {
            Some(report) => Err(UARTError::InvalidConfig(report)),
            None => {
                let c = UARTBusController { owned_ports: Vec::new(), internal_ports };
                proof {
                    assert(c@.owned =~= Seq::<OpenPort>::empty());
                }
                Ok(c)
            },
        }
    }

    /// A controller from its configuration entry. `parsed` is what the
    /// entry's data holds, or the parser's complaint; `has_ports_key` says
    /// whether the data is an object with the key `internal_ports`;
    /// `missing` lists the ports whose device path does not exist;
    /// `default_data` is the JSON text of a table without ports.
    ///
    /// Data that did not parse is `InvalidConfig`; where the data was
    /// `null`, the entry is left with `default_data` in its place. Data
    /// without the key is `InvalidConfig` too. A table of ports is handed
    /// to `with_internals`; without a table the controller has no internal
    /// port.
    pub fn from_config(
        gpio_borrow: &GpioBorrowChecker,
        config: &mut BusControllerConfig,
        parsed: Result<UARTConfigData, String>,
        has_ports_key: bool,
        missing: &Vec<u8>,
        default_data: &str,
    ) -> (r: Result<Self, UARTError>)
        ensures
            final(config).name == old(config).name,
            match parsed {
                Ok(d) => {
                    &&& *final(config) == *old(config)
                    &&& if !has_ports_key {
                        r matches Err(UARTError::InvalidConfig(m)) && m@
                            == "missing config entry: "@
                            + "invalid UART data struct json: missing required property \"internal_ports\""@
                    } else {
                        match d.internal_ports {
                            Some(ports) => {
                                &&& r is Ok <==> valid_config(gpio_borrow@.pool, ports@, missing@)
                                &&& match r {
                                    Ok(c) => c@.config == ports@ && c@.owned == Seq::<
                                        OpenPort,
                                    >::empty(),
                                    Err(e) => first_issue(
                                        gpio_borrow@.pool,
                                        ports@,
                                        missing@,
                                        0,
                                    ) matches Some(issue) && (e matches UARTError::InvalidConfig(m)
                                        && m@ == issue_text(ports@, issue)),
                                }
                            },
                            None => r matches Ok(c) && c@.config == Map::<
                                u8,
                                UARTDefinition,
                            >::empty() && c@.owned == Seq::<OpenPort>::empty(),
                        }
                    }
                },
                Err(complaint) => {
                    &&& final(config).data@ == (if old(config).data@ == "null"@ {
                        default_data@
                    } else {
                        old(config).data@
                    })
                    &&& r matches Err(UARTError::InvalidConfig(m)) && m@
                        == "serialize/parse error: "@ + ("invalid UART data struct json"@ + ": "@
                        + complaint@)
                },
            },
    {
        match parsed {
            Ok(d) => {
                if !has_ports_key {
                    return Err(
                        UARTError::InvalidConfig(
                            ConfigError::MissingEntry(
                                String::from_str(
                                    "invalid UART data struct json: missing required property \"internal_ports\"",
                                ),
                            ).to_string(),
                        ),
                    );
                }
                match d.internal_ports {
                    Some(ports) => Self::with_internals(gpio_borrow, ports, missing),
                    None => Ok(Self::new()),
                }
            },
            Err(complaint) => {
                write_default_if_null(&mut config.data, default_data);
                Err(
                    UARTError::InvalidConfig(
                        parse_failure_text("invalid UART data struct json", complaint.as_str()),
                    ),
                )
            },
        }
    }

    /// The device path of internal port `port`.
    pub fn port_path(&self, port: u8) -> (r: Option<String>)
        ensures
            match r {
                Some(path) => self@.config.contains_key(port) && path@
                    == self@.config[port].path@,
                None => !self@.config.contains_key(port),
            },
    {
        match self.internal_ports.get(&port) {
            Some(d) => Some(d.path.clone()),
            None => None,
        }
    }

    fn find_owned(&self, path: &str) -> (r: Option<usize>)
        ensures
            match r {
                Some(i) => self@.is_first(path@, i as int),
                None => !self@.owns(path@),
            },
    {
        let wanted = String::from_str(path);
        let n = self.owned_ports.len();
        let mut i: usize = 0;
        while i < n
            invariant
                i <= n,
                n == self@.owned.len(),
                wanted@ == path@,
                forall|j: int| 0 <= j < i ==> (#[trigger] self@.owned[j]).path != path@,
            decreases n - i,
        {
            if self.owned_ports[i].path == wanted {
                return Some(i);
            }
            i += 1;
        }
        None
    }

    /// Whether internal port `port` can be opened now. To be asked before
    /// the serial device is touched; nothing is reserved.
    ///
    /// An unknown port is `PortNotFound`, one whose device is open `Busy`,
    /// and one whose pins are not both free `HardwareError`.
    pub fn check_open(&self, gpio_borrow: &GpioBorrowChecker, port: u8) -> (r: Result<(), UARTError>)
        ensures
            !self@.config.contains_key(port) ==> r == Err::<(), UARTError>(UARTError::PortNotFound),
            self@.config.contains_key(port) && self@.owns(self@.config[port].path@) ==> r == Err::<
                (),
                UARTError,
            >(UARTError::Busy),
            self@.config.contains_key(port) && !self@.owns(self@.config[port].path@) ==> (
            if gpio_borrow@.all_free(self@.pins_of(port)) {
                r is Ok
            } else {
                r matches Err(UARTError::HardwareError(m)) && m@
                    == "internal UART channel pins are already in use"@
            }),
    {
        let definition = match self.internal_ports.get(&port) {
            Some(d) => d,
            None => return Err(UARTError::PortNotFound),
        };
        if self.find_owned(definition.path.as_str()).is_some() {
            return Err(UARTError::Busy);
        }
        let pins = definition.to_arr();
        if !gpio_borrow.can_borrow_many(&pins) {
            return Err(
                UARTError::HardwareError(
                    String::from_str("internal UART channel pins are already in use"),
                ),
            );
        }
        Ok(())
    }

    /// Opens internal port `port`: leases its two pins and records the
    /// device as open.
    ///
    /// The refusals are those of `check_open`. Past them the arbiter
    /// decides: its lease is recorded, or its error is passed on as
    /// `HardwareError` with the error's text. A refusal changes neither the
    /// controller nor the arbiter.
    pub fn open(&mut self, gpio_borrow: &mut GpioBorrowChecker, port: u8) -> (r: Result<
        LeaseId,
        UARTError,
    >)
        ensures
            old(self)@.config.contains_key(port) && !old(self)@.owns(old(self)@.config[port].path@)
                && old(gpio_borrow)@.all_free(old(self)@.pins_of(port)) ==> exists|t: u128| #[trigger]
                is_random_uuid(t) && token_decides(old(gpio_borrow)@, t, r),
            old(self)@.config.contains_key(port) && !old(self)@.owns(old(self)@.config[port].path@)
                && old(gpio_borrow)@.all_free(old(self)@.pins_of(port)) && old(
                gpio_borrow)@.no_lease() ==> r is Ok,
            old(gpio_borrow)@.wf() ==> final(gpio_borrow)@.wf(),
            old(self)@.wf() ==> final(self)@.wf(),
            final(self)@.config == old(self)@.config,
            r is Err ==> final(self)@ == old(self)@ && final(gpio_borrow)@ == old(gpio_borrow)@,
            !old(self)@.config.contains_key(port) ==> r == Err::<LeaseId, UARTError>(
                UARTError::PortNotFound,
            ),
            old(self)@.config.contains_key(port) && old(self)@.owns(old(self)@.config[port].path@)
                ==> r == Err::<LeaseId, UARTError>(UARTError::Busy),
            old(self)@.config.contains_key(port) && !old(self)@.owns(old(self)@.config[port].path@)
                ==> (if old(gpio_borrow)@.all_free(old(self)@.pins_of(port)) {
                match r {
                    Ok(id) => !old(gpio_borrow)@.leases.contains_key(id.value) && final(
                        gpio_borrow)@ == old(gpio_borrow)@.granted(
                        id.value,
                        old(self)@.pins_of(port),
                    ) && final(self)@.owned == old(self)@.owned.push(
                        OpenPort { path: old(self)@.config[port].path@, lease: Some(id.value) },
                    ),
                    Err(e) => e matches UARTError::HardwareError(m) && m@
                        == "lease identifier is already in use"@,
                }
            } else {
                r matches Err(UARTError::HardwareError(m)) && m@
                    == "internal UART channel pins are already in use"@
            }),
    {
        match self.check_open(gpio_borrow, port) {
            Ok(()) => {},
            Err(e) => return Err(e),
        }
        let (path, pins) = match self.internal_ports.get(&port) {
            Some(d) => (d.path.clone(), d.to_vec()),
            None => return Err(UARTError::PortNotFound),
        };
        match gpio_borrow.borrow_many(pins) {
            Ok(id) => {
                self.owned_ports.push(UartInfo { path, lease_id: Some(id) });
                proof {
                    let added = OpenPort {
                        path: old(self)@.config[port].path@,
                        lease: Some(id.value),
                    };
                    assert(final(self)@.owned =~= old(self)@.owned.push(added));
                    if old(self)@.wf() {
                        assert forall|i: int, j: int|
                            0 <= i < j < final(self)@.owned.len() implies (
                        #[trigger] final(self)@.owned[i]).path != (
                        #[trigger] final(self)@.owned[j]).path by {
                            if j == old(self)@.owned.len() {
                                assert(old(self)@.owned[i].path != added.path);
                            }
                        }
                    }
                }
                Ok(id)
            },
            Err(e) => Err(UARTError::HardwareError(e.to_string())),
        }
    }

    /// Records the device at `path` as an open external port. No pin is
    /// leased. A device that is open already is `Busy`.
    pub fn open_path(&mut self, path: String) -> (r: Result<(), UARTError>)
        ensures
            old(self)@.wf() ==> final(self)@.wf(),
            final(self)@.config == old(self)@.config,
            old(self)@.owns(path@) ==> r == Err::<(), UARTError>(UARTError::Busy) && final(self)@
                == old(self)@,
            !old(self)@.owns(path@) ==> r == Ok::<(), UARTError>(()) && final(self)@.owned == old(
                self)@.owned.push(OpenPort { path: path@, lease: None }),
    {
        if self.find_owned(path.as_str()).is_some() {
            return Err(UARTError::Busy);
        }
        let ghost added = OpenPort { path: path@, lease: None };
        self.owned_ports.push(UartInfo { path, lease_id: None });
        proof {
            assert(final(self)@.owned =~= old(self)@.owned.push(added));
            if old(self)@.wf() {
                assert forall|i: int, j: int|
                    0 <= i < j < final(self)@.owned.len() implies (
                #[trigger] final(self)@.owned[i]).path != (#[trigger] final(self)@.owned[j]).path by {
                    if j == old(self)@.owned.len() {
                        assert(old(self)@.owned[i].path != added.path);
                    }
                }
            }
        }
        Ok(())
    }

    /// Closes internal port `port`: an unknown port is `PortNotFound`,
    /// otherwise as `close_path` on the port's device path.
    pub fn close(&mut self, gpio_borrow: &mut GpioBorrowChecker, port: u8) -> (r: Result<
        (),
        UARTError,
    >)
        ensures
            old(gpio_borrow)@.wf() ==> final(gpio_borrow)@.wf(),
            old(self)@.wf() ==> final(self)@.wf(),
            final(self)@.config == old(self)@.config,
            r is Err ==> final(self)@ == old(self)@ && final(gpio_borrow)@ == old(gpio_borrow)@,
            !old(self)@.config.contains_key(port) ==> r == Err::<(), UARTError>(
                UARTError::PortNotFound,
            ),
            old(self)@.config.contains_key(port) ==> old(self)@.close_outcome(
                old(gpio_borrow)@,
                old(self)@.config[port].path@,
                final(self)@,
                final(gpio_borrow)@,
                r,
            ),
    {
        let path = match self.internal_ports.get(&port) {
            Some(d) => d.path.clone(),
            None => return Err(UARTError::PortNotFound),
        };
        self.close_path(gpio_borrow, path)
    }

    /// Closes the device at `path` and gives its lease back, if it has one.
    ///
    /// A device that is not open is `LeaseNotFound`. A lease that the
    /// arbiter does not know is `HardwareError` with the arbiter's text. A
    /// refusal changes neither the controller nor the arbiter.
    pub fn close_path(&mut self, gpio_borrow: &mut GpioBorrowChecker, path: String) -> (r: Result<
        (),
        UARTError,
    >)
        ensures
            old(gpio_borrow)@.wf() ==> final(gpio_borrow)@.wf(),
            old(self)@.wf() ==> final(self)@.wf(),
            final(self)@.config == old(self)@.config,
            r is Err ==> final(self)@ == old(self)@ && final(gpio_borrow)@ == old(gpio_borrow)@,
            old(self)@.close_outcome(
                old(gpio_borrow)@,
                path@,
                final(self)@,
                final(gpio_borrow)@,
                r,
            ),
    {
        let i = match self.find_owned(path.as_str()) {
            Some(i) => i,
            None => return Err(UARTError::LeaseNotFound),
        };
        proof {
            assert forall|k: int| #[trigger] old(self)@.is_first(path@, k) implies k == i by {
                if k < i {
                    assert(old(self)@.owned[k].path != path@);
                } else if i < k {
                    assert(old(self)@.owned[i as int].path != path@);
                }
            }
        }
        if let Some(lease) = self.owned_ports[i].lease_id {
            match gpio_borrow.release(&lease) {
                Ok(()) => {},
                Err(e) => return Err(UARTError::HardwareError(e.to_string())),
            }
        }
        self.owned_ports.remove(i);
        proof {
            assert(final(self)@.owned =~= old(self)@.owned.remove(i as int));
        }
        Ok(())
    }
}

impl UartState {
    /// What closing the device at `path` leads to: `after` and `gpio_after`
    /// are the states afterwards, `r` the answer.
    pub open spec fn close_outcome(
        self,
        gpio: ArbiterState,
        path: Seq<char>,
        after: UartState,
        gpio_after: ArbiterState,
        r: Result<(), UARTError>,
    ) -> bool {
        &&& !self.owns(path) ==> r == Err::<(), UARTError>(UARTError::LeaseNotFound)
        &&& forall|i: int| #[trigger]
            self.is_first(path, i) ==> match self.owned[i].lease {
                Some(lease) => if gpio.leases.contains_key(lease) {
                    &&& r == Ok::<(), UARTError>(())
                    &&& gpio_after == gpio.released(lease)
                    &&& after.owned == self.owned.remove(i)
                } else {
                    r matches Err(UARTError::HardwareError(m)) && m@
                        == GpioError::LeaseNotFound.message()
                },
                None => {
                    &&& r == Ok::<(), UARTError>(())
                    &&& gpio_after == gpio
                    &&& after.owned == self.owned.remove(i)
                },
            }
    }
}

} // verus!
