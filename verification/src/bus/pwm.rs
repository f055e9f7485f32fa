//! The PWM controller: two channels, each on one pin.

use std::collections::HashMap;
use vstd::prelude::*;
use vstd::string::StringExecFns;
use crate::bus::BusController;
use crate::config::{parse_failure_text, write_default_if_null, BusControllerConfig};
use crate::gpio::{ArbiterState, GpioBorrowChecker, GpioError, LeaseId, PinState};
use crate::text::{decimal_text, joined, push_num};
use crate::uuid_text::is_random_uuid;

verus! {

broadcast use vstd::std_specs::hash::group_hash_axioms;

#[derive(Debug, PartialEq)]
pub enum PWMError {
    InvalidConfig(String),
    ChannelNotFound(u8),
    LeaseNotFound,
    Unsupported,
    ChannelBusy(u8),
    HardwareError(String),
    OsError(String),
    Other(String),
}

impl PWMError {
    /// The text that `to_string` renders.
    pub open spec fn message(&self) -> Seq<char> {
        match self {
            PWMError::InvalidConfig(m) => "invalid config: "@ + m@,
            PWMError::ChannelNotFound(id) => "pwm channel "@ + decimal_text(*id as nat)
                + " does not exist"@,
            PWMError::LeaseNotFound => "pwm channel is not open"@,
            PWMError::Unsupported => "not supported"@,
            PWMError::ChannelBusy(id) => "pwm channel "@ + decimal_text(*id as nat) + " is busy"@,
            PWMError::HardwareError(m) => "hardware error: "@ + m@,
            PWMError::OsError(m) => "os error: "@ + m@,
            PWMError::Other(m) => m@,
        }
    }

    pub fn to_string(&self) -> (s: String)
        ensures
            s@ == self.message(),
    {
        match self {
            PWMError::InvalidConfig(m) => joined("invalid config: ", m.as_str()),
            PWMError::ChannelNotFound(id) => {
                let mut s = String::from_str("pwm channel ");
                push_num(&mut s, *id as u64);
                s.append(" does not exist");
                s
            },
            PWMError::LeaseNotFound => String::from_str("pwm channel is not open"),
            PWMError::Unsupported => String::from_str("not supported"),
            PWMError::ChannelBusy(id) => {
                let mut s = String::from_str("pwm channel ");
                push_num(&mut s, *id as u64);
                s.append(" is busy");
                s
            },
            PWMError::HardwareError(m) => joined("hardware error: ", m.as_str()),
            PWMError::OsError(m) => joined("os error: ", m.as_str()),
            PWMError::Other(m) => m.clone(),
        }
    }
}

/// A channel of the PWM peripheral.
#[derive(Debug, Clone, Copy, PartialEq, Eq, Structural)]
pub enum Channel {
    Pwm0,
    Pwm1,
    /// A channel that this controller does not drive.
    Other,
}

/// The number of a channel that the controller drives.
pub fn channel_to_u8(channel: Channel) -> (r: Option<u8>)
    ensures
        r == match channel {
            Channel::Pwm0 => Some(0u8),
            Channel::Pwm1 => Some(1u8),
            Channel::Other => None::<u8>,
        },
{
    match channel {
        Channel::Pwm0 => Some(0),
        Channel::Pwm1 => Some(1),
        Channel::Other => None,
    }
}

/// The channel of number `channel`, if the controller drives it.
pub fn u8_to_channel(channel: u8) -> (r: Option<Channel>)
    ensures
        r == match channel {
            0 => Some(Channel::Pwm0),
            1 => Some(Channel::Pwm1),
            _ => None::<Channel>,
        },
        r is Some <==> channel <= 1,
{
    if channel == 0 {
        Some(Channel::Pwm0)
    } else if channel == 1 {
        Some(Channel::Pwm1)
    } else {
        None
    }
}

/// A channel that the controller has opened: the lease over its pin and,
/// where the kernel refused to set normal polarity, the warning to log.
#[derive(Debug, PartialEq)]
pub struct OpenedChannel {
    pub lease: LeaseId,
    pub warning: Option<String>,
}

/// Whether `warning` is what the outcome `polarity` of setting normal
/// polarity calls for: nothing where it was set, and a warning with the
/// kernel's complaint where it was refused.
pub open spec fn polarity_noted(polarity: Result<(), String>, warning: Option<String>) -> bool {
    match polarity {
        Ok(()) => warning is None,
        Err(complaint) => warning matches Some(w) && w@ == "Failed to reset PWM polarity: "@
            + complaint@,
    }
}

/// What is to be logged about the outcome of setting normal polarity. A
/// refusal is a warning, never an error: the channel opens all the same.
pub fn polarity_warning(polarity: Result<(), String>) -> (warning: Option<String>)
    ensures
        polarity_noted(polarity, warning),
{
    match polarity {
        Ok(()) => None,
        Err(complaint) => Some(joined("Failed to reset PWM polarity: ", complaint.as_str())),
    }
}

/// Whether the answer `r` to a request to open a channel on a free pin is
/// what the token `t` decides: the channel under the lease `t`, unless `t`
/// names a lease already.
pub open spec fn channel_opened_as(gpio: ArbiterState, t: u128, r: Result<OpenedChannel, PWMError>)
    -> bool {
    if gpio.leases.contains_key(t) {
        r is Err
    } else {
        r matches Ok(opened) && opened.lease.value == t
    }
}

/// What opening or driving a PWM channel can fail with, as plain values.
#[derive(Debug, PartialEq)]
pub enum PwmFault {
    /// An I/O error, with its text.
    Io(String),
    /// An unexpected state of the sysfs tree, with its text.
    Unexpected(String),
    /// Any other failure, with its text.
    Unknown(String),
}

/// The controller's error for a fault of the PWM peripheral. An
/// `Unexpected` or `Unknown` fault is reported as `default_err_msg`, a colon
/// and the fault's text.
pub fn rppal_map_err(err: PwmFault, default_err_msg: &str) -> (e: PWMError)
    ensures
        match err {
            PwmFault::Io(t) => e matches PWMError::HardwareError(m) && m@ == "I/O error: "@ + t@,
            PwmFault::Unexpected(t) => e matches PWMError::Other(m) && m@ == default_err_msg@
                + ": "@ + t@,
            PwmFault::Unknown(t) => e matches PWMError::Other(m) && m@ == default_err_msg@ + ": "@
                + t@,
        },
{
    match err {
        PwmFault::Io(t) => PWMError::HardwareError(joined("I/O error: ", t.as_str())),
        PwmFault::Unexpected(t) => {
            let mut m = joined(default_err_msg, ": ");
            m.append(t.as_str());
            PWMError::Other(m)
        },
        PwmFault::Unknown(t) => {
            let mut m = joined(default_err_msg, ": ");
            m.append(t.as_str());
            PWMError::Other(m)
        },
    }
}

/// The controller's error for a fault of a sysfs PWM channel: `Io` and
/// `Unexpected` are `OsError` with the fault's text, anything else is
/// `Other` with `default_err_msg`, a colon and the fault's text.
pub fn sysfs_map_err(err: PwmFault, default_err_msg: &str) -> (e: PWMError)
    ensures
        match err {
            PwmFault::Io(t) => e matches PWMError::OsError(m) && m@ == t@,
            PwmFault::Unexpected(t) => e matches PWMError::OsError(m) && m@ == t@,
            PwmFault::Unknown(t) => e matches PWMError::Other(m) && m@ == default_err_msg@ + ": "@
                + t@,
        },
{
    match err {
        PwmFault::Io(t) => PWMError::OsError(t),
        PwmFault::Unexpected(t) => PWMError::OsError(t),
        PwmFault::Unknown(t) => {
            let mut m = joined(default_err_msg, ": ");
            m.append(t.as_str());
            PWMError::Other(m)
        },
    }
}

/// The channel table of a PWM controller, as it is configured: the pin of
/// each channel.
#[derive(Debug, Default)]
pub struct PWMConfigData {
    pub channels: HashMap<u8, u8>,
}

impl PWMConfigData {
    pub fn new(channels: HashMap<u8, u8>) -> (data: Self)
        ensures
            data.channels == channels,
    {
        Self { channels }
    }
}

/// What is wrong with a channel table.
pub enum PwmConfigIssue {
    /// The channel is neither 0 nor 1.
    UnsupportedChannel(u8),
    /// The pin of the channel is not in the pool.
    UnknownPin(u8),
    /// The first channel is on the same pin as the second.
    Overlap(u8, u8),
}

/// The least channel from `from` on, other than `channel`, that is on the
/// same pin as `channel`.
pub open spec fn first_overlap(config: Map<u8, u8>, channel: u8, from: int) -> Option<u8>
    decreases 256 - from,
{
    if from >= 256 || from < 0 {
        None
    } else if from != channel && config.contains_key(from as u8) && config[channel]
        == config[from as u8] {
        Some(from as u8)
    } else {
        first_overlap(config, channel, from + 1)
    }
}

/// What is wrong with the entry of `channel`, if anything. With
/// `two_channels` only the channels 0 and 1 are supported.
pub open spec fn issue_of(
    pool: Map<u8, PinState>,
    config: Map<u8, u8>,
    two_channels: bool,
    channel: u8,
) -> Option<PwmConfigIssue> {
    if two_channels && channel > 1 {
        Some(PwmConfigIssue::UnsupportedChannel(channel))
    } else if !pool.contains_key(config[channel]) {
        Some(PwmConfigIssue::UnknownPin(channel))
    } else {
        match first_overlap(config, channel, 0) {
            Some(other) => Some(PwmConfigIssue::Overlap(channel, other)),
            None => None,
        }
    }
}

/// The issue of the least channel from `from` on that has one.
pub open spec fn first_issue(
    pool: Map<u8, PinState>,
    config: Map<u8, u8>,
    two_channels: bool,
    from: int,
) -> Option<PwmConfigIssue>
    decreases 256 - from,
{
    if from >= 256 || from < 0 {
        None
    } else if config.contains_key(from as u8) && issue_of(pool, config, two_channels, from as u8)
        is Some {
        issue_of(pool, config, two_channels, from as u8)
    } else {
        first_issue(pool, config, two_channels, from + 1)
    }
}

/// A channel table is valid if every channel is supported and on a pin of
/// the pool, and no two channels are on one pin.
pub open spec fn valid_config(pool: Map<u8, PinState>, config: Map<u8, u8>, two_channels: bool)
    -> bool {
    &&& forall|c: u8| #[trigger]
        config.contains_key(c) ==> (two_channels ==> c <= 1) && pool.contains_key(config[c])
    &&& forall|a: u8, b: u8|
        a != b && #[trigger] config.contains_key(a) && #[trigger] config.contains_key(b)
            ==> config[a] != config[b]
}

/// The text that reports `issue`.
pub open spec fn issue_text(config: Map<u8, u8>, issue: PwmConfigIssue) -> Seq<char> {
    match issue {
        PwmConfigIssue::UnsupportedChannel(c) => "Unsupported PWM channel: channel "@
            + decimal_text(c as nat) + " pin "@ + decimal_text(config[c] as nat),
        PwmConfigIssue::UnknownPin(c) =>
            "PWM channel is attempting to use invalid pin: channel "@ + decimal_text(c as nat)
                + " pin "@ + decimal_text(config[c] as nat),
        PwmConfigIssue::Overlap(c, other) => "PWM channel definitions overlap: channel "@
            + decimal_text(c as nat) + " -> "@ + decimal_text(config[c] as nat)
            + " with channel "@ + decimal_text(other as nat) + " -> "@ + decimal_text(
            config[other] as nat,
        ),
    }
}

proof fn lemma_no_overlap(config: Map<u8, u8>, channel: u8, from: int, other: u8)
    requires
        first_overlap(config, channel, from) is None,
        0 <= from <= other,
        other != channel,
        config.contains_key(other),
    ensures
        config[channel] != config[other],
    decreases 256 - from,
{
    if from < other {
        lemma_no_overlap(config, channel, from + 1, other);
    }
}

proof fn lemma_overlap_found(config: Map<u8, u8>, channel: u8, from: int)
    requires
        0 <= from,
    ensures
        match first_overlap(config, channel, from) {
            Some(other) => other != channel && config.contains_key(other) && config[channel]
                == config[other],
            None => true,
        },
    decreases 256 - from,
{
    if from < 256 {
        lemma_overlap_found(config, channel, from + 1);
    }
}

proof fn lemma_no_issue(
    pool: Map<u8, PinState>,
    config: Map<u8, u8>,
    two_channels: bool,
    from: int,
    channel: u8,
)
    requires
        first_issue(pool, config, two_channels, from) is None,
        0 <= from <= channel,
        config.contains_key(channel),
    ensures
        issue_of(pool, config, two_channels, channel) is None,
    decreases 256 - from,
{
    if from < channel {
        lemma_no_issue(pool, config, two_channels, from + 1, channel);
    }
}

proof fn lemma_issue_found(
    pool: Map<u8, PinState>,
    config: Map<u8, u8>,
    two_channels: bool,
    from: int,
)
    requires
        0 <= from,
    ensures
        match first_issue(pool, config, two_channels, from) {
            Some(issue) => exists|c: u8| #[trigger]
                config.contains_key(c) && issue_of(pool, config, two_channels, c) == Some(issue),
            None => true,
        },
    decreases 256 - from,
{
    if from < 256 {
        if config.contains_key(from as u8) && issue_of(pool, config, two_channels, from as u8)
            is Some {
        } else {
            lemma_issue_found(pool, config, two_channels, from + 1);
        }
    }
}

/// A channel table is valid exactly if no channel of it has an issue.
pub proof fn lemma_valid_iff_no_issue(
    pool: Map<u8, PinState>,
    config: Map<u8, u8>,
    two_channels: bool,
)
    ensures
        valid_config(pool, config, two_channels) <==> first_issue(pool, config, two_channels, 0)
            is None,
{
    if first_issue(pool, config, two_channels, 0) is None {
        assert forall|c: u8| #[trigger] config.contains_key(c) implies (two_channels ==> c <= 1)
            && pool.contains_key(config[c]) by {
            lemma_no_issue(pool, config, two_channels, 0, c);
        }
        assert forall|a: u8, b: u8|
            a != b && #[trigger] config.contains_key(a) && #[trigger] config.contains_key(
                b,
            ) implies config[a] != config[b] by {
            lemma_no_issue(pool, config, two_channels, 0, a);
            lemma_no_overlap(config, a, 0, b);
        }
    } else {
        lemma_issue_found(pool, config, two_channels, 0);
        let issue = first_issue(pool, config, two_channels, 0)->Some_0;
        let c = choose|c: u8| #[trigger]
            config.contains_key(c) && issue_of(pool, config, two_channels, c) == Some(issue);
        lemma_overlap_found(config, c, 0);
    }
}

fn channel_pin_text(head: &str, channel: u8, pin: u8) -> (m: String)
    ensures
        m@ == head@ + decimal_text(channel as nat) + " pin "@ + decimal_text(pin as nat),
{
    let mut m = String::from_str(head);
    push_num(&mut m, channel as u64);
    m.append(" pin ");
    push_num(&mut m, pin as u64);
    m
}

fn overlap_text(channel: u8, pin: u8, other: u8, other_pin: u8) -> (m: String)
    ensures
        m@ == "PWM channel definitions overlap: channel "@ + decimal_text(channel as nat)
            + " -> "@ + decimal_text(pin as nat) + " with channel "@ + decimal_text(other as nat)
            + " -> "@ + decimal_text(other_pin as nat),
{
    let mut m = String::from_str("PWM channel definitions overlap: channel ");
    push_num(&mut m, channel as u64);
    m.append(" -> ");
    push_num(&mut m, pin as u64);
    m.append(" with channel ");
    push_num(&mut m, other as u64);
    m.append(" -> ");
    push_num(&mut m, other_pin as u64);
    m
}

/// Looks for the issue of the least channel that has one, and renders it.
pub fn validate_channels(
    gpio: &GpioBorrowChecker,
    pin_config: &HashMap<u8, u8>,
    two_channels: bool,
) -> (r: Option<String>)
    ensures
        match first_issue(gpio@.pool, pin_config@, two_channels, 0) {
            Some(issue) => r matches Some(m) && m@ == issue_text(pin_config@, issue),
            None => r is None,
        },
{
    let mut key: u16 = 0;
    while key < 256
        invariant
            key <= 256,
            first_issue(gpio@.pool, pin_config@, two_channels, 0) == first_issue(
                gpio@.pool,
                pin_config@,
                two_channels,
                key as int,
            ),
        decreases 256 - key,
    {
        let channel = key as u8;
        if let Some(p) = pin_config.get(&channel) {
            let pin = *p;
            if two_channels && u8_to_channel(channel).is_none() {
                return Some(channel_pin_text("Unsupported PWM channel: channel ", channel, pin));
            }
            if !gpio.has_pin(pin) {
                return Some(
                    channel_pin_text(
                        "PWM channel is attempting to use invalid pin: channel ",
                        channel,
                        pin,
                    ),
                );
            }
            let mut other_key: u16 = 0;
            while other_key < 256
                invariant
                    other_key <= 256,
                    key < 256,
                    channel == key,
                    pin_config@.contains_key(channel),
                    pin == pin_config@[channel],
                    !(two_channels && channel > 1),
                    gpio@.pool.contains_key(pin),
                    first_issue(gpio@.pool, pin_config@, two_channels, 0) == first_issue(
                        gpio@.pool,
                        pin_config@,
                        two_channels,
                        key as int,
                    ),
                    first_overlap(pin_config@, channel, 0) == first_overlap(
                        pin_config@,
                        channel,
                        other_key as int,
                    ),
                decreases 256 - other_key,
            {
                let other = other_key as u8;
                if other != channel {
                    if let Some(o) = pin_config.get(&other) {
                        if pin == *o {
                            proof {
                                assert(first_overlap(pin_config@, channel, other_key as int)
                                    == Some(other));
                                assert(issue_of(gpio@.pool, pin_config@, two_channels, channel)
                                    == Some(PwmConfigIssue::Overlap(channel, other)));
                            }
                            return Some(overlap_text(channel, pin, other, *o));
                        }
                    }
                }
                other_key += 1;
            }
        }
        key += 1;
    }
    None
}

/// The mathematical state of a PWM controller: the pin of each channel and
/// the lease of each open channel.
pub struct PwmState {
    pub config: Map<u8, u8>,
    pub owned: Map<u8, u128>,
}

impl PwmState {
    /// The controller's answer to a request to open `channel`, before any
    /// pin is leased: `None` where nothing stands against it.
    pub open spec fn open_refusal(self, channel: u8) -> Option<PWMError> {
        if self.owned.contains_key(channel) {
            Some(PWMError::ChannelBusy(channel))
        } else if !self.config.contains_key(channel) {
            Some(PWMError::ChannelNotFound(channel))
        } else {
            None
        }
    }
}

/// The PWM controller. It knows the pin of each channel and holds the lease
/// of every channel that is open.
pub struct PWMBusController {
    pin_config: HashMap<u8, u8>,
    owned_channels: HashMap<u8, LeaseId>,
}

impl View for PWMBusController {
    type V = PwmState;

    closed spec fn view(&self) -> PwmState {
        PwmState {
            config: self.pin_config@,
            owned: Map::new(
                |id: u8| self.owned_channels@.contains_key(id),
                |id: u8| self.owned_channels@[id].value,
            ),
        }
    }
}

impl BusController for PWMBusController {
    fn name(&self) -> (name: String)
        ensures
            name@ == "PWM"@,
    {
        String::from_str("PWM")
    }
}

impl PWMBusController {
    /// A controller over the channel table `pin_config`, with no channel
    /// open.
    ///
    /// The table is checked against the pool of `gpio_borrow` first: an
    /// invalid table is refused with `InvalidConfig` and the report of the
    /// issue of its least channel that has one.
    pub fn new(gpio_borrow: &GpioBorrowChecker, pin_config: HashMap<u8, u8>) -> (r: Result<
        Self,
        PWMError,
    >)
        ensures
            r is Ok <==> valid_config(gpio_borrow@.pool, pin_config@, true),
            match r {
                Ok(c) => c@.config == pin_config@ && c@.owned == Map::<u8, u128>::empty(),
                Err(e) => first_issue(gpio_borrow@.pool, pin_config@, true, 0) matches Some(issue)
                    && (e matches PWMError::InvalidConfig(m) && m@ == issue_text(
                    pin_config@,
                    issue,
                )),
            },
    {
        Self::with_rule(gpio_borrow, pin_config, true)
    }

    /// As `new`; with `two_channels` unset, any channel number is
    /// supported.
    pub fn with_rule(gpio_borrow: &GpioBorrowChecker, pin_config: HashMap<u8, u8>, two_channels: bool) -> (r:
        Result<Self, PWMError>)
        ensures
            r is Ok <==> valid_config(gpio_borrow@.pool, pin_config@, two_channels),
            match r {
                Ok(c) => c@.config == pin_config@ && c@.owned == Map::<u8, u128>::empty(),
                Err(e) => first_issue(gpio_borrow@.pool, pin_config@, two_channels, 0) matches Some(
                    issue,
                ) && (e matches PWMError::InvalidConfig(m) && m@ == issue_text(
                    pin_config@,
                    issue,
                )),
            },
    {
        proof {
            lemma_valid_iff_no_issue(gpio_borrow@.pool, pin_config@, two_channels);
        }
        match validate_channels(gpio_borrow, &pin_config, two_channels) {
            Some(report) => Err(PWMError::InvalidConfig(report)),
            None => {
                let c = PWMBusController { pin_config, owned_channels: HashMap::new() };
                proof {
                    assert(c@.owned =~= Map::<u8, u128>::empty());
                }
                Ok(c)
            },
        }
    }

    /// A controller from its configuration entry. `parsed` is the channel
    /// table that the entry's data holds, or the parser's complaint;
    /// `default_data` is the JSON text of an empty table.
    ///
    /// Data that did not parse is `InvalidConfig`; where the data was
    /// `null`, the entry is left with `default_data` in its place. A table
    /// that parsed is handed to `new`.
    pub fn from_config(
        gpio_borrow: &GpioBorrowChecker,
        config: &mut BusControllerConfig,
        parsed: Result<PWMConfigData, String>,
        default_data: &str,
    ) -> (r: Result<Self, PWMError>)
        ensures
            final(config).name == old(config).name,
            match parsed {
                Ok(d) => {
                    &&& *final(config) == *old(config)
                    &&& r is Ok <==> valid_config(gpio_borrow@.pool, d.channels@, true)
                    &&& match r {
                        Ok(c) => c@.config == d.channels@ && c@.owned == Map::<u8, u128>::empty(),
                        Err(e) => first_issue(gpio_borrow@.pool, d.channels@, true, 0) matches Some(
                            issue,
                        ) && (e matches PWMError::InvalidConfig(m) && m@ == issue_text(
                            d.channels@,
                            issue,
                        )),
                    }
                },
                Err(complaint) => {
                    &&& final(config).data@ == (if old(config).data@ == "null"@ {
                        default_data@
                    } else {
                        old(config).data@
                    })
                    &&& r matches Err(PWMError::InvalidConfig(m)) && m@
                        == "serialize/parse error: "@ + ("invalid PWM data struct json"@ + ": "@
                        + complaint@)
                },
            },
    {
        match parsed {
            Ok(d) => Self::new(gpio_borrow, d.channels),
            Err(complaint) => {
                write_default_if_null(&mut config.data, default_data);
                Err(
                    PWMError::InvalidConfig(
                        parse_failure_text("invalid PWM data struct json", complaint.as_str()),
                    ),
                )
            },
        }
    }

    /// Whether `channel` is open.
    pub fn is_open(&self, channel: u8) -> (r: bool)
        ensures
            r == self@.owned.contains_key(channel),
    {
        self.owned_channels.contains_key(&channel)
    }

    /// Whether `channel` can be opened now. To be asked before the
    /// peripheral is touched; nothing is reserved.
    ///
    /// An open channel is `ChannelBusy`, an unknown one `ChannelNotFound`,
    /// and one whose pin is not free `HardwareError` with the text of the
    /// arbiter's `Busy`.
    pub fn check_open(&self, gpio_borrow: &GpioBorrowChecker, channel: u8) -> (r: Result<
        u8,
        PWMError,
    >)
        ensures
            match self@.open_refusal(channel) {
                Some(e) => r == Err::<u8, PWMError>(e),
                None => if gpio_borrow@.free(self@.config[channel]) {
                    r == Ok::<u8, PWMError>(self@.config[channel])
                } else {
                    r matches Err(PWMError::HardwareError(m)) && m@ == GpioError::Busy(
                        self@.config[channel],
                    ).message()
                },
            },
    {
        if self.owned_channels.contains_key(&channel) {
            return Err(PWMError::ChannelBusy(channel));
        }
        let pin = match self.pin_config.get(&channel) {
            Some(p) => *p,
            None => return Err(PWMError::ChannelNotFound(channel)),
        };
        if !gpio_borrow.can_borrow_one(pin) {
            return Err(PWMError::HardwareError(GpioError::Busy(pin).to_string()));
        }
        Ok(pin)
    }

    /// Opens `channel`: leases its pin and records the lease. `polarity` is
    /// what the attempt to set normal polarity on the exported channel came
    /// to; a refusal there is handed back as a warning and keeps nothing
    /// from opening.
    ///
    /// The refusals are those of `check_open`. Past them the arbiter
    /// decides: its lease is recorded, or its error is passed on as
    /// `HardwareError` with the error's text. A refusal changes neither the
    /// controller nor the arbiter.
    pub fn open(
        &mut self,
        gpio_borrow: &mut GpioBorrowChecker,
        channel: u8,
        polarity: Result<(), String>,
    ) -> (r: Result<OpenedChannel, PWMError>)
        ensures
            old(self)@.open_refusal(channel) is None && old(gpio_borrow)@.free(
                old(self)@.config[channel],
            ) ==> exists|t: u128| #[trigger]
                is_random_uuid(t) && channel_opened_as(old(gpio_borrow)@, t, r),
            old(self)@.open_refusal(channel) is None && old(gpio_borrow)@.free(
                old(self)@.config[channel],
            ) && old(gpio_borrow)@.no_lease() ==> r is Ok,
            old(gpio_borrow)@.wf() ==> final(gpio_borrow)@.wf(),
            final(self)@.config == old(self)@.config,
            r is Err ==> final(self)@ == old(self)@ && final(gpio_borrow)@ == old(gpio_borrow)@,
            match old(self)@.open_refusal(channel) {
                Some(e) => r == Err::<OpenedChannel, PWMError>(e),
                None => if old(gpio_borrow)@.free(old(self)@.config[channel]) {
                    match r {
                        Ok(opened) => polarity_noted(polarity, opened.warning) && !old(gpio_borrow)@.leases.contains_key(opened.lease.value) && final(
                            gpio_borrow)@ == old(gpio_borrow)@.granted(
                            opened.lease.value,
                            seq![old(self)@.config[channel]],
                        ) && final(self)@.owned == old(self)@.owned.insert(channel, opened.lease.value),
                        Err(e) => e matches PWMError::HardwareError(m) && m@
                            == "lease identifier is already in use"@,
                    }
                } else {
                    r matches Err(PWMError::HardwareError(m)) && m@ == GpioError::Busy(
                        old(self)@.config[channel],
                    ).message()
                },
            },
    {
        let pin = match self.check_open(gpio_borrow, channel) {
            Ok(p) => p,
            Err(e) => return Err(e),
        };
        match gpio_borrow.borrow_one(pin) {
            Ok(id) => {
                self.owned_channels.insert(channel, id);
                proof {
                    assert(final(self)@.owned =~= old(self)@.owned.insert(channel, id.value));
                }
                Ok(OpenedChannel { lease: id, warning: polarity_warning(polarity) })
            },
            Err(e) => Err(PWMError::HardwareError(e.to_string())),
        }
    }

    /// Closes `channel` and gives its lease back.
    ///
    /// A channel that is not open is `LeaseNotFound`. A lease that the
    /// arbiter does not know is `HardwareError` with the arbiter's text. A
    /// refusal changes neither the controller nor the arbiter.
    pub fn close(&mut self, gpio_borrow: &mut GpioBorrowChecker, channel: u8) -> (r: Result<
        (),
        PWMError,
    >)
        ensures
            old(gpio_borrow)@.wf() ==> final(gpio_borrow)@.wf(),
            final(self)@.config == old(self)@.config,
            r is Err ==> final(self)@ == old(self)@ && final(gpio_borrow)@ == old(gpio_borrow)@,
            !old(self)@.owned.contains_key(channel) ==> r == Err::<(), PWMError>(
                PWMError::LeaseNotFound,
            ),
            old(self)@.owned.contains_key(channel) ==> {
                let lease = old(self)@.owned[channel];
                if old(gpio_borrow)@.leases.contains_key(lease) {
                    &&& r == Ok::<(), PWMError>(())
                    &&& final(gpio_borrow)@ == old(gpio_borrow)@.released(lease)
                    &&& final(self)@.owned == old(self)@.owned.remove(channel)
                } else {
                    r matches Err(PWMError::HardwareError(m)) && m@
                        == GpioError::LeaseNotFound.message()
                }
            },
    {
        let lease = match self.owned_channels.get(&channel) {
            Some(id) => *id,
            None => return Err(PWMError::LeaseNotFound),
        };
        match gpio_borrow.release(&lease) {
            Ok(()) => {},
            Err(e) => return Err(PWMError::HardwareError(e.to_string())),
        }
        self.owned_channels.remove(&channel);
        proof {
            assert(final(self)@.owned =~= old(self)@.owned.remove(channel));
        }
        Ok(())
    }
}

} // verus!
