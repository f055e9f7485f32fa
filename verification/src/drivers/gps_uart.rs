//! The serial GPS receiver.

use vstd::prelude::*;
use vstd::string::StringExecFns;
use crate::config::ConfigError;
use crate::device::DeviceError;
use crate::drivers::invalid_state;

verus! {

/// The seconds that a stop waits for the reader to acknowledge.
pub const WORKER_SHUTDOWN_TIMEOUT_SECS: u64 = 5;

/// The size of the buffer that the reader fills in one read.
pub const CYCLE_BUFFER_SIZE: usize = 256;

/// The parity bit of a serial line.
#[derive(Debug, Clone, Copy, PartialEq, Eq, Structural)]
pub enum Parity {
    /// No parity bit.
    NoParity,
    /// Even parity.
    Even,
    /// Odd parity.
    Odd,
    /// Sets parity bit to `1`.
    Mark,
    /// Sets parity bit to `0`.
    Space,
}

/// The serial line of a GPS receiver. How accurate the receiver is at its
/// best is kept by the caller, beside this.
#[derive(Debug, Clone, Copy, PartialEq, Eq, Structural)]
pub struct UartGpsConfig {
    pub uart_port: u8,
    pub baud_rate: u32,
    pub parity: Parity,
    pub data_bits: u8,
    pub stop_bits: u8,
    pub polling_interval_ms: u32,
}

impl Default for UartGpsConfig {
    fn default() -> (config: Self)
        ensures
            config == (UartGpsConfig {
                uart_port: 0,
                baud_rate: 11520,
                parity: Parity::NoParity,
                data_bits: 8,
                stop_bits: 1,
                polling_interval_ms: 1000,
            }),
    {
        Self {
            uart_port: 0,
            baud_rate: 11520,
            parity: Parity::NoParity,
            data_bits: 8,
            stop_bits: 1,
            polling_interval_ms: 1000,
        }
    }
}

impl UartGpsConfig {
    /// Whether the line can be opened with these settings.
    pub open spec fn valid(self) -> bool {
        5 <= self.data_bits <= 9 && self.baud_rate != 0 && (self.stop_bits == 1 || self.stop_bits
            == 2)
    }
}

/// The state of the GPS driver.
pub struct UartGps {
    config: UartGpsConfig,
    worker_running: bool,
    is_loaded: bool,
}

/// The mathematical state of the driver.
pub struct UartGpsState {
    pub config: UartGpsConfig,
    pub worker_running: bool,
    pub is_loaded: bool,
}

impl View for UartGps {
    type V = UartGpsState;

    closed spec fn view(&self) -> UartGpsState {
        UartGpsState {
            config: self.config,
            worker_running: self.worker_running,
            is_loaded: self.is_loaded,
        }
    }
}

fn invalid_entry(complaint: &str) -> (e: DeviceError)
    ensures
        e matches DeviceError::InvalidConfig(m) && m@ == "invalid config entry: "@ + complaint@,
{
    DeviceError::InvalidConfig(ConfigError::InvalidEntry(String::from_str(complaint)).to_string())
}

impl UartGps {
    /// A driver over `config`, not loaded.
    ///
    /// Settings that the line cannot take are `InvalidConfig`: data bits
    /// outside 5 to 9 first, then a baud rate of zero, then stop bits
    /// other than 1 or 2.
    pub fn new(config: UartGpsConfig) -> (r: Result<Self, DeviceError>)
        ensures
            r is Ok <==> config.valid(),
            match r {
                Ok(d) => d@ == (UartGpsState { config, worker_running: false, is_loaded: false }),
                Err(e) => e matches DeviceError::InvalidConfig(m) && m@ == "invalid config entry: "@
                    + (if config.data_bits < 5 || config.data_bits > 9 {
                    "data bit count is out of bounds: only 5-9 data bits are supported"@
                } else if config.baud_rate == 0 {
                    "baud rate cannot be 0"@
                } else {
                    "stop bit count can be either 1 or 2"@
                }),
            },
    {
        if config.data_bits < 5 || config.data_bits > 9 {
            return Err(
                invalid_entry("data bit count is out of bounds: only 5-9 data bits are supported"),
            );
        }
        if config.baud_rate == 0 {
            return Err(invalid_entry("baud rate cannot be 0"));
        }
        if config.stop_bits != 1 && config.stop_bits != 2 {
            return Err(invalid_entry("stop bit count can be either 1 or 2"));
        }
        Ok(Self { config, worker_running: false, is_loaded: false })
    }

    /// The driver's name.
    pub fn name(&self) -> (name: String)
        ensures
            name@ == "gps_uart"@,
    {
        String::from_str("gps_uart")
    }

    pub fn is_running(&self) -> (r: bool)
        ensures
            r == self@.is_loaded,
    {
        self.is_loaded
    }

    /// The settings that the driver was made with.
    pub fn config(&self) -> (c: UartGpsConfig)
        ensures
            c == self@.config,
    {
        self.config
    }

    /// Whether the driver can be started: a loaded driver is
    /// `InvalidOperation`.
    pub fn check_start(&self) -> (r: Result<(), DeviceError>)
        ensures
            !self@.is_loaded ==> r is Ok,
            self@.is_loaded ==> (r matches Err(DeviceError::InvalidOperation(m)) && m@
                == "device load requested but this device is already loaded"@),
    {
        if self.is_loaded {
            return Err(
                DeviceError::InvalidOperation(
                    String::from_str("device load requested but this device is already loaded"),
                ),
            );
        }
        Ok(())
    }

    /// Books a start that went through: the line is open and the reader
    /// runs.
    pub fn finish_start(&mut self)
        ensures
            final(self)@ == (UartGpsState { worker_running: true, is_loaded: true, ..old(self)@ }),
    {
        self.worker_running = true;
        self.is_loaded = true;
    }

    /// Whether the driver can be stopped, and whether a reader is there to
    /// be told. A driver that is not loaded is `InvalidOperation`.
    pub fn check_stop(&self) -> (r: Result<bool, DeviceError>)
        ensures
            self@.is_loaded ==> r == Ok::<bool, DeviceError>(self@.worker_running),
            !self@.is_loaded ==> (r matches Err(DeviceError::InvalidOperation(m)) && m@
                == "device unload requested but this device isn't loaded"@),
    {
        if !self.is_loaded {
            return Err(
                DeviceError::InvalidOperation(
                    String::from_str("device unload requested but this device isn't loaded"),
                ),
            );
        }
        Ok(self.worker_running)
    }

    /// Books that the reader is gone, whether it acknowledged or not.
    pub fn worker_stopped(&mut self)
        ensures
            final(self)@ == (UartGpsState { worker_running: false, ..old(self)@ }),
    {
        self.worker_running = false;
    }

    /// Books a stop. `controller_found` says whether the UART controller
    /// was there to close the port; without it the stop is
    /// `MissingController` and the driver stays loaded.
    pub fn finish_stop(&mut self, controller_found: bool) -> (r: Result<(), DeviceError>)
        ensures
            controller_found ==> r is Ok && final(self)@ == (UartGpsState {
                is_loaded: false,
                ..old(self)@
            }),
            !controller_found ==> (r matches Err(DeviceError::MissingController(m)) && m@
                == "uart"@) && final(self)@ == old(self)@,
    {
        if !controller_found {
            return Err(DeviceError::MissingController(String::from_str("uart")));
        }
        self.is_loaded = false;
        Ok(())
    }

    /// Whether a position can be asked for. A driver that is not loaded,
    /// or has no reader state, is `InvalidOperation`.
    pub fn check_state(&self, has_state: bool) -> (r: Result<(), DeviceError>)
        ensures
            self@.is_loaded && has_state ==> r is Ok,
            !(self@.is_loaded && has_state) ==> (r matches Err(DeviceError::InvalidOperation(m))
                && m@ == "device is in an invalid state"@),
    {
        if !self.is_loaded || !has_state {
            return Err(invalid_state());
        }
        Ok(())
    }
}

/// The lines `lines`, each followed by a line feed.
pub open spec fn lines_text(lines: Seq<Seq<u8>>) -> Seq<u8>
    decreases lines.len(),
{
    if lines.len() == 0 {
        Seq::empty()
    } else {
        lines_text(lines.drop_last()) + lines.last() + seq![10u8]
    }
}

/// The view of a list of lines.
pub open spec fn lines_view(lines: Seq<Vec<u8>>) -> Seq<Seq<u8>> {
    lines.map_values(|l: Vec<u8>| l@)
}

/// What the reader has received and not yet handed on: the beginning of a
/// sentence whose end is still to come.
pub struct SentenceBuffer {
    pending: Vec<u8>,
}

impl View for SentenceBuffer {
    type V = Seq<u8>;

    closed spec fn view(&self) -> Seq<u8> {
        self.pending@
    }
}

impl SentenceBuffer {
    pub fn new() -> (buffer: Self)
        ensures
            buffer@ == Seq::<u8>::empty(),
    {
        SentenceBuffer { pending: Vec::new() }
    }

    /// Takes what was received and hands out the lines that are complete
    /// with it, without their line feeds. What follows the last line feed
    /// is kept for the next time.
    pub fn push(&mut self, received: &[u8]) -> (lines: Vec<Vec<u8>>)
        ensures
            lines_text(lines_view(lines@)) + final(self)@ == old(self)@ + received@,
            !final(self)@.contains(10u8),
            forall|i: int| 0 <= i < lines@.len() ==> !(#[trigger] lines@[i])@.contains(10u8),
    {
        let mut lines: Vec<Vec<u8>> = Vec::new();
        let mut current: Vec<u8> = Vec::new();
        let n0 = self.pending.len();
        let mut i: usize = 0;
        proof {
            assert(lines_text(lines_view(lines@)) + current@ =~= old(self)@.take(0));
        }
        while i < n0
            invariant
                i <= n0,
                n0 == self.pending@.len(),
                self.pending@ == old(self)@,
                lines_text(lines_view(lines@)) + current@ == old(self)@.take(i as int),
                !current@.contains(10u8),
                forall|k: int| 0 <= k < lines@.len() ==> !(#[trigger] lines@[k])@.contains(10u8),
            decreases n0 - i,
        {
            let b = self.pending[i];
            proof {
                lemma_step(lines_view(lines@), current@, old(self)@, i as int);
            }
            if b == 10 {
                let ghost before = lines@;
                lines.push(current);
                proof {
                    assert(lines_view(lines@) =~= lines_view(before).push(current@));
                    assert(lines_view(lines@).drop_last() =~= lines_view(before));
                }
                current = Vec::new();
                proof {
                    assert(lines_text(lines_view(lines@)) + current@ =~= old(self)@.take(i + 1));
                }
            } else {
                let ghost before = current@;
                current.push(b);
                proof {
                    assert(lines_text(lines_view(lines@)) + current@ =~= old(self)@.take(i + 1));
                    assert forall|k: int| 0 <= k < current@.len() implies current@[k] != 10u8 by {
                        if k < before.len() {
                            assert(before.contains(current@[k]));
                        }
                    }
                }
            }
            i += 1;
        }
        let n1 = received.len();
        let mut j: usize = 0;
        proof {
            assert(old(self)@.take(n0 as int) =~= old(self)@);
            assert((old(self)@ + received@).take(n0 as int) =~= old(self)@);
        }
        while j < n1
            invariant
                j <= n1,
                n1 == received@.len(),
                n0 == old(self)@.len(),
                lines_text(lines_view(lines@)) + current@ == (old(self)@ + received@).take(
                    n0 + j,
                ),
                !current@.contains(10u8),
                forall|k: int| 0 <= k < lines@.len() ==> !(#[trigger] lines@[k])@.contains(10u8),
            decreases n1 - j,
        {
            let b = received[j];
            proof {
                lemma_step(lines_view(lines@), current@, old(self)@ + received@, n0 + j);
            }
            if b == 10 {
                let ghost before = lines@;
                lines.push(current);
                proof {
                    assert(lines_view(lines@) =~= lines_view(before).push(current@));
                    assert(lines_view(lines@).drop_last() =~= lines_view(before));
                }
                current = Vec::new();
                proof {
                    assert(lines_text(lines_view(lines@)) + current@ =~= (old(self)@
                        + received@).take(n0 + j + 1));
                }
            } else {
                let ghost before = current@;
                current.push(b);
                proof {
                    assert(lines_text(lines_view(lines@)) + current@ =~= (old(self)@
                        + received@).take(n0 + j + 1));
                    assert forall|k: int| 0 <= k < current@.len() implies current@[k] != 10u8 by {
                        if k < before.len() {
                            assert(before.contains(current@[k]));
                        }
                    }
                }
            }
            j += 1;
        }
        proof {
            assert((old(self)@ + received@).take(n0 + n1) =~= old(self)@ + received@);
        }
        self.pending = current;
        lines
    }
}

proof fn lemma_step(lines: Seq<Seq<u8>>, current: Seq<u8>, all: Seq<u8>, i: int)
    requires
        0 <= i < all.len(),
        lines_text(lines) + current == all.take(i),
    ensures
        all[i] == 10u8 ==> lines_text(lines.push(current)) == all.take(i + 1),
        all[i] != 10u8 ==> lines_text(lines) + current.push(all[i]) == all.take(i + 1),
{
    assert(all.take(i + 1) =~= all.take(i).push(all[i]));
    if all[i] == 10u8 {
        assert(lines.push(current).drop_last() =~= lines);
        assert(lines_text(lines.push(current)) =~= lines_text(lines) + current + seq![10u8]);
        assert(lines_text(lines) + current + seq![10u8] =~= all.take(i).push(10u8));
    } else {
        assert(lines_text(lines) + current.push(all[i]) =~= (lines_text(lines) + current).push(
            all[i],
        ));
    }
}

} // verus!
