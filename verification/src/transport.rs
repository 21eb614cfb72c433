//! The two kinds of transport and the values that pass between a capture
//! session and the driver that performs its I/O.
//!
//! The driver owns the device handle or the socket. The session knows the
//! transport by its kind, tells the driver what to open and how to read, and
//! is told what each attempt gave.

use crate::text::owned;
use vstd::prelude::*;

verus! {

/// The baud rate every serial transport is opened with.
pub const SERIAL_BAUD_RATE: u32 = 115_200;

/// The read timeout of a serial transport, in milliseconds.
pub const SERIAL_READ_TIMEOUT_MS: u64 = 10;

/// The number of bytes one read attempt may deliver.
pub const READ_BUFFER_SIZE: usize = 1024;

/// The medium behind a transport.
#[derive(Clone, Copy, Debug, PartialEq, Eq, Structural)]
pub enum TransportKind {
    /// A serial device, read with a short timeout.
    Serial,
    /// A TCP stream, read without blocking.
    Network,
}

/// What the driver has to open for a connect action.
#[derive(Clone, Debug, PartialEq, Eq)]
pub enum ConnectRequest {
    /// Open the named serial device.
    Serial { port_name: String, baud_rate: u32, timeout_ms: u64 },
    /// Connect to `host:port` and switch the socket to non-blocking mode.
    Network { address: String },
}

/// The mathematical value of a `ConnectRequest`.
pub enum ConnectRequestView {
    Serial { port_name: Seq<char>, baud_rate: u32, timeout_ms: u64 },
    Network { address: Seq<char> },
}

impl View for ConnectRequest {
    type V = ConnectRequestView;

    open spec fn view(&self) -> ConnectRequestView {
        match self {
            ConnectRequest::Serial { port_name, baud_rate, timeout_ms } => {
                ConnectRequestView::Serial {
                    port_name: port_name@,
                    baud_rate: *baud_rate,
                    timeout_ms: *timeout_ms,
                }
            },
            ConnectRequest::Network { address } => ConnectRequestView::Network {
                address: address@,
            },
        }
    }
}

impl ConnectRequestView {
    /// The kind of transport that the request asks for.
    pub open spec fn kind(self) -> TransportKind {
        match self {
            ConnectRequestView::Serial { .. } => TransportKind::Serial,
            ConnectRequestView::Network { .. } => TransportKind::Network,
        }
    }
}

/// The request that opens a transport of `kind` to `target`: a device name with
/// the fixed baud rate and read timeout, or a `host:port` address.
pub open spec fn connect_request_for(kind: TransportKind, target: Seq<char>) -> ConnectRequestView {
    match kind {
        TransportKind::Serial => ConnectRequestView::Serial {
            port_name: target,
            baud_rate: SERIAL_BAUD_RATE,
            timeout_ms: SERIAL_READ_TIMEOUT_MS,
        },
        TransportKind::Network => ConnectRequestView::Network { address: target },
    }
}

/// What one read attempt on the active transport gave.
#[derive(Clone, Debug, PartialEq, Eq)]
pub enum ReadOutcome {
    /// The bytes that were read; none when the medium had nothing to give.
    Data(Vec<u8>),
    /// Nothing is ready on a non-blocking transport.
    WouldBlock,
    /// Nothing arrived within the read timeout.
    TimedOut,
    /// The read failed; the text describes the cause.
    Failed(String),
}

/// The mathematical value of a `ReadOutcome`.
pub enum ReadOutcomeView {
    Data(Seq<u8>),
    WouldBlock,
    TimedOut,
    Failed(Seq<char>),
}

impl View for ReadOutcome {
    type V = ReadOutcomeView;

    open spec fn view(&self) -> ReadOutcomeView {
        match self {
            ReadOutcome::Data(bytes) => ReadOutcomeView::Data(bytes@),
            ReadOutcome::WouldBlock => ReadOutcomeView::WouldBlock,
            ReadOutcome::TimedOut => ReadOutcomeView::TimedOut,
            ReadOutcome::Failed(cause) => ReadOutcomeView::Failed(cause@),
        }
    }
}

impl ReadOutcomeView {
    /// Whether the attempt delivered at least one byte.
    pub open spec fn has_data(self) -> bool {
        self matches ReadOutcomeView::Data(bytes) && bytes.len() > 0
    }

    /// Whether the attempt is the normal idle case: no bytes, and no failure.
    pub open spec fn is_idle(self) -> bool {
        match self {
            ReadOutcomeView::Data(bytes) => bytes.len() == 0,
            ReadOutcomeView::WouldBlock => true,
            ReadOutcomeView::TimedOut => true,
            ReadOutcomeView::Failed(_) => false,
        }
    }
}

/// What a poll step asks of the driver.
#[derive(Clone, Copy, Debug, PartialEq, Eq, Structural)]
pub enum PollRequest {
    /// No transport is active: there is nothing to do.
    Idle,
    /// Make one read attempt of at most `capacity` bytes on the active
    /// transport, after switching it to non-blocking mode if `nonblocking`.
    Read { kind: TransportKind, nonblocking: bool, capacity: usize },
}

/// The read that a poll step asks for on a transport of `kind`. A network
/// transport is put in non-blocking mode again before every read; a serial
/// transport is left to its timeout.
pub open spec fn read_request_for(kind: TransportKind) -> PollRequest {
    PollRequest::Read {
        kind,
        nonblocking: kind == TransportKind::Network,
        capacity: READ_BUFFER_SIZE,
    }
}

/// One append to the log file: make sure `directory` exists, open `path` for
/// appending, write `record`, and close the file.
#[derive(Clone, Debug, PartialEq, Eq)]
pub struct LogWrite {
    pub directory: String,
    pub path: String,
    pub record: String,
}

/// The mathematical value of a `LogWrite`.
pub struct LogWriteView {
    pub directory: Seq<char>,
    pub path: Seq<char>,
    pub record: Seq<char>,
}

impl View for LogWrite {
    type V = LogWriteView;

    open spec fn view(&self) -> LogWriteView {
        LogWriteView { directory: self.directory@, path: self.path@, record: self.record@ }
    }
}

/// What the driver has to do after a read attempt.
#[derive(Clone, Debug, PartialEq, Eq)]
pub enum PollEffect {
    /// Nothing: the attempt was idle, or no transport is active.
    Idle,
    /// Append a record to the log file.
    Append(LogWrite),
    /// Report the text on the diagnostic channel; the transport stays active.
    Diagnostic(String),
}

/// The mathematical value of a `PollEffect`.
pub enum PollEffectView {
    Idle,
    Append(LogWriteView),
    Diagnostic(Seq<char>),
}

impl View for PollEffect {
    type V = PollEffectView;

    open spec fn view(&self) -> PollEffectView {
        match self {
            PollEffect::Idle => PollEffectView::Idle,
            PollEffect::Append(write) => PollEffectView::Append(write@),
            PollEffect::Diagnostic(text) => PollEffectView::Diagnostic(text@),
        }
    }
}

/// The step of an append to the log file that failed.
#[derive(Clone, Copy, Debug, PartialEq, Eq, Structural)]
pub enum LogStep {
    CreateDirectory,
    OpenFile,
    WriteRecord,
}

/// What the driver has to do for a connect or disconnect action.
#[derive(Clone, Debug, PartialEq, Eq)]
pub enum ToggleAction {
    /// The session was connected and is now disconnected: release the transport.
    Release,
    /// The session is disconnected: open what the request names and report
    /// how that went.
    Open(ConnectRequest),
}

/// The mathematical value of a `ToggleAction`.
pub enum ToggleActionView {
    Release,
    Open(ConnectRequestView),
}

impl View for ToggleAction {
    type V = ToggleActionView;

    open spec fn view(&self) -> ToggleActionView {
        match self {
            ToggleAction::Release => ToggleActionView::Release,
            ToggleAction::Open(request) => ToggleActionView::Open(request@),
        }
    }
}

/// The request that opens a transport of `kind` to `target`.
pub fn connect_request(kind: TransportKind, target: &str) -> (request: ConnectRequest)
    ensures
        request@ == connect_request_for(kind, target@),
        request@.kind() == kind,
{
    let name = owned(target);
    match kind {
        TransportKind::Serial => ConnectRequest::Serial {
            port_name: name,
            baud_rate: SERIAL_BAUD_RATE,
            timeout_ms: SERIAL_READ_TIMEOUT_MS,
        },
        TransportKind::Network => ConnectRequest::Network { address: name },
    }
}

} // verus!
