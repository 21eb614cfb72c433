//! The capture session: at most one active transport, the log directory,
//! and the last status message.
//!
//! `SessionState` is the mathematical state with its transitions. The methods
//! of `CaptureSession` carry them out and say so in their contracts. The
//! driver performs the I/O between the calls: it opens what `toggle` asks for
//! and reports the result, makes the read that `poll_request` asks for, and
//! carries out the effect that `handle_read` returns.

use crate::record::{
    decode_payload, format_record, log_file_path, log_path_of, lossy_text, record_text,
};
use crate::text::{joined, owned};
use crate::transport::{
    connect_request, connect_request_for, read_request_for, LogStep, LogWrite, LogWriteView,
    PollEffect, PollEffectView, PollRequest, ReadOutcome, ReadOutcomeView, ToggleAction,
    ToggleActionView, TransportKind, READ_BUFFER_SIZE,
};
use vstd::prelude::*;
use vstd::string::*;
use vstd::utf8::{decode_utf8, valid_utf8};

verus! {

/// The status after a transport of `kind` was opened.
pub open spec fn connected_status(kind: TransportKind) -> Seq<char> {
    match kind {
        TransportKind::Serial => "Connected to Serial"@,
        TransportKind::Network => "Connected to Renode"@,
    }
}

/// The status after opening a transport of `kind` failed for `cause`.
pub open spec fn refused_status(kind: TransportKind, cause: Seq<char>) -> Seq<char> {
    match kind {
        TransportKind::Serial => "Serial Error: "@ + cause,
        TransportKind::Network => "TCP Error: "@ + cause,
    }
}

/// The status after `step` of an append to the log failed for `cause`.
pub open spec fn log_failure_status(step: LogStep, cause: Seq<char>) -> Seq<char> {
    match step {
        LogStep::CreateDirectory => "Failed to create log directory: "@ + cause,
        LogStep::OpenFile => "Failed to open log file: "@ + cause,
        LogStep::WriteRecord => "Failed to write log data to file: "@ + cause,
    }
}

/// The diagnostic for a read that failed for `cause`.
pub open spec fn read_diagnostic(cause: Seq<char>) -> Seq<char> {
    "Error reading from connection: "@ + cause
}

/// The append that logs `text`, received at `epoch` seconds, under `directory`.
pub open spec fn log_write_for(directory: Seq<char>, text: Seq<char>, epoch: nat) -> LogWriteView {
    LogWriteView {
        directory,
        path: log_path_of(directory),
        record: record_text(epoch, text),
    }
}

/// The mathematical state of a capture session.
pub struct SessionState {
    /// The kind of the active transport; `None` while disconnected.
    pub transport: Option<TransportKind>,
    /// The directory that holds the log file.
    pub log_directory: Seq<char>,
    /// The last status message.
    pub last_status: Seq<char>,
}

impl SessionState {
    /// A new session: disconnected, with the status `Ready`.
    pub open spec fn initial(log_directory: Seq<char>) -> SessionState {
        SessionState { transport: None, log_directory, last_status: "Ready"@ }
    }

    /// Whether a transport is active.
    pub open spec fn is_connected(self) -> bool {
        self.transport is Some
    }

    /// The state after a transport of `kind` was opened: it is the one active
    /// transport, in place of any earlier one.
    pub open spec fn connected(self, kind: TransportKind) -> SessionState {
        SessionState { transport: Some(kind), last_status: connected_status(kind), ..self }
    }

    /// The state after opening a transport of `kind` failed: only the status
    /// changes.
    pub open spec fn refused(self, kind: TransportKind, cause: Seq<char>) -> SessionState {
        SessionState { last_status: refused_status(kind, cause), ..self }
    }

    /// The state after the transport was released.
    pub open spec fn disconnected(self) -> SessionState {
        SessionState { transport: None, last_status: "Disconnected"@, ..self }
    }

    /// The state after the operator chose another log directory.
    pub open spec fn with_log_directory(self, log_directory: Seq<char>) -> SessionState {
        SessionState { log_directory, ..self }
    }

    /// The state after an append to the log failed: the step is skipped, the
    /// status says why, and the transport stays as it is.
    pub open spec fn log_failed(self, step: LogStep, cause: Seq<char>) -> SessionState {
        SessionState { last_status: log_failure_status(step, cause), ..self }
    }

    /// The state after listing the serial ports failed.
    pub open spec fn listing_failed(self, cause: Seq<char>) -> SessionState {
        SessionState { last_status: "Error listing ports: "@ + cause, ..self }
    }

    /// The state after a connect or disconnect action: a connected session is
    /// disconnected, a disconnected one waits for the result of the open.
    pub open spec fn toggled(self) -> SessionState {
        if self.is_connected() {
            self.disconnected()
        } else {
            self
        }
    }

    /// What a connect or disconnect action asks of the driver.
    pub open spec fn toggle_action(self, kind: TransportKind, target: Seq<char>) -> ToggleActionView {
        if self.is_connected() {
            ToggleActionView::Release
        } else {
            ToggleActionView::Open(connect_request_for(kind, target))
        }
    }

    /// What a poll step asks of the driver.
    pub open spec fn poll_request(self) -> PollRequest {
        match self.transport {
            None => PollRequest::Idle,
            Some(kind) => read_request_for(kind),
        }
    }

    /// What follows from a read attempt made at `epoch` seconds. A record is
    /// appended exactly when a transport is active and bytes were read; a
    /// failed read is reported; every other attempt is idle.
    pub open spec fn read_effect(self, outcome: ReadOutcomeView, epoch: nat) -> PollEffectView {
        if !self.is_connected() {
            PollEffectView::Idle
        } else {
            match outcome {
                ReadOutcomeView::Data(bytes) => {
                    if bytes.len() > 0 {
                        PollEffectView::Append(
                            log_write_for(self.log_directory, lossy_text(bytes), epoch),
                        )
                    } else {
                        PollEffectView::Idle
                    }
                },
                ReadOutcomeView::WouldBlock => PollEffectView::Idle,
                ReadOutcomeView::TimedOut => PollEffectView::Idle,
                ReadOutcomeView::Failed(cause) => PollEffectView::Diagnostic(
                    read_diagnostic(cause),
                ),
            }
        }
    }
}

/// A capture session.
#[derive(Debug)]
pub struct CaptureSession {
    transport: Option<TransportKind>,
    log_directory: String,
    last_status: String,
}

impl View for CaptureSession {
    type V = SessionState;

    closed spec fn view(&self) -> SessionState {
        SessionState {
            transport: self.transport,
            log_directory: self.log_directory@,
            last_status: self.last_status@,
        }
    }
}

impl CaptureSession {
    /// A disconnected session that logs under `log_directory`.
    pub fn new(log_directory: String) -> (session: CaptureSession)
        ensures
            session@ == SessionState::initial(log_directory@),
    {
        CaptureSession { transport: None, log_directory, last_status: owned("Ready") }
    }

    /// The kind of the active transport, if any.
    pub fn transport(&self) -> (kind: Option<TransportKind>)
        ensures
            kind == self@.transport,
    {
        self.transport
    }

    /// Whether a transport is active.
    pub fn is_connected(&self) -> (connected: bool)
        ensures
            connected == self@.is_connected(),
    {
        self.transport.is_some()
    }

    /// The directory that holds the log file.
    pub fn log_directory(&self) -> (directory: &str)
        ensures
            directory@ == self@.log_directory,
    {
        self.log_directory.as_str()
    }

    /// The last status message.
    pub fn last_status(&self) -> (status: &str)
        ensures
            status@ == self@.last_status,
    {
        self.last_status.as_str()
    }

    /// Takes the directory that the operator chose for the log.
    pub fn set_log_directory(&mut self, log_directory: String)
        ensures
            final(self)@ == old(self)@.with_log_directory(log_directory@),
    {
        self.log_directory = log_directory;
    }

    /// Handles a connect or disconnect action for a transport of `kind` to
    /// `target`. A connected session disconnects. A disconnected session is
    /// left as it is and asks the driver to open the transport; the driver
    /// reports the result with `connect_succeeded` or `connect_failed`.
    pub fn toggle(&mut self, kind: TransportKind, target: &str) -> (action: ToggleAction)
        ensures
            final(self)@ == old(self)@.toggled(),
            action@ == old(self)@.toggle_action(kind, target@),
    {
        if self.transport.is_some() {
            self.disconnect();
            ToggleAction::Release
        } else {
            ToggleAction::Open(connect_request(kind, target))
        }
    }

    /// Records that a transport of `kind` was opened. It becomes the one
    /// active transport.
    pub fn connect_succeeded(&mut self, kind: TransportKind)
        ensures
            final(self)@ == old(self)@.connected(kind),
    {
        self.transport = Some(kind);
        self.last_status = match kind {
            TransportKind::Serial => owned("Connected to Serial"),
            TransportKind::Network => owned("Connected to Renode"),
        };
    }

    /// Records that opening a transport of `kind` failed for `cause`. The
    /// session stays as it was but for the status.
    pub fn connect_failed(&mut self, kind: TransportKind, cause: &str)
        ensures
            final(self)@ == old(self)@.refused(kind, cause@),
    {
        self.last_status = match kind {
            TransportKind::Serial => joined("Serial Error: ", cause),
            TransportKind::Network => joined("TCP Error: ", cause),
        };
    }

    /// Releases the active transport, if any. Always succeeds.
    pub fn disconnect(&mut self)
        ensures
            final(self)@ == old(self)@.disconnected(),
    {
        self.transport = None;
        self.last_status = owned("Disconnected");
    }

    /// Records that listing the serial ports failed for `cause`.
    pub fn port_listing_failed(&mut self, cause: &str)
        ensures
            final(self)@ == old(self)@.listing_failed(cause@),
    {
        self.last_status = joined("Error listing ports: ", cause);
    }

    /// Records that `step` of an append to the log failed for `cause`. The
    /// poll step is given up; the transport stays active and the next poll
    /// step goes on as usual.
    pub fn log_failed(&mut self, step: LogStep, cause: &str)
        ensures
            final(self)@ == old(self)@.log_failed(step, cause@),
    {
        self.last_status = match step {
            LogStep::CreateDirectory => joined("Failed to create log directory: ", cause),
            LogStep::OpenFile => joined("Failed to open log file: ", cause),
            LogStep::WriteRecord => joined("Failed to write log data to file: ", cause),
        };
    }

    /// What this poll step asks of the driver: nothing while disconnected,
    /// else one read attempt on the active transport.
    pub fn poll_request(&self) -> (request: PollRequest)
        ensures
            request == self@.poll_request(),
    {
        match self.transport {
            None => PollRequest::Idle,
            Some(kind) => PollRequest::Read {
                kind,
                nonblocking: match kind {
                    TransportKind::Serial => false,
                    TransportKind::Network => true,
                },
                capacity: READ_BUFFER_SIZE,
            },
        }
    }

    /// The append that logs `text`, received at `epoch_seconds`, in this
    /// session's log directory.
    pub fn log_entry(&self, text: &str, epoch_seconds: u64) -> (write: LogWrite)
        ensures
            write@ == log_write_for(self@.log_directory, text@, epoch_seconds as nat),
    {
        LogWrite {
            directory: owned(self.log_directory.as_str()),
            path: log_file_path(self.log_directory.as_str()),
            record: format_record(epoch_seconds, text),
        }
    }

    /// What follows from the read attempt of this poll step, made at
    /// `epoch_seconds`. The session itself does not change: a failed read
    /// leaves the transport active.
    pub fn handle_read(&self, outcome: &ReadOutcome, epoch_seconds: u64) -> (effect: PollEffect)
        ensures
            effect@ == self@.read_effect(outcome@, epoch_seconds as nat),
            effect@ is Append <==> self@.is_connected() && outcome@.has_data(),
            outcome@ matches ReadOutcomeView::Data(bytes) ==> (self@.is_connected() && bytes.len()
                > 0 && valid_utf8(bytes) ==> effect@ == PollEffectView::Append(
                log_write_for(self@.log_directory, decode_utf8(bytes), epoch_seconds as nat),
            )),
    {
        if self.transport.is_none() {
            return PollEffect::Idle;
        }
        match outcome {
            ReadOutcome::Data(bytes) => {
                if bytes.len() > 0 {
                    let text = decode_payload(bytes.as_slice());
                    PollEffect::Append(self.log_entry(text.as_str(), epoch_seconds))
                } else {
                    PollEffect::Idle
                }
            },
            ReadOutcome::WouldBlock => PollEffect::Idle,
            ReadOutcome::TimedOut => PollEffect::Idle,
            ReadOutcome::Failed(cause) => PollEffect::Diagnostic(
                joined("Error reading from connection: ", cause.as_str()),
            ),
        }
    }
}

} // verus!
