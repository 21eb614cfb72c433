//! What holds of every capture session, stated over `SessionState` and
//! proved from its transitions.
//!
//! The log is modelled as the sequence of records appended so far: a driver
//! that carries out every effect of `handle_read` appends exactly the records
//! that `log_after` lists.

use crate::record::{
    lemma_record_reads_back, lossy_text, record_epoch, record_payload, record_text,
};
use crate::session::SessionState;
use crate::transport::{
    connect_request_for, PollEffectView, PollRequest, ReadOutcomeView, ToggleActionView,
    TransportKind,
};
use vstd::prelude::*;

verus! {

/// One read attempt: what it gave, and the epoch seconds at which it was made.
pub struct TimedRead {
    pub epoch: nat,
    pub outcome: ReadOutcomeView,
}

impl TimedRead {
    /// The bytes that the attempt delivered; none for an attempt without data.
    pub open spec fn bytes(self) -> Seq<u8> {
        match self.outcome {
            ReadOutcomeView::Data(bytes) => bytes,
            _ => Seq::empty(),
        }
    }
}

/// The log after the driver has carried out `effect`.
pub open spec fn apply_effect(log: Seq<Seq<char>>, effect: PollEffectView) -> Seq<Seq<char>> {
    match effect {
        PollEffectView::Append(write) => log.push(write.record),
        _ => log,
    }
}

/// The log after the poll steps for `reads`, in order, starting from `log`.
pub open spec fn log_after(state: SessionState, log: Seq<Seq<char>>, reads: Seq<TimedRead>) -> Seq<
    Seq<char>,
>
    decreases reads.len(),
{
    if reads.len() == 0 {
        log
    } else {
        apply_effect(
            log_after(state, log, reads.drop_last()),
            state.read_effect(reads.last().outcome, reads.last().epoch),
        )
    }
}

/// Connecting and then disconnecting leaves a disconnected session as a
/// plain disconnect would: no transport, the same log directory, the status
/// `Disconnected`. Poll steps and connect actions behave as before the
/// connect, and a session that was last disconnected is back in the very
/// same state.
pub proof fn law_connect_disconnect_round_trip(state: SessionState, kind: TransportKind)
    requires
        !state.is_connected(),
    ensures
        state.connected(kind).disconnected() == state.disconnected(),
        state.connected(kind).disconnected().transport == state.transport,
        state.connected(kind).disconnected().log_directory == state.log_directory,
        state.connected(kind).disconnected().poll_request() == state.poll_request(),
        forall|outcome: ReadOutcomeView, epoch: nat|
            #[trigger] state.connected(kind).disconnected().read_effect(outcome, epoch)
                == state.read_effect(outcome, epoch),
        forall|next: TransportKind, target: Seq<char>|
            #[trigger] state.connected(kind).disconnected().toggle_action(next, target)
                == state.toggle_action(next, target),
        state.last_status == "Disconnected"@ ==> state.connected(kind).disconnected() == state,
{
}

/// The same round trip through connect and disconnect actions: the first
/// action asks for the open, and after it succeeded the second action
/// releases the transport.
pub proof fn law_toggle_round_trip(state: SessionState, kind: TransportKind, target: Seq<char>)
    requires
        !state.is_connected(),
    ensures
        state.toggled() == state,
        state.toggle_action(kind, target) == ToggleActionView::Open(
            connect_request_for(kind, target),
        ),
        connect_request_for(kind, target).kind() == kind,
        state.toggled().connected(kind).toggle_action(kind, target) == ToggleActionView::Release,
        state.toggled().connected(kind).toggled() == state.disconnected(),
{
}

/// Disconnecting is idempotent, and a disconnected session asks for nothing
/// and logs nothing, whatever a read is said to have given.
pub proof fn law_disconnected_is_idle(state: SessionState, outcome: ReadOutcomeView, epoch: nat)
    ensures
        state.disconnected().disconnected() == state.disconnected(),
        !state.disconnected().is_connected(),
        state.disconnected().poll_request() == PollRequest::Idle,
        state.disconnected().read_effect(outcome, epoch) == PollEffectView::Idle,
{
}

/// After a disconnect and a connect with other parameters the session holds
/// exactly the transport that was asked for last, and nothing of the earlier
/// one: the state is the one that a single connect would have given but for
/// the transport it replaced.
pub proof fn law_reconnect_replaces(state: SessionState, first: TransportKind, next: TransportKind)
    ensures
        state.connected(first).disconnected().connected(next).transport == Some(next),
        state.connected(first).disconnected().connected(next) == state.connected(next),
        state.connected(first).disconnected().connected(next).poll_request() matches PollRequest::Read {
            kind,
            nonblocking,
            ..
        } && kind == next && (nonblocking <==> next == TransportKind::Network),
{
}

/// A failed connect leaves the session disconnected, with the cause in the
/// status.
pub proof fn law_refused_stays_disconnected(
    state: SessionState,
    kind: TransportKind,
    cause: Seq<char>,
)
    ensures
        state.refused(kind, cause).transport == state.transport,
        state.refused(kind, cause).log_directory == state.log_directory,
        !state.is_connected() ==> !state.refused(kind, cause).is_connected(),
{
}

/// A poll step appends a record if and only if a transport is active and the
/// read delivered bytes. A read that would block, timed out or gave no bytes
/// has no effect on any transport, and a failed read is reported without an
/// append.
pub proof fn law_append_only_on_data(state: SessionState, outcome: ReadOutcomeView, epoch: nat)
    ensures
        state.read_effect(outcome, epoch) is Append <==> state.is_connected() && outcome.has_data(),
        outcome.is_idle() ==> state.read_effect(outcome, epoch) == PollEffectView::Idle,
        state.is_connected() ==> (state.read_effect(outcome, epoch) is Idle <==> outcome.is_idle()),
        state.is_connected() ==> (state.read_effect(outcome, epoch) is Diagnostic
            <==> outcome is Failed),
        apply_effect(Seq::empty(), state.read_effect(outcome, epoch)).len() == (if state.is_connected()
            && outcome.has_data() {
            1nat
        } else {
            0nat
        }),
{
}

/// The log only grows: the records that were there stay, in their places.
pub proof fn law_log_is_append_only(state: SessionState, log: Seq<Seq<char>>, reads: Seq<TimedRead>)
    ensures
        log_after(state, log, reads).len() >= log.len(),
        log_after(state, log, reads).len() <= log.len() + reads.len(),
        forall|i: int| 0 <= i < log.len() ==> #[trigger] log_after(state, log, reads)[i] == log[i],
    decreases reads.len(),
{
    if reads.len() > 0 {
        law_log_is_append_only(state, log, reads.drop_last());
    }
}

/// Reads without data leave the log as it is, and so does every read on a
/// disconnected session: nothing is written before a byte was received.
pub proof fn law_no_data_no_write(state: SessionState, log: Seq<Seq<char>>, reads: Seq<TimedRead>)
    requires
        !state.is_connected() || forall|i: int|
            0 <= i < reads.len() ==> !(#[trigger] reads[i]).outcome.has_data(),
    ensures
        log_after(state, log, reads) == log,
    decreases reads.len(),
{
    if reads.len() > 0 {
        let earlier = reads.drop_last();
        assert forall|i: int| 0 <= i < earlier.len() implies earlier[i] == reads[i] by {}
        law_no_data_no_write(state, log, earlier);
        assert(reads.last() == reads[reads.len() - 1]);
    }
}

/// `N` reads that each delivered bytes to a connected session append exactly
/// `N` records after those already in the log, in the order of the reads.
/// Each record is the record text of its read: it starts with the epoch
/// seconds of the read and holds the decoded payload of the read, whole.
pub proof fn law_one_record_per_read(state: SessionState, log: Seq<Seq<char>>, reads: Seq<TimedRead>)
    requires
        state.is_connected(),
        forall|i: int| 0 <= i < reads.len() ==> (#[trigger] reads[i]).outcome.has_data(),
    ensures
        log_after(state, log, reads).len() == log.len() + reads.len(),
        forall|i: int| 0 <= i < log.len() ==> #[trigger] log_after(state, log, reads)[i] == log[i],
        forall|i: int|
            0 <= i < reads.len() ==> #[trigger] log_after(state, log, reads)[log.len() + i]
                == record_text(reads[i].epoch, lossy_text(reads[i].bytes())),
        forall|i: int|
            0 <= i < reads.len() ==> record_epoch(
                #[trigger] log_after(state, log, reads)[log.len() + i],
            ) == reads[i].epoch,
        forall|i: int|
            0 <= i < reads.len() ==> record_payload(
                #[trigger] log_after(state, log, reads)[log.len() + i],
            ) == lossy_text(reads[i].bytes()),
    decreases reads.len(),
{
    if reads.len() > 0 {
        let earlier = reads.drop_last();
        let last = reads.last();
        assert forall|i: int| 0 <= i < earlier.len() implies (#[trigger] earlier[i]).outcome.has_data() by {
            assert(earlier[i] == reads[i]);
        }
        law_one_record_per_read(state, log, earlier);
        assert(last == reads[reads.len() - 1]);
        assert(last.outcome.has_data());
        let before = log_after(state, log, earlier);
        let after = log_after(state, log, reads);
        assert(after == before.push(record_text(last.epoch, lossy_text(last.bytes()))));
        assert forall|i: int| 0 <= i < reads.len() implies #[trigger] after[log.len() + i]
            == record_text(reads[i].epoch, lossy_text(reads[i].bytes())) by {
            if i < earlier.len() {
                assert(earlier[i] == reads[i]);
                assert(after[log.len() + i] == before[log.len() + i]);
            }
        }
        assert forall|i: int| 0 <= i < reads.len() implies record_epoch(
            #[trigger] after[log.len() + i],
        ) == reads[i].epoch && record_payload(after[log.len() + i]) == lossy_text(
            reads[i].bytes(),
        ) by {
            lemma_record_reads_back(reads[i].epoch, lossy_text(reads[i].bytes()));
        }
    }
}

/// Under the conditions of `law_one_record_per_read`, reads made at
/// non-decreasing epoch seconds give records whose epoch prefixes are
/// non-decreasing.
pub proof fn law_epochs_follow_the_clock(
    state: SessionState,
    log: Seq<Seq<char>>,
    reads: Seq<TimedRead>,
)
    requires
        state.is_connected(),
        forall|i: int| 0 <= i < reads.len() ==> (#[trigger] reads[i]).outcome.has_data(),
        forall|i: int, j: int|
            0 <= i <= j < reads.len() ==> (#[trigger] reads[i]).epoch <= (#[trigger] reads[j]).epoch,
    ensures
        forall|i: int, j: int|
            0 <= i <= j < reads.len() ==> record_epoch(
                #[trigger] log_after(state, log, reads)[log.len() + i],
            ) <= record_epoch(#[trigger] log_after(state, log, reads)[log.len() + j]),
{
    law_one_record_per_read(state, log, reads);
    let after = log_after(state, log, reads);
    assert forall|i: int, j: int| 0 <= i <= j < reads.len() implies record_epoch(
        #[trigger] after[log.len() + i],
    ) <= record_epoch(#[trigger] after[log.len() + j]) by {
        assert(record_epoch(after[log.len() + i]) == reads[i].epoch);
        assert(record_epoch(after[log.len() + j]) == reads[j].epoch);
    }
}

} // verus!
