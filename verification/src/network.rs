//! The network service's verified half: the per-line step of the
//! handler loop. The loop itself — sockets, the listener, the
//! at-most-one-connection flag — runs outside the crate and hands each
//! line and each payload run in as plain bytes.
//!
//! One step decodes the line, holds it against the admission table,
//! applies it through the command steps, and says what to do next:
//! write a reply line, read the announced payload run first, or let
//! the store finalize the named file. Store calls never happen inside
//! a step: a step hands out the exact request (which file, which block
//! header, which bytes), the loop performs it, and the store's answer
//! is committed by the matching commit step — so every contract here
//! is an exact equation.

use vstd::prelude::*;

use crate::command::{
    apply_binary_spec, apply_msg_spec, binary_begin, binary_commit, binary_writes,
    command_error_text, finalize_commit, msg_begin, msg_finalizes, receiving_file,
    receiving_focus, BinaryAction, CommandErrorView, MsgAction, WriteRequest,
};
use crate::protocol::{MessageView, ProtocolError, ProtocolMessage};
use crate::protocol::decode_spec;
use crate::state::{admits, admits_spec, state_inv, TransferState, TransferStateView};
use crate::storage::{StorageError, YeetBlock};
use crate::text::txt_invalid_command;

verus! {

/// What can go wrong on the network side of a connection.
#[derive(Debug)]
pub enum NetworkError {
    ListenerBindFailed(Vec<u8>),
    TransferInterrupted,
    TooManyConnections,
    ConnectionLost,
    Timeout,
    InvalidData,
    ProtocolError(ProtocolError),
}

impl From<ProtocolError> for NetworkError {
    fn from(err: ProtocolError) -> (r: NetworkError) {
        NetworkError::ProtocolError(err)
    }
}

impl vstd::std_specs::convert::FromSpecImpl<ProtocolError> for NetworkError {
    open spec fn obeys_from_spec() -> bool {
        true
    }

    open spec fn from_spec(v: ProtocolError) -> NetworkError {
        NetworkError::ProtocolError(v)
    }
}

/// What a peer of the protocol offers: connect, disconnect, and read
/// one message. Implementations live outside the crate.
pub trait NetworkClient {
    fn connect(&self, addr: &str) -> Result<(), ProtocolError>;

    fn disconnect(&self) -> Result<(), ProtocolError>;

    fn receive_message(&self) -> Result<ProtocolMessage, ProtocolError>;
}

/// What the handler loop does after one line: write the reply line;
/// or first read exactly the announced run of payload bytes (and its
/// terminator) and feed them to `handle_payload_begin`; or call the
/// store's `finalize` on the named file and feed its answer to
/// `handle_finalize`.
pub enum LineOutcome {
    Reply(ProtocolMessage),
    ReadPayload(YeetBlock),
    Finalize(Vec<u8>),
}

/// The mathematical shape of a line outcome.
pub enum LineOutcomeView {
    Reply(MessageView),
    ReadPayload(YeetBlock),
    Finalize(Seq<u8>),
}

impl View for LineOutcome {
    type V = LineOutcomeView;

    open spec fn view(&self) -> LineOutcomeView {
        match self {
            LineOutcome::Reply(m) => LineOutcomeView::Reply(m@),
            LineOutcome::ReadPayload(b) => LineOutcomeView::ReadPayload(*b),
            LineOutcome::Finalize(f) => LineOutcomeView::Finalize(f@),
        }
    }
}

/// The outcome the handler makes of a command step's response.
pub open spec fn outcome_of(res: Result<MessageView, CommandErrorView>) -> LineOutcomeView {
    match res {
        Ok(MessageView::Yeet(b)) => LineOutcomeView::ReadPayload(b),
        Ok(other) => LineOutcomeView::Reply(other),
        Err(ce) => LineOutcomeView::Reply(MessageView::Error(command_error_text(ce))),
    }
}

/// The reply line's message for a command step's response.
pub open spec fn reply_of(res: Result<MessageView, CommandErrorView>) -> MessageView {
    match res {
        Ok(m) => m,
        Err(ce) => MessageView::Error(command_error_text(ce)),
    }
}

/// One line applied to the state: the new state and the outcome. A
/// line that does not decode draws an `ERROR` reply and changes
/// nothing; so does a decoded message outside the admission table. A
/// finalizing step changes nothing yet and asks for the store's
/// `finalize`; every other step is complete.
pub open spec fn handle_line_spec(s: TransferStateView, line: Seq<u8>) -> (
    TransferStateView,
    LineOutcomeView,
) {
    match decode_spec(line) {
        Err(e) => (s, LineOutcomeView::Reply(MessageView::Error(e.text()))),
        Ok(mv) => if !admits_spec(s, mv) {
            (s, LineOutcomeView::Reply(MessageView::Error(txt_invalid_command())))
        } else if msg_finalizes(s, mv) {
            (s, LineOutcomeView::Finalize(receiving_file(s)))
        } else {
            let (s2, res) = apply_msg_spec(s, mv, Ok(()));
            (s2, outcome_of(res))
        },
    }
}

/// Apply one line of the wire to the connection: decode it, hold it
/// against the admission table, run it through the command step, and
/// say what the loop does next.
pub fn handle_line(state: &mut TransferState, line: &[u8]) -> (o: LineOutcome)
    requires
        state_inv(old(state)@),
    ensures
        state_inv(final(state)@),
        (final(state)@, o@) == handle_line_spec(old(state)@, line@),
{
    let msg = match ProtocolMessage::decode(line) {
        Ok(m) => m,
        Err(e) => {
            return LineOutcome::Reply(ProtocolMessage::Error(e.message()));
        },
    };
    if !admits(state, &msg) {
        let e = ProtocolError::InvalidCommand;
        return LineOutcome::Reply(ProtocolMessage::Error(e.message()));
    }
    match msg_begin(state, &msg) {
        MsgAction::Finalize(file) => LineOutcome::Finalize(file),
        MsgAction::Reply(res) => match res {
            Ok(reply) => match reply {
                ProtocolMessage::Yeet(b) => LineOutcome::ReadPayload(b),
                other => LineOutcome::Reply(other),
            },
            Err(ce) => LineOutcome::Reply(ProtocolMessage::Error(ce.message())),
        },
    }
}

/// The store's answer to a `finalize` request, committed: the new
/// state and the reply line's message.
pub open spec fn handle_finalize_spec(s: TransferStateView, fin: Result<(), StorageError>) -> (
    TransferStateView,
    MessageView,
) {
    let (s2, res) = apply_msg_spec(s, MessageView::MissionAccomplished, fin);
    (s2, reply_of(res))
}

/// Commit the store's answer to the `finalize` a line step asked for,
/// and answer with the reply message for it.
pub fn handle_finalize(state: &mut TransferState, fin: Result<(), StorageError>) -> (r:
    ProtocolMessage)
    requires
        state_inv(old(state)@),
    ensures
        state_inv(final(state)@),
        (final(state)@, r@) == handle_finalize_spec(old(state)@, fin),
{
    match finalize_commit(state, fin) {
        Ok(m) => m,
        Err(ce) => ProtocolMessage::Error(ce.message()),
    }
}

/// What the loop does with a payload run: write the reply line, or
/// first hand the request to the store's `write_block` and feed its
/// answer to `handle_payload_commit`.
pub enum PayloadAction {
    Reply(ProtocolMessage),
    Write(WriteRequest),
}

/// A binary run applied to the connection: the new state and the
/// reply line's message. `wr` is the store's answer to `write_block`.
pub open spec fn handle_payload_spec(s: TransferStateView, wr: Result<(), StorageError>) -> (
    TransferStateView,
    MessageView,
) {
    let (s2, res) = apply_binary_spec(s, wr);
    (s2, reply_of(res))
}

/// Apply the payload run read off the wire up to the store boundary.
/// Without a fresh focused block the run is finished here, pinned
/// exactly; otherwise nothing is mutated yet and the write request
/// hands out exactly the current file, the focused block header, and
/// the payload bytes as given.
pub fn handle_payload_begin(state: &TransferState, data: &[u8]) -> (r: PayloadAction)
    requires
        state_inv(state@),
    ensures
        !binary_writes(state@) ==> (r matches PayloadAction::Reply(m) && (state@, m@)
            == handle_payload_spec(state@, Ok(()))),
        binary_writes(state@) ==> (r matches PayloadAction::Write(req) && req.file@
            == receiving_file(state@) && Some(req.block) == receiving_focus(state@) && req.data@
            == data@),
{
    match binary_begin(state, data) {
        BinaryAction::Write(req) => PayloadAction::Write(req),
        BinaryAction::Reply(res) => match res {
            Ok(m) => PayloadAction::Reply(m),
            Err(ce) => PayloadAction::Reply(ProtocolMessage::Error(ce.message())),
        },
    }
}

/// Commit the store's answer to the write request a payload step
/// handed out, and answer with the reply message for it.
pub fn handle_payload_commit(state: &mut TransferState, wr: Result<(), StorageError>) -> (r:
    ProtocolMessage)
    requires
        state_inv(old(state)@),
    ensures
        state_inv(final(state)@),
        (final(state)@, r@) == handle_payload_spec(old(state)@, wr),
{
    match binary_commit(state, wr) {
        Ok(m) => m,
        Err(ce) => ProtocolMessage::Error(ce.message()),
    }
}

/// FSM admission: a line whose decoded message falls outside the
/// admission table draws an `ERROR` reply, and the state is unchanged.
pub proof fn lemma_admission_rejected(s: TransferStateView, line: Seq<u8>, mv: MessageView)
    requires
        decode_spec(line) == Ok::<MessageView, ProtocolError>(mv),
        !admits_spec(s, mv),
    ensures
        handle_line_spec(s, line) == (
            s,
            LineOutcomeView::Reply(MessageView::Error(txt_invalid_command())),
        ),
{
}

/// Is the connection's dialog over? After a step that moved the state
/// to `Closed`, the loop writes its reply, shuts the write half down,
/// clears the admission flag, and resets the state.
pub fn is_closed(state: &TransferState) -> (r: bool)
    ensures
        r == (state@ is Closed),
{
    matches!(state, TransferState::Closed)
}

/// Reset the connection's state, as the loop does on disconnect.
pub fn reset_transfer_state(state: &mut TransferState)
    ensures
        final(state)@ == TransferStateView::Idle,
{
    *state = TransferState::Idle;
}

} // verus!
