//! The command service: it applies a parsed message, or a raw binary
//! run, to the connection's transfer state, persists blocks through the
//! block store, and yields the response message.
//!
//! Each step is split at the store boundary. A begin step decides and
//! hands out the store request as a value — which file to finalize,
//! or which file, block header and payload bytes to write — pinned
//! exactly by its contract; a commit step takes the store's answer and
//! finishes the transition. The store's answers are the one outside
//! decision, so the spec transition functions take that answer as an
//! argument and every contract holds for every answer the store can
//! give. `CommandServiceImpl` composes begin, store call, and commit
//! into the original one-call operations.

use vstd::prelude::*;

use crate::lex::{append_bytes, copy_vec, to_vec_u8};
use crate::protocol::{MessageView, ProtocolMessage};
use crate::state::{state_inv, TransferState, TransferStateView};
use crate::storage::{StorageError, StorageRepository, YeetBlock};
use crate::text::{
    txt_block_pending, txt_block_pending_bytes, txt_exec_failed, txt_exec_failed_bytes,
    txt_incomplete_transfer, txt_incomplete_transfer_bytes, txt_invalid_command,
    txt_invalid_command_bytes, txt_not_receiving, txt_not_receiving_bytes, txt_storage_error,
    txt_storage_error_bytes, txt_too_many_blocks, txt_too_many_blocks_bytes,
};

verus! {

/// Why a command failed: it was not admissible, or its execution hit a
/// state-consistency violation or a storage failure.
#[derive(Debug, PartialEq, Eq)]
pub enum CommandError {
    InvalidCommand,
    ExecutionFailed(Vec<u8>),
}

/// The mathematical shape of a command error.
pub enum CommandErrorView {
    InvalidCommand,
    ExecutionFailed(Seq<u8>),
}

impl View for CommandError {
    type V = CommandErrorView;

    open spec fn view(&self) -> CommandErrorView {
        match self {
            CommandError::InvalidCommand => CommandErrorView::InvalidCommand,
            CommandError::ExecutionFailed(m) => CommandErrorView::ExecutionFailed(m@),
        }
    }
}

/// The text of a command error as sent back to the peer.
pub open spec fn command_error_text(e: CommandErrorView) -> Seq<u8> {
    match e {
        CommandErrorView::InvalidCommand => txt_invalid_command(),
        CommandErrorView::ExecutionFailed(m) => txt_exec_failed() + m,
    }
}

impl CommandError {
    /// Render the text of this error.
    pub fn message(&self) -> (r: Vec<u8>)
        ensures
            r@ == command_error_text(self@),
    {
        match self {
            CommandError::InvalidCommand => txt_invalid_command_bytes(),
            CommandError::ExecutionFailed(m) => {
                let mut r = txt_exec_failed_bytes();
                append_bytes(&mut r, m.as_slice());
                r
            },
        }
    }
}

/// How many blocks a file of `filesize` bytes arrives in: the ceiling
/// of the size over the nominal block size of 1024 bytes.
pub open spec fn expected_blocks_of(filesize: u64) -> u64 {
    ((filesize as int) / 1024 + if (filesize as int) % 1024 != 0 {
        1int
    } else {
        0int
    }) as u64
}

/// The state a HELLO for `filename` of `filesize` bytes moves to.
pub open spec fn hello_state(filename: Seq<u8>, filesize: u64) -> TransferStateView {
    TransferStateView::Receiving {
        current_file: filename,
        expected_blocks: expected_blocks_of(filesize),
        focused_block: None,
        received_blocks: Seq::empty(),
    }
}

/// The reason sent when the store reports `e`.
pub open spec fn storage_reason(e: StorageError) -> Seq<u8> {
    txt_storage_error() + e.text()
}

/// One message applied to the state, as the command service runs it:
/// the new state and the response. `fin` is the store's answer to
/// `finalize`, the one outside decision in the step; it is read only on
/// an admissible `MissionAccomplished` over a complete transfer.
pub open spec fn apply_msg_spec(
    s: TransferStateView,
    m: MessageView,
    fin: Result<(), StorageError>,
) -> (TransferStateView, Result<MessageView, CommandErrorView>) {
    match m {
        MessageView::Hello { filename, filesize } => (
            hello_state(filename, filesize),
            Ok(MessageView::Okay),
        ),
        MessageView::Yeet(b) => match s {
            TransferStateView::Receiving {
                current_file,
                expected_blocks,
                focused_block,
                received_blocks,
            } => {
                if received_blocks.len() >= expected_blocks {
                    (s, Err(CommandErrorView::ExecutionFailed(txt_too_many_blocks())))
                } else if focused_block matches Some(fb) && !received_blocks.contains(fb.index) {
                    (s, Err(CommandErrorView::ExecutionFailed(txt_block_pending())))
                } else {
                    (
                        TransferStateView::Receiving {
                            current_file,
                            expected_blocks,
                            focused_block: Some(b),
                            received_blocks,
                        },
                        Ok(MessageView::Yeet(b)),
                    )
                }
            },
            _ => (s, Err(CommandErrorView::ExecutionFailed(txt_not_receiving()))),
        },
        MessageView::MissionAccomplished => match s {
            TransferStateView::Receiving { expected_blocks, received_blocks, .. } => {
                if received_blocks.len() < expected_blocks {
                    (s, Err(CommandErrorView::ExecutionFailed(txt_incomplete_transfer())))
                } else {
                    match fin {
                        Ok(()) => (TransferStateView::Finished, Ok(MessageView::Success)),
                        Err(e) => (s, Err(CommandErrorView::ExecutionFailed(storage_reason(e)))),
                    }
                }
            },
            _ => (s, Err(CommandErrorView::ExecutionFailed(txt_not_receiving()))),
        },
        MessageView::ByeRis => (TransferStateView::Closed, Ok(MessageView::ByeRis)),
        _ => (s, Err(CommandErrorView::InvalidCommand)),
    }
}

/// The transfer is complete: the state is receiving and all expected
/// blocks are recorded, so `MissionAccomplished` may finalize.
pub open spec fn mission_ready(s: TransferStateView) -> bool {
    s matches TransferStateView::Receiving { expected_blocks, received_blocks, .. }
        && received_blocks.len() >= expected_blocks
}

/// The file a receiving state is filling.
pub open spec fn receiving_file(s: TransferStateView) -> Seq<u8> {
    match s {
        TransferStateView::Receiving { current_file, .. } => current_file,
        _ => Seq::empty(),
    }
}

/// The block header a receiving state holds in focus.
pub open spec fn receiving_focus(s: TransferStateView) -> Option<YeetBlock> {
    match s {
        TransferStateView::Receiving { focused_block, .. } => focused_block,
        _ => None,
    }
}

/// An admissible `MissionAccomplished` over a complete transfer is the
/// one step whose outcome depends on the store's `finalize`.
pub open spec fn msg_finalizes(s: TransferStateView, m: MessageView) -> bool {
    m is MissionAccomplished && mission_ready(s)
}

/// The returned result carries the values the spec transition names.
pub open spec fn result_matches(
    r: Result<ProtocolMessage, CommandError>,
    v: Result<MessageView, CommandErrorView>,
) -> bool {
    match (r, v) {
        (Ok(m), Ok(mv)) => m@ == mv,
        (Err(e), Err(ev)) => e@ == ev,
        _ => false,
    }
}

/// The step `(s, m) → (s2, r)` is the command service's, with `fin` for
/// the store's answer to `finalize`.
pub open spec fn msg_step_matches(
    s: TransferStateView,
    m: MessageView,
    fin: Result<(), StorageError>,
    s2: TransferStateView,
    r: Result<ProtocolMessage, CommandError>,
) -> bool {
    apply_msg_spec(s, m, fin).0 == s2 && result_matches(r, apply_msg_spec(s, m, fin).1)
}

/// A binary run applied to the state: the new state and the response.
/// `wr` is the store's answer to `write_block`, the one outside
/// decision; it is read only when a fresh focused block is present.
pub open spec fn apply_binary_spec(
    s: TransferStateView,
    wr: Result<(), StorageError>,
) -> (TransferStateView, Result<MessageView, CommandErrorView>) {
    match s {
        TransferStateView::Receiving {
            current_file,
            expected_blocks,
            focused_block,
            received_blocks,
        } => {
            match focused_block {
                None => (s, Ok(MessageView::Okay)),
                Some(b) => {
                    if received_blocks.contains(b.index) {
                        (s, Ok(MessageView::Okay))
                    } else {
                        match wr {
                            Ok(()) => (
                                TransferStateView::Receiving {
                                    current_file,
                                    expected_blocks,
                                    focused_block: None,
                                    received_blocks: received_blocks.push(b.index),
                                },
                                Ok(MessageView::OkHousten(b.index)),
                            ),
                            Err(e) => (
                                TransferStateView::Receiving {
                                    current_file,
                                    expected_blocks,
                                    focused_block: None,
                                    received_blocks,
                                },
                                Err(CommandErrorView::ExecutionFailed(storage_reason(e))),
                            ),
                        }
                    }
                },
            }
        },
        _ => (s, Err(CommandErrorView::ExecutionFailed(txt_not_receiving()))),
    }
}

/// A binary run stores its bytes exactly when a fresh focused block is
/// present: one whose index is not yet received.
pub open spec fn binary_writes(s: TransferStateView) -> bool {
    s matches TransferStateView::Receiving { focused_block: Some(b), received_blocks, .. }
        && !received_blocks.contains(b.index)
}

/// The step `s → (s2, r)` is the binary run's, with `wr` for the
/// store's answer to `write_block`.
pub open spec fn binary_step_matches(
    s: TransferStateView,
    wr: Result<(), StorageError>,
    s2: TransferStateView,
    r: Result<ProtocolMessage, CommandError>,
) -> bool {
    apply_binary_spec(s, wr).0 == s2 && result_matches(r, apply_binary_spec(s, wr).1)
}

/// One write handed to the block store: which file, which block
/// header, and exactly the payload bytes that came off the wire.
pub struct WriteRequest {
    pub file: Vec<u8>,
    pub block: YeetBlock,
    pub data: Vec<u8>,
}

/// What one protocol message asks of the caller: answer with the
/// response, or first let the store finalize the named file and then
/// feed its answer to `finalize_commit`.
pub enum MsgAction {
    Reply(Result<ProtocolMessage, CommandError>),
    Finalize(Vec<u8>),
}

/// What one binary run asks of the caller: answer with the response,
/// or first hand the request to the store's `write_block` and then
/// feed its answer to `binary_commit`.
pub enum BinaryAction {
    Reply(Result<ProtocolMessage, CommandError>),
    Write(WriteRequest),
}

/// Apply one protocol message up to the store boundary. Every step
/// that needs no storage answer is finished here, pinned exactly; a
/// finalizing step mutates nothing yet and hands out the name of the
/// file to finalize — exactly the receiving state's current file.
pub fn msg_begin(state: &mut TransferState, msg: &ProtocolMessage) -> (r: MsgAction)
    requires
        state_inv(old(state)@),
    ensures
        state_inv(final(state)@),
        !msg_finalizes(old(state)@, msg@) ==> (r matches MsgAction::Reply(res)
            && msg_step_matches(old(state)@, msg@, Ok(()), final(state)@, res)),
        msg_finalizes(old(state)@, msg@) ==> (final(state)@ == old(state)@ && (r matches
        MsgAction::Finalize(file) && file@ == receiving_file(old(state)@))),
{
    match msg {
        ProtocolMessage::Hello { filename, filesize } => {
            let tail: u64 = if *filesize % 1024 != 0 {
                1
            } else {
                0
            };
            let expected: u64 = *filesize / 1024 + tail;
            *state = TransferState::Receiving {
                current_file: to_vec_u8(filename.as_slice()),
                expected_blocks: expected,
                focused_block: None,
                received_blocks: Vec::new(),
            };
            let res: Result<ProtocolMessage, CommandError> = Ok(ProtocolMessage::Okay);
            proof {
                assert(msg_step_matches(old(state)@, msg@, Ok(()), state@, res));
            }
            MsgAction::Reply(res)
        },
        ProtocolMessage::Yeet(b) => {
            match &*state {
                TransferState::Receiving {
                    current_file,
                    expected_blocks,
                    focused_block,
                    received_blocks,
                } => {
                    if received_blocks.len() as u64 >= *expected_blocks {
                        let res: Result<ProtocolMessage, CommandError> = Err(
                            CommandError::ExecutionFailed(txt_too_many_blocks_bytes()),
                        );
                        proof {
                            assert(msg_step_matches(old(state)@, msg@, Ok(()), state@, res));
                        }
                        return MsgAction::Reply(res);
                    }
                    let mut pending = false;
                    if let Some(fb) = focused_block {
                        if !vec_contains_u64(received_blocks, fb.index) {
                            pending = true;
                        }
                    }
                    if pending {
                        let res: Result<ProtocolMessage, CommandError> = Err(
                            CommandError::ExecutionFailed(txt_block_pending_bytes()),
                        );
                        proof {
                            assert(msg_step_matches(old(state)@, msg@, Ok(()), state@, res));
                        }
                        return MsgAction::Reply(res);
                    }
                    let next = TransferState::Receiving {
                        current_file: to_vec_u8(current_file.as_slice()),
                        expected_blocks: *expected_blocks,
                        focused_block: Some(*b),
                        received_blocks: copy_vec(received_blocks.as_slice()),
                    };
                    *state = next;
                    let res: Result<ProtocolMessage, CommandError> = Ok(ProtocolMessage::Yeet(*b));
                    proof {
                        assert(msg_step_matches(old(state)@, msg@, Ok(()), state@, res));
                    }
                    MsgAction::Reply(res)
                },
                _ => {
                    let res: Result<ProtocolMessage, CommandError> = Err(
                        CommandError::ExecutionFailed(txt_not_receiving_bytes()),
                    );
                    proof {
                        assert(msg_step_matches(old(state)@, msg@, Ok(()), state@, res));
                    }
                    MsgAction::Reply(res)
                },
            }
        },
        ProtocolMessage::MissionAccomplished => {
            match &*state {
                TransferState::Receiving { current_file, expected_blocks, received_blocks, .. } => {
                    if (received_blocks.len() as u64) < *expected_blocks {
                        let res: Result<ProtocolMessage, CommandError> = Err(
                            CommandError::ExecutionFailed(txt_incomplete_transfer_bytes()),
                        );
                        proof {
                            assert(msg_step_matches(old(state)@, msg@, Ok(()), state@, res));
                        }
                        return MsgAction::Reply(res);
                    }
                    MsgAction::Finalize(to_vec_u8(current_file.as_slice()))
                },
                _ => {
                    let res: Result<ProtocolMessage, CommandError> = Err(
                        CommandError::ExecutionFailed(txt_not_receiving_bytes()),
                    );
                    proof {
                        assert(msg_step_matches(old(state)@, msg@, Ok(()), state@, res));
                    }
                    MsgAction::Reply(res)
                },
            }
        },
        ProtocolMessage::ByeRis => {
            *state = TransferState::Closed;
            let res: Result<ProtocolMessage, CommandError> = Ok(ProtocolMessage::ByeRis);
            proof {
                assert(msg_step_matches(old(state)@, msg@, Ok(()), state@, res));
            }
            MsgAction::Reply(res)
        },
        _ => {
            let res: Result<ProtocolMessage, CommandError> = Err(CommandError::InvalidCommand);
            proof {
                assert(msg_step_matches(old(state)@, msg@, Ok(()), state@, res));
            }
            MsgAction::Reply(res)
        },
    }
}

/// Commit the store's answer to a `finalize` request: move to
/// `Finished` and report success, or keep the state and surface the
/// storage failure. Total in the state: outside a complete receiving
/// state it answers as the message step would.
pub fn finalize_commit(state: &mut TransferState, fin: Result<(), StorageError>) -> (r: Result<
    ProtocolMessage,
    CommandError,
>)
    requires
        state_inv(old(state)@),
    ensures
        state_inv(final(state)@),
        msg_step_matches(
            old(state)@,
            MessageView::MissionAccomplished,
            fin,
            final(state)@,
            r,
        ),
{
    match &*state {
        TransferState::Receiving { expected_blocks, received_blocks, .. } => {
            if (received_blocks.len() as u64) < *expected_blocks {
                return Err(CommandError::ExecutionFailed(txt_incomplete_transfer_bytes()));
            }
            match fin {
                Ok(()) => {
                    *state = TransferState::Finished;
                    Ok(ProtocolMessage::Success)
                },
                Err(e) => {
                    let mut reason = txt_storage_error_bytes();
                    let etext = e.message();
                    append_bytes(&mut reason, etext.as_slice());
                    Err(CommandError::ExecutionFailed(reason))
                },
            }
        },
        _ => Err(CommandError::ExecutionFailed(txt_not_receiving_bytes())),
    }
}

/// Apply one binary run up to the store boundary. Without a fresh
/// focused block the run is finished here, pinned exactly; otherwise
/// nothing is mutated yet and the write request hands out exactly the
/// receiving state's current file, its focused block header, and the
/// payload bytes as given.
pub fn binary_begin(state: &TransferState, data: &[u8]) -> (r: BinaryAction)
    requires
        state_inv(state@),
    ensures
        !binary_writes(state@) ==> (r matches BinaryAction::Reply(res) && binary_step_matches(
            state@,
            Ok(()),
            state@,
            res,
        )),
        binary_writes(state@) ==> (r matches BinaryAction::Write(req) && req.file@
            == receiving_file(state@) && Some(req.block) == receiving_focus(state@) && req.data@
            == data@),
{
    match state {
        TransferState::Receiving { current_file, focused_block, received_blocks, .. } => {
            let fb = match focused_block {
                Some(fb) => *fb,
                None => {
                    let res: Result<ProtocolMessage, CommandError> = Ok(ProtocolMessage::Okay);
                    proof {
                        assert(binary_step_matches(state@, Ok(()), state@, res));
                    }
                    return BinaryAction::Reply(res);
                },
            };
            if vec_contains_u64(received_blocks, fb.index) {
                let res: Result<ProtocolMessage, CommandError> = Ok(ProtocolMessage::Okay);
                proof {
                    assert(binary_step_matches(state@, Ok(()), state@, res));
                }
                return BinaryAction::Reply(res);
            }
            BinaryAction::Write(
                WriteRequest {
                    file: to_vec_u8(current_file.as_slice()),
                    block: fb,
                    data: to_vec_u8(data),
                },
            )
        },
        _ => {
            let res: Result<ProtocolMessage, CommandError> = Err(
                CommandError::ExecutionFailed(txt_not_receiving_bytes()),
            );
            proof {
                assert(binary_step_matches(state@, Ok(()), state@, res));
            }
            BinaryAction::Reply(res)
        },
    }
}

/// Commit the store's answer to a write request: record the block as
/// received on success, clear the focus either way, and answer with
/// the acknowledgement or the surfaced storage failure. Total in the
/// state: without a fresh focused block it answers as the run would.
pub fn binary_commit(state: &mut TransferState, wr: Result<(), StorageError>) -> (r: Result<
    ProtocolMessage,
    CommandError,
>)
    requires
        state_inv(old(state)@),
    ensures
        state_inv(final(state)@),
        binary_step_matches(old(state)@, wr, final(state)@, r),
{
    match &*state {
        TransferState::Receiving {
            current_file,
            expected_blocks,
            focused_block,
            received_blocks,
        } => {
            let fb = match focused_block {
                Some(fb) => *fb,
                None => {
                    return Ok(ProtocolMessage::Okay);
                },
            };
            if vec_contains_u64(received_blocks, fb.index) {
                return Ok(ProtocolMessage::Okay);
            }
            let file = to_vec_u8(current_file.as_slice());
            let expected: u64 = *expected_blocks;
            let mut received = copy_vec(received_blocks.as_slice());
            match wr {
                Ok(()) => {
                    received.push(fb.index);
                    *state = TransferState::Receiving {
                        current_file: file,
                        expected_blocks: expected,
                        focused_block: None,
                        received_blocks: received,
                    };
                    Ok(ProtocolMessage::OkHousten(fb.index))
                },
                Err(e) => {
                    *state = TransferState::Receiving {
                        current_file: file,
                        expected_blocks: expected,
                        focused_block: None,
                        received_blocks: received,
                    };
                    let mut reason = txt_storage_error_bytes();
                    let etext = e.message();
                    append_bytes(&mut reason, etext.as_slice());
                    Err(CommandError::ExecutionFailed(reason))
                },
            }
        },
        _ => Err(CommandError::ExecutionFailed(txt_not_receiving_bytes())),
    }
}

/// Idempotent duplicate-block suppression: once a block is recorded as
/// received, sending its header again (with room left in the transfer)
/// is admitted and focuses the block — but the payload run that
/// follows is a no-op for every store answer: the reply is the plain
/// `OK`, the state keeps its value, no byte reaches the store, and the
/// block stays recorded at exactly one position.
pub proof fn lemma_duplicate_block_suppressed(
    s: TransferStateView,
    b: YeetBlock,
    fin: Result<(), StorageError>,
)
    requires
        state_inv(s),
        s matches TransferStateView::Receiving { expected_blocks, focused_block, received_blocks, .. }
            && received_blocks.contains(b.index) && received_blocks.len() < expected_blocks && !(
        focused_block matches Some(fb) && !received_blocks.contains(fb.index)),
    ensures
        apply_msg_spec(s, MessageView::Yeet(b), fin).1 == Ok::<MessageView, CommandErrorView>(
            MessageView::Yeet(b),
        ),
        ({
            let s1 = apply_msg_spec(s, MessageView::Yeet(b), fin).0;
            &&& !binary_writes(s1)
            &&& forall|wr: Result<(), StorageError>|
                #[trigger] apply_binary_spec(s1, wr) == (
                    s1,
                    Ok::<MessageView, CommandErrorView>(MessageView::Okay),
                )
            &&& (s1 matches TransferStateView::Receiving { received_blocks: rb, .. }
                && exists|j: int|
                    0 <= j < rb.len() && rb[j] == b.index && (forall|k: int|
                        0 <= k < rb.len() && rb[k] == b.index ==> k == j))
        }),
{
    let s1 = apply_msg_spec(s, MessageView::Yeet(b), fin).0;
    if let TransferStateView::Receiving { received_blocks: rb, .. } = s1 {
        let j = choose|j: int| 0 <= j < rb.len() && rb[j] == b.index;
        assert(rb[j] == b.index);
        assert(forall|k: int| 0 <= k < rb.len() && rb[k] == b.index ==> k == j) by {
            assert(rb.no_duplicates());
        }
        assert(0 <= j < rb.len() && rb[j] == b.index && (forall|k: int|
            0 <= k < rb.len() && rb[k] == b.index ==> k == j));
    }
}

/// Does `v` hold `x`?
fn vec_contains_u64(v: &Vec<u64>, x: u64) -> (r: bool)
    ensures
        r == v@.contains(x),
{
    let mut k: usize = 0;
    while k < v.len()
        invariant
            0 <= k <= v@.len(),
            forall|j: int| 0 <= j < k ==> v@[j] != x,
        decreases v@.len() - k,
    {
        if v[k] == x {
            return true;
        }
        k = k + 1;
    }
    false
}

/// The command service: it owns the block store and applies protocol
/// messages and binary runs to a connection's transfer state.
pub struct CommandServiceImpl<C: StorageRepository> {
    storage: C,
}

impl<C: StorageRepository> CommandServiceImpl<C> {
    /// Build a command service over the given block store.
    pub fn new(storage: C) -> (r: CommandServiceImpl<C>) {
        CommandServiceImpl { storage }
    }

    /// Hand the block store back, consuming the service.
    pub fn into_storage(self) -> (r: C) {
        self.storage
    }

    /// Apply one admitted (or not) protocol message to the transfer
    /// state and answer with the response message: the one-call
    /// composition of `msg_begin`, the store's `finalize`, and
    /// `finalize_commit`. Only a finalizing step reads the store's
    /// answer, so for every other message the step is pinned exactly;
    /// what a finalizing step hands the store is pinned by `msg_begin`.
    pub fn execute_protocol_command(&mut self, state: &mut TransferState, msg: &ProtocolMessage)
        -> (r: Result<ProtocolMessage, CommandError>)
        requires
            state_inv(old(state)@),
        ensures
            state_inv(final(state)@),
            exists|fin: Result<(), StorageError>|
                #[trigger] msg_step_matches(old(state)@, msg@, fin, final(state)@, r),
            !msg_finalizes(old(state)@, msg@) ==> msg_step_matches(
                old(state)@,
                msg@,
                Ok(()),
                final(state)@,
                r,
            ),
    {
        match msg_begin(state, msg) {
            MsgAction::Reply(res) => {
                proof {
                    assert(msg_step_matches(old(state)@, msg@, Ok(()), state@, res));
                }
                res
            },
            MsgAction::Finalize(file) => {
                let fin = self.storage.finalize(file.as_slice());
                let ghost gfin = fin;
                let r = finalize_commit(state, fin);
                proof {
                    assert(msg@ == MessageView::MissionAccomplished);
                    assert(msg_step_matches(old(state)@, msg@, gfin, state@, r));
                }
                r
            },
        }
    }

    /// Ingest one binary run for the focused block: the one-call
    /// composition of `binary_begin`, the store's `write_block`, and
    /// `binary_commit`. Without a fresh focused block the run is a
    /// no-op and the step is pinned exactly; what a writing step hands
    /// the store is pinned by `binary_begin`.
    pub fn process_binary_data(&mut self, state: &mut TransferState, data: &[u8]) -> (r: Result<
        ProtocolMessage,
        CommandError,
    >)
        requires
            state_inv(old(state)@),
        ensures
            state_inv(final(state)@),
            exists|wr: Result<(), StorageError>|
                #[trigger] binary_step_matches(old(state)@, wr, final(state)@, r),
            !binary_writes(old(state)@) ==> binary_step_matches(
                old(state)@,
                Ok(()),
                final(state)@,
                r,
            ),
    {
        match binary_begin(state, data) {
            BinaryAction::Reply(res) => {
                proof {
                    assert(binary_step_matches(old(state)@, Ok(()), state@, res));
                }
                res
            },
            BinaryAction::Write(req) => {
                let wr = self.storage.write_block(req.file.as_slice(), &req.block, req.data.as_slice());
                let ghost gwr = wr;
                let r = binary_commit(state, wr);
                proof {
                    assert(binary_step_matches(old(state)@, gwr, state@, r));
                }
                r
            },
        }
    }
}

} // verus!
