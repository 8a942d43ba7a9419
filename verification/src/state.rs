//! The per-connection transfer state machine: where in the protocol
//! dialog the connection sits, its well-formedness invariant, and the
//! admission table that decides which messages each state accepts.

use vstd::prelude::*;

use crate::protocol::{MessageView, ProtocolMessage};
use crate::storage::YeetBlock;

verus! {

/// Where in the protocol dialog a connection sits. One value exists per
/// accepted connection; it starts `Idle` and is reset to `Idle` on
/// disconnect.
#[derive(Debug, Clone)]
pub enum TransferState {
    Idle,
    Receiving {
        current_file: Vec<u8>,
        expected_blocks: u64,
        focused_block: Option<YeetBlock>,
        received_blocks: Vec<u64>,
    },
    Finished,
    Closed,
}

/// The mathematical shape of a transfer state.
pub enum TransferStateView {
    Idle,
    Receiving {
        current_file: Seq<u8>,
        expected_blocks: u64,
        focused_block: Option<YeetBlock>,
        received_blocks: Seq<u64>,
    },
    Finished,
    Closed,
}

impl View for TransferState {
    type V = TransferStateView;

    open spec fn view(&self) -> TransferStateView {
        match self {
            TransferState::Idle => TransferStateView::Idle,
            TransferState::Receiving {
                current_file,
                expected_blocks,
                focused_block,
                received_blocks,
            } => TransferStateView::Receiving {
                current_file: current_file@,
                expected_blocks: *expected_blocks,
                focused_block: *focused_block,
                received_blocks: received_blocks@,
            },
            TransferState::Finished => TransferStateView::Finished,
            TransferState::Closed => TransferStateView::Closed,
        }
    }
}

/// Well-formedness of a transfer state: while receiving, no block is
/// recorded twice, never more blocks are recorded than expected, and
/// while a fresh block header is in focus there is still room for it.
pub open spec fn state_inv(s: TransferStateView) -> bool {
    match s {
        TransferStateView::Receiving { expected_blocks, focused_block, received_blocks, .. } => {
            &&& received_blocks.no_duplicates()
            &&& received_blocks.len() <= expected_blocks
            &&& ((focused_block matches Some(b) && !received_blocks.contains(b.index))
                ==> received_blocks.len() < expected_blocks)
        },
        _ => true,
    }
}

/// The admission table: which well-formed messages each state accepts.
/// Anything else is rejected before the command service runs, and a
/// rejected message never mutates the state.
pub open spec fn admits_spec(s: TransferStateView, m: MessageView) -> bool {
    match s {
        TransferStateView::Idle => m is Hello,
        TransferStateView::Receiving { .. } => m is Yeet || m is MissionAccomplished,
        TransferStateView::Finished => m is ByeRis,
        TransferStateView::Closed => false,
    }
}

/// Executable admission check against the table.
pub fn admits(s: &TransferState, m: &ProtocolMessage) -> (r: bool)
    ensures
        r == admits_spec(s@, m@),
{
    match s {
        TransferState::Idle => matches!(m, ProtocolMessage::Hello { .. }),
        TransferState::Receiving { .. } => matches!(m, ProtocolMessage::Yeet(_)) || matches!(
            m,
            ProtocolMessage::MissionAccomplished,
        ),
        TransferState::Finished => matches!(m, ProtocolMessage::ByeRis),
        TransferState::Closed => false,
    }
}

} // verus!
