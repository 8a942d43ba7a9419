//! The admission table and the command service's state transitions.

use ferrisshare::command::{binary_begin, binary_commit, finalize_commit, msg_begin,
                           BinaryAction, CommandError, CommandServiceImpl, MsgAction};
use ferrisshare::protocol::ProtocolMessage;
use ferrisshare::state::{admits, TransferState};
use ferrisshare::storage::{StorageError, StorageRepository, YeetBlock};

/// A store that records calls and can be told to fail.
struct RecordingStore {
    writes: Vec<u64>,
    finalized: Vec<Vec<u8>>,
    fail_finalize: bool,
}

impl RecordingStore {
    fn new() -> RecordingStore {
        RecordingStore { writes: Vec::new(), finalized: Vec::new(), fail_finalize: false }
    }
}

impl StorageRepository for RecordingStore {
    fn open_file(&mut self, _filename: &[u8]) -> Result<(), StorageError> {
        Ok(())
    }

    fn write_block(
        &mut self,
        _filename: &[u8],
        block: &YeetBlock,
        _data: &[u8],
    ) -> Result<(), StorageError> {
        self.writes.push(block.index);
        Ok(())
    }

    fn finalize(&mut self, filename: &[u8]) -> Result<(), StorageError> {
        if self.fail_finalize {
            return Err(StorageError::PermissionDenied);
        }
        self.finalized.push(filename.to_vec());
        Ok(())
    }
}

fn receiving_state() -> TransferState {
    TransferState::Receiving {
        current_file: b"f.bin".to_vec(),
        expected_blocks: 2,
        focused_block: None,
        received_blocks: Vec::new(),
    }
}

#[test]
fn admission_table() {
    let hello = ProtocolMessage::Hello { filename: b"a".to_vec(), filesize: 1 };
    let yeet = ProtocolMessage::Yeet(YeetBlock::new(0, 4, 0));
    let mission = ProtocolMessage::MissionAccomplished;
    let bye = ProtocolMessage::ByeRis;
    let okay = ProtocolMessage::Okay;

    let idle = TransferState::Idle;
    assert!(admits(&idle, &hello));
    assert!(!admits(&idle, &yeet));
    assert!(!admits(&idle, &mission));
    assert!(!admits(&idle, &bye));
    assert!(!admits(&idle, &okay));

    let receiving = receiving_state();
    assert!(admits(&receiving, &yeet));
    assert!(admits(&receiving, &mission));
    assert!(!admits(&receiving, &hello));
    assert!(!admits(&receiving, &bye));

    let finished = TransferState::Finished;
    assert!(admits(&finished, &bye));
    assert!(!admits(&finished, &hello));
    assert!(!admits(&finished, &yeet));

    let closed = TransferState::Closed;
    assert!(!admits(&closed, &hello));
    assert!(!admits(&closed, &bye));
}

#[test]
fn hello_enters_receiving_with_ceiling_block_count() {
    let mut svc = CommandServiceImpl::new(RecordingStore::new());
    let mut state = TransferState::Idle;
    let r = svc.execute_protocol_command(
        &mut state,
        &ProtocolMessage::Hello { filename: b"f.bin".to_vec(), filesize: 3500 },
    );
    assert_eq!(r, Ok(ProtocolMessage::Okay));
    match state {
        TransferState::Receiving { current_file, expected_blocks, focused_block, received_blocks } => {
            assert_eq!(current_file, b"f.bin".to_vec());
            assert_eq!(expected_blocks, 4);
            assert_eq!(focused_block, None);
            assert!(received_blocks.is_empty());
        }
        _ => panic!("expected Receiving"),
    }
}

#[test]
fn hello_block_count_edge_values() {
    let mut svc = CommandServiceImpl::new(RecordingStore::new());
    for (size, expected) in [(0u64, 0u64), (1, 1), (1024, 1), (1025, 2), (2048, 2)] {
        let mut state = TransferState::Idle;
        svc.execute_protocol_command(
            &mut state,
            &ProtocolMessage::Hello { filename: b"f".to_vec(), filesize: size },
        )
        .unwrap();
        match state {
            TransferState::Receiving { expected_blocks, .. } => {
                assert_eq!(expected_blocks, expected, "size {}", size)
            }
            _ => panic!("expected Receiving"),
        }
    }
}

#[test]
fn yeet_focuses_the_block() {
    let mut svc = CommandServiceImpl::new(RecordingStore::new());
    let mut state = receiving_state();
    let b = YeetBlock::new(0, 1024, 0);
    let r = svc.execute_protocol_command(&mut state, &ProtocolMessage::Yeet(b));
    assert_eq!(r, Ok(ProtocolMessage::Yeet(b)));
    match state {
        TransferState::Receiving { focused_block, .. } => assert_eq!(focused_block, Some(b)),
        _ => panic!("expected Receiving"),
    }
}

#[test]
fn yeet_outside_receiving_fails() {
    let mut svc = CommandServiceImpl::new(RecordingStore::new());
    let mut state = TransferState::Idle;
    let r = svc.execute_protocol_command(&mut state, &ProtocolMessage::Yeet(YeetBlock::new(0, 4, 0)));
    assert_eq!(
        r,
        Err(CommandError::ExecutionFailed(
            b"Error transfer state is not equal Receiving".to_vec()
        ))
    );
    assert!(matches!(state, TransferState::Idle));
}

#[test]
fn yeet_rejected_when_all_blocks_received() {
    let mut svc = CommandServiceImpl::new(RecordingStore::new());
    let mut state = TransferState::Receiving {
        current_file: b"f".to_vec(),
        expected_blocks: 2,
        focused_block: None,
        received_blocks: vec![0, 1],
    };
    let r = svc.execute_protocol_command(&mut state, &ProtocolMessage::Yeet(YeetBlock::new(2, 4, 0)));
    assert_eq!(
        r,
        Err(CommandError::ExecutionFailed(
            b"Received block index exceeds expected blocks".to_vec()
        ))
    );
}

#[test]
fn yeet_rejected_while_a_fresh_block_is_focused() {
    let mut svc = CommandServiceImpl::new(RecordingStore::new());
    let mut state = TransferState::Receiving {
        current_file: b"f".to_vec(),
        expected_blocks: 2,
        focused_block: Some(YeetBlock::new(0, 1024, 0)),
        received_blocks: Vec::new(),
    };
    let r = svc.execute_protocol_command(&mut state, &ProtocolMessage::Yeet(YeetBlock::new(1, 1024, 0)));
    assert_eq!(
        r,
        Err(CommandError::ExecutionFailed(
            b"Block not received. Can't proceed with next block.".to_vec()
        ))
    );
}

#[test]
fn binary_run_stores_and_records_the_block() {
    let mut svc = CommandServiceImpl::new(RecordingStore::new());
    let mut state = TransferState::Receiving {
        current_file: b"f".to_vec(),
        expected_blocks: 2,
        focused_block: Some(YeetBlock::new(0, 4, 0)),
        received_blocks: Vec::new(),
    };
    let r = svc.process_binary_data(&mut state, b"ABCD");
    assert_eq!(r, Ok(ProtocolMessage::OkHousten(0)));
    match state {
        TransferState::Receiving { focused_block, received_blocks, .. } => {
            assert_eq!(focused_block, None);
            assert_eq!(received_blocks, vec![0]);
        }
        _ => panic!("expected Receiving"),
    }
}

#[test]
fn binary_run_without_focus_is_a_no_op() {
    let mut svc = CommandServiceImpl::new(RecordingStore::new());
    let mut state = receiving_state();
    let r = svc.process_binary_data(&mut state, b"ABCD");
    assert_eq!(r, Ok(ProtocolMessage::Okay));
}

#[test]
fn binary_run_outside_receiving_fails() {
    let mut svc = CommandServiceImpl::new(RecordingStore::new());
    let mut state = TransferState::Finished;
    let r = svc.process_binary_data(&mut state, b"ABCD");
    assert_eq!(
        r,
        Err(CommandError::ExecutionFailed(
            b"Error transfer state is not equal Receiving".to_vec()
        ))
    );
}

#[test]
fn mission_rejected_while_blocks_are_missing() {
    let mut svc = CommandServiceImpl::new(RecordingStore::new());
    let mut state = receiving_state();
    let r = svc.execute_protocol_command(&mut state, &ProtocolMessage::MissionAccomplished);
    assert_eq!(
        r,
        Err(CommandError::ExecutionFailed(b"incomplete transfer".to_vec()))
    );
    assert!(matches!(state, TransferState::Receiving { .. }));
}

#[test]
fn mission_finalizes_a_complete_transfer() {
    let mut svc = CommandServiceImpl::new(RecordingStore::new());
    let mut state = TransferState::Receiving {
        current_file: b"f.bin".to_vec(),
        expected_blocks: 1,
        focused_block: None,
        received_blocks: vec![0],
    };
    let r = svc.execute_protocol_command(&mut state, &ProtocolMessage::MissionAccomplished);
    assert_eq!(r, Ok(ProtocolMessage::Success));
    assert!(matches!(state, TransferState::Finished));
}

#[test]
fn mission_surfaces_storage_failure() {
    let mut store = RecordingStore::new();
    store.fail_finalize = true;
    let mut svc = CommandServiceImpl::new(store);
    let mut state = TransferState::Receiving {
        current_file: b"f.bin".to_vec(),
        expected_blocks: 1,
        focused_block: None,
        received_blocks: vec![0],
    };
    let r = svc.execute_protocol_command(&mut state, &ProtocolMessage::MissionAccomplished);
    assert_eq!(
        r,
        Err(CommandError::ExecutionFailed(
            b"Storage error: Permission denied".to_vec()
        ))
    );
    assert!(matches!(state, TransferState::Receiving { .. }));
}

#[test]
fn bye_ris_closes_from_any_state() {
    let mut svc = CommandServiceImpl::new(RecordingStore::new());
    let mut state = TransferState::Finished;
    let r = svc.execute_protocol_command(&mut state, &ProtocolMessage::ByeRis);
    assert_eq!(r, Ok(ProtocolMessage::ByeRis));
    assert!(matches!(state, TransferState::Closed));
}

#[test]
fn unhandled_messages_are_invalid_commands() {
    let mut svc = CommandServiceImpl::new(RecordingStore::new());
    let mut state = TransferState::Idle;
    let r = svc.execute_protocol_command(&mut state, &ProtocolMessage::Success);
    assert_eq!(r, Err(CommandError::InvalidCommand));
    assert!(matches!(state, TransferState::Idle));
}

#[test]
fn msg_begin_hands_the_finalize_request_for_the_current_file() {
    let mut state = TransferState::Receiving {
        current_file: b"f.bin".to_vec(),
        expected_blocks: 1,
        focused_block: None,
        received_blocks: vec![0],
    };
    match msg_begin(&mut state, &ProtocolMessage::MissionAccomplished) {
        MsgAction::Finalize(file) => assert_eq!(file, b"f.bin".to_vec()),
        MsgAction::Reply(r) => panic!("expected a finalize request, got {:?}", r),
    }
    // nothing is committed until the store has answered
    assert!(matches!(state, TransferState::Receiving { .. }));
}

#[test]
fn finalize_commit_applies_the_store_answer() {
    let mut state = TransferState::Receiving {
        current_file: b"f.bin".to_vec(),
        expected_blocks: 1,
        focused_block: None,
        received_blocks: vec![0],
    };
    let r = finalize_commit(&mut state, Err(StorageError::PermissionDenied));
    assert_eq!(
        r,
        Err(CommandError::ExecutionFailed(
            b"Storage error: Permission denied".to_vec()
        ))
    );
    assert!(matches!(state, TransferState::Receiving { .. }));

    let r = finalize_commit(&mut state, Ok(()));
    assert_eq!(r, Ok(ProtocolMessage::Success));
    assert!(matches!(state, TransferState::Finished));
}

#[test]
fn binary_begin_hands_the_exact_write_request() {
    let b = YeetBlock::new(0, 4, 9);
    let state = TransferState::Receiving {
        current_file: b"f.bin".to_vec(),
        expected_blocks: 2,
        focused_block: Some(b),
        received_blocks: Vec::new(),
    };
    match binary_begin(&state, b"ABCD") {
        BinaryAction::Write(req) => {
            assert_eq!(req.file, b"f.bin".to_vec());
            assert_eq!(req.block, b);
            assert_eq!(req.data, b"ABCD".to_vec());
        }
        BinaryAction::Reply(r) => panic!("expected a write request, got {:?}", r),
    }
}

#[test]
fn binary_begin_skips_the_store_for_a_duplicate() {
    let b = YeetBlock::new(0, 4, 0);
    let state = TransferState::Receiving {
        current_file: b"f.bin".to_vec(),
        expected_blocks: 2,
        focused_block: Some(b),
        received_blocks: vec![0],
    };
    match binary_begin(&state, b"ABCD") {
        BinaryAction::Reply(r) => assert_eq!(r, Ok(ProtocolMessage::Okay)),
        BinaryAction::Write(_) => panic!("a duplicate block must not reach the store"),
    }
}

#[test]
fn binary_commit_applies_the_store_answer() {
    let b = YeetBlock::new(0, 4, 0);
    let mut state = TransferState::Receiving {
        current_file: b"f.bin".to_vec(),
        expected_blocks: 2,
        focused_block: Some(b),
        received_blocks: Vec::new(),
    };
    let r = binary_commit(&mut state, Err(StorageError::PermissionDenied));
    assert_eq!(
        r,
        Err(CommandError::ExecutionFailed(
            b"Storage error: Permission denied".to_vec()
        ))
    );
    match &state {
        TransferState::Receiving { focused_block, received_blocks, .. } => {
            assert_eq!(*focused_block, None);
            assert!(received_blocks.is_empty());
        }
        _ => panic!("expected Receiving"),
    }

    let mut state = TransferState::Receiving {
        current_file: b"f.bin".to_vec(),
        expected_blocks: 2,
        focused_block: Some(b),
        received_blocks: Vec::new(),
    };
    let r = binary_commit(&mut state, Ok(()));
    assert_eq!(r, Ok(ProtocolMessage::OkHousten(0)));
    match &state {
        TransferState::Receiving { focused_block, received_blocks, .. } => {
            assert_eq!(*focused_block, None);
            assert_eq!(*received_blocks, vec![0]);
        }
        _ => panic!("expected Receiving"),
    }
}

#[test]
fn the_service_records_the_write_in_its_store() {
    let mut svc = CommandServiceImpl::new(RecordingStore::new());
    let mut state = TransferState::Receiving {
        current_file: b"f".to_vec(),
        expected_blocks: 2,
        focused_block: Some(YeetBlock::new(0, 4, 0)),
        received_blocks: Vec::new(),
    };
    svc.process_binary_data(&mut state, b"ABCD").unwrap();
    let store = svc.into_storage();
    assert_eq!(store.writes, vec![0]);
}

#[test]
fn command_error_messages() {
    assert_eq!(CommandError::InvalidCommand.message(), b"Invalid command".to_vec());
    assert_eq!(
        CommandError::ExecutionFailed(b"why".to_vec()).message(),
        b"Command execution failed: why".to_vec()
    );
}
