//! End-to-end sessions: lines and payload runs fed through the
//! handler step against an in-memory block store.

use ferrisshare::network::{handle_finalize, handle_line, handle_payload_begin,
                           handle_payload_commit, is_closed, LineOutcome, PayloadAction};
use ferrisshare::protocol::ProtocolMessage;
use ferrisshare::state::TransferState;
use ferrisshare::storage::{block_offset, FSStorageRepository, StorageError, StorageRepository,
                           YeetBlock};

/// An in-memory block store with the semantics of the filesystem one:
/// writes land at `index * 1024` in a staging artifact, `finalize`
/// promotes the staging artifact to the final name, and filenames are
/// held to the store's rules.
struct MemStore {
    staged: Vec<(Vec<u8>, Vec<u8>)>,
    finals: Vec<(Vec<u8>, Vec<u8>)>,
    write_calls: Vec<u64>,
}

impl MemStore {
    fn new() -> MemStore {
        MemStore { staged: Vec::new(), finals: Vec::new(), write_calls: Vec::new() }
    }

    fn final_contents(&self, name: &[u8]) -> Option<&Vec<u8>> {
        self.finals.iter().find(|(n, _)| n == name).map(|(_, d)| d)
    }
}

impl StorageRepository for MemStore {
    fn open_file(&mut self, filename: &[u8]) -> Result<(), StorageError> {
        FSStorageRepository::sanitize_filename(filename)?;
        if !self.staged.iter().any(|(n, _)| n == filename) {
            self.staged.push((filename.to_vec(), Vec::new()));
        }
        Ok(())
    }

    fn write_block(
        &mut self,
        filename: &[u8],
        block: &YeetBlock,
        data: &[u8],
    ) -> Result<(), StorageError> {
        FSStorageRepository::sanitize_filename(filename)?;
        let offset = block_offset(block.index)
            .ok_or_else(|| StorageError::Unknown(b"offset does not fit".to_vec()))?
            as usize;
        self.write_calls.push(block.index);
        if !self.staged.iter().any(|(n, _)| n == filename) {
            self.staged.push((filename.to_vec(), Vec::new()));
        }
        let entry = self.staged.iter_mut().find(|(n, _)| n == filename).unwrap();
        if entry.1.len() < offset + data.len() {
            entry.1.resize(offset + data.len(), 0);
        }
        entry.1[offset..offset + data.len()].copy_from_slice(data);
        Ok(())
    }

    fn finalize(&mut self, filename: &[u8]) -> Result<(), StorageError> {
        FSStorageRepository::sanitize_filename(filename)?;
        let data = match self.staged.iter().position(|(n, _)| n == filename) {
            Some(i) => self.staged.remove(i).1,
            // a transfer of zero blocks never wrote: promote an empty artifact
            None => Vec::new(),
        };
        self.finals.retain(|(n, _)| n != filename);
        self.finals.push((filename.to_vec(), data));
        Ok(())
    }
}

/// Run one line as the handler loop does: replies come back directly,
/// a finalizing line goes through the store and its commit step.
fn reply(store: &mut MemStore, state: &mut TransferState, line: &[u8]) -> Vec<u8> {
    match handle_line(state, line) {
        LineOutcome::Reply(m) => m.encode(),
        LineOutcome::Finalize(file) => {
            let fin = store.finalize(&file);
            handle_finalize(state, fin).encode()
        }
        LineOutcome::ReadPayload(_) => panic!("expected a reply, got a payload request"),
    }
}

/// Run a block-header line and its payload run as the handler loop
/// does: the write request goes through the store and its commit step.
fn send_block(
    store: &mut MemStore,
    state: &mut TransferState,
    line: &[u8],
    payload: &[u8],
) -> Vec<u8> {
    match handle_line(state, line) {
        LineOutcome::ReadPayload(b) => {
            assert_eq!(b.size as usize, payload.len());
            match handle_payload_begin(state, payload) {
                PayloadAction::Reply(m) => m.encode(),
                PayloadAction::Write(req) => {
                    let wr = store.write_block(&req.file, &req.block, &req.data);
                    handle_payload_commit(state, wr).encode()
                }
            }
        }
        LineOutcome::Reply(m) => panic!("expected a payload request, got {:?}", m),
        LineOutcome::Finalize(_) => panic!("expected a payload request, got a finalize"),
    }
}

fn pattern(len: usize) -> Vec<u8> {
    (0..len).map(|i| (i % 251) as u8).collect()
}

#[test]
fn empty_file() {
    let mut store = MemStore::new();
    let mut state = TransferState::Idle;
    assert_eq!(reply(&mut store, &mut state, b"HELLO empty.bin 0\n"), b"OK".to_vec());
    assert_eq!(
        reply(&mut store, &mut state, b"MISSION-ACCOMPLISHED\n"),
        b"SUCCESS".to_vec()
    );
    assert_eq!(reply(&mut store, &mut state, b"BYE-RIS\n"), b"BYE-RIS".to_vec());
    assert!(is_closed(&state));
    assert_eq!(store.final_contents(b"empty.bin"), Some(&Vec::new()));
}

#[test]
fn exact_multiple_of_block_size() {
    let data = pattern(2048);
    let mut store = MemStore::new();
    let mut state = TransferState::Idle;
    assert_eq!(reply(&mut store, &mut state, b"HELLO two.bin 2048\n"), b"OK".to_vec());
    assert_eq!(
        send_block(&mut store, &mut state, b"YEET 0 1024 0\n", &data[..1024]),
        b"OK-HOUSTEN 0".to_vec()
    );
    assert_eq!(
        send_block(&mut store, &mut state, b"YEET 1 1024 0\n", &data[1024..]),
        b"OK-HOUSTEN 1".to_vec()
    );
    assert_eq!(
        reply(&mut store, &mut state, b"MISSION-ACCOMPLISHED\n"),
        b"SUCCESS".to_vec()
    );
    assert_eq!(reply(&mut store, &mut state, b"BYE-RIS\n"), b"BYE-RIS".to_vec());
    assert_eq!(store.final_contents(b"two.bin"), Some(&data));
}

#[test]
fn tail_block_shorter_than_nominal() {
    let data = pattern(3500);
    let mut store = MemStore::new();
    let mut state = TransferState::Idle;
    assert_eq!(reply(&mut store, &mut state, b"HELLO tail.bin 3500\n"), b"OK".to_vec());
    for i in 0..3u64 {
        let line = format!("YEET {} 1024 0\n", i).into_bytes();
        let lo = (i as usize) * 1024;
        assert_eq!(
            send_block(&mut store, &mut state, &line, &data[lo..lo + 1024]),
            format!("OK-HOUSTEN {}", i).into_bytes()
        );
    }
    assert_eq!(
        send_block(&mut store, &mut state, b"YEET 3 428 0\n", &data[3072..]),
        b"OK-HOUSTEN 3".to_vec()
    );
    assert_eq!(
        reply(&mut store, &mut state, b"MISSION-ACCOMPLISHED\n"),
        b"SUCCESS".to_vec()
    );
    let written = store.final_contents(b"tail.bin").unwrap();
    assert_eq!(written.len(), 3500);
    assert_eq!(written, &data);
}

#[test]
fn duplicate_block_is_suppressed() {
    let data = pattern(2048);
    let mut store = MemStore::new();
    let mut state = TransferState::Idle;
    assert_eq!(reply(&mut store, &mut state, b"HELLO dup.bin 2048\n"), b"OK".to_vec());
    assert_eq!(
        send_block(&mut store, &mut state, b"YEET 0 1024 0\n", &data[..1024]),
        b"OK-HOUSTEN 0".to_vec()
    );
    // the same block again: a no-op acknowledged with the plain OK
    assert_eq!(
        send_block(&mut store, &mut state, b"YEET 0 1024 0\n", &data[..1024]),
        b"OK".to_vec()
    );
    assert_eq!(
        send_block(&mut store, &mut state, b"YEET 1 1024 0\n", &data[1024..]),
        b"OK-HOUSTEN 1".to_vec()
    );
    assert_eq!(
        reply(&mut store, &mut state, b"MISSION-ACCOMPLISHED\n"),
        b"SUCCESS".to_vec()
    );
    // block 0 reached the store exactly once
    assert_eq!(store.write_calls, vec![0, 1]);
    assert_eq!(store.final_contents(b"dup.bin"), Some(&data));
}

#[test]
fn out_of_order_command_is_rejected() {
    let mut store = MemStore::new();
    let mut state = TransferState::Idle;
    let r = reply(&mut store, &mut state, b"YEET 0 4 0\n");
    assert!(r.starts_with(b"ERROR"), "got {:?}", r);
    assert!(matches!(state, TransferState::Idle));
    // the payload bytes arrive as a line of their own and are rejected too
    let r = reply(&mut store, &mut state, b"ABCD\n");
    assert!(r.starts_with(b"ERROR"), "got {:?}", r);
    assert!(matches!(state, TransferState::Idle));
}

#[test]
fn path_escape_is_rejected_by_the_store() {
    let mut store = MemStore::new();
    let mut state = TransferState::Idle;
    // the protocol layer may accept the name
    assert_eq!(reply(&mut store, &mut state, b"HELLO ../evil 4\n"), b"OK".to_vec());
    // but the store must reject it when the payload is persisted
    let r = send_block(&mut store, &mut state, b"YEET 0 4 0\n", b"ABCD");
    assert_eq!(
        r,
        b"ERROR: Command execution failed: Storage error: Parent directory segments are not allowed in filenames"
            .to_vec()
    );
    assert!(store.finals.is_empty());
    assert!(store.staged.is_empty());
}

#[test]
fn decode_failure_draws_an_error_line_and_keeps_state() {
    let mut store = MemStore::new();
    let mut state = TransferState::Idle;
    assert_eq!(reply(&mut store, &mut state, b"HELLO a.bin 1\n"), b"OK".to_vec());
    let r = reply(&mut store, &mut state, b"YEET zero 4 0\n");
    assert_eq!(r, b"ERROR: Invalid number format".to_vec());
    assert!(matches!(state, TransferState::Receiving { .. }));
}

#[test]
fn invalid_utf8_line_draws_an_error_and_keeps_state() {
    let mut store = MemStore::new();
    let mut state = TransferState::Idle;
    assert_eq!(reply(&mut store, &mut state, b"HELLO a.bin 1\n"), b"OK".to_vec());
    let r = reply(&mut store, &mut state, b"YEET \xff 4 0\n");
    assert_eq!(r, b"ERROR: Invalid UTF-8 sequence".to_vec());
    assert!(matches!(state, TransferState::Receiving { .. }));
}

#[test]
fn admission_rejection_names_the_invalid_command() {
    let mut store = MemStore::new();
    let mut state = TransferState::Finished;
    let r = reply(&mut store, &mut state, b"HELLO again.bin 1\n");
    assert_eq!(r, b"ERROR: Invalid command".to_vec());
    assert!(matches!(state, TransferState::Finished));
}
