//! The block store's filename rules, path layout, and block offsets.

use ferrisshare::storage::{block_offset, FSStorageRepository, StorageError, YeetBlock};

#[test]
fn sanitize_accepts_plain_names() {
    assert_eq!(FSStorageRepository::sanitize_filename(b"a.bin"), Ok(()));
    assert_eq!(FSStorageRepository::sanitize_filename(b"dir/a.bin"), Ok(()));
    assert_eq!(FSStorageRepository::sanitize_filename(b"./a.bin"), Ok(()));
    assert_eq!(FSStorageRepository::sanitize_filename(b"dir//a"), Ok(()));
}

#[test]
fn sanitize_rejects_absolute_paths() {
    assert_eq!(
        FSStorageRepository::sanitize_filename(b"/etc/passwd"),
        Err(StorageError::AbsolutePathNotAllowed)
    );
    assert_eq!(
        FSStorageRepository::sanitize_filename(b"/"),
        Err(StorageError::AbsolutePathNotAllowed)
    );
}

#[test]
fn sanitize_rejects_parent_segments() {
    assert_eq!(
        FSStorageRepository::sanitize_filename(b"../evil"),
        Err(StorageError::ParentDirSegmentNotAllowed)
    );
    assert_eq!(
        FSStorageRepository::sanitize_filename(b"a/../b"),
        Err(StorageError::ParentDirSegmentNotAllowed)
    );
    assert_eq!(
        FSStorageRepository::sanitize_filename(b"a/.."),
        Err(StorageError::ParentDirSegmentNotAllowed)
    );
}

#[test]
fn sanitize_rejects_empty_names() {
    assert_eq!(
        FSStorageRepository::sanitize_filename(b""),
        Err(StorageError::InvalidFilename)
    );
    assert_eq!(
        FSStorageRepository::sanitize_filename(b"."),
        Err(StorageError::InvalidFilename)
    );
    assert_eq!(
        FSStorageRepository::sanitize_filename(b"./."),
        Err(StorageError::InvalidFilename)
    );
}

#[test]
fn paths_are_joined_under_the_base() {
    let repo = FSStorageRepository::new(b"./public".to_vec());
    assert_eq!(repo.file_path_for(b"a.bin"), b"./public/a.bin".to_vec());
    assert_eq!(
        repo.staging_path_for(b"a.bin"),
        b"./public/a.bin.ferrisshare".to_vec()
    );

    let slashed = FSStorageRepository::new(b"base/".to_vec());
    assert_eq!(slashed.file_path_for(b"a"), b"base/a".to_vec());

    let empty = FSStorageRepository::new(Vec::new());
    assert_eq!(empty.file_path_for(b"a"), b"a".to_vec());
}

#[test]
fn block_offsets_use_the_nominal_block_size() {
    assert_eq!(block_offset(0), Some(0));
    assert_eq!(block_offset(3), Some(3 * 1024));
    assert_eq!(block_offset(u64::MAX), None);
}

#[test]
fn yeet_block_new_keeps_fields() {
    let b = YeetBlock::new(5, 428, 7);
    assert_eq!(b.index, 5);
    assert_eq!(b.size, 428);
    assert_eq!(b.checksum, 7);
}

#[test]
fn storage_error_messages() {
    assert_eq!(
        StorageError::ParentDirSegmentNotAllowed.message(),
        b"Parent directory segments are not allowed in filenames".to_vec()
    );
    assert_eq!(
        StorageError::Unknown(b"disk on fire".to_vec()).message(),
        b"Unknown storage error: disk on fire".to_vec()
    );
}
