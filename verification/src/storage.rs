//! The block store side of a transfer: block headers, storage errors,
//! the filename rules every store must enforce, and the path layout of
//! the filesystem-backed store.

use vstd::prelude::*;

use crate::text::{
    txt_absolute_path, txt_absolute_path_bytes, txt_already_exists, txt_already_exists_bytes,
    txt_file_not_found, txt_file_not_found_bytes, txt_invalid_filename,
    txt_invalid_filename_bytes, txt_parent_dir, txt_parent_dir_bytes, txt_permission_denied,
    txt_permission_denied_bytes, txt_staging_ext, txt_staging_ext_bytes, txt_unknown_storage,
    txt_unknown_storage_bytes,
};
use crate::lex::append_bytes;

verus! {

/// The header announcing one binary payload run: which block follows,
/// how many raw bytes it holds, and the (unverified) checksum field.
#[derive(Debug, Clone, Copy, PartialEq, Eq, Hash, Structural)]
pub struct YeetBlock {
    pub index: u64,
    pub size: u32,
    pub checksum: u32,
}

impl YeetBlock {
    /// Build a block header from its three fields.
    pub fn new(index: u64, size: u32, checksum: u32) -> (b: YeetBlock)
        ensures
            b == (YeetBlock { index, size, checksum }),
    {
        YeetBlock { index, size, checksum }
    }
}

/// A stored file as bookkeeping data.
pub struct File {
    pub id: u64,
    pub name: String,
    pub size: u64,
}

/// What a block store can report instead of doing its work.
#[derive(Debug, PartialEq, Eq)]
pub enum StorageError {
    FileNotFound,
    PermissionDenied,
    AlreadyExists,
    AbsolutePathNotAllowed,
    ParentDirSegmentNotAllowed,
    InvalidFilename,
    Unknown(Vec<u8>),
}

impl StorageError {
    /// The text of this error as shown to a peer or an operator.
    pub open spec fn text(&self) -> Seq<u8> {
        match self {
            StorageError::FileNotFound => txt_file_not_found(),
            StorageError::PermissionDenied => txt_permission_denied(),
            StorageError::AlreadyExists => txt_already_exists(),
            StorageError::AbsolutePathNotAllowed => txt_absolute_path(),
            StorageError::ParentDirSegmentNotAllowed => txt_parent_dir(),
            StorageError::InvalidFilename => txt_invalid_filename(),
            StorageError::Unknown(m) => txt_unknown_storage() + m@,
        }
    }

    /// Render the text of this error.
    pub fn message(&self) -> (r: Vec<u8>)
        ensures
            r@ == self.text(),
    {
        match self {
            StorageError::FileNotFound => txt_file_not_found_bytes(),
            StorageError::PermissionDenied => txt_permission_denied_bytes(),
            StorageError::AlreadyExists => txt_already_exists_bytes(),
            StorageError::AbsolutePathNotAllowed => txt_absolute_path_bytes(),
            StorageError::ParentDirSegmentNotAllowed => txt_parent_dir_bytes(),
            StorageError::InvalidFilename => txt_invalid_filename_bytes(),
            StorageError::Unknown(m) => {
                let mut r = txt_unknown_storage_bytes();
                append_bytes(&mut r, m.as_slice());
                r
            },
        }
    }
}

/// The interface every block store offers the command service: open a
/// staging artifact, write one block's bytes, and promote the staging
/// artifact to the final name. Implementations live outside the crate
/// (or in tests), so the methods carry no contract: callers state what
/// holds whatever an implementation returns.
pub trait StorageRepository {
    fn open_file(&mut self, filename: &[u8]) -> Result<(), StorageError>;

    fn write_block(&mut self, filename: &[u8], block: &YeetBlock, data: &[u8]) -> Result<
        (),
        StorageError,
    >;

    fn finalize(&mut self, filename: &[u8]) -> Result<(), StorageError>;
}

/// The `'/'`-separated segments of a path, empty segments kept.
pub open spec fn segments_of(p: Seq<u8>) -> Seq<Seq<u8>>
    decreases p.len(),
{
    if p.len() == 0 {
        seq![Seq::empty()]
    } else {
        let init = segments_of(p.drop_last());
        let c = p.last();
        if c == 47 {
            init.push(Seq::empty())
        } else {
            init.update(init.len() - 1, init.last().push(c))
        }
    }
}

/// A path always has at least one segment.
pub proof fn lemma_segments_nonempty(p: Seq<u8>)
    ensures
        segments_of(p).len() > 0,
    decreases p.len(),
{
    if p.len() > 0 {
        lemma_segments_nonempty(p.drop_last());
    }
}

/// The path names the filesystem root or starts from it.
pub open spec fn is_absolute_path(p: Seq<u8>) -> bool {
    p.len() > 0 && p[0] == 47
}

/// Some segment of the path is `".."`.
pub open spec fn has_parent_segment(p: Seq<u8>) -> bool {
    exists|k: int|
        0 <= k < segments_of(p).len() && #[trigger] segments_of(p)[k] == seq![46u8, 46u8]
}

/// Some segment of the path names a file or directory: it is nonempty
/// and not the `"."` segment.
pub open spec fn has_file_segment(p: Seq<u8>) -> bool {
    exists|k: int|
        0 <= k < segments_of(p).len() && (#[trigger] segments_of(p)[k]).len() > 0
            && segments_of(p)[k] != seq![46u8]
}

/// The filename rule of every store: relative paths only, no
/// parent-directory segments, and at least one real name segment.
pub open spec fn sanitize_spec(p: Seq<u8>) -> Result<(), StorageError> {
    if is_absolute_path(p) {
        Err(StorageError::AbsolutePathNotAllowed)
    } else if has_parent_segment(p) {
        Err(StorageError::ParentDirSegmentNotAllowed)
    } else if !has_file_segment(p) {
        Err(StorageError::InvalidFilename)
    } else {
        Ok(())
    }
}

/// Where `name` lives under `base`.
pub open spec fn joined_path(base: Seq<u8>, name: Seq<u8>) -> Seq<u8> {
    if base.len() == 0 {
        name
    } else if base.last() == 47 {
        base + name
    } else {
        base + seq![47u8] + name
    }
}

/// The staging artifact for `path`: the path with the staging suffix.
pub open spec fn staging_path_of(path: Seq<u8>) -> Seq<u8> {
    path + txt_staging_ext()
}

/// The byte offset at which a block's payload is stored: block index
/// times the nominal block size of 1024 bytes. `None` when the offset
/// does not fit in 64 bits.
pub fn block_offset(index: u64) -> (r: Option<u64>)
    ensures
        match r {
            Some(v) => v == index * 1024,
            None => index * 1024 > u64::MAX,
        },
{
    index.checked_mul(1024)
}

/// The filesystem-backed block store's verified half: the base
/// directory and the path and filename rules. The store's actual file
/// operations run outside the crate against these paths.
pub struct FSStorageRepository {
    base_path: Vec<u8>,
}

impl View for FSStorageRepository {
    type V = Seq<u8>;

    closed spec fn view(&self) -> Seq<u8> {
        self.base_path@
    }
}

impl FSStorageRepository {
    /// Build a store rooted at `base_path`.
    pub fn new(base_path: Vec<u8>) -> (r: FSStorageRepository)
        ensures
            r@ == base_path@,
    {
        FSStorageRepository { base_path }
    }

    /// Check a filename against the store's rules.
    pub fn sanitize_filename(filename: &[u8]) -> (r: Result<(), StorageError>)
        ensures
            r == sanitize_spec(filename@),
    {
        if filename.len() > 0 && filename[0] == 47 {
            return Err(StorageError::AbsolutePathNotAllowed);
        }
        let segs = split_segments(filename);
        let ghost ss = segments_of(filename@);
        let mut k: usize = 0;
        let mut found_file = false;
        while k < segs.len()
            invariant
                0 <= k <= segs@.len(),
                !is_absolute_path(filename@),
                ss == segments_of(filename@),
                segs@.len() == ss.len(),
                forall|j: int| 0 <= j < ss.len() ==> #[trigger] segs@[j]@ == ss[j],
                forall|j: int| 0 <= j < k ==> #[trigger] ss[j] != seq![46u8, 46u8],
                found_file == exists|j: int|
                    0 <= j < k && (#[trigger] ss[j]).len() > 0 && ss[j] != seq![46u8],
            decreases segs@.len() - k,
        {
            let s = &segs[k];
            if s.len() == 2 && s[0] == 46 && s[1] == 46 {
                proof {
                    assert(ss[k as int] =~= seq![46u8, 46u8]);
                }
                return Err(StorageError::ParentDirSegmentNotAllowed);
            }
            proof {
                assert(ss[k as int] != seq![46u8, 46u8]) by {
                    if ss[k as int] == seq![46u8, 46u8] {
                        assert(segs@[k as int]@.len() == 2);
                        assert(segs@[k as int]@[0] == 46u8);
                        assert(segs@[k as int]@[1] == 46u8);
                    }
                }
            }
            if s.len() > 0 && !(s.len() == 1 && s[0] == 46) {
                proof {
                    assert(ss[k as int] != seq![46u8]) by {
                        if ss[k as int] == seq![46u8] {
                            assert(segs@[k as int]@.len() == 1);
                            assert(segs@[k as int]@[0] == 46u8);
                        }
                    }
                }
                found_file = true;
            } else {
                proof {
                    if segs@[k as int]@.len() == 1 && segs@[k as int]@[0] == 46 {
                        assert(ss[k as int] =~= seq![46u8]);
                    }
                }
            }
            k = k + 1;
        }
        if found_file {
            Ok(())
        } else {
            Err(StorageError::InvalidFilename)
        }
    }

    /// The final path of `filename` under the store's base directory.
    pub fn file_path_for(&self, filename: &[u8]) -> (r: Vec<u8>)
        ensures
            r@ == joined_path(self@, filename@),
    {
        let mut r: Vec<u8> = Vec::new();
        append_bytes(&mut r, self.base_path.as_slice());
        if self.base_path.len() > 0 {
            let last = self.base_path[self.base_path.len() - 1];
            if last != 47 {
                r.push(47);
            }
        }
        append_bytes(&mut r, filename);
        proof {
            if self.base_path@.len() == 0 {
                assert(r@ =~= filename@);
            } else if self.base_path@.last() == 47 {
                assert(r@ =~= self.base_path@ + filename@);
            } else {
                assert(r@ =~= self.base_path@ + seq![47u8] + filename@);
            }
        }
        r
    }

    /// The staging path of `filename` under the store's base directory.
    pub fn staging_path_for(&self, filename: &[u8]) -> (r: Vec<u8>)
        ensures
            r@ == staging_path_of(joined_path(self@, filename@)),
    {
        let mut r = self.file_path_for(filename);
        let ext = txt_staging_ext_bytes();
        append_bytes(&mut r, ext.as_slice());
        r
    }
}

/// Split a path into its `'/'`-separated segments, empty segments kept.
pub fn split_segments(p: &[u8]) -> (segs: Vec<Vec<u8>>)
    ensures
        segs@.len() == segments_of(p@).len(),
        forall|j: int| 0 <= j < segs@.len() ==> #[trigger] segs@[j]@ == segments_of(p@)[j],
{
    let mut segs: Vec<Vec<u8>> = Vec::new();
    segs.push(Vec::new());
    let mut i: usize = 0;
    while i < p.len()
        invariant
            0 <= i <= p@.len(),
            segs@.len() == segments_of(p@.subrange(0, i as int)).len(),
            segs@.len() > 0,
            forall|j: int|
                0 <= j < segs@.len() ==> #[trigger] segs@[j]@ == segments_of(
                    p@.subrange(0, i as int),
                )[j],
        decreases p@.len() - i,
    {
        let ghost pfx = p@.subrange(0, i as int);
        let ghost pfx1 = p@.subrange(0, i as int + 1);
        proof {
            assert(pfx1.drop_last() =~= pfx);
            assert(pfx1.last() == p@[i as int]);
            lemma_segments_nonempty(pfx);
        }
        let c = p[i];
        if c == 47 {
            segs.push(Vec::new());
        } else {
            let mut s = segs.pop().unwrap();
            s.push(c);
            segs.push(s);
        }
        i = i + 1;
    }
    proof {
        assert(p@.subrange(0, p@.len() as int) =~= p@);
    }
    segs
}

} // verus!
