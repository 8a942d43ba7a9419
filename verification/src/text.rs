//! The fixed byte strings of the wire protocol: command words and the
//! texts of the error reasons, each as a spec constant with its
//! executable counterpart.

use vstd::prelude::*;

verus! {

/// The bytes of `"HELLO"`: the command word of a file announcement.
pub open spec fn tag_hello() -> Seq<u8> {
    seq![72u8, 69u8, 76u8, 76u8, 79u8]
}

/// The bytes of `"HELLO"`: the command word of a file announcement.
pub fn tag_hello_bytes() -> (r: Vec<u8>)
    ensures
        r@ == tag_hello(),
{
    let r: Vec<u8> = vec![72u8, 69u8, 76u8, 76u8, 79u8];
    proof {
        assert(r@ =~= tag_hello());
    }
    r
}

/// The bytes of `"OK"`: the plain acknowledgement.
pub open spec fn tag_ok() -> Seq<u8> {
    seq![79u8, 75u8]
}

/// The bytes of `"OK"`: the plain acknowledgement.
pub fn tag_ok_bytes() -> (r: Vec<u8>)
    ensures
        r@ == tag_ok(),
{
    let r: Vec<u8> = vec![79u8, 75u8];
    proof {
        assert(r@ =~= tag_ok());
    }
    r
}

/// The bytes of `"NOPE"`: the refusal command word.
pub open spec fn tag_nope() -> Seq<u8> {
    seq![78u8, 79u8, 80u8, 69u8]
}

/// The bytes of `"NOPE"`: the refusal command word.
pub fn tag_nope_bytes() -> (r: Vec<u8>)
    ensures
        r@ == tag_nope(),
{
    let r: Vec<u8> = vec![78u8, 79u8, 80u8, 69u8];
    proof {
        assert(r@ =~= tag_nope());
    }
    r
}

/// The bytes of `"YEET"`: the block-header command word.
pub open spec fn tag_yeet() -> Seq<u8> {
    seq![89u8, 69u8, 69u8, 84u8]
}

/// The bytes of `"YEET"`: the block-header command word.
pub fn tag_yeet_bytes() -> (r: Vec<u8>)
    ensures
        r@ == tag_yeet(),
{
    let r: Vec<u8> = vec![89u8, 69u8, 69u8, 84u8];
    proof {
        assert(r@ =~= tag_yeet());
    }
    r
}

/// The bytes of `"OK-HOUSTEN"`: the block acknowledgement command word.
pub open spec fn tag_ok_housten() -> Seq<u8> {
    seq![79u8, 75u8, 45u8, 72u8, 79u8, 85u8, 83u8, 84u8, 69u8, 78u8]
}

/// The bytes of `"OK-HOUSTEN"`: the block acknowledgement command word.
pub fn tag_ok_housten_bytes() -> (r: Vec<u8>)
    ensures
        r@ == tag_ok_housten(),
{
    let r: Vec<u8> = vec![79u8, 75u8, 45u8, 72u8, 79u8, 85u8, 83u8, 84u8, 69u8, 78u8];
    proof {
        assert(r@ =~= tag_ok_housten());
    }
    r
}

/// The bytes of `"MISSION-ACCOMPLISHED"`: the end-of-transfer command word.
pub open spec fn tag_mission() -> Seq<u8> {
    seq![77u8, 73u8, 83u8, 83u8, 73u8, 79u8, 78u8, 45u8, 65u8, 67u8, 67u8, 79u8, 77u8, 80u8, 76u8, 73u8, 83u8, 72u8, 69u8, 68u8]
}

/// The bytes of `"MISSION-ACCOMPLISHED"`: the end-of-transfer command word.
pub fn tag_mission_bytes() -> (r: Vec<u8>)
    ensures
        r@ == tag_mission(),
{
    let r: Vec<u8> = vec![77u8, 73u8, 83u8, 83u8, 73u8, 79u8, 78u8, 45u8, 65u8, 67u8, 67u8, 79u8, 77u8, 80u8, 76u8, 73u8, 83u8, 72u8, 69u8, 68u8];
    proof {
        assert(r@ =~= tag_mission());
    }
    r
}

/// The bytes of `"SUCCESS"`: the finalize acknowledgement.
pub open spec fn tag_success() -> Seq<u8> {
    seq![83u8, 85u8, 67u8, 67u8, 69u8, 83u8, 83u8]
}

/// The bytes of `"SUCCESS"`: the finalize acknowledgement.
pub fn tag_success_bytes() -> (r: Vec<u8>)
    ensures
        r@ == tag_success(),
{
    let r: Vec<u8> = vec![83u8, 85u8, 67u8, 67u8, 69u8, 83u8, 83u8];
    proof {
        assert(r@ =~= tag_success());
    }
    r
}

/// The bytes of `"ERROR"`: the error command word as decoded.
pub open spec fn tag_error() -> Seq<u8> {
    seq![69u8, 82u8, 82u8, 79u8, 82u8]
}

/// The bytes of `"ERROR"`: the error command word as decoded.
pub fn tag_error_bytes() -> (r: Vec<u8>)
    ensures
        r@ == tag_error(),
{
    let r: Vec<u8> = vec![69u8, 82u8, 82u8, 79u8, 82u8];
    proof {
        assert(r@ =~= tag_error());
    }
    r
}

/// The bytes of `"ERROR:"`: the error command word as encoded.
pub open spec fn tag_error_colon() -> Seq<u8> {
    seq![69u8, 82u8, 82u8, 79u8, 82u8, 58u8]
}

/// The bytes of `"ERROR:"`: the error command word as encoded.
pub fn tag_error_colon_bytes() -> (r: Vec<u8>)
    ensures
        r@ == tag_error_colon(),
{
    let r: Vec<u8> = vec![69u8, 82u8, 82u8, 79u8, 82u8, 58u8];
    proof {
        assert(r@ =~= tag_error_colon());
    }
    r
}

/// The bytes of `"Invalid UTF-8 sequence"`.
pub open spec fn txt_invalid_utf8() -> Seq<u8> {
    seq![73u8, 110u8, 118u8, 97u8, 108u8, 105u8, 100u8, 32u8, 85u8, 84u8, 70u8, 45u8, 56u8, 32u8, 115u8, 101u8, 113u8, 117u8, 101u8, 110u8, 99u8, 101u8]
}

/// The bytes of `"Invalid UTF-8 sequence"`.
pub fn txt_invalid_utf8_bytes() -> (r: Vec<u8>)
    ensures
        r@ == txt_invalid_utf8(),
{
    let r: Vec<u8> = vec![73u8, 110u8, 118u8, 97u8, 108u8, 105u8, 100u8, 32u8, 85u8, 84u8, 70u8, 45u8, 56u8, 32u8, 115u8, 101u8, 113u8, 117u8, 101u8, 110u8, 99u8, 101u8];
    proof {
        assert(r@ =~= txt_invalid_utf8());
    }
    r
}

/// The bytes of `"Invalid command"`.
pub open spec fn txt_invalid_command() -> Seq<u8> {
    seq![73u8, 110u8, 118u8, 97u8, 108u8, 105u8, 100u8, 32u8, 99u8, 111u8, 109u8, 109u8, 97u8, 110u8, 100u8]
}

/// The bytes of `"Invalid command"`.
pub fn txt_invalid_command_bytes() -> (r: Vec<u8>)
    ensures
        r@ == txt_invalid_command(),
{
    let r: Vec<u8> = vec![73u8, 110u8, 118u8, 97u8, 108u8, 105u8, 100u8, 32u8, 99u8, 111u8, 109u8, 109u8, 97u8, 110u8, 100u8];
    proof {
        assert(r@ =~= txt_invalid_command());
    }
    r
}

/// The bytes of `"Missing arguments"`.
pub open spec fn txt_missing_args() -> Seq<u8> {
    seq![77u8, 105u8, 115u8, 115u8, 105u8, 110u8, 103u8, 32u8, 97u8, 114u8, 103u8, 117u8, 109u8, 101u8, 110u8, 116u8, 115u8]
}

/// The bytes of `"Missing arguments"`.
pub fn txt_missing_args_bytes() -> (r: Vec<u8>)
    ensures
        r@ == txt_missing_args(),
{
    let r: Vec<u8> = vec![77u8, 105u8, 115u8, 115u8, 105u8, 110u8, 103u8, 32u8, 97u8, 114u8, 103u8, 117u8, 109u8, 101u8, 110u8, 116u8, 115u8];
    proof {
        assert(r@ =~= txt_missing_args());
    }
    r
}

/// The bytes of `"Invalid number format"`.
pub open spec fn txt_invalid_number() -> Seq<u8> {
    seq![73u8, 110u8, 118u8, 97u8, 108u8, 105u8, 100u8, 32u8, 110u8, 117u8, 109u8, 98u8, 101u8, 114u8, 32u8, 102u8, 111u8, 114u8, 109u8, 97u8, 116u8]
}

/// The bytes of `"Invalid number format"`.
pub fn txt_invalid_number_bytes() -> (r: Vec<u8>)
    ensures
        r@ == txt_invalid_number(),
{
    let r: Vec<u8> = vec![73u8, 110u8, 118u8, 97u8, 108u8, 105u8, 100u8, 32u8, 110u8, 117u8, 109u8, 98u8, 101u8, 114u8, 32u8, 102u8, 111u8, 114u8, 109u8, 97u8, 116u8];
    proof {
        assert(r@ =~= txt_invalid_number());
    }
    r
}

/// The bytes of `"Incomplete command"`.
pub open spec fn txt_incomplete() -> Seq<u8> {
    seq![73u8, 110u8, 99u8, 111u8, 109u8, 112u8, 108u8, 101u8, 116u8, 101u8, 32u8, 99u8, 111u8, 109u8, 109u8, 97u8, 110u8, 100u8]
}

/// The bytes of `"Incomplete command"`.
pub fn txt_incomplete_bytes() -> (r: Vec<u8>)
    ensures
        r@ == txt_incomplete(),
{
    let r: Vec<u8> = vec![73u8, 110u8, 99u8, 111u8, 109u8, 112u8, 108u8, 101u8, 116u8, 101u8, 32u8, 99u8, 111u8, 109u8, 109u8, 97u8, 110u8, 100u8];
    proof {
        assert(r@ =~= txt_incomplete());
    }
    r
}

/// The bytes of `"Command execution failed: "`.
pub open spec fn txt_exec_failed() -> Seq<u8> {
    seq![67u8, 111u8, 109u8, 109u8, 97u8, 110u8, 100u8, 32u8, 101u8, 120u8, 101u8, 99u8, 117u8, 116u8, 105u8, 111u8, 110u8, 32u8, 102u8, 97u8, 105u8, 108u8, 101u8, 100u8, 58u8, 32u8]
}

/// The bytes of `"Command execution failed: "`.
pub fn txt_exec_failed_bytes() -> (r: Vec<u8>)
    ensures
        r@ == txt_exec_failed(),
{
    let r: Vec<u8> = vec![67u8, 111u8, 109u8, 109u8, 97u8, 110u8, 100u8, 32u8, 101u8, 120u8, 101u8, 99u8, 117u8, 116u8, 105u8, 111u8, 110u8, 32u8, 102u8, 97u8, 105u8, 108u8, 101u8, 100u8, 58u8, 32u8];
    proof {
        assert(r@ =~= txt_exec_failed());
    }
    r
}

/// The bytes of `"Error transfer state is not equal Receiving"`.
pub open spec fn txt_not_receiving() -> Seq<u8> {
    seq![69u8, 114u8, 114u8, 111u8, 114u8, 32u8, 116u8, 114u8, 97u8, 110u8, 115u8, 102u8, 101u8, 114u8, 32u8, 115u8, 116u8, 97u8, 116u8, 101u8, 32u8, 105u8, 115u8, 32u8, 110u8, 111u8, 116u8, 32u8, 101u8, 113u8, 117u8, 97u8, 108u8, 32u8, 82u8, 101u8, 99u8, 101u8, 105u8, 118u8, 105u8, 110u8, 103u8]
}

/// The bytes of `"Error transfer state is not equal Receiving"`.
pub fn txt_not_receiving_bytes() -> (r: Vec<u8>)
    ensures
        r@ == txt_not_receiving(),
{
    let r: Vec<u8> = vec![69u8, 114u8, 114u8, 111u8, 114u8, 32u8, 116u8, 114u8, 97u8, 110u8, 115u8, 102u8, 101u8, 114u8, 32u8, 115u8, 116u8, 97u8, 116u8, 101u8, 32u8, 105u8, 115u8, 32u8, 110u8, 111u8, 116u8, 32u8, 101u8, 113u8, 117u8, 97u8, 108u8, 32u8, 82u8, 101u8, 99u8, 101u8, 105u8, 118u8, 105u8, 110u8, 103u8];
    proof {
        assert(r@ =~= txt_not_receiving());
    }
    r
}

/// The bytes of `"Received block index exceeds expected blocks"`.
pub open spec fn txt_too_many_blocks() -> Seq<u8> {
    seq![82u8, 101u8, 99u8, 101u8, 105u8, 118u8, 101u8, 100u8, 32u8, 98u8, 108u8, 111u8, 99u8, 107u8, 32u8, 105u8, 110u8, 100u8, 101u8, 120u8, 32u8, 101u8, 120u8, 99u8, 101u8, 101u8, 100u8, 115u8, 32u8, 101u8, 120u8, 112u8, 101u8, 99u8, 116u8, 101u8, 100u8, 32u8, 98u8, 108u8, 111u8, 99u8, 107u8, 115u8]
}

/// The bytes of `"Received block index exceeds expected blocks"`.
pub fn txt_too_many_blocks_bytes() -> (r: Vec<u8>)
    ensures
        r@ == txt_too_many_blocks(),
{
    let r: Vec<u8> = vec![82u8, 101u8, 99u8, 101u8, 105u8, 118u8, 101u8, 100u8, 32u8, 98u8, 108u8, 111u8, 99u8, 107u8, 32u8, 105u8, 110u8, 100u8, 101u8, 120u8, 32u8, 101u8, 120u8, 99u8, 101u8, 101u8, 100u8, 115u8, 32u8, 101u8, 120u8, 112u8, 101u8, 99u8, 116u8, 101u8, 100u8, 32u8, 98u8, 108u8, 111u8, 99u8, 107u8, 115u8];
    proof {
        assert(r@ =~= txt_too_many_blocks());
    }
    r
}

/// The bytes of `"Block not received. Can't proceed with next block."`.
pub open spec fn txt_block_pending() -> Seq<u8> {
    seq![66u8, 108u8, 111u8, 99u8, 107u8, 32u8, 110u8, 111u8, 116u8, 32u8, 114u8, 101u8, 99u8, 101u8, 105u8, 118u8, 101u8, 100u8, 46u8, 32u8, 67u8, 97u8, 110u8, 39u8, 116u8, 32u8, 112u8, 114u8, 111u8, 99u8, 101u8, 101u8, 100u8, 32u8, 119u8, 105u8, 116u8, 104u8, 32u8, 110u8, 101u8, 120u8, 116u8, 32u8, 98u8, 108u8, 111u8, 99u8, 107u8, 46u8]
}

/// The bytes of `"Block not received. Can't proceed with next block."`.
pub fn txt_block_pending_bytes() -> (r: Vec<u8>)
    ensures
        r@ == txt_block_pending(),
{
    let r: Vec<u8> = vec![66u8, 108u8, 111u8, 99u8, 107u8, 32u8, 110u8, 111u8, 116u8, 32u8, 114u8, 101u8, 99u8, 101u8, 105u8, 118u8, 101u8, 100u8, 46u8, 32u8, 67u8, 97u8, 110u8, 39u8, 116u8, 32u8, 112u8, 114u8, 111u8, 99u8, 101u8, 101u8, 100u8, 32u8, 119u8, 105u8, 116u8, 104u8, 32u8, 110u8, 101u8, 120u8, 116u8, 32u8, 98u8, 108u8, 111u8, 99u8, 107u8, 46u8];
    proof {
        assert(r@ =~= txt_block_pending());
    }
    r
}

/// The bytes of `"Storage error: "`.
pub open spec fn txt_storage_error() -> Seq<u8> {
    seq![83u8, 116u8, 111u8, 114u8, 97u8, 103u8, 101u8, 32u8, 101u8, 114u8, 114u8, 111u8, 114u8, 58u8, 32u8]
}

/// The bytes of `"Storage error: "`.
pub fn txt_storage_error_bytes() -> (r: Vec<u8>)
    ensures
        r@ == txt_storage_error(),
{
    let r: Vec<u8> = vec![83u8, 116u8, 111u8, 114u8, 97u8, 103u8, 101u8, 32u8, 101u8, 114u8, 114u8, 111u8, 114u8, 58u8, 32u8];
    proof {
        assert(r@ =~= txt_storage_error());
    }
    r
}

/// The bytes of `"incomplete transfer"`.
pub open spec fn txt_incomplete_transfer() -> Seq<u8> {
    seq![105u8, 110u8, 99u8, 111u8, 109u8, 112u8, 108u8, 101u8, 116u8, 101u8, 32u8, 116u8, 114u8, 97u8, 110u8, 115u8, 102u8, 101u8, 114u8]
}

/// The bytes of `"incomplete transfer"`.
pub fn txt_incomplete_transfer_bytes() -> (r: Vec<u8>)
    ensures
        r@ == txt_incomplete_transfer(),
{
    let r: Vec<u8> = vec![105u8, 110u8, 99u8, 111u8, 109u8, 112u8, 108u8, 101u8, 116u8, 101u8, 32u8, 116u8, 114u8, 97u8, 110u8, 115u8, 102u8, 101u8, 114u8];
    proof {
        assert(r@ =~= txt_incomplete_transfer());
    }
    r
}

/// The bytes of `"File not found"`.
pub open spec fn txt_file_not_found() -> Seq<u8> {
    seq![70u8, 105u8, 108u8, 101u8, 32u8, 110u8, 111u8, 116u8, 32u8, 102u8, 111u8, 117u8, 110u8, 100u8]
}

/// The bytes of `"File not found"`.
pub fn txt_file_not_found_bytes() -> (r: Vec<u8>)
    ensures
        r@ == txt_file_not_found(),
{
    let r: Vec<u8> = vec![70u8, 105u8, 108u8, 101u8, 32u8, 110u8, 111u8, 116u8, 32u8, 102u8, 111u8, 117u8, 110u8, 100u8];
    proof {
        assert(r@ =~= txt_file_not_found());
    }
    r
}

/// The bytes of `"Permission denied"`.
pub open spec fn txt_permission_denied() -> Seq<u8> {
    seq![80u8, 101u8, 114u8, 109u8, 105u8, 115u8, 115u8, 105u8, 111u8, 110u8, 32u8, 100u8, 101u8, 110u8, 105u8, 101u8, 100u8]
}

/// The bytes of `"Permission denied"`.
pub fn txt_permission_denied_bytes() -> (r: Vec<u8>)
    ensures
        r@ == txt_permission_denied(),
{
    let r: Vec<u8> = vec![80u8, 101u8, 114u8, 109u8, 105u8, 115u8, 115u8, 105u8, 111u8, 110u8, 32u8, 100u8, 101u8, 110u8, 105u8, 101u8, 100u8];
    proof {
        assert(r@ =~= txt_permission_denied());
    }
    r
}

/// The bytes of `"File already exists"`.
pub open spec fn txt_already_exists() -> Seq<u8> {
    seq![70u8, 105u8, 108u8, 101u8, 32u8, 97u8, 108u8, 114u8, 101u8, 97u8, 100u8, 121u8, 32u8, 101u8, 120u8, 105u8, 115u8, 116u8, 115u8]
}

/// The bytes of `"File already exists"`.
pub fn txt_already_exists_bytes() -> (r: Vec<u8>)
    ensures
        r@ == txt_already_exists(),
{
    let r: Vec<u8> = vec![70u8, 105u8, 108u8, 101u8, 32u8, 97u8, 108u8, 114u8, 101u8, 97u8, 100u8, 121u8, 32u8, 101u8, 120u8, 105u8, 115u8, 116u8, 115u8];
    proof {
        assert(r@ =~= txt_already_exists());
    }
    r
}

/// The bytes of `"Absolute paths are not allowed in filenames"`.
pub open spec fn txt_absolute_path() -> Seq<u8> {
    seq![65u8, 98u8, 115u8, 111u8, 108u8, 117u8, 116u8, 101u8, 32u8, 112u8, 97u8, 116u8, 104u8, 115u8, 32u8, 97u8, 114u8, 101u8, 32u8, 110u8, 111u8, 116u8, 32u8, 97u8, 108u8, 108u8, 111u8, 119u8, 101u8, 100u8, 32u8, 105u8, 110u8, 32u8, 102u8, 105u8, 108u8, 101u8, 110u8, 97u8, 109u8, 101u8, 115u8]
}

/// The bytes of `"Absolute paths are not allowed in filenames"`.
pub fn txt_absolute_path_bytes() -> (r: Vec<u8>)
    ensures
        r@ == txt_absolute_path(),
{
    let r: Vec<u8> = vec![65u8, 98u8, 115u8, 111u8, 108u8, 117u8, 116u8, 101u8, 32u8, 112u8, 97u8, 116u8, 104u8, 115u8, 32u8, 97u8, 114u8, 101u8, 32u8, 110u8, 111u8, 116u8, 32u8, 97u8, 108u8, 108u8, 111u8, 119u8, 101u8, 100u8, 32u8, 105u8, 110u8, 32u8, 102u8, 105u8, 108u8, 101u8, 110u8, 97u8, 109u8, 101u8, 115u8];
    proof {
        assert(r@ =~= txt_absolute_path());
    }
    r
}

/// The bytes of `"Parent directory segments are not allowed in filenames"`.
pub open spec fn txt_parent_dir() -> Seq<u8> {
    seq![80u8, 97u8, 114u8, 101u8, 110u8, 116u8, 32u8, 100u8, 105u8, 114u8, 101u8, 99u8, 116u8, 111u8, 114u8, 121u8, 32u8, 115u8, 101u8, 103u8, 109u8, 101u8, 110u8, 116u8, 115u8, 32u8, 97u8, 114u8, 101u8, 32u8, 110u8, 111u8, 116u8, 32u8, 97u8, 108u8, 108u8, 111u8, 119u8, 101u8, 100u8, 32u8, 105u8, 110u8, 32u8, 102u8, 105u8, 108u8, 101u8, 110u8, 97u8, 109u8, 101u8, 115u8]
}

/// The bytes of `"Parent directory segments are not allowed in filenames"`.
pub fn txt_parent_dir_bytes() -> (r: Vec<u8>)
    ensures
        r@ == txt_parent_dir(),
{
    let r: Vec<u8> = vec![80u8, 97u8, 114u8, 101u8, 110u8, 116u8, 32u8, 100u8, 105u8, 114u8, 101u8, 99u8, 116u8, 111u8, 114u8, 121u8, 32u8, 115u8, 101u8, 103u8, 109u8, 101u8, 110u8, 116u8, 115u8, 32u8, 97u8, 114u8, 101u8, 32u8, 110u8, 111u8, 116u8, 32u8, 97u8, 108u8, 108u8, 111u8, 119u8, 101u8, 100u8, 32u8, 105u8, 110u8, 32u8, 102u8, 105u8, 108u8, 101u8, 110u8, 97u8, 109u8, 101u8, 115u8];
    proof {
        assert(r@ =~= txt_parent_dir());
    }
    r
}

/// The bytes of `"Invalid filename"`.
pub open spec fn txt_invalid_filename() -> Seq<u8> {
    seq![73u8, 110u8, 118u8, 97u8, 108u8, 105u8, 100u8, 32u8, 102u8, 105u8, 108u8, 101u8, 110u8, 97u8, 109u8, 101u8]
}

/// The bytes of `"Invalid filename"`.
pub fn txt_invalid_filename_bytes() -> (r: Vec<u8>)
    ensures
        r@ == txt_invalid_filename(),
{
    let r: Vec<u8> = vec![73u8, 110u8, 118u8, 97u8, 108u8, 105u8, 100u8, 32u8, 102u8, 105u8, 108u8, 101u8, 110u8, 97u8, 109u8, 101u8];
    proof {
        assert(r@ =~= txt_invalid_filename());
    }
    r
}

/// The bytes of `"Unknown storage error: "`.
pub open spec fn txt_unknown_storage() -> Seq<u8> {
    seq![85u8, 110u8, 107u8, 110u8, 111u8, 119u8, 110u8, 32u8, 115u8, 116u8, 111u8, 114u8, 97u8, 103u8, 101u8, 32u8, 101u8, 114u8, 114u8, 111u8, 114u8, 58u8, 32u8]
}

/// The bytes of `"Unknown storage error: "`.
pub fn txt_unknown_storage_bytes() -> (r: Vec<u8>)
    ensures
        r@ == txt_unknown_storage(),
{
    let r: Vec<u8> = vec![85u8, 110u8, 107u8, 110u8, 111u8, 119u8, 110u8, 32u8, 115u8, 116u8, 111u8, 114u8, 97u8, 103u8, 101u8, 32u8, 101u8, 114u8, 114u8, 111u8, 114u8, 58u8, 32u8];
    proof {
        assert(r@ =~= txt_unknown_storage());
    }
    r
}

/// The bytes of `".ferrisshare"`: the suffix of a staging artifact.
pub open spec fn txt_staging_ext() -> Seq<u8> {
    seq![46u8, 102u8, 101u8, 114u8, 114u8, 105u8, 115u8, 115u8, 104u8, 97u8, 114u8, 101u8]
}

/// The bytes of `".ferrisshare"`: the suffix of a staging artifact.
pub fn txt_staging_ext_bytes() -> (r: Vec<u8>)
    ensures
        r@ == txt_staging_ext(),
{
    let r: Vec<u8> = vec![46u8, 102u8, 101u8, 114u8, 114u8, 105u8, 115u8, 115u8, 104u8, 97u8, 114u8, 101u8];
    proof {
        assert(r@ =~= txt_staging_ext());
    }
    r
}

/// The bytes of `"BYE-RIS"`: the goodbye command word.
pub open spec fn tag_bye_ris() -> Seq<u8> {
    seq![66u8, 89u8, 69u8, 45u8, 82u8, 73u8, 83u8]
}

/// The bytes of `"BYE-RIS"`: the goodbye command word.
pub fn tag_bye_ris_bytes() -> (r: Vec<u8>)
    ensures
        r@ == tag_bye_ris(),
{
    let r: Vec<u8> = vec![66u8, 89u8, 69u8, 45u8, 82u8, 73u8, 83u8];
    proof {
        assert(r@ =~= tag_bye_ris());
    }
    r
}

} // verus!
