//! The boundary surface: the per-handle entry points in the status-code
//! convention.
//!
//! Results cross the boundary as one integer: non-negative means success
//! (the byte count for a write, zero for a flush), negative means failure -
//! a platform error code negated, or the reserved sentinel `-1` for a
//! poisoning failure, a handle already poisoned, or a malformed code.
//! Destroy never reports an error, and an absent handle is destroyed as a
//! no-op.

use crate::file_handle::{
    DestroyOutcome, FileHandle, StreamError, destroy_post, flush_post, write_post,
};
use crate::payload::PayloadSlot;
use vstd::prelude::*;

verus! {

/// The boundary status of one error: the platform code negated for an
/// ordinary failure carrying a positive code, the reserved sentinel `-1`
/// for a poisoning failure, for a handle already poisoned, and for a
/// malformed (non-positive) platform code.
pub open spec fn error_status(e: StreamError) -> int {
    match e {
        StreamError::Io { code } => if code > 0 {
            -(code as int)
        } else {
            -1
        },
        StreamError::Poisoned => -1,
        StreamError::AlreadyPoisoned => -1,
    }
}

/// Boundary status of a write result: the byte count, or a negative error
/// status.
pub open spec fn spec_write_status(r: Result<usize, StreamError>) -> int {
    match r {
        Ok(n) => n as int,
        Err(e) => error_status(e),
    }
}

/// Boundary status of a flush result: zero, or a negative error status.
pub open spec fn spec_flush_status(r: Result<(), StreamError>) -> int {
    match r {
        Ok(_) => 0,
        Err(e) => error_status(e),
    }
}

/// Translate one error to its boundary status; the status is always
/// negative, so failure is never mistaken for success.
pub fn status_of_error(e: StreamError) -> (c: i32)
    ensures
        c == error_status(e),
        c < 0,
{
    match e {
        StreamError::Io { code } => if code > 0 {
            -code
        } else {
            -1
        },
        StreamError::Poisoned => -1,
        StreamError::AlreadyPoisoned => -1,
    }
}

/// Translate a write result to the boundary convention.  Success and
/// failure are told apart by sign alone.
pub fn write_status(r: Result<usize, StreamError>) -> (c: i32)
    requires
        r matches Ok(n) ==> n <= i32::MAX,
    ensures
        c == spec_write_status(r),
        (r is Ok) <==> c >= 0,
{
    match r {
        Ok(n) => n as i32,
        Err(e) => status_of_error(e),
    }
}

/// Translate a flush result to the boundary convention.
pub fn flush_status(r: Result<(), StreamError>) -> (c: i32)
    ensures
        c == spec_flush_status(r),
        (r is Ok) <==> c >= 0,
{
    match r {
        Ok(()) => 0,
        Err(e) => status_of_error(e),
    }
}

/// Full specification of one boundary write: what [`file_handle_write`]
/// does to the handle and which status it reports.
pub open spec fn boundary_write_post(
    pre: FileHandle,
    data: Seq<u8>,
    post: FileHandle,
    c: int,
) -> bool {
    &&& post.spec_token() == pre.spec_token()
    &&& post.spec_layout() == pre.spec_layout()
    &&& pre.is_poisoned() ==> post == pre && c == -1
    &&& !pre.is_poisoned() ==> match pre.spec_payload() {
        PayloadSlot::Null(_) => post == pre && c == data.len(),
        PayloadSlot::Sink(b) => {
            &&& !post.is_poisoned()
            &&& post.spec_payload() matches PayloadSlot::Sink(b2) && b2.contents() == b.contents()
                + data
            &&& c == data.len()
        },
        PayloadSlot::Faulty(f) => post == pre && c == error_status(
            StreamError::Io { code: f.error_code() },
        ),
        PayloadSlot::Aborting(_) => {
            &&& post.spec_payload() == pre.spec_payload()
            &&& post.is_poisoned()
            &&& c == -1
        },
        PayloadSlot::External(_) => false,
    }
}

/// Full specification of one boundary flush; see [`boundary_write_post`].
pub open spec fn boundary_flush_post(pre: FileHandle, post: FileHandle, c: int) -> bool {
    &&& post.spec_token() == pre.spec_token()
    &&& post.spec_layout() == pre.spec_layout()
    &&& pre.is_poisoned() ==> post == pre && c == -1
    &&& !pre.is_poisoned() ==> match pre.spec_payload() {
        PayloadSlot::Null(_) => post == pre && c == 0,
        PayloadSlot::Sink(_) => post == pre && c == 0,
        PayloadSlot::Faulty(f) => post == pre && c == error_status(
            StreamError::Io { code: f.error_code() },
        ),
        PayloadSlot::Aborting(_) => {
            &&& post.spec_payload() == pre.spec_payload()
            &&& post.is_poisoned()
            &&& c == -1
        },
        PayloadSlot::External(_) => false,
    }
}

/// Write some data through a handle the library can dispatch itself,
/// reporting the boundary status: the number of bytes written, or a
/// negative value when writing fails.  A handle over an external stream is
/// served by its holder through [`FileHandle::check_live`] and
/// [`FileHandle::apply_write_event`], with [`write_status`] for the report.
pub fn file_handle_write(handle: &mut FileHandle, data: &[u8]) -> (c: i32)
    requires
        data@.len() <= i32::MAX,
        !(old(handle).spec_payload() is External),
    ensures
        boundary_write_post(*old(handle), data@, *final(handle), c as int),
{
    let r = handle.write(data);
    write_status(r)
}

/// Flush a handle, reporting the boundary status: zero on success, a
/// negative value on failure.
pub fn file_handle_flush(handle: &mut FileHandle) -> (c: i32)
    requires
        !(old(handle).spec_payload() is External),
    ensures
        boundary_flush_post(*old(handle), *final(handle), c as int),
{
    let r = handle.flush();
    flush_status(r)
}

/// Destroy a handle, running destructors and releasing its resources; an
/// absent handle - the boundary's null - is tolerated as a no-op.  Destroy
/// never reports an error.
pub fn file_handle_destroy(handle: Option<FileHandle>) -> (r: Option<DestroyOutcome>)
    ensures
        handle matches Some(h) ==> r matches Some(o) && destroy_post(h, o),
        handle is None ==> r is None,
{
    match handle {
        Some(h) => Some(h.destroy()),
        None => None,
    }
}

/// Law: a write whose payload fails with injected platform code `code`
/// reports exactly `-code` at the boundary and leaves the handle as it was.
pub proof fn lemma_injected_code_surfaces_negated(
    pre: FileHandle,
    data: Seq<u8>,
    post: FileHandle,
    c: int,
    code: i32,
)
    requires
        code > 0,
        !pre.is_poisoned(),
        pre.spec_payload() matches PayloadSlot::Faulty(f) && f.error_code() == code,
        boundary_write_post(pre, data, post, c),
    ensures
        c == -(code as int),
        c < 0,
        post == pre,
{
}

/// Law: a negative foreign status, translated into the native error and
/// back to a boundary status, comes out unchanged.
pub proof fn lemma_foreign_status_round_trips(ret: i32)
    requires
        i32::MIN < ret < 0,
    ensures
        error_status(StreamError::Io { code: ((-(ret as int)) as i32) }) == ret,
{
}

} // verus!
