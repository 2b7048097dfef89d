//! A single-value, type-erased "owned writable stream" handle.
//!
//! The crate models the classic thin-trait-object design: every concrete
//! payload type is described by a dispatch table (allocation layout, a
//! per-type identity token, a poison flag), and all interaction with a
//! payload goes through the handle's three entry points - destroy, write
//! and flush.  A handle can be taken into an owned wrapper that guarantees
//! the destroy entry point runs exactly once, offers checked downcasts back
//! to the concrete payload type, and contains failures by poisoning the
//! handle instead of propagating an abnormal termination.
//!
//! A payload the library itself cannot call - a real stream behind the
//! boundary - is held by its caller and marked [`ExternalWriter`] in the
//! handle; each of its operations enters the poison protocol as an
//! [`OpStatus`] event, abnormal terminations caught by the caller included,
//! so the containment rules are verified for real streams too.

mod boundary;
mod external;
mod file_handle;
mod layout;
mod owned;
mod payload;

pub use boundary::{
    boundary_flush_post, boundary_write_post, error_status, file_handle_destroy,
    file_handle_flush, file_handle_write, flush_status, lemma_foreign_status_round_trips,
    lemma_injected_code_surfaces_negated, spec_flush_status, spec_write_status, status_of_error,
    write_status,
};
pub use external::{
    PlacementPlan, foreign_flush_result, foreign_write_result, lemma_plan_serves_request,
    plan_placement, reserve_region,
};
pub use file_handle::{
    DestroyOutcome, DispatchTable, FileHandle, StreamError, destroy_post, flush_event_post,
    flush_post, lemma_abnormal_event_poisons, lemma_abnormal_termination_poisons,
    lemma_flush_keeps_type_identity, lemma_fresh_handle_identity,
    lemma_live_destroy_runs_destructor, lemma_poisoned_destroy_skips_destructor,
    lemma_poisoned_event_is_inert, lemma_poisoned_flush_is_inert, lemma_poisoned_write_is_inert,
    lemma_write_keeps_type_identity, write_event_post, write_post,
};
pub use layout::{LayoutDesc, fits_layout_bound, lemma_pow2_divides, lemma_round_up, round_up};
pub use owned::OwnedFileHandle;
pub use payload::{
    ABORTING_WRITER_TOKEN, AbortingWriter, BYTE_SINK_TOKEN, ByteSink, EXTERNAL_WRITER_TOKEN,
    ExternalWriter, FAULTY_WRITER_TOKEN, FaultyWriter, NULL_WRITER_TOKEN, NullWriter, OpStatus,
    Payload, PayloadSlot, slot_flush_post, slot_write_post, token_of,
};
