//! The handle and its dispatch data.
//!
//! A [`FileHandle`] is the single value that stands for one type-erased
//! writable stream.  Its header data - the allocation layout, the per-type
//! identity token and the poison flag - form the [`DispatchTable`]; the
//! token is carried by the payload union's tag, and the type-specialized
//! destroy/write/flush entries are the dispatch arms over that tag.  All
//! interaction with the payload goes through the handle's three entry
//! points, which also run the poison protocol: an operation that terminates
//! abnormally flips the handle to poisoned, every later operation fails
//! immediately without touching the payload, and destroy then reclaims only
//! the raw memory instead of running the payload's destructor.
//!
//! A payload the library itself cannot call - a real stream behind the
//! boundary, marked [`ExternalWriter`] - takes the protocol in two verified
//! steps instead: [`FileHandle::check_live`] before the stream is invoked
//! (a poisoned handle rejects the call and the stream must not be touched),
//! and [`FileHandle::apply_write_event`] / [`FileHandle::apply_flush_event`]
//! with the [`OpStatus`] event the invocation produced, an abnormal
//! termination caught outside included.  The caller must hold the handle
//! exclusively across the two steps, which a `&mut` borrow already forces.

use crate::layout::LayoutDesc;
use crate::payload::{ExternalWriter, OpStatus, Payload, PayloadSlot, token_of};
use vstd::layout::{align_of, layout_for_type_is_valid, size_of};
use vstd::prelude::*;

verus! {

/// The per-concrete-type dispatch data: what a handle's header holds.
///
/// `layout` describes the full allocation a boxed handle occupies, so the
/// raw memory can be reclaimed even when the payload's destructor must not
/// run.  `type_token` identifies the concrete payload type within one
/// program build.  `poisoned` starts false and is set the first time a
/// dispatched operation terminates abnormally.
#[derive(Clone, Copy, Debug, PartialEq, Eq, Structural)]
pub struct DispatchTable {
    pub layout: LayoutDesc,
    pub type_token: u64,
    pub poisoned: bool,
}

/// One error of a dispatched operation.
#[derive(Clone, Copy, Debug, PartialEq, Eq, Structural)]
pub enum StreamError {
    /// The payload failed in the ordinary way, with a platform error code.
    Io { code: i32 },
    /// This very call terminated abnormally; the handle is now poisoned.
    Poisoned,
    /// An earlier call poisoned the handle; the payload was not touched.
    AlreadyPoisoned,
}

impl StreamError {
    /// A short, fixed description of the error, in place of a display
    /// implementation.
    pub fn description(&self) -> (s: &'static str)
        ensures
            self is Io ==> s@ == "the stream failed with a platform error code"@,
            self is Poisoned ==> s@ == "A panic occurred"@,
            self is AlreadyPoisoned ==> s@
                == "A panic occurred and this object is now poisoned"@,
    {
        match self {
            StreamError::Io { .. } => "the stream failed with a platform error code",
            StreamError::Poisoned => "A panic occurred",
            StreamError::AlreadyPoisoned => "A panic occurred and this object is now poisoned",
        }
    }
}

/// What destroying a handle did.
#[derive(Clone, Copy, Debug, PartialEq, Eq, Structural)]
pub enum DestroyOutcome {
    /// The payload's destructor ran and the allocation was released.
    DestructorRan { type_token: u64 },
    /// The handle was poisoned: only the raw memory of the recorded layout
    /// was reclaimed, and the payload was deliberately leaked.
    MemoryReclaimed { layout: LayoutDesc },
}

/// The type-erased handle to one owned writable stream.
///
/// The value combines the header (the [`DispatchTable`] data) with the
/// erased payload slot; passing it around plays the role the raw header
/// pointer plays across a language boundary.
pub struct FileHandle {
    pub(crate) layout: LayoutDesc,
    pub(crate) poisoned: bool,
    pub(crate) payload: PayloadSlot,
}

impl FileHandle {
    /// The recorded allocation layout.
    pub closed spec fn spec_layout(self) -> LayoutDesc {
        self.layout
    }

    /// Whether the handle is poisoned.
    pub closed spec fn is_poisoned(self) -> bool {
        self.poisoned
    }

    /// The stored payload.
    pub closed spec fn spec_payload(self) -> PayloadSlot {
        self.payload
    }

    /// The type-identity token: the payload union's tag.
    pub open spec fn spec_token(self) -> u64 {
        token_of(self.spec_payload())
    }

    /// The handle's header, seen as one dispatch table record.
    pub open spec fn dispatch_table(self) -> DispatchTable {
        DispatchTable {
            layout: self.spec_layout(),
            type_token: self.spec_token(),
            poisoned: self.is_poisoned(),
        }
    }

    /// The dispatch table for payload type `W`: a fresh, unpoisoned header
    /// recording `W`'s identity token and the layout of the allocation a
    /// handle occupies.
    pub fn vtable<W: Payload>() -> (t: DispatchTable)
        ensures
            t.type_token == W::token(),
            !t.poisoned,
            t.layout.size as nat == size_of::<FileHandle>(),
            t.layout.align as nat == align_of::<FileHandle>(),
            t.layout.wf(),
    {
        layout_for_type_is_valid::<FileHandle>();
        DispatchTable {
            layout: LayoutDesc {
                size: core::mem::size_of::<FileHandle>(),
                align: core::mem::align_of::<FileHandle>(),
            },
            type_token: W::token_value(),
            poisoned: false,
        }
    }

    /// Build a handle around any writer: the internal construction path.
    /// The fresh handle is unpoisoned, carries `W`'s identity token, and
    /// stores exactly the given payload.
    pub fn for_writer<W: Payload>(writer: W) -> (h: FileHandle)
        ensures
            h.spec_token() == W::token(),
            h.spec_payload() == writer.as_slot(),
            !h.is_poisoned(),
            h.spec_layout().size as nat == size_of::<FileHandle>(),
            h.spec_layout().align as nat == align_of::<FileHandle>(),
            h.spec_layout().wf(),
    {
        proof {
            writer.token_matches();
        }
        let t = Self::vtable::<W>();
        FileHandle { layout: t.layout, poisoned: t.poisoned, payload: writer.into_slot() }
    }

    /// The write entry point: dispatch one write under the poison protocol.
    /// It serves the payloads the library can call itself; a handle over an
    /// external stream takes [`Self::check_live`] and
    /// [`Self::apply_write_event`] instead, since only the stream's holder
    /// can invoke it.
    pub fn write(&mut self, data: &[u8]) -> (r: Result<usize, StreamError>)
        requires
            !(old(self).spec_payload() is External),
        ensures
            write_post(*old(self), data@, *final(self), r),
    {
        if self.poisoned {
            return Err(StreamError::AlreadyPoisoned);
        }
        match self.payload.dispatch_write(data) {
            OpStatus::Completed(n) => Ok(n),
            OpStatus::Failed(code) => Err(StreamError::Io { code }),
            OpStatus::Aborted => {
                self.poisoned = true;
                Err(StreamError::Poisoned)
            },
        }
    }

    /// The flush entry point: dispatch one flush under the poison protocol;
    /// as with [`Self::write`], a handle over an external stream takes the
    /// event path instead.
    pub fn flush(&mut self) -> (r: Result<(), StreamError>)
        requires
            !(old(self).spec_payload() is External),
        ensures
            flush_post(*old(self), *final(self), r),
    {
        if self.poisoned {
            return Err(StreamError::AlreadyPoisoned);
        }
        match self.payload.dispatch_flush() {
            OpStatus::Completed(()) => Ok(()),
            OpStatus::Failed(code) => Err(StreamError::Io { code }),
            OpStatus::Aborted => {
                self.poisoned = true;
                Err(StreamError::Poisoned)
            },
        }
    }

    /// The pre-dispatch half of the poison protocol for an externally
    /// dispatched operation: whether the payload may be invoked at all.  On
    /// a poisoned handle the answer is the distinguished error and the
    /// stream must not be touched; the caller then reports that error
    /// without producing an event.
    pub fn check_live(&self) -> (r: Result<(), StreamError>)
        ensures
            r == if self.is_poisoned() {
                Err::<(), StreamError>(StreamError::AlreadyPoisoned)
            } else {
                Ok::<(), StreamError>(())
            },
    {
        if self.poisoned {
            Err(StreamError::AlreadyPoisoned)
        } else {
            Ok(())
        }
    }

    /// The post-dispatch half for one externally dispatched write: apply the
    /// event the invocation produced.  An abnormal termination poisons the
    /// handle and surfaces as the distinguished error; on a handle already
    /// poisoned the event is discarded and the call rejected, whatever it
    /// was.  The payload slot is never touched.
    pub fn apply_write_event(&mut self, ev: OpStatus<usize>) -> (r: Result<usize, StreamError>)
        ensures
            write_event_post(*old(self), ev, *final(self), r),
    {
        if self.poisoned {
            return Err(StreamError::AlreadyPoisoned);
        }
        match ev {
            OpStatus::Completed(n) => Ok(n),
            OpStatus::Failed(code) => Err(StreamError::Io { code }),
            OpStatus::Aborted => {
                self.poisoned = true;
                Err(StreamError::Poisoned)
            },
        }
    }

    /// The post-dispatch half for one externally dispatched flush; see
    /// [`Self::apply_write_event`].
    pub fn apply_flush_event(&mut self, ev: OpStatus<()>) -> (r: Result<(), StreamError>)
        ensures
            flush_event_post(*old(self), ev, *final(self), r),
    {
        if self.poisoned {
            return Err(StreamError::AlreadyPoisoned);
        }
        match ev {
            OpStatus::Completed(()) => Ok(()),
            OpStatus::Failed(code) => Err(StreamError::Io { code }),
            OpStatus::Aborted => {
                self.poisoned = true;
                Err(StreamError::Poisoned)
            },
        }
    }

    /// The destroy entry point.  On a live handle the payload's destructor
    /// runs, exactly once, as the payload is consumed here.  On a poisoned
    /// handle the payload's state is unknown, so its destructor is skipped:
    /// the payload is deliberately leaked and only the raw memory of the
    /// recorded layout is given back.
    pub fn destroy(self) -> (r: DestroyOutcome)
        ensures
            destroy_post(self, r),
    {
        let FileHandle { layout, poisoned, payload } = self;
        if poisoned {
            // Containment over correctness: leaking beats running a
            // destructor on a payload a failed operation left behind.
            let _leaked = core::mem::ManuallyDrop::new(payload);
            DestroyOutcome::MemoryReclaimed { layout }
        } else {
            let type_token = payload.type_token();
            DestroyOutcome::DestructorRan { type_token }
        }
    }

    /// Whether the stored payload has concrete type `W`: the token check
    /// every downcast runs before it narrows.
    pub fn is<W: Payload>(&self) -> (r: bool)
        ensures
            r == (self.spec_token() == W::token()),
    {
        let t = W::token_value();
        self.payload.type_token() == t
    }

    /// Borrow the payload as a `W`, when that is its concrete type.
    pub fn downcast_ref<W: Payload>(&self) -> (r: Option<&W>)
        ensures
            (r is Some) <==> (self.spec_token() == W::token()),
            r matches Some(w) ==> (*w).as_slot() == self.spec_payload(),
    {
        W::slot_ref(&self.payload)
    }

    /// Borrow the payload exclusively as a `W`, when that is its concrete
    /// type.  The borrow can change the payload's value, never its type,
    /// and the rest of the handle stays as it was.
    pub fn downcast_mut<W: Payload>(&mut self) -> (r: Option<&mut W>)
        ensures
            (r is Some) <==> (old(self).spec_token() == W::token()),
            final(self).spec_token() == old(self).spec_token(),
            final(self).spec_layout() == old(self).spec_layout(),
            final(self).is_poisoned() == old(self).is_poisoned(),
            r matches Some(w) ==> (*final(w)).as_slot() == final(self).spec_payload(),
            r is None ==> *final(self) == *old(self),
    {
        W::slot_mut(&mut self.payload)
    }

    /// Take the payload out as a `W`, when that is its concrete type; the
    /// handle is consumed and only its memory is released, so the payload's
    /// destructor does not run here.  On a token mismatch the handle comes
    /// back unchanged, and nothing was mutated or destroyed.
    pub fn downcast<W: Payload>(self) -> (r: Result<W, FileHandle>)
        ensures
            self.spec_token() == W::token() ==> (r matches Ok(w) && w.as_slot()
                == self.spec_payload()),
            self.spec_token() != W::token() ==> (r matches Err(h) && h == self),
    {
        let FileHandle { layout, poisoned, payload } = self;
        match W::try_from_slot(payload) {
            Ok(w) => Ok(w),
            Err(back) => Err(FileHandle { layout, poisoned, payload: back }),
        }
    }
}

/// Full specification of one write through a handle.
///
/// The handle's identity (token and layout) survives every operation.  A
/// poisoned handle rejects the call without touching the payload.  A live
/// handle dispatches, and the outcome is exact for every payload the
/// library can call; an abnormal termination poisons the handle and
/// surfaces as the distinguished [`StreamError::Poisoned`] error.  A handle
/// over an external stream never comes through here - its operations enter
/// as events, specified by [`write_event_post`].
pub open spec fn write_post(
    pre: FileHandle,
    data: Seq<u8>,
    post: FileHandle,
    r: Result<usize, StreamError>,
) -> bool {
    &&& post.spec_token() == pre.spec_token()
    &&& post.spec_layout() == pre.spec_layout()
    &&& pre.is_poisoned() ==> post == pre && r == Err::<usize, StreamError>(
        StreamError::AlreadyPoisoned,
    )
    &&& !pre.is_poisoned() ==> match pre.spec_payload() {
        PayloadSlot::Null(_) => post == pre && r == Ok::<usize, StreamError>(
            data.len() as usize,
        ),
        PayloadSlot::Sink(b) => {
            &&& !post.is_poisoned()
            &&& post.spec_payload() matches PayloadSlot::Sink(b2) && b2.contents() == b.contents()
                + data
            &&& r == Ok::<usize, StreamError>(data.len() as usize)
        },
        PayloadSlot::Faulty(f) => post == pre && r == Err::<usize, StreamError>(
            StreamError::Io { code: f.error_code() },
        ),
        PayloadSlot::Aborting(_) => {
            &&& post.spec_payload() == pre.spec_payload()
            &&& post.is_poisoned()
            &&& r == Err::<usize, StreamError>(StreamError::Poisoned)
        },
        PayloadSlot::External(_) => false,
    }
}

/// Full specification of one flush through a handle; see [`write_post`].
pub open spec fn flush_post(
    pre: FileHandle,
    post: FileHandle,
    r: Result<(), StreamError>,
) -> bool {
    &&& post.spec_token() == pre.spec_token()
    &&& post.spec_layout() == pre.spec_layout()
    &&& pre.is_poisoned() ==> post == pre && r == Err::<(), StreamError>(
        StreamError::AlreadyPoisoned,
    )
    &&& !pre.is_poisoned() ==> match pre.spec_payload() {
        PayloadSlot::Null(_) => post == pre && r == Ok::<(), StreamError>(()),
        PayloadSlot::Sink(_) => post == pre && r == Ok::<(), StreamError>(()),
        PayloadSlot::Faulty(f) => post == pre && r == Err::<(), StreamError>(
            StreamError::Io { code: f.error_code() },
        ),
        PayloadSlot::Aborting(_) => {
            &&& post.spec_payload() == pre.spec_payload()
            &&& post.is_poisoned()
            &&& r == Err::<(), StreamError>(StreamError::Poisoned)
        },
        PayloadSlot::External(_) => false,
    }
}

/// Full specification of destroying a handle: a live handle runs its
/// payload's destructor; a poisoned one reclaims only the raw memory.
pub open spec fn destroy_post(pre: FileHandle, r: DestroyOutcome) -> bool {
    &&& !pre.is_poisoned() ==> r == DestroyOutcome::DestructorRan {
        type_token: pre.spec_token(),
    }
    &&& pre.is_poisoned() ==> r == DestroyOutcome::MemoryReclaimed { layout: pre.spec_layout() }
}

/// Full specification of applying one externally dispatched write event:
/// the identity and the stored payload survive; a poisoned handle discards
/// the event and rejects the call; on a live handle a completion hands the
/// count through, a failure carries its platform code, and an abnormal
/// termination poisons the handle and surfaces as the distinguished error.
pub open spec fn write_event_post(
    pre: FileHandle,
    ev: OpStatus<usize>,
    post: FileHandle,
    r: Result<usize, StreamError>,
) -> bool {
    &&& post.spec_token() == pre.spec_token()
    &&& post.spec_layout() == pre.spec_layout()
    &&& post.spec_payload() == pre.spec_payload()
    &&& pre.is_poisoned() ==> post == pre && r == Err::<usize, StreamError>(
        StreamError::AlreadyPoisoned,
    )
    &&& !pre.is_poisoned() ==> match ev {
        OpStatus::Completed(n) => post == pre && r == Ok::<usize, StreamError>(n),
        OpStatus::Failed(code) => post == pre && r == Err::<usize, StreamError>(
            StreamError::Io { code },
        ),
        OpStatus::Aborted => post.is_poisoned() && r == Err::<usize, StreamError>(
            StreamError::Poisoned,
        ),
    }
}

/// Full specification of applying one externally dispatched flush event;
/// see [`write_event_post`].
pub open spec fn flush_event_post(
    pre: FileHandle,
    ev: OpStatus<()>,
    post: FileHandle,
    r: Result<(), StreamError>,
) -> bool {
    &&& post.spec_token() == pre.spec_token()
    &&& post.spec_layout() == pre.spec_layout()
    &&& post.spec_payload() == pre.spec_payload()
    &&& pre.is_poisoned() ==> post == pre && r == Err::<(), StreamError>(
        StreamError::AlreadyPoisoned,
    )
    &&& !pre.is_poisoned() ==> match ev {
        OpStatus::Completed(_) => post == pre && r == Ok::<(), StreamError>(()),
        OpStatus::Failed(code) => post == pre && r == Err::<(), StreamError>(
            StreamError::Io { code },
        ),
        OpStatus::Aborted => post.is_poisoned() && r == Err::<(), StreamError>(
            StreamError::Poisoned,
        ),
    }
}

/// Law: a handle that stores a payload of concrete type `W` carries `W`'s
/// identity token - so `is::<W>` holds of a handle the moment it is built
/// for a `W`, whichever construction path built it.
pub proof fn lemma_fresh_handle_identity<W: Payload>(w: W, h: FileHandle)
    requires
        h.spec_payload() == w.as_slot(),
    ensures
        h.spec_token() == W::token(),
{
    w.token_matches();
}

/// Law: a handle's type identity is set at construction and survives every
/// write - whatever the outcome, the token (and the recorded layout) after
/// the call equal those before it.
pub proof fn lemma_write_keeps_type_identity(
    pre: FileHandle,
    data: Seq<u8>,
    post: FileHandle,
    r: Result<usize, StreamError>,
)
    requires
        write_post(pre, data, post, r),
    ensures
        post.spec_token() == pre.spec_token(),
        post.spec_layout() == pre.spec_layout(),
{
}

/// Law: a handle's type identity survives every flush; see
/// [`lemma_write_keeps_type_identity`].
pub proof fn lemma_flush_keeps_type_identity(
    pre: FileHandle,
    post: FileHandle,
    r: Result<(), StreamError>,
)
    requires
        flush_post(pre, post, r),
    ensures
        post.spec_token() == pre.spec_token(),
        post.spec_layout() == pre.spec_layout(),
{
}

/// Law: when a live handle's dispatched write terminates abnormally, the
/// handle becomes poisoned, the failure surfaces as the distinguished
/// [`StreamError::Poisoned`] error, and the stored payload is left in
/// place (its destructor must not run any more).
pub proof fn lemma_abnormal_termination_poisons(
    pre: FileHandle,
    data: Seq<u8>,
    post: FileHandle,
    r: Result<usize, StreamError>,
)
    requires
        !pre.is_poisoned(),
        pre.spec_payload() is Aborting,
        write_post(pre, data, post, r),
    ensures
        post.is_poisoned(),
        r == Err::<usize, StreamError>(StreamError::Poisoned),
        post.spec_payload() == pre.spec_payload(),
{
}

/// Law: a poisoned handle rejects every write immediately with the
/// distinguished [`StreamError::AlreadyPoisoned`] error, and the payload is
/// not invoked - the handle, payload included, stays exactly as it was.
pub proof fn lemma_poisoned_write_is_inert(
    pre: FileHandle,
    data: Seq<u8>,
    post: FileHandle,
    r: Result<usize, StreamError>,
)
    requires
        pre.is_poisoned(),
        write_post(pre, data, post, r),
    ensures
        post == pre,
        r == Err::<usize, StreamError>(StreamError::AlreadyPoisoned),
{
}

/// Law: a poisoned handle rejects every flush immediately; see
/// [`lemma_poisoned_write_is_inert`].
pub proof fn lemma_poisoned_flush_is_inert(
    pre: FileHandle,
    post: FileHandle,
    r: Result<(), StreamError>,
)
    requires
        pre.is_poisoned(),
        flush_post(pre, post, r),
    ensures
        post == pre,
        r == Err::<(), StreamError>(StreamError::AlreadyPoisoned),
{
}

/// Law: destroying a live handle runs the payload's destructor - the
/// outcome names the destroyed payload's type, and since destroy consumes
/// the handle, it can happen only once.
pub proof fn lemma_live_destroy_runs_destructor(pre: FileHandle, o: DestroyOutcome)
    requires
        !pre.is_poisoned(),
        destroy_post(pre, o),
    ensures
        o == (DestroyOutcome::DestructorRan { type_token: pre.spec_token() }),
{
}

/// Law: destroying a poisoned handle does not run the payload's destructor;
/// only the raw memory of the recorded layout is reclaimed.
pub proof fn lemma_poisoned_destroy_skips_destructor(pre: FileHandle, o: DestroyOutcome)
    requires
        pre.is_poisoned(),
        destroy_post(pre, o),
    ensures
        o == (DestroyOutcome::MemoryReclaimed { layout: pre.spec_layout() }),
        !(o is DestructorRan),
{
}

/// Law: when an externally dispatched operation terminates abnormally, its
/// event poisons the handle and the failure surfaces as the distinguished
/// [`StreamError::Poisoned`] error, with the stored payload left in place -
/// so the containment of spec-level panic events holds for real streams,
/// whose invocations happen outside and report back as events.
pub proof fn lemma_abnormal_event_poisons(
    pre: FileHandle,
    ev: OpStatus<usize>,
    post: FileHandle,
    r: Result<usize, StreamError>,
)
    requires
        !pre.is_poisoned(),
        ev is Aborted,
        write_event_post(pre, ev, post, r),
    ensures
        post.is_poisoned(),
        r == Err::<usize, StreamError>(StreamError::Poisoned),
        post.spec_payload() == pre.spec_payload(),
{
}

/// Law: a poisoned handle rejects every externally dispatched event, and
/// together with [`FileHandle::check_live`]'s contract the stream behind it
/// is never invoked again: the check answers the distinguished error before
/// any invocation, and whatever event is applied anyway is discarded.
pub proof fn lemma_poisoned_event_is_inert(
    pre: FileHandle,
    ev: OpStatus<usize>,
    post: FileHandle,
    r: Result<usize, StreamError>,
)
    requires
        pre.is_poisoned(),
        write_event_post(pre, ev, post, r),
    ensures
        post == pre,
        r == Err::<usize, StreamError>(StreamError::AlreadyPoisoned),
{
}

} // verus!
