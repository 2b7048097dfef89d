//! An owned, single-owner wrapper around a [`FileHandle`].
//!
//! The wrapper is the sanctioned way to give a loose handle ordinary
//! lifetime rules: it owns exactly one handle, its typed operations go
//! through the handle's entry points, and consuming it - by `destroy`,
//! by a successful by-value downcast, or by `into_raw` - is the only way
//! out, so the destroy entry point can never run twice for one handle.
//! Ownership is never shared or counted: moving the wrapper moves the
//! handle.
//!
//! The wrapper has no destructor of its own: one that merely falls out of
//! scope is dropped like any other value, without the poison-aware destroy
//! protocol, and a poisoned payload would then not be leaked as the
//! protocol demands.  Ending a handle's life correctly means calling
//! [`OwnedFileHandle::destroy`].

use crate::file_handle::{
    DestroyOutcome, FileHandle, StreamError, destroy_post, flush_event_post, flush_post,
    write_event_post, write_post,
};
use crate::payload::{OpStatus, Payload, PayloadSlot};
use vstd::layout::{align_of, size_of};
use vstd::prelude::*;

verus! {

/// The single-owner lifetime manager for one [`FileHandle`].
pub struct OwnedFileHandle(FileHandle);

impl OwnedFileHandle {
    /// The owned handle.
    pub closed spec fn handle(self) -> FileHandle {
        self.0
    }

    /// The owned handle's type-identity token.
    pub open spec fn spec_token(self) -> u64 {
        self.handle().spec_token()
    }

    /// The owned handle's payload.
    pub open spec fn spec_payload(self) -> PayloadSlot {
        self.handle().spec_payload()
    }

    /// Whether the owned handle is poisoned.
    pub open spec fn is_poisoned(self) -> bool {
        self.handle().is_poisoned()
    }

    /// Build a fresh handle around a writer and own it.
    pub fn new<W: Payload>(writer: W) -> (o: OwnedFileHandle)
        ensures
            o.spec_token() == W::token(),
            o.spec_payload() == writer.as_slot(),
            !o.is_poisoned(),
            o.handle().spec_layout().size as nat == size_of::<FileHandle>(),
            o.handle().spec_layout().align as nat == align_of::<FileHandle>(),
            o.handle().spec_layout().wf(),
    {
        let handle = FileHandle::for_writer(writer);
        OwnedFileHandle::from_raw(handle)
    }

    /// Take ownership of a loose handle.  The handle must not be owned
    /// elsewhere; moving it in here is what guarantees that.
    pub fn from_raw(handle: FileHandle) -> (o: OwnedFileHandle)
        ensures
            o.handle() == handle,
    {
        OwnedFileHandle(handle)
    }

    /// Give up ownership and get the loose handle back; the wrapper is
    /// consumed and will not destroy it.
    pub fn into_raw(self) -> (h: FileHandle)
        ensures
            h == self.handle(),
    {
        self.0
    }

    /// Whether the owned payload has concrete type `W`.
    pub fn is<W: Payload>(&self) -> (r: bool)
        ensures
            r == (self.spec_token() == W::token()),
    {
        self.0.is::<W>()
    }

    /// Borrow the payload as a `W`, when that is its concrete type; a
    /// wrong type reports absence and nothing is mutated or destroyed.
    pub fn downcast_ref<W: Payload>(&self) -> (r: Option<&W>)
        ensures
            (r is Some) <==> (self.spec_token() == W::token()),
            r matches Some(w) ==> (*w).as_slot() == self.spec_payload(),
    {
        self.0.downcast_ref::<W>()
    }

    /// Borrow the payload exclusively as a `W`, when that is its concrete
    /// type; a wrong type reports absence and leaves the wrapper unchanged.
    pub fn downcast_mut<W: Payload>(&mut self) -> (r: Option<&mut W>)
        ensures
            (r is Some) <==> (old(self).spec_token() == W::token()),
            final(self).spec_token() == old(self).spec_token(),
            final(self).is_poisoned() == old(self).is_poisoned(),
            final(self).handle().spec_layout() == old(self).handle().spec_layout(),
            r matches Some(w) ==> (*final(w)).as_slot() == final(self).spec_payload(),
            r is None ==> *final(self) == *old(self),
    {
        self.0.downcast_mut::<W>()
    }

    /// Consume the wrapper and take the payload out as a `W`.  On success
    /// the payload is moved, not destroyed, and only the handle's memory is
    /// released; the consumed wrapper cannot destroy it again.  On a token
    /// mismatch the wrapper comes back unchanged, so another type can be
    /// tried.
    pub fn downcast<W: Payload>(self) -> (r: Result<W, OwnedFileHandle>)
        ensures
            self.spec_token() == W::token() ==> (r matches Ok(w) && w.as_slot()
                == self.spec_payload()),
            self.spec_token() != W::token() ==> (r matches Err(o) && o == self),
    {
        match self.0.downcast::<W>() {
            Ok(w) => Ok(w),
            Err(h) => Err(OwnedFileHandle(h)),
        }
    }

    /// Write through the owned handle; see [`write_post`].  As at the
    /// handle itself, a payload the library cannot call - an external
    /// stream - takes the event path instead.
    pub fn write(&mut self, data: &[u8]) -> (r: Result<usize, StreamError>)
        requires
            !(old(self).spec_payload() is External),
        ensures
            write_post(old(self).handle(), data@, final(self).handle(), r),
    {
        self.0.write(data)
    }

    /// Flush through the owned handle; see [`flush_post`].
    pub fn flush(&mut self) -> (r: Result<(), StreamError>)
        requires
            !(old(self).spec_payload() is External),
        ensures
            flush_post(old(self).handle(), final(self).handle(), r),
    {
        self.0.flush()
    }

    /// Whether the owned handle's payload may be invoked at all; see
    /// [`FileHandle::check_live`].
    pub fn check_live(&self) -> (r: Result<(), StreamError>)
        ensures
            r == if self.is_poisoned() {
                Err::<(), StreamError>(StreamError::AlreadyPoisoned)
            } else {
                Ok::<(), StreamError>(())
            },
    {
        self.0.check_live()
    }

    /// Apply the event of one externally dispatched write; see
    /// [`write_event_post`].
    pub fn apply_write_event(&mut self, ev: OpStatus<usize>) -> (r: Result<usize, StreamError>)
        ensures
            write_event_post(old(self).handle(), ev, final(self).handle(), r),
    {
        self.0.apply_write_event(ev)
    }

    /// Apply the event of one externally dispatched flush; see
    /// [`flush_event_post`].
    pub fn apply_flush_event(&mut self, ev: OpStatus<()>) -> (r: Result<(), StreamError>)
        ensures
            flush_event_post(old(self).handle(), ev, final(self).handle(), r),
    {
        self.0.apply_flush_event(ev)
    }

    /// End the owned handle's life: run the destroy entry point, exactly
    /// once, and report what it did; see [`destroy_post`].
    pub fn destroy(self) -> (r: DestroyOutcome)
        ensures
            destroy_post(self.handle(), r),
    {
        self.0.destroy()
    }
}

} // verus!
