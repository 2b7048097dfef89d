//! Concrete payload types and the erased slot they are stored in.
//!
//! A handle owns exactly one payload.  The payload sits in a tagged union,
//! [`PayloadSlot`], whose tag doubles as the per-type identity token of the
//! dispatch table: every type that can be placed behind a handle implements
//! [`Payload`], which fixes its token and proves that storing and recovering
//! the value round-trips.  Downcasts compare tokens before they narrow, so a
//! successful downcast always returns exactly the value that was stored.
//!
//! A payload the library cannot call - a real stream behind the boundary -
//! is represented by the [`ExternalWriter`] marker: its operations are
//! dispatched outside and the library sees only the [`OpStatus`] event each
//! one produced.  All external streams share this one marker type, so a
//! handle over one cannot be downcast back to the stream's own concrete
//! type; only its events reach the verified protocol.

use vstd::prelude::*;

verus! {

/// Identity token of [`NullWriter`].
pub const NULL_WRITER_TOKEN: u64 = 1;

/// Identity token of [`ByteSink`].
pub const BYTE_SINK_TOKEN: u64 = 2;

/// Identity token of [`FaultyWriter`].
pub const FAULTY_WRITER_TOKEN: u64 = 3;

/// Identity token of [`AbortingWriter`].
pub const ABORTING_WRITER_TOKEN: u64 = 4;

/// Identity token of [`ExternalWriter`].
pub const EXTERNAL_WRITER_TOKEN: u64 = 5;

/// How one dispatched payload operation ended.
///
/// `Aborted` stands for an abnormal termination - the payload's code did not
/// return at all.  The dispatch layer treats it as a detectable event: it
/// poisons the handle and converts the failure into an ordinary error,
/// rather than letting it propagate.
pub enum OpStatus<T> {
    /// The operation returned normally with this value.
    Completed(T),
    /// The operation failed with a platform-style error code.
    Failed(i32),
    /// The operation terminated abnormally instead of returning.
    Aborted,
}

/// A writer that discards everything handed to it.
pub struct NullWriter {}

/// An in-memory sink that keeps every byte written to it.
pub struct ByteSink {
    data: Vec<u8>,
}

/// A writer whose operations always fail with one fixed platform error code.
pub struct FaultyWriter {
    code: i32,
}

/// A writer whose operations terminate abnormally instead of returning.
///
/// It stands for a payload whose dispatched call panics; driving a handle
/// over it is how the poison protocol is exercised.
pub struct AbortingWriter {}

/// The payload of a handle whose stream lives outside the library.
///
/// A real stream can do anything, panicking included, so the library never
/// calls one: whoever holds the stream dispatches the operation, catches an
/// abnormal termination, and hands the resulting [`OpStatus`] event to
/// [`FileHandle::apply_write_event`] or [`FileHandle::apply_flush_event`],
/// which run the poison protocol over it.  The marker carries no data; it
/// only gives such handles their identity token and their place in the
/// ownership and downcast discipline.
pub struct ExternalWriter {}

/// The erased payload slot: one tagged union over every payload type.
///
/// The tag is the dispatch table's type-identity token, and the match arms
/// of the dispatch operations are its type-specialized function entries.
pub enum PayloadSlot {
    Null(NullWriter),
    Sink(ByteSink),
    Faulty(FaultyWriter),
    Aborting(AbortingWriter),
    External(ExternalWriter),
}

/// The type-identity token recorded by a slot's tag.
pub open spec fn token_of(s: PayloadSlot) -> u64 {
    match s {
        PayloadSlot::Null(_) => NULL_WRITER_TOKEN,
        PayloadSlot::Sink(_) => BYTE_SINK_TOKEN,
        PayloadSlot::Faulty(_) => FAULTY_WRITER_TOKEN,
        PayloadSlot::Aborting(_) => ABORTING_WRITER_TOKEN,
        PayloadSlot::External(_) => EXTERNAL_WRITER_TOKEN,
    }
}

/// A concrete type that can be placed behind a handle.
///
/// An implementation fixes the type's identity token, says which slot a
/// value of the type erases to, and provides the checked narrowing
/// operations that the downcasts build on.  The contracts tie the three
/// together: erasing a value and narrowing the slot back always yields the
/// original value, and narrowing a slot of a different token is always
/// rejected without touching the slot.
///
/// Ownership of a handle may cross thread boundaries, so every payload must
/// be safe to send and to share; any synchronization a concurrently used
/// payload needs is its own business, never the handle's.
pub trait Payload: Sized + Send + Sync {
    /// The type's identity token.
    spec fn token() -> u64;

    /// The slot a value of this type erases to.
    spec fn as_slot(self) -> PayloadSlot;

    /// The token, as a run-time value.
    fn token_value() -> (t: u64)
        ensures
            t == Self::token(),
    ;

    /// Erasing a value stamps it with the type's own token.
    proof fn token_matches(self)
        ensures
            token_of(self.as_slot()) == Self::token(),
    ;

    /// Erase a value into its slot.
    fn into_slot(self) -> (s: PayloadSlot)
        ensures
            s == self.as_slot(),
    ;

    /// Narrow a slot back to this type by value: the stored payload when the
    /// token matches, the untouched slot when it does not.
    fn try_from_slot(s: PayloadSlot) -> (r: Result<Self, PayloadSlot>)
        ensures
            token_of(s) == Self::token() ==> (r matches Ok(w) && w.as_slot() == s),
            token_of(s) != Self::token() ==> (r matches Err(back) && back == s),
    ;

    /// Narrow a slot to a shared borrow of this type.
    fn slot_ref(s: &PayloadSlot) -> (r: Option<&Self>)
        ensures
            (token_of(*s) == Self::token()) <==> (r is Some),
            r matches Some(w) ==> (*w).as_slot() == *s,
    ;

    /// Narrow a slot to an exclusive borrow of this type.  The borrow may
    /// change the stored value, never the slot's token.
    fn slot_mut(s: &mut PayloadSlot) -> (r: Option<&mut Self>)
        ensures
            (token_of(*old(s)) == Self::token()) <==> (r is Some),
            token_of(*final(s)) == token_of(*old(s)),
            r matches Some(w) ==> (*final(w)).as_slot() == *final(s),
            r is None ==> *final(s) == *old(s),
    ;
}

impl NullWriter {
    /// A fresh writer that discards its input.
    pub fn new() -> (w: NullWriter) {
        NullWriter {}
    }
}

impl ByteSink {
    /// The bytes written so far.
    pub closed spec fn contents(self) -> Seq<u8> {
        self.data@
    }

    /// A fresh, empty sink.
    pub fn new() -> (w: ByteSink)
        ensures
            w.contents() == Seq::<u8>::empty(),
    {
        ByteSink { data: Vec::new() }
    }

    /// Borrow the bytes written so far.
    pub fn bytes(&self) -> (v: &Vec<u8>)
        ensures
            v@ == self.contents(),
    {
        &self.data
    }

    /// Give up the sink and keep the bytes it gathered.
    pub fn into_bytes(self) -> (v: Vec<u8>)
        ensures
            v@ == self.contents(),
    {
        self.data
    }

    /// Append every byte of `data`; the sink never writes short.
    pub fn write_bytes(&mut self, data: &[u8]) -> (n: usize)
        ensures
            final(self).contents() == old(self).contents() + data@,
            n == data@.len(),
    {
        let mut i: usize = 0;
        while i < data.len()
            invariant
                i <= data@.len(),
                self.data@ == old(self).data@ + data@.subrange(0, i as int),
            decreases data@.len() - i,
        {
            self.data.push(data[i]);
            i += 1;
        }
        proof {
            assert(data@.subrange(0, data@.len() as int) =~= data@);
        }
        data.len()
    }
}

impl FaultyWriter {
    /// The platform error code this writer fails with.
    pub closed spec fn error_code(self) -> i32 {
        self.code
    }

    /// A writer that fails every operation with the given platform error
    /// code; codes are positive by the platform convention.
    pub fn new(code: i32) -> (w: FaultyWriter)
        requires
            code > 0,
        ensures
            w.error_code() == code,
    {
        FaultyWriter { code }
    }
}

impl AbortingWriter {
    /// A fresh writer whose operations will terminate abnormally.
    pub fn new() -> (w: AbortingWriter) {
        AbortingWriter {}
    }
}

impl ExternalWriter {
    /// The marker payload for a handle whose stream is dispatched outside.
    pub fn new() -> (w: ExternalWriter) {
        ExternalWriter {}
    }
}

/// What the write entry of the dispatch table does to an internally
/// dispatched slot: exact for every payload the library itself can call.
/// An external slot is never dispatched here - its events enter through
/// [`FileHandle::apply_write_event`].
pub open spec fn slot_write_post(
    pre: PayloadSlot,
    data: Seq<u8>,
    post: PayloadSlot,
    r: OpStatus<usize>,
) -> bool {
    match pre {
        PayloadSlot::Null(_) => post == pre && r == OpStatus::Completed(data.len() as usize),
        PayloadSlot::Sink(b) => {
            &&& post matches PayloadSlot::Sink(b2) && b2.contents() == b.contents() + data
            &&& r == OpStatus::Completed(data.len() as usize)
        },
        PayloadSlot::Faulty(f) => post == pre && r == OpStatus::<usize>::Failed(f.error_code()),
        PayloadSlot::Aborting(_) => post == pre && r == OpStatus::<usize>::Aborted,
        PayloadSlot::External(_) => false,
    }
}

/// What the flush entry of the dispatch table does to an internally
/// dispatched slot; see [`slot_write_post`].
pub open spec fn slot_flush_post(pre: PayloadSlot, post: PayloadSlot, r: OpStatus<()>) -> bool {
    match pre {
        PayloadSlot::Null(_) => post == pre && r == OpStatus::Completed(()),
        PayloadSlot::Sink(_) => post == pre && r == OpStatus::Completed(()),
        PayloadSlot::Faulty(f) => post == pre && r == OpStatus::<()>::Failed(f.error_code()),
        PayloadSlot::Aborting(_) => post == pre && r == OpStatus::<()>::Aborted,
        PayloadSlot::External(_) => false,
    }
}

impl PayloadSlot {
    /// The type-identity token, as a run-time value: the union's tag.
    pub fn type_token(&self) -> (t: u64)
        ensures
            t == token_of(*self),
    {
        match self {
            PayloadSlot::Null(_) => NULL_WRITER_TOKEN,
            PayloadSlot::Sink(_) => BYTE_SINK_TOKEN,
            PayloadSlot::Faulty(_) => FAULTY_WRITER_TOKEN,
            PayloadSlot::Aborting(_) => ABORTING_WRITER_TOKEN,
            PayloadSlot::External(_) => EXTERNAL_WRITER_TOKEN,
        }
    }

    /// The write entry: dispatch one write to the stored payload.  An
    /// external payload cannot be called from here.
    pub(crate) fn dispatch_write(&mut self, data: &[u8]) -> (r: OpStatus<usize>)
        requires
            !(*old(self) is External),
        ensures
            slot_write_post(*old(self), data@, *final(self), r),
            token_of(*final(self)) == token_of(*old(self)),
    {
        match self {
            PayloadSlot::Null(_) => OpStatus::Completed(data.len()),
            PayloadSlot::Sink(b) => OpStatus::Completed(b.write_bytes(data)),
            PayloadSlot::Faulty(f) => OpStatus::Failed(f.code),
            PayloadSlot::Aborting(_) => OpStatus::Aborted,
            PayloadSlot::External(_) => vstd::pervasive::unreached(),
        }
    }

    /// The flush entry: dispatch one flush to the stored payload.  An
    /// external payload cannot be called from here.
    pub(crate) fn dispatch_flush(&mut self) -> (r: OpStatus<()>)
        requires
            !(*old(self) is External),
        ensures
            slot_flush_post(*old(self), *final(self), r),
            token_of(*final(self)) == token_of(*old(self)),
    {
        match self {
            PayloadSlot::Null(_) => OpStatus::Completed(()),
            PayloadSlot::Sink(_) => OpStatus::Completed(()),
            PayloadSlot::Faulty(f) => OpStatus::Failed(f.code),
            PayloadSlot::Aborting(_) => OpStatus::Aborted,
            PayloadSlot::External(_) => vstd::pervasive::unreached(),
        }
    }
}

impl Payload for NullWriter {
    open spec fn token() -> u64 {
        NULL_WRITER_TOKEN
    }

    open spec fn as_slot(self) -> PayloadSlot {
        PayloadSlot::Null(self)
    }

    fn token_value() -> (t: u64) {
        NULL_WRITER_TOKEN
    }

    proof fn token_matches(self) {
    }

    fn into_slot(self) -> (s: PayloadSlot) {
        PayloadSlot::Null(self)
    }

    fn try_from_slot(s: PayloadSlot) -> (r: Result<Self, PayloadSlot>) {
        match s {
            PayloadSlot::Null(w) => Ok(w),
            other => Err(other),
        }
    }

    fn slot_ref(s: &PayloadSlot) -> (r: Option<&Self>) {
        match s {
            PayloadSlot::Null(w) => Some(w),
            _ => None,
        }
    }

    fn slot_mut(s: &mut PayloadSlot) -> (r: Option<&mut Self>) {
        match s {
            PayloadSlot::Null(w) => Some(w),
            _ => None,
        }
    }
}

impl Payload for ByteSink {
    open spec fn token() -> u64 {
        BYTE_SINK_TOKEN
    }

    open spec fn as_slot(self) -> PayloadSlot {
        PayloadSlot::Sink(self)
    }

    fn token_value() -> (t: u64) {
        BYTE_SINK_TOKEN
    }

    proof fn token_matches(self) {
    }

    fn into_slot(self) -> (s: PayloadSlot) {
        PayloadSlot::Sink(self)
    }

    fn try_from_slot(s: PayloadSlot) -> (r: Result<Self, PayloadSlot>) {
        match s {
            PayloadSlot::Sink(w) => Ok(w),
            other => Err(other),
        }
    }

    fn slot_ref(s: &PayloadSlot) -> (r: Option<&Self>) {
        match s {
            PayloadSlot::Sink(w) => Some(w),
            _ => None,
        }
    }

    fn slot_mut(s: &mut PayloadSlot) -> (r: Option<&mut Self>) {
        match s {
            PayloadSlot::Sink(w) => Some(w),
            _ => None,
        }
    }
}

impl Payload for FaultyWriter {
    open spec fn token() -> u64 {
        FAULTY_WRITER_TOKEN
    }

    open spec fn as_slot(self) -> PayloadSlot {
        PayloadSlot::Faulty(self)
    }

    fn token_value() -> (t: u64) {
        FAULTY_WRITER_TOKEN
    }

    proof fn token_matches(self) {
    }

    fn into_slot(self) -> (s: PayloadSlot) {
        PayloadSlot::Faulty(self)
    }

    fn try_from_slot(s: PayloadSlot) -> (r: Result<Self, PayloadSlot>) {
        match s {
            PayloadSlot::Faulty(w) => Ok(w),
            other => Err(other),
        }
    }

    fn slot_ref(s: &PayloadSlot) -> (r: Option<&Self>) {
        match s {
            PayloadSlot::Faulty(w) => Some(w),
            _ => None,
        }
    }

    fn slot_mut(s: &mut PayloadSlot) -> (r: Option<&mut Self>) {
        match s {
            PayloadSlot::Faulty(w) => Some(w),
            _ => None,
        }
    }
}

impl Payload for AbortingWriter {
    open spec fn token() -> u64 {
        ABORTING_WRITER_TOKEN
    }

    open spec fn as_slot(self) -> PayloadSlot {
        PayloadSlot::Aborting(self)
    }

    fn token_value() -> (t: u64) {
        ABORTING_WRITER_TOKEN
    }

    proof fn token_matches(self) {
    }

    fn into_slot(self) -> (s: PayloadSlot) {
        PayloadSlot::Aborting(self)
    }

    fn try_from_slot(s: PayloadSlot) -> (r: Result<Self, PayloadSlot>) {
        match s {
            PayloadSlot::Aborting(w) => Ok(w),
            other => Err(other),
        }
    }

    fn slot_ref(s: &PayloadSlot) -> (r: Option<&Self>) {
        match s {
            PayloadSlot::Aborting(w) => Some(w),
            _ => None,
        }
    }

    fn slot_mut(s: &mut PayloadSlot) -> (r: Option<&mut Self>) {
        match s {
            PayloadSlot::Aborting(w) => Some(w),
            _ => None,
        }
    }
}

impl Payload for ExternalWriter {
    open spec fn token() -> u64 {
        EXTERNAL_WRITER_TOKEN
    }

    open spec fn as_slot(self) -> PayloadSlot {
        PayloadSlot::External(self)
    }

    fn token_value() -> (t: u64) {
        EXTERNAL_WRITER_TOKEN
    }

    proof fn token_matches(self) {
    }

    fn into_slot(self) -> (s: PayloadSlot) {
        PayloadSlot::External(self)
    }

    fn try_from_slot(s: PayloadSlot) -> (r: Result<Self, PayloadSlot>) {
        match s {
            PayloadSlot::External(w) => Ok(w),
            other => Err(other),
        }
    }

    fn slot_ref(s: &PayloadSlot) -> (r: Option<&Self>) {
        match s {
            PayloadSlot::External(w) => Some(w),
            _ => None,
        }
    }

    fn slot_mut(s: &mut PayloadSlot) -> (r: Option<&mut Self>) {
        match s {
            PayloadSlot::External(w) => Some(w),
            _ => None,
        }
    }
}

} // verus!
