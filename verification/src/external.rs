//! The external construction path: placing a caller-built payload behind a
//! header.
//!
//! A foreign caller cannot construct a native payload itself, so the builder
//! works in two phases: it first *reserves* - computes the combined layout
//! of header and payload, honoring the payload's alignment, and hands back a
//! described, zero-initialized region - and the caller then initializes the
//! payload slot with its own mechanism before any entry point may reach the
//! handle.  That second step is out of band: it is a contractual obligation
//! on the caller, not something the core can check.  The planning arithmetic
//! and the translation of foreign callback statuses live here, verified;
//! the raw allocation and the callback references themselves are the
//! unverified shell's business.

use crate::file_handle::StreamError;
use crate::layout::{LayoutDesc, lemma_pow2_divides, lemma_pow2_is_positive, lemma_round_up};
use vstd::arithmetic::div_mod::{lemma_fundamental_div_mod, lemma_mod_multiples_basic};
use vstd::prelude::*;

verus! {

/// What the external builder computed: the combined allocation, and where
/// within it the caller's payload begins.
#[derive(Clone, Copy, Debug, PartialEq, Eq, Structural)]
pub struct PlacementPlan {
    pub combined: LayoutDesc,
    pub payload_offset: usize,
}

impl PlacementPlan {
    /// The plan places a payload of layout `payload` right after a header
    /// of layout `header`: the payload begins at the first aligned offset
    /// past the header, and the combined region ends right after it.
    pub open spec fn wf_for(self, header: LayoutDesc, payload: LayoutDesc) -> bool {
        &&& self.payload_offset == header.spec_offset_of(payload)
        &&& self.combined.size == header.spec_extended_size(payload)
        &&& self.combined.align == header.spec_extended_align(payload)
        &&& self.combined.wf()
    }
}

/// Plan the allocation for a caller-built payload of the given layout placed
/// behind the given header.  Returns `None` exactly when the combined size
/// exceeds what an allocation may have; the builder then signals allocation
/// failure the way the rest of the system does.
pub fn plan_placement(header: LayoutDesc, payload: LayoutDesc) -> (r: Option<PlacementPlan>)
    requires
        header.wf(),
        payload.wf(),
    ensures
        r is Some <==> header.spec_can_extend(payload),
        r matches Some(p) ==> p.wf_for(header, payload),
{
    match header.extend(payload) {
        Some((combined, payload_offset)) => Some(PlacementPlan { combined, payload_offset }),
        None => None,
    }
}

/// The first phase of the external protocol, on the model's side: a
/// zero-initialized region of exactly the planned combined size.
pub fn reserve_region(plan: &PlacementPlan) -> (region: Vec<u8>)
    ensures
        region@.len() == plan.combined.size,
        forall|i: int| 0 <= i < region@.len() ==> region@[i] == 0u8,
{
    let mut region: Vec<u8> = Vec::new();
    let mut i: usize = 0;
    while i < plan.combined.size
        invariant
            region@.len() == i,
            i <= plan.combined.size,
            forall|j: int| 0 <= j < region@.len() ==> region@[j] == 0u8,
        decreases plan.combined.size - i,
    {
        region.push(0u8);
        i += 1;
    }
    region
}

/// Translate a foreign write callback's status into the native result: a
/// non-negative status is the byte count, a negative one carries the
/// platform error code negated.
pub fn foreign_write_result(ret: i32) -> (r: Result<usize, StreamError>)
    requires
        ret > i32::MIN,
    ensures
        ret >= 0 ==> r == Ok::<usize, StreamError>(ret as usize),
        ret < 0 ==> r == Err::<usize, StreamError>(StreamError::Io { code: ((-(ret as int)) as i32) }),
{
    if ret >= 0 {
        Ok(ret as usize)
    } else {
        Err(StreamError::Io { code: -ret })
    }
}

/// Translate a foreign flush callback's status into the native result: any
/// non-negative status is success.
pub fn foreign_flush_result(ret: i32) -> (r: Result<(), StreamError>)
    requires
        ret > i32::MIN,
    ensures
        ret >= 0 ==> r == Ok::<(), StreamError>(()),
        ret < 0 ==> r == Err::<(), StreamError>(StreamError::Io { code: ((-(ret as int)) as i32) }),
{
    if ret >= 0 {
        Ok(())
    } else {
        Err(StreamError::Io { code: -ret })
    }
}

/// Law of the external builder: a plan made for a requested payload size
/// and alignment really serves the request.  The payload slot begins on a
/// multiple of the requested alignment, never inside the header, and has at
/// least the requested size before the region ends; and the combined
/// alignment is a multiple of the requested one, so in any combined-aligned
/// allocation the slot's address is itself aligned as requested.
pub proof fn lemma_plan_serves_request(header: LayoutDesc, payload: LayoutDesc, p: PlacementPlan)
    requires
        header.wf(),
        payload.wf(),
        p.wf_for(header, payload),
    ensures
        p.payload_offset as int % (payload.align as int) == 0,
        p.payload_offset >= header.size,
        p.combined.size - p.payload_offset >= payload.size,
        p.combined.align as int % (payload.align as int) == 0,
        p.combined.align >= payload.align,
        forall|base: int|
            base >= 0 && #[trigger] (base % (p.combined.align as int)) == 0 ==> (base
                + p.payload_offset as int) % (payload.align as int) == 0,
{
    lemma_pow2_is_positive(payload.align as int);
    lemma_pow2_is_positive(header.align as int);
    lemma_round_up(header.size as int, payload.align as int);
    lemma_pow2_divides(payload.align as int, p.combined.align as int);
    assert forall|base: int|
        base >= 0 && #[trigger] (base % (p.combined.align as int)) == 0 implies (base
            + p.payload_offset as int) % (payload.align as int) == 0 by {
        lemma_aligned_base_stays_aligned(base, p.combined.align as int, payload.align as int);
        lemma_mod_of_zero_terms(base, p.payload_offset as int, payload.align as int);
    }
}

/// A base address aligned to `m` is aligned to any divisor `a` of `m`.
proof fn lemma_aligned_base_stays_aligned(base: int, m: int, a: int)
    requires
        base >= 0,
        m > 0,
        a > 0,
        base % m == 0,
        m % a == 0,
    ensures
        base % a == 0,
{
    lemma_fundamental_div_mod(base, m);
    lemma_fundamental_div_mod(m, a);
    let q = base / m;
    let d = m / a;
    assert(base == (q * d) * a) by (nonlinear_arith)
        requires
            base == m * q,
            m == a * d,
    ;
    lemma_mod_multiples_basic(q * d, a);
}

/// The sum of two multiples of `a` is a multiple of `a`.
proof fn lemma_mod_of_zero_terms(x: int, y: int, a: int)
    requires
        a > 0,
        x % a == 0,
        y % a == 0,
    ensures
        (x + y) % a == 0,
{
    lemma_fundamental_div_mod(x, a);
    lemma_fundamental_div_mod(y, a);
    let qx = x / a;
    let qy = y / a;
    assert(x + y == (qx + qy) * a) by (nonlinear_arith)
        requires
            x == a * qx,
            y == a * qy,
    ;
    lemma_mod_multiples_basic(qx + qy, a);
}

} // verus!
