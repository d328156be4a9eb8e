//! Sizing of staging buffers (with shrink hysteresis), round-robin slot rotation, and when a
//! slot must wait for its fence.
use vstd::prelude::*;

verus! {

/// Smallest staging allocation, in bytes.
pub const MIN_STAGING_BYTES: u64 = 65536;

/// Trailing bytes added to OpenCL and compute staging buffers against word-sized overreads.
pub const BUFFER_TAIL_PADDING_BYTES: u64 = 16;

/// Slots in a staging ring by default (triple buffering).
pub const DEFAULT_RING_SLOTS: usize = 3;

/// New allocation size for `needed` bytes (a staging buffer is never smaller than 64 KiB).
pub open spec fn staging_alloc_size_spec(needed: u64) -> u64 {
    if needed >= MIN_STAGING_BYTES { needed } else { MIN_STAGING_BYTES }
}

/// Whether a staging buffer currently holding `capacity` bytes (`None`: none allocated) must be
/// replaced to serve a request of `needed` bytes: it is too small, or more than twice as large
/// as the buffer a fresh allocation for the request would get (so a buffer at the 64 KiB floor
/// is kept for every small request).
pub open spec fn staging_needs_realloc_spec(capacity: Option<u64>, needed: u64) -> bool {
    match capacity {
        Some(c) => c < needed || staging_alloc_size_spec(needed) < c / 2,
        None => true,
    }
}

/// Size of the allocation to make for a request of `needed` bytes: `None` when the current
/// buffer is kept, `Some(size)` when a new one of `size` bytes replaces it.
pub fn staging_plan(capacity: Option<u64>, needed: u64) -> (r: Option<u64>)
    ensures
        r == (if staging_needs_realloc_spec(capacity, needed) {
            Some(staging_alloc_size_spec(needed))
        } else {
            None::<u64>
        }),
{
    let alloc = if needed >= MIN_STAGING_BYTES { needed } else { MIN_STAGING_BYTES };
    let realloc = match capacity {
        Some(c) => c < needed || alloc < c / 2,
        None => true,
    };
    if realloc {
        Some(alloc)
    } else {
        None
    }
}

/// Capacity after serving a request of `needed` bytes from a buffer of `capacity` bytes.
pub open spec fn staging_capacity_after(capacity: Option<u64>, needed: u64) -> u64 {
    if staging_needs_realloc_spec(capacity, needed) {
        staging_alloc_size_spec(needed)
    } else {
        capacity->0
    }
}

/// Bytes requested from an OpenCL or compute staging buffer for a payload of `len` bytes.
pub fn padded_staging_size(len: u64) -> (r: u64)
    ensures
        r == (if len + BUFFER_TAIL_PADDING_BYTES <= u64::MAX {
            (len + BUFFER_TAIL_PADDING_BYTES) as u64
        } else {
            u64::MAX
        }),
{
    len.saturating_add(BUFFER_TAIL_PADDING_BYTES)
}

/// Law (hysteresis): after serving a request the buffer holds at least the requested bytes and
/// at most twice (plus the rounding byte) what a fresh allocation for the request would take.
pub proof fn lemma_staging_capacity_bounds(capacity: Option<u64>, needed: u64)
    ensures
        staging_capacity_after(capacity, needed) >= needed,
        staging_capacity_after(capacity, needed) <= 2 * staging_alloc_size_spec(needed) + 1,
{
}

/// Law (reuse): once a request has been served, serving the same request again keeps the
/// buffer, so repeated frames of one size allocate nothing.
pub proof fn lemma_staging_plan_idempotent(capacity: Option<u64>, needed: u64)
    ensures
        !staging_needs_realloc_spec(Some(staging_capacity_after(capacity, needed)), needed),
{
}

/// Law (reuse): a buffer that holds a request and is at most twice the size a fresh allocation
/// would get is kept; in particular a 64 KiB buffer serves every request up to 64 KiB.
pub proof fn lemma_staging_keeps_fitting_buffer(capacity: u64, needed: u64)
    requires
        needed <= capacity <= 2 * staging_alloc_size_spec(needed) + 1,
    ensures
        !staging_needs_realloc_spec(Some(capacity), needed),
{
}

/// Round-robin cursor over the slots of a staging ring.
pub struct RingCursor {
    current: usize,
    slots: usize,
}

impl RingCursor {
    /// Index of the slot the next acquisition returns.
    pub closed spec fn spec_current(&self) -> int {
        self.current as int
    }

    /// Number of slots in the ring.
    pub closed spec fn spec_slots(&self) -> int {
        self.slots as int
    }

    /// The cursor always points at a slot of a non-empty ring.
    pub closed spec fn wf(&self) -> bool {
        0 <= self.current < self.slots
    }

    /// Cursor over `slot_count` slots (at least one), starting at slot 0.
    pub fn new(slot_count: usize) -> (r: Self)
        ensures
            r.wf(),
            r.spec_current() == 0,
            r.spec_slots() == if slot_count == 0 { 1 } else { slot_count as int },
    {
        RingCursor { current: 0, slots: if slot_count == 0 { 1 } else { slot_count } }
    }

    /// Number of slots.
    pub fn slots(&self) -> (r: usize)
        ensures
            r == self.spec_slots(),
    {
        self.slots
    }

    /// Returns the current slot index and moves on to the next slot, wrapping around.
    pub fn acquire(&mut self) -> (r: usize)
        requires
            old(self).wf(),
        ensures
            final(self).wf(),
            r == old(self).spec_current(),
            final(self).spec_slots() == old(self).spec_slots(),
            final(self).spec_current() == (old(self).spec_current() + 1) % old(self).spec_slots(),
    {
        let idx = self.current;
        self.current = (self.current + 1) % self.slots;
        idx
    }
}

/// Slot reached from slot `start` after `k` acquisitions in a ring of `slots` slots.
pub open spec fn slot_after(start: int, slots: int, k: nat) -> int
    decreases k,
{
    if k == 0 {
        start
    } else {
        (slot_after(start, slots, (k - 1) as nat) + 1) % slots
    }
}

/// Law: acquisitions visit the slots in round-robin order; after `k` of them the cursor stands
/// at `(start + k) mod slots`, so every slot is reused exactly once per `slots` acquisitions.
pub proof fn lemma_ring_round_robin(start: int, slots: int, k: nat)
    requires
        slots > 0,
        0 <= start < slots,
    ensures
        slot_after(start, slots, k) == (start + k) % slots,
    decreases k,
{
    if k > 0 {
        lemma_ring_round_robin(start, slots, (k - 1) as nat);
        let a = start + k - 1;
        assert(slot_after(start, slots, k) == (a % slots + 1) % slots);
        vstd::arithmetic::div_mod::lemma_add_mod_noop(a, 1, slots);
        if slots > 1 {
            vstd::arithmetic::div_mod::lemma_small_mod(1, slots as nat);
            assert(1int % slots == 1);
            assert((a % slots + 1) % slots == (a + 1) % slots);
        } else {
            vstd::arithmetic::div_mod::lemma_mod_bound(a % slots + 1, slots);
            vstd::arithmetic::div_mod::lemma_mod_bound(a + 1, slots);
        }
        assert(a + 1 == start + k);
    } else {
        vstd::arithmetic::div_mod::lemma_small_mod(start as nat, slots as nat);
    }
}

/// Synchronisation state of one staging slot: whether GPU work submitted on it may still be
/// running.
pub struct SlotSync {
    in_flight: bool,
}

impl SlotSync {
    /// Whether work submitted on the slot may still be running.
    pub closed spec fn spec_in_flight(&self) -> bool {
        self.in_flight
    }

    /// A slot with no work submitted.
    pub fn new() -> (r: Self)
        ensures
            !r.spec_in_flight(),
    {
        SlotSync { in_flight: false }
    }

    /// Whether work submitted on the slot may still be running.
    pub fn is_in_flight(&self) -> (r: bool)
        ensures
            r == self.spec_in_flight(),
    {
        self.in_flight
    }

    /// Records that work was submitted on the slot (its fence was signalled).
    pub fn mark_submitted(&mut self)
        ensures
            final(self).spec_in_flight(),
    {
        self.in_flight = true;
    }

    /// Before reusing the slot: returns whether its fence must be waited on (only when work is
    /// in flight), and records that nothing is in flight afterwards.
    pub fn begin_reuse(&mut self) -> (must_wait: bool)
        ensures
            must_wait == old(self).spec_in_flight(),
            !final(self).spec_in_flight(),
    {
        let w = self.in_flight;
        self.in_flight = false;
        w
    }
}

} // verus!
