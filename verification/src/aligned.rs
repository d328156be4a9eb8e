//! Heap buffers whose first byte sits on a 64-byte boundary.
use vstd::prelude::*;

use crate::desc::slice_address;
use crate::types::{Result, ScalixError, REQUIRED_MEMORY_ALIGNMENT};

verus! {

/// Largest buffer size a 64-byte aligned allocation can describe (`isize::MAX` rounded down to
/// leave room for the alignment padding).
pub open spec fn max_aligned_size() -> int {
    isize::MAX - (REQUIRED_MEMORY_ALIGNMENT - 1)
}

/// Whether `size` bytes aligned to `alignment` form a valid allocation layout: the alignment is a
/// power of two and the size, rounded up to it, stays within `isize::MAX`.
pub open spec fn layout_ok(size: int, alignment: usize) -> bool {
    &&& alignment > 0
    &&& alignment & ((alignment - 1) as usize) == 0
    &&& size <= isize::MAX - (alignment - 1)
}

/// Message of the error returned for an empty source slice.
pub open spec fn empty_slice_message() -> Seq<char> {
    "Cannot create an aligned buffer from an empty slice"@
}

/// Message of the error returned for an invalid layout.
pub open spec fn invalid_layout_message() -> Seq<char> {
    "Invalid layout: invalid parameters to Layout::from_size_align"@
}

/// The bytes `start..end` of `s`, writable.
///
/// Calls `<[u8] as IndexMut<Range<usize>>>::index_mut`. Claims that the result views exactly those
/// bytes, that its length cannot change while it is borrowed (a slice's length is fixed), and
/// that whatever is written through it lands in those bytes of `s` and nowhere else.
#[verifier::external_body]
fn subslice_mut(s: &mut [u8], start: usize, end: usize) -> (r: &mut [u8])
    requires
        start <= end <= old(s)@.len(),
    ensures
        r@ == old(s)@.subrange(start as int, end as int),
        final(r)@.len() == end - start,
        final(s)@ == old(s)@.subrange(0, start as int) + final(r)@ + old(s)@.subrange(
            end as int,
            old(s)@.len() as int,
        ),
{
    &mut s[start..end]
}

/// Distance from `addr` to the next multiple of `alignment` (zero when `addr` already is one).
pub fn align_offset(addr: usize, alignment: usize) -> (r: usize)
    requires
        alignment > 0,
    ensures
        r < alignment,
        (addr + r) % (alignment as int) == 0,
        r == (if addr % alignment == 0 { 0 } else { alignment - addr % alignment }),
{
    let rem = addr % alignment;
    if rem == 0 {
        0
    } else {
        proof {
            let a = alignment as int;
            let q = addr as int / a;
            vstd::arithmetic::div_mod::lemma_fundamental_div_mod(addr as int, a);
            let m = rem as int;
            assert(addr as int + (a - m) == (q + 1) * a) by (nonlinear_arith)
                requires
                    addr as int == a * q + m,
            ;
            vstd::arithmetic::div_mod::lemma_mod_multiples_basic(q + 1, a);
        }
        alignment - rem
    }
}

/// Zero-initialised heap buffer whose contents start on an alignment boundary (64 bytes unless
/// asked otherwise).
///
/// The storage is over-allocated by `alignment - 1` bytes and the contents start at the first
/// boundary inside it. `base` is the address of the storage's first byte, read when it was
/// allocated; the heap block never moves because the storage is never resized.
#[derive(Debug)]
pub struct AlignedBuffer {
    storage: Vec<u8>,
    base: usize,
    offset: usize,
    size: usize,
    alignment: usize,
}

impl View for AlignedBuffer {
    type V = Seq<u8>;

    closed spec fn view(&self) -> Seq<u8> {
        if self.offset + self.size <= self.storage@.len() {
            self.storage@.subrange(self.offset as int, self.offset + self.size)
        } else {
            Seq::empty()
        }
    }
}

impl AlignedBuffer {
    /// Well-formedness, established by every constructor: the contents lie inside the storage,
    /// start on the first alignment boundary in it, and hold at least one byte, under a valid
    /// layout.
    pub closed spec fn wf(&self) -> bool {
        &&& 1 <= self.size
        &&& layout_ok(self.size as int, self.alignment)
        &&& self.offset < self.alignment
        &&& self.offset + self.size <= self.storage@.len()
        &&& self.base + self.storage@.len() <= usize::MAX
        &&& self.spec_start_address() % (self.alignment as int) == 0
    }

    /// Address of the first byte of the contents.
    pub closed spec fn spec_start_address(&self) -> int {
        self.base + self.offset
    }

    /// Alignment the buffer was allocated with.
    pub closed spec fn alignment(&self) -> usize {
        self.alignment
    }

    /// Allocates a zeroed buffer of `size` bytes (at least one byte) aligned to 64 bytes.
    pub fn new(size: usize) -> (r: Result<Self>)
        ensures
            match r {
                Ok(b) => {
                    let n = if size == 0 { 1 } else { size as int };
                    &&& b.wf()
                    &&& b.alignment() == REQUIRED_MEMORY_ALIGNMENT
                    &&& b.spec_start_address() % 64 == 0
                    &&& size <= max_aligned_size()
                    &&& b@ == Seq::new(n as nat, |i: int| 0u8)
                },
                Err(e) => size > max_aligned_size() && (e matches ScalixError::ExecutionFailed(m)
                    && m@ == invalid_layout_message()),
            },
    {
        assert(64usize & 63usize == 0) by (bit_vector);
        Self::with_alignment(size, REQUIRED_MEMORY_ALIGNMENT)
    }

    /// Allocates a zeroed buffer of `size` bytes (at least one byte) aligned to `alignment`.
    ///
    /// Fails with `ExecutionFailed` when `alignment` is not a power of two or the size, rounded
    /// up to it, exceeds `isize::MAX`.
    pub fn with_alignment(size: usize, alignment: usize) -> (r: Result<Self>)
        ensures
            match r {
                Ok(b) => {
                    let n = if size == 0 { 1 } else { size as int };
                    &&& b.wf()
                    &&& b.alignment() == alignment
                    &&& b.spec_start_address() % (alignment as int) == 0
                    &&& layout_ok(n, alignment)
                    &&& b@ == Seq::new(n as nat, |i: int| 0u8)
                },
                Err(e) => !layout_ok(if size == 0 { 1 } else { size as int }, alignment) && (
                e matches ScalixError::ExecutionFailed(m) && m@ == invalid_layout_message()),
            },
    {
        let size = if size == 0 { 1 } else { size };
        if alignment == 0 || alignment & (alignment - 1) != 0 || alignment - 1 > isize::MAX as usize
            || size > (isize::MAX as usize) - (alignment - 1) {
            return Err(
                ScalixError::ExecutionFailed(
                    "Invalid layout: invalid parameters to Layout::from_size_align".to_owned(),
                ),
            );
        }
        let storage: Vec<u8> = vec![0u8; size + (alignment - 1)];
        let base = slice_address(storage.as_slice());
        let offset = align_offset(base, alignment);
        let b = AlignedBuffer { storage, base, offset, size, alignment };
        assert(b@ =~= Seq::new(size as nat, |i: int| 0u8));
        Ok(b)
    }

    /// Allocates an aligned buffer holding a copy of `slice`; an empty slice is refused, since
    /// a buffer always holds at least one byte.
    pub fn from_slice(slice: &[u8]) -> (r: Result<Self>)
        ensures
            match r {
                Ok(b) => b.wf() && b.alignment() == REQUIRED_MEMORY_ALIGNMENT
                    && b.spec_start_address() % 64 == 0 && slice@.len() > 0
                    && slice@.len() <= max_aligned_size() && b@ == slice@,
                Err(e) => (slice@.len() == 0 && (e matches ScalixError::ExecutionFailed(m) && m@
                    == empty_slice_message())) || (slice@.len() > max_aligned_size() && (
                e matches ScalixError::ExecutionFailed(m) && m@ == invalid_layout_message())),
            },
    {
        if slice.len() == 0 {
            return Err(
                ScalixError::ExecutionFailed(
                    "Cannot create an aligned buffer from an empty slice".to_owned(),
                ),
            );
        }
        let mut buf = match Self::new(slice.len()) {
            Ok(b) => b,
            Err(e) => return Err(e),
        };
        let dst = buf.as_mut_slice();
        let n = slice.len();
        let mut i: usize = 0;
        while i < n
            invariant
                n == slice@.len(),
                dst@.len() == n,
                0 <= i <= n,
                forall|j: int| 0 <= j < i ==> dst@[j] == slice@[j],
            decreases n - i,
        {
            dst[i] = slice[i];
            i = i + 1;
        }
        assert(dst@ =~= slice@);
        Ok(buf)
    }

    /// The contents.
    pub fn as_slice(&self) -> (r: &[u8])
        requires
            self.wf(),
        ensures
            r@ == self@,
    {
        &self.storage.as_slice()[self.offset..self.offset + self.size]
    }

    /// The contents, writable.
    pub fn as_mut_slice(&mut self) -> (r: &mut [u8])
        requires
            old(self).wf(),
        ensures
            r@ == old(self)@,
            final(self).wf(),
            final(self).alignment() == old(self).alignment(),
            final(self).spec_start_address() == old(self).spec_start_address(),
            final(self)@ == final(r)@,
    {
        let off = self.offset;
        let size = self.size;
        let all = self.storage.as_mut_slice();
        subslice_mut(all, off, off + size)
    }

    /// Address of the first byte of the contents: a multiple of the buffer's alignment.
    pub fn start_address(&self) -> (r: usize)
        requires
            self.wf(),
        ensures
            r == self.spec_start_address(),
            r % self.alignment() == 0,
    {
        self.base + self.offset
    }

    /// Number of bytes held.
    pub fn len(&self) -> (r: usize)
        requires
            self.wf(),
        ensures
            r == self@.len(),
            r >= 1,
    {
        self.size
    }

    /// True when no byte is held (never the case: a buffer holds at least one byte).
    pub fn is_empty(&self) -> (r: bool)
        requires
            self.wf(),
        ensures
            r == (self@.len() == 0),
            !r,
    {
        self.size == 0
    }
}

impl Clone for AlignedBuffer {
    /// A new 64-byte aligned buffer with the same contents.
    fn clone(&self) -> (r: Self)
        ensures
            self.wf() && self@.len() <= max_aligned_size() ==> r.wf() && r@ == self@
                && r.alignment() == REQUIRED_MEMORY_ALIGNMENT && r.spec_start_address() % 64 == 0,
    {
        if !(1 <= self.size && self.size <= (isize::MAX as usize) - (REQUIRED_MEMORY_ALIGNMENT - 1)
            && self.size <= self.storage.len() && self.offset <= self.storage.len() - self.size) {
            // Unreachable for well-formed buffers small enough to be copied into a 64-byte
            // aligned one; no storage of a larger size can be allocated.
            return AlignedBuffer {
                storage: vec![0u8; REQUIRED_MEMORY_ALIGNMENT],
                base: 0,
                offset: 0,
                size: 1,
                alignment: 1,
            };
        }
        let mut buf = match Self::new(self.size) {
            Ok(b) => b,
            Err(_) => return AlignedBuffer {
                storage: vec![0u8; REQUIRED_MEMORY_ALIGNMENT],
                base: 0,
                offset: 0,
                size: 1,
                alignment: 1,
            },
        };
        let src = &self.storage.as_slice()[self.offset..self.offset + self.size];
        let dst = buf.as_mut_slice();
        let n = src.len();
        let mut i: usize = 0;
        while i < n
            invariant
                n == src@.len(),
                dst@.len() == n,
                0 <= i <= n,
                forall|j: int| 0 <= j < i ==> dst@[j] == src@[j],
            decreases n - i,
        {
            dst[i] = src[i];
            i = i + 1;
        }
        assert(dst@ =~= src@);
        buf
    }
}

/// Law: a well-formed buffer (every buffer the constructors give) holds at least one byte.
pub proof fn lemma_aligned_buffer_never_empty(b: AlignedBuffer)
    requires
        b.wf(),
    ensures
        b@.len() >= 1,
{
}

impl core::ops::Deref for AlignedBuffer {
    type Target = [u8];

    /// The contents.
    fn deref(&self) -> (r: &[u8])
        ensures
            r@ == self@,
    {
        if self.size <= self.storage.len() && self.offset <= self.storage.len() - self.size {
            &self.storage.as_slice()[self.offset..self.offset + self.size]
        } else {
            &[]
        }
    }
}

impl PartialEq for AlignedBuffer {
    /// Whether both buffers hold the same bytes.
    fn eq(&self, other: &Self) -> (r: bool) {
        let a: &[u8] = &**self;
        let b: &[u8] = &**other;
        if a.len() != b.len() {
            return false;
        }
        let mut i: usize = 0;
        while i < a.len()
            invariant
                a@ == self@,
                b@ == other@,
                a@.len() == b@.len(),
                0 <= i <= a@.len(),
                forall|j: int| 0 <= j < i ==> a@[j] == b@[j],
            decreases a@.len() - i,
        {
            if a[i] != b[i] {
                assert(a@[i as int] != b@[i as int]);
                return false;
            }
            i = i + 1;
        }
        assert(a@ =~= b@);
        true
    }
}

impl vstd::std_specs::cmp::PartialEqSpecImpl for AlignedBuffer {
    open spec fn obeys_eq_spec() -> bool {
        true
    }

    open spec fn eq_spec(&self, other: &Self) -> bool {
        self@ == other@
    }
}

impl Eq for AlignedBuffer {

}

} // verus!
