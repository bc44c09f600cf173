//! Page-aligned transfer buffers and the fixed pool that hands them out.
//!
//! Direct (cache-bypassing) device I/O needs every transfer to start at an
//! address that is a multiple of the page size. Each buffer therefore owns an
//! allocation one page larger than the nominal transfer unit and exposes the
//! sub-window that starts at the first page boundary.

use vstd::prelude::*;
use vstd::slice::slice_subrange;
use crate::BUF_SIZE;
use crate::PAGE_SIZE;

verus! {

/// Relies on `Vec::as_ptr` of std: the address of the vector's first byte.
/// Which address the allocator chose is not promised, so nothing is ensured.
#[verifier::external_body]
fn buffer_addr(v: &Vec<u8>) -> usize {
    v.as_ptr() as usize
}

/// How far past `addr` the first page boundary lies: the smallest offset `s`
/// with `(addr + s)` a multiple of the page size.
pub fn align_shift(addr: usize) -> (s: usize)
    ensures
        s < PAGE_SIZE,
        (addr as int + s as int) % (PAGE_SIZE as int) == 0,
{
    let masked = addr & (PAGE_SIZE - 1);
    proof {
        assert(PAGE_SIZE - 1 == 4095);
        assert(addr & 4095 == addr % 4096) by (bit_vector);
    }
    let s = (PAGE_SIZE - masked) % PAGE_SIZE;
    proof {
        let a = addr as int;
        let m = masked as int;
        if m == 0 {
            assert(s == 0);
            assert(a % 4096 == 0);
        } else {
            assert(s == 4096 - m);
            assert((a + (4096 - a % 4096)) % 4096 == 0) by (nonlinear_arith);
        }
    }
    s
}

/// One reusable transfer buffer: a fixed allocation one page larger than the
/// nominal unit, the offset of its page-aligned window, and how many bytes of
/// the window are valid for the current block.
pub struct AlignedBuffer {
    buf: Vec<u8>,
    page_shift: usize,
    base: Ghost<usize>,
    /// Valid bytes in the window; the final block of a stream may be short.
    pub used: usize,
}

impl AlignedBuffer {
    /// The allocation has its fixed size, the window starts at a page
    /// boundary within the first page, and `used` never exceeds the window.
    pub closed spec fn wf(self) -> bool {
        &&& self.buf@.len() == BUF_SIZE + PAGE_SIZE
        &&& self.page_shift < PAGE_SIZE
        &&& (self.base@ as int + self.page_shift as int) % (PAGE_SIZE as int) == 0
        &&& self.used <= BUF_SIZE
    }

    /// The page-aligned window: the nominal transfer unit's worth of bytes.
    pub closed spec fn window(self) -> Seq<u8> {
        self.buf@.subrange(self.page_shift as int, self.page_shift as int + BUF_SIZE as int)
    }

    /// How many bytes of the window are valid, as seen by specifications.
    pub closed spec fn spec_used(self) -> usize {
        self.used
    }

    /// The bytes of the window that hold the current block.
    pub closed spec fn valid_bytes(self) -> Seq<u8> {
        self.window().take(self.used as int)
    }

    /// A well-formed buffer's window is exactly one nominal unit long.
    pub proof fn lemma_window_len(self)
        requires
            self.wf(),
        ensures
            self.window().len() == BUF_SIZE,
            self.valid_bytes().len() == self.spec_used(),
            self.valid_bytes() == self.window().take(self.spec_used() as int),
    {
    }

    /// Allocates the buffer once and fixes its aligned window.
    pub fn new() -> (b: AlignedBuffer)
        ensures
            b.wf(),
            b.spec_used() == 0,
    {
        let buf: Vec<u8> = vec![0u8; BUF_SIZE + PAGE_SIZE];
        let addr = buffer_addr(&buf);
        let page_shift = align_shift(addr);
        AlignedBuffer { buf, page_shift, base: Ghost(addr), used: 0 }
    }

    /// How many bytes of the window hold the current block.
    pub fn used_len(&self) -> (n: usize)
        ensures
            n == self.spec_used(),
    {
        self.used
    }

    /// The aligned window, for handing to device I/O.
    pub fn get_aligned_buf(&self) -> (w: &[u8])
        requires
            self.wf(),
        ensures
            w@ == self.window(),
    {
        slice_subrange(self.buf.as_slice(), self.page_shift, self.page_shift + BUF_SIZE)
    }

    /// Copies one block into the front of the window and records its length.
    pub fn fill(&mut self, src: &[u8])
        requires
            old(self).wf(),
            src@.len() <= BUF_SIZE,
        ensures
            final(self).wf(),
            final(self).spec_used() == src@.len(),
            final(self).valid_bytes() == src@,
            final(self).window().skip(src@.len() as int)
                == old(self).window().skip(src@.len() as int),
    {
        let n = src.len();
        let mut i: usize = 0;
        while i < n
            invariant
                i <= n,
                n == src@.len(),
                n <= BUF_SIZE,
                self.page_shift == old(self).page_shift,
                self.base == old(self).base,
                self.used == old(self).used,
                self.buf@.len() == old(self).buf@.len(),
                old(self).wf(),
                forall|k: int|
                    self.page_shift <= k < self.page_shift + i
                        ==> #[trigger] self.buf@[k] == src@[k - self.page_shift],
                forall|k: int|
                    self.page_shift + i <= k < self.buf@.len()
                        ==> #[trigger] self.buf@[k] == old(self).buf@[k],
                forall|k: int|
                    0 <= k < self.page_shift ==> #[trigger] self.buf@[k] == old(self).buf@[k],
            decreases n - i,
        {
            let idx = self.page_shift + i;
            let byte = *vstd::slice::slice_index_get(src, i);
            self.buf[idx] = byte;
            i += 1;
        }
        self.used = n;
        proof {
            assert(final(self).valid_bytes() =~= src@);
            assert(final(self).window().skip(n as int)
                =~= old(self).window().skip(n as int));
        }
    }
}

/// A fixed set of aligned buffers exchanged between the read side and the
/// write side by ownership transfer. The pool never grows, so total buffer
/// memory is bounded and independent of the source length.
pub struct BufferPool {
    free: Vec<AlignedBuffer>,
    size: usize,
}

impl BufferPool {
    /// The free list never exceeds the fixed pool size, and every parked
    /// buffer is well formed.
    pub closed spec fn wf(self) -> bool {
        &&& self.free@.len() <= self.size
        &&& forall|i: int| 0 <= i < self.free@.len() ==> #[trigger] self.free@[i].wf()
    }

    /// The fixed number of buffers this pool was built with.
    pub closed spec fn capacity(self) -> nat {
        self.size as nat
    }

    /// How many buffers are checked out and not yet returned.
    pub closed spec fn in_flight(self) -> nat {
        (self.size - self.free@.len()) as nat
    }

    /// At no instant are more buffers in flight than the pool holds.
    pub proof fn lemma_in_flight_bounded(self)
        requires
            self.wf(),
        ensures
            self.in_flight() <= self.capacity(),
    {
    }

    /// Allocates all `size` buffers up front; none is in flight yet.
    pub fn new(size: usize) -> (p: BufferPool)
        ensures
            p.wf(),
            p.capacity() == size,
            p.in_flight() == 0,
    {
        let mut free: Vec<AlignedBuffer> = Vec::new();
        let mut i: usize = 0;
        while i < size
            invariant
                i <= size,
                free@.len() == i,
                forall|j: int| 0 <= j < free@.len() ==> #[trigger] free@[j].wf(),
            decreases size - i,
        {
            free.push(AlignedBuffer::new());
            i += 1;
        }
        BufferPool { free, size }
    }

    /// Hands out a free buffer, or reports that none is available: the
    /// caller then waits, which is the backpressure of the pipeline.
    pub fn checkout(&mut self) -> (r: Option<AlignedBuffer>)
        requires
            old(self).wf(),
        ensures
            final(self).wf(),
            final(self).capacity() == old(self).capacity(),
            r is Some <==> old(self).in_flight() < old(self).capacity(),
            r is Some ==> final(self).in_flight() == old(self).in_flight() + 1,
            r matches Some(b) ==> b.wf(),
            r is None ==> final(self).in_flight() == old(self).in_flight(),
    {
        match self.free.pop() {
            Some(b) => Some(b),
            None => None,
        }
    }

    /// Takes a checked-out buffer back; only the current holder of a buffer
    /// may hand it in, so the free list cannot overflow the pool.
    pub fn checkin(&mut self, b: AlignedBuffer)
        requires
            old(self).wf(),
            b.wf(),
            old(self).in_flight() > 0,
        ensures
            final(self).wf(),
            final(self).capacity() == old(self).capacity(),
            final(self).in_flight() == old(self).in_flight() - 1,
    {
        self.free.push(b);
    }
}

} // verus!
