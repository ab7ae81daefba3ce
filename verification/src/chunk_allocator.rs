//! The chunk allocator: the heart of the kernel heap.
//!
//! The allocator manages a fixed byte region (the heap) in chunks of
//! [`CHUNK_SIZE`] bytes and records in a bitmap (the management storage)
//! which chunks currently back a live allocation. Allocation requests of an
//! arbitrary size and power-of-two alignment are served first-fit: the
//! lowest-address contiguous run of free chunks whose start address meets
//! the requested alignment wins.
//!
//! Bitmap polarity: a set bit means the chunk is in use, a clear bit means
//! it is free. Bit `i % 8` of bitmap byte `i / 8` tracks chunk `i`, so bit 0
//! of byte 0 is the first chunk.

use vstd::prelude::*;

use crate::mem::PAGE_SIZE;

verus! {

/// The fixed allocation granularity in bytes.
pub const CHUNK_SIZE: usize = 256;

/// Whether bit `k` of byte `b` is set.
pub open spec fn byte_bit(b: u8, k: u8) -> bool {
    b & (1u8 << k) != 0
}

/// The bits of a byte string, least significant bit of the first byte first.
pub open spec fn bit_seq(bytes: Seq<u8>) -> Seq<bool> {
    Seq::new(bytes.len() * 8, |i: int| byte_bit(bytes[i / 8], (i % 8) as u8))
}

/// How many chunks back an allocation of `size` bytes: at least one chunk,
/// and enough whole chunks to cover `size`.
pub open spec fn spec_needed_chunks(size: int) -> int {
    if size <= CHUNK_SIZE {
        1
    } else if size % (CHUNK_SIZE as int) == 0 {
        size / (CHUNK_SIZE as int)
    } else {
        size / (CHUNK_SIZE as int) + 1
    }
}

/// All chunks in `[start, start + n)` are free in `c`.
pub open spec fn run_free(c: Seq<bool>, start: int, n: int) -> bool {
    forall|k: int| start <= k < start + n ==> !c[k]
}

/// All chunks in `[start, start + n)` are in use in `c`.
pub open spec fn run_used(c: Seq<bool>, start: int, n: int) -> bool {
    forall|k: int| start <= k < start + n ==> c[k]
}

/// The chunk state `c` with the run `[start, start + n)` forced to `used`.
pub open spec fn set_run(c: Seq<bool>, start: int, n: int, used: bool) -> Seq<bool> {
    Seq::new(c.len(), |i: int| if start <= i < start + n { used } else { c[i] })
}

/// The alignments the allocator serves: the powers of two up to the page
/// size. The heap base itself is page-aligned, so every supported alignment
/// can be met by some chunk boundary.
pub open spec fn align_supported(align: int) -> bool {
    align == 1 || align == 2 || align == 4 || align == 8 || align == 16 || align == 32
        || align == 64 || align == 128 || align == 256 || align == 512 || align == 1024
        || align == 2048 || align == 4096
}

/// A run of `n` chunks starting at chunk `start` can back an allocation:
/// it lies inside the heap, every chunk of it is free, and its start
/// address meets `align`.
pub open spec fn fit_at(c: Seq<bool>, heap_base: int, align: int, start: int, n: int) -> bool {
    0 <= start && start + n <= c.len() && run_free(c, start, n) && (heap_base + start * (
    CHUNK_SIZE as int)) % align == 0
}

/// `start` is the first-fit position for `n` chunks: it fits, and no lower
/// chunk index fits.
pub open spec fn first_fit_at(
    c: Seq<bool>,
    heap_base: int,
    align: int,
    start: int,
    n: int,
) -> bool {
    fit_at(c, heap_base, align, start, n) && (forall|j: int|
        0 <= j < start ==> !fit_at(c, heap_base, align, j, n))
}

/// Some run of `n` chunks can back the allocation.
pub open spec fn exists_fit(c: Seq<bool>, heap_base: int, align: int, n: int) -> bool {
    exists|s: int| fit_at(c, heap_base, align, s, n)
}

/// Why `init` refused to bind the allocator to its regions.
#[derive(Clone, Copy, Debug, PartialEq, Eq, Structural)]
pub enum InitError {
    /// The allocator was already bound to its regions by an earlier `init`.
    AlreadyInitialized,
    /// The heap size is zero or not a multiple of [`CHUNK_SIZE`].
    HeapSizeNotMultipleOfChunkSize,
    /// The bitmap does not hold exactly one bit per chunk.
    BitmapSizeMismatch,
    /// The heap base address is not page-aligned.
    HeapNotPageAligned,
}

/// Why `alloc` returned no address.
#[derive(Clone, Copy, Debug, PartialEq, Eq, Structural)]
pub enum AllocError {
    /// `init` has not been called yet.
    Uninitialized,
    /// The requested alignment is zero, not a power of two, or larger than
    /// the page size.
    UnsupportedAlignment,
    /// No contiguous run of free chunks satisfies the request.
    OutOfMemory,
}

/// Why `dealloc` refused to release a region.
#[derive(Clone, Copy, Debug, PartialEq, Eq, Structural)]
pub enum DeallocError {
    /// `init` has not been called yet.
    Uninitialized,
    /// The address lies outside the heap, or the region would extend past
    /// its end.
    AddressOutOfRange,
    /// The address is not the start address of a chunk.
    AddressNotChunkAligned,
    /// Some chunk of the region is already free: a double free or a free of
    /// an address this allocator never returned.
    ChunkNotInUse,
}

/// A first-fit allocator over a fixed byte region, tracking chunk occupancy
/// in a bitmap. The allocator hands out addresses inside the heap region; it
/// never reads or writes the heap bytes themselves, so it owns the bitmap
/// and refers to the heap only through its base address and size.
pub struct ChunkAllocator {
    heap_base: usize,
    heap_size: usize,
    bitmap: Vec<u8>,
    initialized: bool,
}

impl ChunkAllocator {
    /// Whether `init` has completed successfully.
    pub closed spec fn is_initialized(&self) -> bool {
        self.initialized
    }

    /// The start address of the heap region.
    pub closed spec fn spec_heap_base(&self) -> int {
        self.heap_base as int
    }

    /// The heap region's length in bytes.
    pub closed spec fn spec_heap_size(&self) -> int {
        self.heap_size as int
    }

    /// The number of chunks the heap is divided into.
    pub open spec fn spec_chunk_count(&self) -> int {
        self.spec_heap_size() / (CHUNK_SIZE as int)
    }

    /// The occupancy state of every chunk, in heap order; `true` means the
    /// chunk backs a live allocation.
    pub closed spec fn chunks(&self) -> Seq<bool> {
        bit_seq(self.bitmap@)
    }

    /// Structural well-formedness: once initialized, the regions have the
    /// validated shape and the bitmap covers exactly one bit per chunk.
    pub open spec fn wf(&self) -> bool {
        self.is_initialized() ==> {
            &&& self.spec_heap_size() > 0
            &&& self.spec_heap_size() % (CHUNK_SIZE as int) == 0
            &&& self.spec_chunk_count() % 8 == 0
            &&& self.chunks().len() == self.spec_chunk_count()
            &&& self.spec_heap_base() % (PAGE_SIZE as int) == 0
            &&& self.spec_heap_base() + self.spec_heap_size() <= usize::MAX
        }
    }

    /// Every chunk is free.
    pub open spec fn all_chunks_free(&self) -> bool {
        forall|i: int| 0 <= i < self.chunks().len() ==> !self.chunks()[i]
    }

    /// A fresh allocator: not yet bound to any regions; every operation but
    /// `init` fails on it.
    pub fn new() -> (a: ChunkAllocator)
        ensures
            !a.is_initialized(),
            a.wf(),
    {
        ChunkAllocator { heap_base: 0, heap_size: 0, bitmap: Vec::new(), initialized: false }
    }

    /// Binds the allocator to its heap region (given by base address and
    /// size) and its management storage, and marks every chunk free.
    ///
    /// The management storage is handed over by value, so after a
    /// successful `init` the allocator owns it exclusively and nothing else
    /// can alias it; keeping its bytes out of the heap address range is the
    /// caller's side of the bargain, as only the caller knows where the
    /// storage lives.
    ///
    /// Fails without changing the allocator if it is already initialized, if
    /// the heap size is not a positive multiple of [`CHUNK_SIZE`], if the
    /// bitmap does not hold exactly one bit per chunk (which also requires
    /// the chunk count to be a multiple of 8), or if the heap base is not
    /// page-aligned. May be called successfully only once.
    pub fn init(&mut self, heap_base: usize, heap_size: usize, bitmap: Vec<u8>) -> (r: Result<
        (),
        InitError,
    >)
        requires
            old(self).wf(),
            heap_base + heap_size <= usize::MAX,
        ensures
            final(self).wf(),
            old(self).is_initialized() ==> r == Err::<(), InitError>(InitError::AlreadyInitialized)
                && *final(self) == *old(self),
            !old(self).is_initialized() && !(heap_size > 0 && heap_size % CHUNK_SIZE == 0) ==> r
                == Err::<(), InitError>(InitError::HeapSizeNotMultipleOfChunkSize) && *final(self)
                == *old(self),
            !old(self).is_initialized() && heap_size > 0 && heap_size % CHUNK_SIZE == 0 && bitmap@.len()
                * 8 != heap_size / CHUNK_SIZE ==> r == Err::<(), InitError>(
                InitError::BitmapSizeMismatch,
            ) && *final(self) == *old(self),
            !old(self).is_initialized() && heap_size > 0 && heap_size % CHUNK_SIZE == 0 && bitmap@.len()
                * 8 == heap_size / CHUNK_SIZE && heap_base % PAGE_SIZE != 0 ==> r == Err::<
                (),
                InitError,
            >(InitError::HeapNotPageAligned) && *final(self) == *old(self),
            !old(self).is_initialized() && heap_size > 0 && heap_size % CHUNK_SIZE == 0 && bitmap@.len()
                * 8 == heap_size / CHUNK_SIZE && heap_base % PAGE_SIZE == 0 ==> r == Ok::<
                (),
                InitError,
            >(()) && final(self).is_initialized() && final(self).spec_heap_base() == heap_base
                && final(self).spec_heap_size() == heap_size && final(self).all_chunks_free(),
    {
        if self.initialized {
            return Err(InitError::AlreadyInitialized);
        }
        if heap_size == 0 || heap_size % CHUNK_SIZE != 0 {
            return Err(InitError::HeapSizeNotMultipleOfChunkSize);
        }
        let chunk_count = heap_size / CHUNK_SIZE;
        if chunk_count % 8 != 0 || bitmap.len() != chunk_count / 8 {
            return Err(InitError::BitmapSizeMismatch);
        }
        if heap_base % PAGE_SIZE != 0 {
            return Err(InitError::HeapNotPageAligned);
        }
        proof {
            assert(bitmap@.len() * 8 == heap_size / CHUNK_SIZE);
        }
        self.heap_base = heap_base;
        self.heap_size = heap_size;
        self.bitmap = bitmap;
        let mut i: usize = 0;
        while i < self.bitmap.len()
            invariant
                0 <= i <= self.bitmap@.len(),
                forall|j: int| 0 <= j < i ==> self.bitmap@[j] == 0u8,
                self.heap_base == heap_base,
                self.heap_size == heap_size,
                !self.initialized,
                self.bitmap@.len() * 8 == heap_size / CHUNK_SIZE,
                heap_size > 0 && heap_size % CHUNK_SIZE == 0,
                heap_base % PAGE_SIZE == 0,
                heap_base + heap_size <= usize::MAX,
            decreases self.bitmap@.len() - i,
        {
            self.bitmap[i] = 0u8;
            i = i + 1;
        }
        self.initialized = true;
        proof {
            assert(forall|k: u8| k < 8 ==> !byte_bit(0u8, k)) by (bit_vector);
            assert forall|j: int| 0 <= j < self.chunks().len() implies !self.chunks()[j] by {
                assert(self.bitmap@[j / 8] == 0u8);
                assert(((j % 8) as u8) < 8);
            }
        }
        Ok(())
    }
}

/// Setting bit `k` of a byte sets exactly that bit; clearing it clears
/// exactly that bit.
proof fn lemma_byte_bit_update(b: u8, k: u8, j: u8)
    by (bit_vector)
    requires
        k < 8,
        j < 8,
    ensures
        byte_bit(b | (1u8 << k), j) == (j == k || byte_bit(b, j)),
        byte_bit(b & !(1u8 << k), j) == (j != k && byte_bit(b, j)),
{
}

/// Reads bit `i` of the bitmap.
fn bitmap_get(v: &Vec<u8>, i: usize) -> (b: bool)
    requires
        i < v@.len() * 8,
    ensures
        b == bit_seq(v@)[i as int],
{
    let byte = v[i / 8];
    let k = (i % 8) as u8;
    (byte & (1u8 << k)) != 0
}

/// Writes bit `i` of the bitmap, leaving every other bit unchanged.
fn bitmap_write(v: &mut Vec<u8>, i: usize, used: bool)
    requires
        i < old(v)@.len() * 8,
    ensures
        final(v)@.len() == old(v)@.len(),
        bit_seq(final(v)@) == bit_seq(old(v)@).update(i as int, used),
{
    let byte = v[i / 8];
    let k = (i % 8) as u8;
    let new_byte = if used {
        byte | (1u8 << k)
    } else {
        byte & !(1u8 << k)
    };
    v[i / 8] = new_byte;
    proof {
        let old_bits = bit_seq(old(v)@);
        let new_bits = bit_seq(v@);
        assert forall|j: int| 0 <= j < new_bits.len() implies new_bits[j] == old_bits.update(
            i as int,
            used,
        )[j] by {
            assert(j == 8 * (j / 8) + j % 8);
            assert(i as int == 8 * (i as int / 8) + i as int % 8);
            if j / 8 == i as int / 8 {
                lemma_byte_bit_update(old(v)@[i as int / 8], (i % 8) as u8, (j % 8) as u8);
            } else {
                assert(v@[j / 8] == old(v)@[j / 8]);
            }
        }
        assert(new_bits =~= old_bits.update(i as int, used));
    }
}

impl ChunkAllocator {
    /// Whether every chunk in `[start, start + n)` is free.
    fn check_run_free(&self, start: usize, n: usize) -> (b: bool)
        requires
            self.wf(),
            self.is_initialized(),
            start + n <= self.spec_chunk_count(),
        ensures
            b == run_free(self.chunks(), start as int, n as int),
    {
        let mut k = start;
        while k < start + n
            invariant
                start <= k <= start + n,
                start + n <= self.chunks().len(),
                self.wf() && self.is_initialized(),
                start + n <= self.spec_chunk_count(),
                forall|j: int| start <= j < k ==> !self.chunks()[j],
            decreases start + n - k,
        {
            if bitmap_get(&self.bitmap, k) {
                return false;
            }
            k = k + 1;
        }
        true
    }

    /// Whether every chunk in `[start, start + n)` is in use.
    fn check_run_used(&self, start: usize, n: usize) -> (b: bool)
        requires
            self.wf(),
            self.is_initialized(),
            start + n <= self.spec_chunk_count(),
        ensures
            b == run_used(self.chunks(), start as int, n as int),
    {
        let mut k = start;
        while k < start + n
            invariant
                start <= k <= start + n,
                start + n <= self.chunks().len(),
                self.wf() && self.is_initialized(),
                start + n <= self.spec_chunk_count(),
                forall|j: int| start <= j < k ==> self.chunks()[j],
            decreases start + n - k,
        {
            if !bitmap_get(&self.bitmap, k) {
                return false;
            }
            k = k + 1;
        }
        true
    }

    /// Marks every chunk in `[start, start + n)` as `used`, leaving every
    /// other chunk unchanged.
    fn write_run(&mut self, start: usize, n: usize, used: bool)
        requires
            old(self).wf(),
            old(self).is_initialized(),
            start + n <= old(self).spec_chunk_count(),
        ensures
            final(self).wf(),
            final(self).is_initialized(),
            final(self).spec_heap_base() == old(self).spec_heap_base(),
            final(self).spec_heap_size() == old(self).spec_heap_size(),
            final(self).chunks() == set_run(old(self).chunks(), start as int, n as int, used),
    {
        let mut k = start;
        while k < start + n
            invariant
                start <= k <= start + n,
                self.wf() && self.is_initialized(),
                self.spec_heap_base() == old(self).spec_heap_base(),
                self.spec_heap_size() == old(self).spec_heap_size(),
                self.chunks().len() == old(self).chunks().len(),
                start + n <= self.spec_chunk_count(),
                self.bitmap@.len() == old(self).bitmap@.len(),
                forall|j: int|
                    0 <= j < self.chunks().len() ==> self.chunks()[j] == (if start <= j < k {
                        used
                    } else {
                        old(self).chunks()[j]
                    }),
            decreases start + n - k,
        {
            bitmap_write(&mut self.bitmap, k, used);
            k = k + 1;
        }
        proof {
            assert(self.chunks() =~= set_run(old(self).chunks(), start as int, n as int, used));
        }
    }
}

/// How many chunks an allocation of `size` bytes occupies.
fn needed_chunks(size: usize) -> (n: usize)
    ensures
        n == spec_needed_chunks(size as int),
        1 <= n,
{
    if size <= CHUNK_SIZE {
        1
    } else if size % CHUNK_SIZE == 0 {
        size / CHUNK_SIZE
    } else {
        size / CHUNK_SIZE + 1
    }
}

/// Whether the allocator serves requests of this alignment.
fn align_is_supported(align: usize) -> (b: bool)
    ensures
        b == align_supported(align as int),
{
    align == 1 || align == 2 || align == 4 || align == 8 || align == 16 || align == 32 || align
        == 64 || align == 128 || align == 256 || align == 512 || align == 1024 || align == 2048
        || align == 4096
}

impl ChunkAllocator {
    /// Serves an allocation request of `size` bytes at alignment `align`.
    ///
    /// Rounds the request up to whole chunks (a zero-size request still
    /// occupies one chunk), scans for the lowest-address contiguous run of
    /// free chunks whose start address is divisible by `align`, marks that
    /// run used and returns its start address. Returns an error — leaving
    /// every chunk unchanged — if the allocator is uninitialized, if the
    /// alignment is unsupported, or if no such run exists.
    pub fn allocate(&mut self, size: usize, align: usize) -> (r: Result<usize, AllocError>)
        requires
            old(self).wf(),
        ensures
            final(self).wf(),
            final(self).is_initialized() == old(self).is_initialized(),
            final(self).spec_heap_base() == old(self).spec_heap_base(),
            final(self).spec_heap_size() == old(self).spec_heap_size(),
            !old(self).is_initialized() ==> r == Err::<usize, AllocError>(AllocError::Uninitialized)
                && *final(self) == *old(self),
            old(self).is_initialized() && !align_supported(align as int) ==> r == Err::<
                usize,
                AllocError,
            >(AllocError::UnsupportedAlignment) && *final(self) == *old(self),
            old(self).is_initialized() && align_supported(align as int) && !exists_fit(
                old(self).chunks(),
                old(self).spec_heap_base(),
                align as int,
                spec_needed_chunks(size as int),
            ) ==> r == Err::<usize, AllocError>(AllocError::OutOfMemory) && *final(self) == *old(
                self,
            ),
            old(self).is_initialized() && align_supported(align as int) && exists_fit(
                old(self).chunks(),
                old(self).spec_heap_base(),
                align as int,
                spec_needed_chunks(size as int),
            ) ==> (exists|s: int|
                #[trigger] first_fit_at(
                    old(self).chunks(),
                    old(self).spec_heap_base(),
                    align as int,
                    s,
                    spec_needed_chunks(size as int),
                ) && r == Ok::<usize, AllocError>(
                    ((old(self).spec_heap_base() + s * (CHUNK_SIZE as int)) as usize),
                ) && final(self).chunks() == set_run(
                    old(self).chunks(),
                    s,
                    spec_needed_chunks(size as int),
                    true,
                )),
            r matches Ok(address) ==> (address as int) % (align as int) == 0 && old(
                self,
            ).spec_heap_base() <= address && address < old(self).spec_heap_base() + old(
                self,
            ).spec_heap_size(),
    {
        if !self.initialized {
            return Err(AllocError::Uninitialized);
        }
        if !align_is_supported(align) {
            return Err(AllocError::UnsupportedAlignment);
        }
        let n = needed_chunks(size);
        let count = self.heap_size / CHUNK_SIZE;
        let ghost old_chunks = self.chunks();
        let ghost base = self.spec_heap_base();
        if n > count {
            proof {
                assert forall|s: int|
                    !fit_at(old_chunks, base, align as int, s, n as int) by {
                }
            }
            return Err(AllocError::OutOfMemory);
        }
        let mut start: usize = 0;
        while start + n <= count
            invariant
                *self == *old(self),
                self.wf() && self.is_initialized(),
                old_chunks == self.chunks(),
                base == self.spec_heap_base(),
                align_supported(align as int),
                n == spec_needed_chunks(size as int),
                1 <= n <= count,
                count == self.spec_chunk_count(),
                0 <= start <= count,
                forall|j: int| 0 <= j < start ==> !fit_at(old_chunks, base, align as int, j, n as int),
            decreases count - start,
        {
            // scan byte-at-a-time: a bitmap byte of all ones means eight
            // used chunks in a row, and no run may start inside them
            if start % 8 == 0 && self.bitmap[start / 8] == 0xffu8 {
                proof {
                    assert(forall|k: u8| k < 8 ==> byte_bit(0xffu8, k)) by (bit_vector);
                    assert forall|j: int|
                        start <= j < start + 8 implies !fit_at(
                        old_chunks,
                        base,
                        align as int,
                        j,
                        n as int,
                    ) by {
                        assert(j / 8 == start as int / 8);
                        assert(old_chunks[j]);
                        assert(!run_free(old_chunks, j, n as int));
                    }
                }
                start = start + 8;
                continue ;
            }
            proof {
                assert(count * CHUNK_SIZE == self.spec_heap_size());
                assert(start * CHUNK_SIZE < count * CHUNK_SIZE);
            }
            let address = self.heap_base + start * CHUNK_SIZE;
            if address % align == 0 {
                if self.check_run_free(start, n) {
                    self.write_run(start, n, true);
                    proof {
                        assert(fit_at(old_chunks, base, align as int, start as int, n as int));
                        assert(first_fit_at(
                            old_chunks,
                            base,
                            align as int,
                            start as int,
                            n as int,
                        ));
                    }
                    return Ok(address);
                } else {
                    proof {
                        assert(!fit_at(old_chunks, base, align as int, start as int, n as int));
                    }
                }
            } else {
                proof {
                    assert(!fit_at(old_chunks, base, align as int, start as int, n as int));
                }
            }
            start = start + 1;
        }
        proof {
            assert forall|s: int| !fit_at(old_chunks, base, align as int, s, n as int) by {
                if 0 <= s < start {
                } else if s >= start {
                    assert(s + n > count);
                }
            }
        }
        Err(AllocError::OutOfMemory)
    }

    /// Releases the region that a successful `alloc` returned, given the
    /// same size that was requested then.
    ///
    /// Recomputes the chunk count from `size` exactly as `alloc` did and
    /// clears the corresponding run of chunks. Returns an error — leaving
    /// every chunk unchanged — if the allocator is uninitialized, if the
    /// address lies outside the heap or the region would extend past its
    /// end, if the address is not a chunk start address, or if any chunk of
    /// the region is already free (a double-free indicator).
    pub fn deallocate(&mut self, address: usize, size: usize) -> (r: Result<(), DeallocError>)
        requires
            old(self).wf(),
        ensures
            final(self).wf(),
            final(self).is_initialized() == old(self).is_initialized(),
            final(self).spec_heap_base() == old(self).spec_heap_base(),
            final(self).spec_heap_size() == old(self).spec_heap_size(),
            !old(self).is_initialized() ==> r == Err::<(), DeallocError>(
                DeallocError::Uninitialized,
            ) && *final(self) == *old(self),
            old(self).is_initialized() && !(old(self).spec_heap_base() <= address < old(
                self,
            ).spec_heap_base() + old(self).spec_heap_size()) ==> r == Err::<(), DeallocError>(
                DeallocError::AddressOutOfRange,
            ) && *final(self) == *old(self),
            old(self).is_initialized() && old(self).spec_heap_base() <= address < old(
                self,
            ).spec_heap_base() + old(self).spec_heap_size() && (address - old(
                self,
            ).spec_heap_base()) % (CHUNK_SIZE as int) != 0 ==> r == Err::<(), DeallocError>(
                DeallocError::AddressNotChunkAligned,
            ) && *final(self) == *old(self),
            old(self).is_initialized() && old(self).spec_heap_base() <= address < old(
                self,
            ).spec_heap_base() + old(self).spec_heap_size() && (address - old(
                self,
            ).spec_heap_base()) % (CHUNK_SIZE as int) == 0 && (address - old(
                self,
            ).spec_heap_base()) / (CHUNK_SIZE as int) + spec_needed_chunks(size as int) > old(
                self,
            ).spec_chunk_count() ==> r == Err::<(), DeallocError>(DeallocError::AddressOutOfRange)
                && *final(self) == *old(self),
            old(self).is_initialized() && old(self).spec_heap_base() <= address < old(
                self,
            ).spec_heap_base() + old(self).spec_heap_size() && (address - old(
                self,
            ).spec_heap_base()) % (CHUNK_SIZE as int) == 0 && (address - old(
                self,
            ).spec_heap_base()) / (CHUNK_SIZE as int) + spec_needed_chunks(size as int) <= old(
                self,
            ).spec_chunk_count() && !run_used(
                old(self).chunks(),
                (address - old(self).spec_heap_base()) / (CHUNK_SIZE as int),
                spec_needed_chunks(size as int),
            ) ==> r == Err::<(), DeallocError>(DeallocError::ChunkNotInUse) && *final(self) == *old(
                self,
            ),
            old(self).is_initialized() && old(self).spec_heap_base() <= address < old(
                self,
            ).spec_heap_base() + old(self).spec_heap_size() && (address - old(
                self,
            ).spec_heap_base()) % (CHUNK_SIZE as int) == 0 && (address - old(
                self,
            ).spec_heap_base()) / (CHUNK_SIZE as int) + spec_needed_chunks(size as int) <= old(
                self,
            ).spec_chunk_count() && run_used(
                old(self).chunks(),
                (address - old(self).spec_heap_base()) / (CHUNK_SIZE as int),
                spec_needed_chunks(size as int),
            ) ==> r == Ok::<(), DeallocError>(()) && final(self).chunks() == set_run(
                old(self).chunks(),
                (address - old(self).spec_heap_base()) / (CHUNK_SIZE as int),
                spec_needed_chunks(size as int),
                false,
            ),
    {
        if !self.initialized {
            return Err(DeallocError::Uninitialized);
        }
        if address < self.heap_base || address - self.heap_base >= self.heap_size {
            return Err(DeallocError::AddressOutOfRange);
        }
        let offset = address - self.heap_base;
        if offset % CHUNK_SIZE != 0 {
            return Err(DeallocError::AddressNotChunkAligned);
        }
        let start = offset / CHUNK_SIZE;
        let n = needed_chunks(size);
        let count = self.heap_size / CHUNK_SIZE;
        proof {
            assert(count * CHUNK_SIZE == self.spec_heap_size());
            assert(start < count);
        }
        if n > count - start {
            return Err(DeallocError::AddressOutOfRange);
        }
        if !self.check_run_used(start, n) {
            return Err(DeallocError::ChunkNotInUse);
        }
        self.write_run(start, n, false);
        Ok(())
    }
}

impl ChunkAllocator {
    /// Whether `init` has completed successfully.
    pub fn initialized(&self) -> (b: bool)
        ensures
            b == self.is_initialized(),
    {
        self.initialized
    }

    /// The number of chunks the heap is divided into.
    pub fn chunk_count(&self) -> (c: usize)
        ensures
            c as int == self.spec_chunk_count(),
    {
        self.heap_size / CHUNK_SIZE
    }

    /// The start address of the heap region.
    pub fn heap_base_address(&self) -> (a: usize)
        ensures
            a as int == self.spec_heap_base(),
    {
        self.heap_base
    }

    /// The heap region's length in bytes.
    pub fn heap_size(&self) -> (s: usize)
        ensures
            s as int == self.spec_heap_size(),
    {
        self.heap_size
    }

    /// Whether chunk `i` currently backs a live allocation.
    pub fn chunk_is_used(&self, i: usize) -> (b: bool)
        requires
            self.wf(),
            self.is_initialized(),
            i < self.spec_chunk_count(),
        ensures
            b == self.chunks()[i as int],
    {
        bitmap_get(&self.bitmap, i)
    }
}

/// Law: a granted run restores on release. If a run of chunks fits at
/// `s` — as every run granted by an allocation does — then marking it used
/// and then marking it free again leaves the chunk state exactly as it was;
/// moreover, after the marking, the released region passes every check the
/// release performs: its start address is the chunk boundary `s` and its
/// whole run is in use.
pub proof fn lemma_alloc_dealloc_round_trip(
    c: Seq<bool>,
    heap_base: int,
    align: int,
    size: int,
    s: int,
)
    requires
        first_fit_at(c, heap_base, align, s, spec_needed_chunks(size)),
    ensures
        set_run(set_run(c, s, spec_needed_chunks(size), true), s, spec_needed_chunks(size), false)
            == c,
        run_used(set_run(c, s, spec_needed_chunks(size), true), s, spec_needed_chunks(size)),
        ((heap_base + s * (CHUNK_SIZE as int)) - heap_base) % (CHUNK_SIZE as int) == 0,
        ((heap_base + s * (CHUNK_SIZE as int)) - heap_base) / (CHUNK_SIZE as int) == s,
{
    let n = spec_needed_chunks(size);
    assert(set_run(set_run(c, s, n, true), s, n, false) =~= c);
}

/// A run lies inside the chunk state `c` and is not empty.
pub open spec fn valid_run(c: Seq<bool>, r: (int, int)) -> bool {
    0 <= r.0 && r.1 >= 1 && r.0 + r.1 <= c.len()
}

/// Two runs share no chunk.
pub open spec fn runs_disjoint(r1: (int, int), r2: (int, int)) -> bool {
    r1.0 + r1.1 <= r2.0 || r2.0 + r2.1 <= r1.0
}

/// The chunks marked used in `c` are exactly the chunks of the runs in
/// `runs` — each run given as its start chunk and chunk count.
pub open spec fn tracks_exactly(c: Seq<bool>, runs: Set<(int, int)>) -> bool {
    forall|i: int|
        0 <= i < c.len() ==> (c[i] <==> exists|r: (int, int)|
            #[trigger] runs.contains(r) && r.0 <= i < r.0 + r.1)
}

/// Law: granting keeps the used chunks matching the live allocations. If
/// the used chunks exactly match the runs backing the currently-live
/// allocations, and a fresh run fits — as every run granted by an
/// allocation does — then that run is disjoint from every live run, and
/// after marking it the used chunks exactly match the live runs plus the
/// new one.
pub proof fn lemma_grant_tracks_live_runs(
    c: Seq<bool>,
    runs: Set<(int, int)>,
    heap_base: int,
    align: int,
    s: int,
    n: int,
)
    requires
        tracks_exactly(c, runs),
        forall|r: (int, int)| runs.contains(r) ==> valid_run(c, r),
        fit_at(c, heap_base, align, s, n),
        n >= 1,
    ensures
        forall|r: (int, int)| runs.contains(r) ==> runs_disjoint(r, (s, n)),
        tracks_exactly(set_run(c, s, n, true), runs.insert((s, n))),
{
    assert forall|r: (int, int)| runs.contains(r) implies runs_disjoint(r, (s, n)) by {
        if !runs_disjoint(r, (s, n)) {
            let p = if r.0 <= s {
                s
            } else {
                r.0
            };
            assert(r.0 <= p < r.0 + r.1 && s <= p < s + n);
            assert(c[p]);
            assert(!c[p]);
        }
    }
    let marked = set_run(c, s, n, true);
    let grown = runs.insert((s, n));
    assert forall|i: int| 0 <= i < marked.len() implies (marked[i] <==> exists|r: (int, int)|
        #[trigger] grown.contains(r) && r.0 <= i < r.0 + r.1) by {
        if s <= i < s + n {
            assert(grown.contains((s, n)) && s <= i < s + n);
        } else {
            if marked[i] {
                let r = choose|r: (int, int)| #[trigger] runs.contains(r) && r.0 <= i < r.0 + r.1;
                assert(grown.contains(r) && r.0 <= i < r.0 + r.1);
            }
            if exists|r: (int, int)| #[trigger] grown.contains(r) && r.0 <= i < r.0 + r.1 {
                let r = choose|r: (int, int)| #[trigger] grown.contains(r) && r.0 <= i < r.0 + r.1;
                assert(r != (s, n));
                assert(runs.contains(r) && r.0 <= i < r.0 + r.1);
            }
        }
    }
}

/// Law: releasing keeps the used chunks matching the live allocations. If
/// the used chunks exactly match the pairwise disjoint runs backing the
/// currently-live allocations, then every chunk of a live run is still in
/// use — so releasing it passes the double-free check — and after clearing
/// it the used chunks exactly match the remaining live runs.
pub proof fn lemma_release_tracks_live_runs(c: Seq<bool>, runs: Set<(int, int)>, s: int, n: int)
    requires
        tracks_exactly(c, runs),
        forall|r: (int, int)| runs.contains(r) ==> valid_run(c, r),
        forall|r1: (int, int), r2: (int, int)|
            runs.contains(r1) && runs.contains(r2) && r1 != r2 ==> runs_disjoint(r1, r2),
        runs.contains((s, n)),
    ensures
        run_used(c, s, n),
        tracks_exactly(set_run(c, s, n, false), runs.remove((s, n))),
{
    assert forall|k: int| s <= k < s + n implies c[k] by {
        assert(runs.contains((s, n)) && s <= k < s + n);
    }
    let cleared = set_run(c, s, n, false);
    let shrunk = runs.remove((s, n));
    assert forall|i: int| 0 <= i < cleared.len() implies (cleared[i] <==> exists|r: (int, int)|
        #[trigger] shrunk.contains(r) && r.0 <= i < r.0 + r.1) by {
        if s <= i < s + n {
            assert(!cleared[i]);
            if exists|r: (int, int)| #[trigger] shrunk.contains(r) && r.0 <= i < r.0 + r.1 {
                let r = choose|r: (int, int)| #[trigger] shrunk.contains(r) && r.0 <= i < r.0
                    + r.1;
                assert(runs.contains(r) && r != (s, n));
                assert(runs_disjoint(r, (s, n)));
                assert(false);
            }
        } else {
            if cleared[i] {
                let r = choose|r: (int, int)| #[trigger] runs.contains(r) && r.0 <= i < r.0 + r.1;
                assert(r != (s, n));
                assert(shrunk.contains(r) && r.0 <= i < r.0 + r.1);
            }
            if exists|r: (int, int)| #[trigger] shrunk.contains(r) && r.0 <= i < r.0 + r.1 {
                let r = choose|r: (int, int)| #[trigger] shrunk.contains(r) && r.0 <= i < r.0
                    + r.1;
                assert(runs.contains(r) && r.0 <= i < r.0 + r.1);
            }
        }
    }
}

/// Law: the start address of every run that can be granted for alignment
/// `align` — and so the address returned by every successful allocation —
/// is divisible by `align`.
pub proof fn lemma_alloc_respects_alignment(
    c: Seq<bool>,
    heap_base: int,
    align: int,
    s: int,
    n: int,
)
    requires
        fit_at(c, heap_base, align, s, n),
    ensures
        (heap_base + s * (CHUNK_SIZE as int)) % align == 0,
{
}

/// Law: the exhaustion boundary. With every chunk of a `C`-chunk heap free,
/// a request for all `C` chunks (a request of `C * CHUNK_SIZE` bytes) fits,
/// at the heap base itself; once every chunk is in use, no request fits at
/// all; and after the full run is released, a one-chunk request fits again.
pub proof fn lemma_exhaustion_boundary(c: Seq<bool>, heap_base: int, align: int)
    requires
        c.len() >= 1,
        forall|i: int| 0 <= i < c.len() ==> !c[i],
        align >= 1,
        heap_base % align == 0,
    ensures
        spec_needed_chunks(c.len() * (CHUNK_SIZE as int)) == c.len(),
        fit_at(c, heap_base, align, 0, c.len() as int),
        exists_fit(c, heap_base, align, c.len() as int),
        !exists_fit(set_run(c, 0, c.len() as int, true), heap_base, align, 1),
        exists_fit(
            set_run(set_run(c, 0, c.len() as int, true), 0, c.len() as int, false),
            heap_base,
            align,
            1,
        ),
{
    let len = c.len() as int;
    assert(len * (CHUNK_SIZE as int) / (CHUNK_SIZE as int) == len) by (nonlinear_arith);
    assert(len * (CHUNK_SIZE as int) % (CHUNK_SIZE as int) == 0) by (nonlinear_arith);
    assert(fit_at(c, heap_base, align, 0, len));
    let full = set_run(c, 0, len, true);
    assert forall|s: int| !fit_at(full, heap_base, align, s, 1) by {
        if 0 <= s && s + 1 <= full.len() {
            assert(full[s]);
            assert(!run_free(full, s, 1));
        }
    }
    let restored = set_run(full, 0, len, false);
    assert(!restored[0]);
    assert(fit_at(restored, heap_base, align, 0, 1));
}

} // verus!
