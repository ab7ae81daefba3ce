use kernel_lib::chunk_allocator::{
    AllocError, CHUNK_SIZE, ChunkAllocator, DeallocError, InitError,
};

const BASE: usize = 0x10_0000;

fn new_initialized(heap_size: usize) -> ChunkAllocator {
    let mut allocator = ChunkAllocator::new();
    let bitmap = vec![0xffu8; heap_size / CHUNK_SIZE / 8];
    allocator.init(BASE, heap_size, bitmap).unwrap();
    allocator
}

fn assert_all_free(allocator: &ChunkAllocator) {
    let count = allocator.chunk_count();
    for i in 0..count {
        assert!(!allocator.chunk_is_used(i), "chunk {} should be free", i);
    }
}

#[test]
fn init_resets_every_chunk_to_free() {
    let allocator = new_initialized(2048);
    assert!(allocator.initialized());
    assert_eq!(8, allocator.chunk_count());
    assert_all_free(&allocator);
}

#[test]
fn init_rejects_heap_size_not_multiple_of_chunk_size() {
    let mut allocator = ChunkAllocator::new();
    assert_eq!(
        Err(InitError::HeapSizeNotMultipleOfChunkSize),
        allocator.init(BASE, 0, Vec::new())
    );
    assert_eq!(
        Err(InitError::HeapSizeNotMultipleOfChunkSize),
        allocator.init(BASE, 2049, vec![0u8; 1])
    );
    assert!(!allocator.initialized());
}

#[test]
fn init_rejects_bitmap_size_mismatch() {
    let mut allocator = ChunkAllocator::new();
    assert_eq!(
        Err(InitError::BitmapSizeMismatch),
        allocator.init(BASE, 2048, vec![0u8; 2])
    );
    // 4 chunks cannot be covered by whole bitmap bytes
    assert_eq!(
        Err(InitError::BitmapSizeMismatch),
        allocator.init(BASE, 1024, Vec::new())
    );
    assert!(!allocator.initialized());
}

#[test]
fn init_rejects_unaligned_heap_base() {
    let mut allocator = ChunkAllocator::new();
    assert_eq!(
        Err(InitError::HeapNotPageAligned),
        allocator.init(BASE + 8, 2048, vec![0u8; 1])
    );
    assert!(!allocator.initialized());
}

#[test]
fn double_init_is_rejected_and_state_kept() {
    let mut allocator = new_initialized(2048);
    let address = allocator.allocate(100, 1).unwrap();
    assert_eq!(
        Err(InitError::AlreadyInitialized),
        allocator.init(BASE, 4096, vec![0u8; 2])
    );
    assert_eq!(8, allocator.chunk_count());
    assert!(allocator.chunk_is_used(0));
    allocator.deallocate(address, 100).unwrap();
    assert_all_free(&allocator);
}

#[test]
fn operations_fail_before_init() {
    let mut allocator = ChunkAllocator::new();
    assert_eq!(Err(AllocError::Uninitialized), allocator.allocate(100, 1));
    assert_eq!(
        Err(DeallocError::Uninitialized),
        allocator.deallocate(BASE, 100)
    );
}

#[test]
fn concrete_scenario_eight_chunk_heap() {
    // chunk size 256 bytes, heap size 2048 bytes (8 chunks), bitmap 1 byte
    let mut allocator = new_initialized(2048);
    // ceil(300 / 256) = 2 chunks at 8-byte alignment
    let address = allocator.allocate(300, 8).unwrap();
    assert_eq!(BASE, address);
    assert!(allocator.chunk_is_used(0));
    assert!(allocator.chunk_is_used(1));
    for i in 2..8usize {
        assert!(!allocator.chunk_is_used(i));
    }
    // 8 chunks needed, only 6 remain free
    assert_eq!(Err(AllocError::OutOfMemory), allocator.allocate(2048, 1));
    allocator.deallocate(address, 300).unwrap();
    assert_all_free(&allocator);
}

#[test]
fn alloc_dealloc_round_trip_restores_all_free() {
    let mut allocator = new_initialized(16 * 1024);
    let sizes: [usize; 6] = [0, 1, 256, 300, 1000, 4096];
    let aligns: [usize; 7] = [1, 2, 8, 64, 256, 1024, 4096];
    for &size in sizes.iter() {
        for &align in aligns.iter() {
            let address = allocator.allocate(size, align).unwrap();
            allocator.deallocate(address, size).unwrap();
            assert_all_free(&allocator);
        }
    }
}

#[test]
fn zero_size_request_occupies_one_chunk() {
    let mut allocator = new_initialized(2048);
    let address = allocator.allocate(0, 1).unwrap();
    assert_eq!(BASE, address);
    assert!(allocator.chunk_is_used(0));
    assert!(!allocator.chunk_is_used(1));
    allocator.deallocate(address, 0).unwrap();
    assert_all_free(&allocator);
}

#[test]
fn returned_addresses_meet_requested_alignment() {
    let mut allocator = new_initialized(64 * 1024);
    // keep chunk 0 busy so later requests cannot sit at the page-aligned base
    allocator.allocate(1, 1).unwrap();
    let aligns: [usize; 13] = [1, 2, 4, 8, 16, 32, 64, 128, 256, 512, 1024, 2048, 4096];
    for &align in aligns.iter() {
        let address = allocator.allocate(600, align).unwrap();
        assert_eq!(0, address % align, "address {:#x} vs align {}", address, align);
    }
}

#[test]
fn alignment_larger_than_chunk_is_honored() {
    let mut allocator = new_initialized(8 * 1024);
    allocator.allocate(1, 1).unwrap();
    // the next free chunk starts at BASE + 256, which is not 1024-aligned;
    // first fit must skip ahead to the next 1024-aligned chunk boundary
    let address = allocator.allocate(1, 1024).unwrap();
    assert_eq!(BASE + 1024, address);
    assert!(allocator.chunk_is_used(4));
    assert!(!allocator.chunk_is_used(1));
}

#[test]
fn first_fit_reuses_lowest_freed_run() {
    let mut allocator = new_initialized(4096);
    let first = allocator.allocate(512, 1).unwrap();
    let second = allocator.allocate(512, 1).unwrap();
    let third = allocator.allocate(512, 1).unwrap();
    assert_eq!(BASE, first);
    assert_eq!(BASE + 512, second);
    assert_eq!(BASE + 1024, third);
    allocator.deallocate(second, 512).unwrap();
    // a one-chunk request lands in the lowest freed hole
    let reused = allocator.allocate(1, 1).unwrap();
    assert_eq!(BASE + 512, reused);
}

#[test]
fn unsupported_alignments_are_rejected() {
    let mut allocator = new_initialized(2048);
    assert_eq!(Err(AllocError::UnsupportedAlignment), allocator.allocate(100, 0));
    assert_eq!(Err(AllocError::UnsupportedAlignment), allocator.allocate(100, 3));
    assert_eq!(Err(AllocError::UnsupportedAlignment), allocator.allocate(100, 24));
    assert_eq!(
        Err(AllocError::UnsupportedAlignment),
        allocator.allocate(100, 8192)
    );
    assert_all_free(&allocator);
}

#[test]
fn exhaustion_boundary() {
    // a heap of 8 chunks serves one request for all 8 chunks ...
    let mut allocator = new_initialized(2048);
    let address = allocator.allocate(2048, 1).unwrap();
    assert_eq!(BASE, address);
    // ... but not one chunk more ...
    assert_eq!(Err(AllocError::OutOfMemory), allocator.allocate(1, 1));
    // ... until the first allocation is given back
    allocator.deallocate(address, 2048).unwrap();
    let again = allocator.allocate(1, 1).unwrap();
    assert_eq!(BASE, again);
}

#[test]
fn live_allocations_never_overlap() {
    let mut allocator = new_initialized(8 * 1024);
    let mut live: Vec<(usize, usize)> = Vec::new();
    let requests: [(usize, usize); 5] = [(300, 1), (256, 8), (1, 512), (700, 2), (2048, 1)];
    for &(size, align) in requests.iter() {
        let address = allocator.allocate(size, align).unwrap();
        live.push((address, size));
    }
    // drop one in the middle and allocate once more
    let (freed_address, freed_size) = live.remove(2);
    allocator.deallocate(freed_address, freed_size).unwrap();
    let address = allocator.allocate(512, 4).unwrap();
    live.push((address, 512));
    // every pair of live allocations occupies disjoint chunk runs
    let span = |size: usize| CHUNK_SIZE * size.div_ceil(CHUNK_SIZE).max(1);
    for (i, &(a, sa)) in live.iter().enumerate() {
        for &(b, sb) in live.iter().skip(i + 1) {
            assert!(
                a + span(sa) <= b || b + span(sb) <= a,
                "overlap: {:#x}/{} and {:#x}/{}",
                a,
                sa,
                b,
                sb
            );
        }
    }
}

#[test]
fn scan_skips_fully_used_bitmap_bytes() {
    // fill the first bitmap byte (8 chunks) so the scan takes its fast path
    let mut allocator = new_initialized(4096);
    let full_byte = allocator.allocate(2048, 1).unwrap();
    assert_eq!(BASE, full_byte);
    let next = allocator.allocate(1, 1).unwrap();
    assert_eq!(BASE + 2048, next);
    assert!(allocator.chunk_is_used(8));
}

#[test]
fn init_binds_the_regions_it_was_given() {
    let allocator = new_initialized(2048);
    assert_eq!(BASE, allocator.heap_base_address());
    assert_eq!(2048, allocator.heap_size());
    assert_eq!(8, allocator.chunk_count());
}

#[test]
fn oversized_requests_fail_cleanly() {
    let mut allocator = new_initialized(2048);
    assert_eq!(Err(AllocError::OutOfMemory), allocator.allocate(usize::MAX, 1));
    assert_eq!(Err(AllocError::OutOfMemory), allocator.allocate(2048 + 1, 1));
    allocator.allocate(2048, 1).unwrap();
    assert_eq!(
        Err(DeallocError::AddressOutOfRange),
        allocator.deallocate(BASE, usize::MAX)
    );
}

#[test]
fn dealloc_rejects_addresses_outside_the_heap() {
    let mut allocator = new_initialized(2048);
    allocator.allocate(2048, 1).unwrap();
    assert_eq!(
        Err(DeallocError::AddressOutOfRange),
        allocator.deallocate(BASE - 256, 1)
    );
    assert_eq!(
        Err(DeallocError::AddressOutOfRange),
        allocator.deallocate(BASE + 2048, 1)
    );
    // in range, but the freed run would extend past the heap end
    assert_eq!(
        Err(DeallocError::AddressOutOfRange),
        allocator.deallocate(BASE + 1792, 512)
    );
}

#[test]
fn dealloc_rejects_addresses_off_chunk_boundaries() {
    let mut allocator = new_initialized(2048);
    allocator.allocate(2048, 1).unwrap();
    assert_eq!(
        Err(DeallocError::AddressNotChunkAligned),
        allocator.deallocate(BASE + 100, 1)
    );
}

#[test]
fn dealloc_detects_double_free() {
    let mut allocator = new_initialized(2048);
    let address = allocator.allocate(600, 1).unwrap();
    allocator.deallocate(address, 600).unwrap();
    assert_eq!(
        Err(DeallocError::ChunkNotInUse),
        allocator.deallocate(address, 600)
    );
    // freeing a partially-free run is refused as well
    let small = allocator.allocate(1, 1).unwrap();
    assert_eq!(small, address);
    assert_eq!(
        Err(DeallocError::ChunkNotInUse),
        allocator.deallocate(small, 600)
    );
    // the refused calls changed nothing
    assert!(allocator.chunk_is_used(0));
    assert!(!allocator.chunk_is_used(1));
}
