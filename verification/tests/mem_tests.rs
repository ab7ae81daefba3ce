use kernel_lib::chunk_allocator::CHUNK_SIZE;
use kernel_lib::mem::{PAGE_SIZE, PageAligned, PageAlignedBuf};

#[test]
fn page_aligned_wraps_and_releases_data() {
    let mut aligned = PageAligned::new([1u8, 2, 3]);
    assert_eq!(&[1u8, 2, 3], aligned.get());
    aligned.set([4u8, 5, 6]);
    assert_eq!([4u8, 5, 6], aligned.into_inner());
}

#[test]
fn page_aligned_buf_fills_with_default() {
    let buf: PageAlignedBuf<u16, 32> = PageAlignedBuf::new(0xabcd);
    for &element in buf.get().iter() {
        assert_eq!(0xabcd, element);
    }
}

#[test]
fn page_aligned_buf_new_zeroed_is_all_zero() {
    let buf: PageAlignedBuf<u8, PAGE_SIZE> = PageAlignedBuf::new_zeroed();
    assert_eq!(PAGE_SIZE, buf.get().len());
    for &byte in buf.get().iter() {
        assert_eq!(0, byte);
    }
}

#[test]
fn heap_constants_line_up() {
    // a whole-page heap region always passes the allocator's size checks:
    // its size is a chunk multiple and its chunk count fills whole bitmap bytes
    assert_eq!(0, PAGE_SIZE % CHUNK_SIZE);
    assert_eq!(0, (PAGE_SIZE / CHUNK_SIZE) % 8);
}
