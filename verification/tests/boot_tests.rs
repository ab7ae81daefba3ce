use kernel_lib::boot_stage::BootStage;
use kernel_lib::error::BootError;
use kernel_lib::panic_handler::PanicHandler;
use kernel_lib::xuefi::UefiBsAllocator;

#[test]
fn boot_stages_advance_in_order() {
    let mut current = BootStage::S0_Initial;
    BootStage::S0_Initial.enter(&mut current, || {});
    assert_eq!(BootStage::S0_Initial, current);
    let magic = BootStage::S1_MB2Handoff.enter(&mut current, || 0x36d76289u32);
    assert_eq!(0x36d76289, magic);
    assert_eq!(BootStage::S1_MB2Handoff, current);
    BootStage::S2_UEFIBootServices.enter(&mut current, || {});
    assert_eq!(BootStage::S2_UEFIBootServices, current);
    BootStage::S3_UEFIRuntimeServices.enter(&mut current, || {});
    assert_eq!(BootStage::S3_UEFIRuntimeServices, current);
}

#[test]
fn boot_error_codes_carry_the_marker_word() {
    assert_eq!(0x0bad_b001_0000_0000, BootError::Multiboot2MagicWrong.code());
    assert_eq!(0x0bad_b001_0000_0001, BootError::StackArrayTooSmall.code());
    assert_eq!(0x0bad_b001_e000_0000, BootError::PanicGeneric.code());
    assert_eq!(0x0bad_b001_e000_0001, BootError::PanicAlloc.code());
    assert_eq!(0x0bad_b001_e000_0002, BootError::PanicDealloc.code());
    assert_eq!(
        0x0bad_b001_e000_0003,
        BootError::PanicMBISUefiSystemTableMissing.code()
    );
    assert_eq!(0x0bad_b001_ffff_ffff, BootError::Other.code());
}

#[test]
fn panic_handler_reports_recorded_error() {
    let mut handler = PanicHandler::new();
    assert_eq!(BootError::PanicGeneric, handler.error_to_report());
    handler.record_error(BootError::PanicAlloc);
    assert_eq!(BootError::PanicAlloc, handler.error_to_report());
    let guard = handler.panic_error_code();
    let _ = guard;
}

#[test]
fn pool_alignment_offset_reaches_aligned_addresses() {
    // pool pointer already aligned: skip one full alignment unit
    assert_eq!(16, UefiBsAllocator::pool_alignment_offset(4096, 16));
    assert_eq!(4096, UefiBsAllocator::pool_alignment_offset(8192, 4096));
    // pool pointer misaligned: move up to the next aligned address
    assert_eq!(8, UefiBsAllocator::pool_alignment_offset(4104, 16));
    assert_eq!(24, UefiBsAllocator::pool_alignment_offset(1000, 256));
    let cases: [(usize, usize); 4] = [(4096, 16), (8192, 4096), (4104, 16), (1000, 256)];
    for &(ptr, align) in cases.iter() {
        let offset = UefiBsAllocator::pool_alignment_offset(ptr, align);
        assert_eq!(0, (ptr + offset) % align);
        assert!(offset >= 8 && offset <= align);
    }
}
