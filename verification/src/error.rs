//! Boot error codes.
//!
//! If these errors occur very soon in the boot process, they are reported
//! as a numeric code placed in a register, where a marker half-word makes
//! the code recognizable in a register dump.

use vstd::prelude::*;

verus! {

/// The errors that can end a boot early.
#[derive(Debug, Copy, Clone, PartialEq, Eq, Structural)]
pub enum BootError {
    /// The multiboot2 handoff magic value did not match.
    Multiboot2MagicWrong,
    /// A stack-allocated array was not large enough. Several panic and
    /// logging utilities rely on a big enough buffer.
    StackArrayTooSmall,
    /// A panic without more specific context.
    PanicGeneric,
    /// A panic raised while allocating memory.
    PanicAlloc,
    /// A panic raised while deallocating memory.
    PanicDealloc,
    /// The multiboot2 information structure does not contain the UEFI
    /// system table.
    PanicMBISUefiSystemTableMissing,
    /// Any other error.
    Other,
}

impl BootError {
    /// The 32-bit number identifying this error variant.
    pub open spec fn spec_variant_code(self) -> u32 {
        match self {
            BootError::Multiboot2MagicWrong => 0x00000000,
            BootError::StackArrayTooSmall => 0x00000001,
            BootError::PanicGeneric => 0xe0000000,
            BootError::PanicAlloc => 0xe0000001,
            BootError::PanicDealloc => 0xe0000002,
            BootError::PanicMBISUefiSystemTableMissing => 0xe0000003,
            BootError::Other => 0xffffffff,
        }
    }

    /// The full 64-bit error code: the marker word in the upper half, the
    /// variant number in the lower half.
    pub open spec fn spec_code(self) -> u64 {
        (0x0bad_b001u64 << 32) | (self.spec_variant_code() as u64)
    }

    /// Renders this error as the 64-bit code that early boot reporting
    /// places in a register.
    pub fn code(self) -> (c: u64)
        ensures
            c == self.spec_code(),
    {
        let variant_code: u32 = match self {
            BootError::Multiboot2MagicWrong => 0x00000000,
            BootError::StackArrayTooSmall => 0x00000001,
            BootError::PanicGeneric => 0xe0000000,
            BootError::PanicAlloc => 0xe0000001,
            BootError::PanicDealloc => 0xe0000002,
            BootError::PanicMBISUefiSystemTableMissing => 0xe0000003,
            BootError::Other => 0xffffffff,
        };
        (0x0bad_b001u64 << 32) | (variant_code as u64)
    }
}

} // verus!
