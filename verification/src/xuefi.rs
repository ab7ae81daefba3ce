//! Support for allocating from the UEFI boot-services pool. The module is
//! called "xuefi" in order to have no name conflict with UEFI itself.
//!
//! The pool hands out 8-byte aligned blocks. A request with a stricter
//! alignment over-allocates by the alignment, places the block at the next
//! address inside the over-allocation that meets the alignment, and stores
//! the pool's own pointer in the 8 bytes directly below the block so that
//! the release path can find it again. This module holds the address
//! arithmetic of that scheme; the pool calls themselves are the embedding
//! program's concern.

use vstd::prelude::*;

use crate::chunk_allocator::align_supported;
use vstd::arithmetic::div_mod::lemma_fundamental_div_mod;
use vstd::arithmetic::div_mod::lemma_mod_bound;
use vstd::arithmetic::div_mod::lemma_mod_multiples_basic;

verus! {

/// Allocator over the UEFI boot-services pool, while boot services are
/// enabled.
pub struct UefiBsAllocator;

impl UefiBsAllocator {
    /// The distance from a pool pointer to the start of the aligned block
    /// placed inside the over-allocation: the smallest positive offset that
    /// reaches an address divisible by `align`. The offset is always at
    /// least 8 bytes, leaving room for the stored pool pointer below the
    /// block, and never exceeds the over-allocation of `align` bytes.
    pub fn pool_alignment_offset(ptr: usize, align: usize) -> (offset: usize)
        requires
            align_supported(align as int),
            align >= 16,
            ptr % 8 == 0,
            ptr + align <= usize::MAX,
        ensures
            8 <= offset <= align,
            offset % 8 == 0,
            (ptr + offset) % (align as int) == 0,
    {
        let remainder = ptr % align;
        proof {
            let ai = align as int;
            let pi = ptr as int;
            lemma_mod_bound(pi, ai);
            lemma_fundamental_div_mod(pi, ai);
            let q = pi / ai;
            let r = pi % ai;
            lemma_fundamental_div_mod(ai, 8);
            lemma_fundamental_div_mod(pi, 8);
            let a8 = ai / 8;
            let p8 = pi / 8;
            assert(ai == 8 * a8);
            assert(pi == 8 * p8);
            assert(ai * q == 8 * (a8 * q)) by (nonlinear_arith)
                requires
                    ai == 8 * a8,
            ;
            assert(r == (p8 - a8 * q) * 8);
            lemma_mod_multiples_basic(p8 - a8 * q, 8);
            assert(r % 8 == 0);
            assert(ai * (q + 1) == ai * q + ai) by (nonlinear_arith);
            lemma_mod_multiples_basic(q + 1, ai);
            assert((pi + (ai - r)) % ai == 0);
        }
        if remainder == 0 {
            align
        } else {
            align - remainder
        }
    }
}

} // verus!
