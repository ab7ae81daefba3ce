//! Utilities for memory. Mainly page alignment stuff.
//!
//! [`PageAligned`] and [`PageAlignedBuf`] wrap data whose backing storage
//! the embedding program reserves in page-aligned memory, such as the heap
//! and bitmap regions behind the chunk allocator. Where the data actually
//! lives — and that it really sits on a page boundary — is that program's
//! concern; these wrappers carry the data and govern access to it.

use vstd::prelude::*;

verus! {

/// The size of one page in bytes.
pub const PAGE_SIZE: usize = 4096;

/// Data destined for page-aligned storage.
pub struct PageAligned<T>(T);

impl<T> PageAligned<T> {
    /// The wrapped data.
    pub closed spec fn inner(&self) -> T {
        self.0
    }

    /// Constructor that takes ownership of the data.
    pub fn new(t: T) -> (p: PageAligned<T>)
        ensures
            p.inner() == t,
    {
        PageAligned(t)
    }

    /// Returns a reference to the underlying data.
    pub fn get(&self) -> (t: &T)
        ensures
            *t == self.inner(),
    {
        &self.0
    }

    /// Replaces the underlying data.
    pub fn set(&mut self, t: T)
        ensures
            final(self).inner() == t,
    {
        self.0 = t;
    }

    /// Consumes the struct and returns the owned, inner data.
    pub fn into_inner(self) -> (t: T)
        ensures
            t == self.inner(),
    {
        self.0
    }
}

/// Convenient wrapper around [`PageAligned`] for fixed-size buffers, with
/// exactly the same restrictions and properties.
pub struct PageAlignedBuf<T, const N: usize>(PageAligned<[T; N]>);

impl<T: Copy, const N: usize> PageAlignedBuf<T, N> {
    /// The buffer contents.
    pub closed spec fn contents(&self) -> Seq<T> {
        self.0.inner()@
    }

    /// Constructor that fills the default element into each index of the
    /// buffer.
    pub fn new(default: T) -> (b: PageAlignedBuf<T, N>)
        ensures
            b.contents().len() == N,
            forall|i: int| 0 <= i < N ==> b.contents()[i] == default,
    {
        PageAlignedBuf(PageAligned::new([default;N]))
    }

    /// Returns a reference to the underlying data.
    pub fn get(&self) -> (t: &[T; N])
        ensures
            t@ == self.contents(),
    {
        self.0.get()
    }
}

impl<const N: usize> PageAlignedBuf<u8, N> {
    /// New `u8` buffer that is initialized with zeroes.
    pub fn new_zeroed() -> (b: PageAlignedBuf<u8, N>)
        ensures
            b.contents().len() == N,
            forall|i: int| 0 <= i < N ==> b.contents()[i] == 0u8,
    {
        PageAlignedBuf::new(0)
    }
}

} // verus!
