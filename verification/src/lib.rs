//! Core library of a small x86-64 kernel: a verified chunk-based heap
//! allocator together with the supporting utilities around it (hex
//! conversion, simple locks, boot-stage bookkeeping and boot error codes).
//!
//! The heart of the library is [`chunk_allocator::ChunkAllocator`], which
//! manages a fixed byte region in chunks of 256 bytes and tracks the state
//! of every chunk in a bitmap.

pub mod boot_stage;
pub mod chunk_allocator;
pub mod convert;
pub mod error;
pub mod mem;
pub mod mutex;
pub mod panic_handler;
pub mod rwlock;
pub mod xuefi;
