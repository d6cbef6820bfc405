//! A thin, immutable byte slice with small-string optimization and
//! prefix-accelerated comparisons (German string layout).
//!
//! Slices of up to [`INLINE_CAPACITY`] bytes are stored inline; longer ones
//! share a reference-counted heap buffer, and sub-slicing them does not copy.

mod buffer;
mod inline_len;

pub mod byteslice;
pub mod construct;
pub mod interop;
pub mod order;
pub mod range;

pub use byteslice::{ByteSlice, INLINE_CAPACITY, PREFIX_SIZE};
pub use range::{Endpoint, SliceRange};
