//! Verified launch planning for GPU inference kernels.
//!
//! Every kernel has a function here that takes the shapes of its device
//! buffers and the scalars of the call, rejects what the kernel cannot run,
//! and returns the C arguments of the launch. Device memory, streams and the
//! kernels themselves stay with the caller.

pub mod error;
pub mod float_bits;
pub mod ops;
pub mod paged_kv;
pub mod shape;
pub mod tensor;
pub mod text;
