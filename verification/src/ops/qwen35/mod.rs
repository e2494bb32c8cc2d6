//! Qwen 3.5 operators.

pub mod decode_gemm;
pub mod gdn;
