//! Attention: prefill plans, paged-cache geometry and the launches over them.

pub mod geometry;
pub mod paged;
pub mod paged_laws;
pub mod plan;
pub mod plan_laws;
pub mod prefill_plan;
pub mod prep;
pub mod prep_laws;
pub mod single;
pub mod single_laws;
