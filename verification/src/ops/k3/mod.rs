//! Kimi K3 operators.

pub mod deepgemm;
pub mod flash_kda;
pub mod flash_mla_prefill;
pub mod mega_moe;
pub mod mla_paged;
pub mod moe_chain;
