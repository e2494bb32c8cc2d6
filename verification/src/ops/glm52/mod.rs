//! GLM 5.2 operators.

pub mod deepgemm_grouped;
pub mod flashmla_sparse;
pub mod indexer;
