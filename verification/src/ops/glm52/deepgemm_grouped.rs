//! Shapes that the GLM 5.2 routed-expert kernels share.

use vstd::prelude::*;

verus! {

/// Row alignment of an expert's received segment.
pub const GLM52_DEEPGEMM_GROUPED_EXPERT_ALIGNMENT: usize = 64;

/// The most rows of a local expert: one per source token of every rank.
pub const GLM52_DEEPGEMM_MASKED_CAP: usize = 64;

/// Local experts of a rank.
pub const GLM52_DEEPGEMM_MASKED_GROUPS: usize = 32;

/// The operand of a routed expert: gate and up, or down.
#[derive(Clone, Copy, Debug, PartialEq, Eq)]
pub enum Glm52DeepGemmGroupedFp8Kind {
    W13,
    W2,
}

impl Glm52DeepGemmGroupedFp8Kind {
    /// The operand's `(n, k)`.
    pub fn shape(self) -> (r: (usize, usize))
        ensures
            r == (match self {
                Glm52DeepGemmGroupedFp8Kind::W13 => (4096usize, 6144usize),
                Glm52DeepGemmGroupedFp8Kind::W2 => (6144usize, 2048usize),
            }),
    {
        match self {
            Glm52DeepGemmGroupedFp8Kind::W13 => (4096, 6144),
            Glm52DeepGemmGroupedFp8Kind::W2 => (6144, 2048),
        }
    }
}

/// A masked group is one aligned expert, and there are thirty-two of them.
pub proof fn law_masked_groups_are_aligned()
    ensures
        GLM52_DEEPGEMM_GROUPED_EXPERT_ALIGNMENT == 64,
        GLM52_DEEPGEMM_MASKED_CAP == GLM52_DEEPGEMM_GROUPED_EXPERT_ALIGNMENT,
        GLM52_DEEPGEMM_MASKED_GROUPS == 32,
{
}

} // verus!
