//! The K3 routed-expert product: eight-bit activations, four-bit weights.

use vstd::prelude::*;

use crate::error::ensure_met;
use crate::error::ensure_that;
use crate::error::FaultList;
use crate::error::holds_product3;
use crate::error::KernelError;

verus! {

/// Alignment of the masked layout and of the packed scales.
pub const K3_DEEPGEMM_SM100_MASKED_ALIGNMENT: usize = 128;

/// Weights that share a scale.
pub const K3_FP4_SF_GROUP_K: usize = 32;

/// Weights that one packed word of scales covers.
pub const K3_FP4_SF_WORD_K: usize = 128;

/// Activations that one packed word of scales covers.
pub const K3_FP8_SF_WORD_K: usize = 512;

/// Expert counts that the product is instantiated for.
pub const K3_DEEPGEMM_SM100_GROUPS: [usize; 3] = [56, 112, 224];

/// Which projection of an expert a masked grouped product computes.
#[derive(Clone, Copy, Debug, PartialEq, Eq)]
pub enum K3DeepGemmFp8Fp4Kind {
    /// Gate and up, fused.
    W13,
    /// Down.
    W2,
}

impl K3DeepGemmFp8Fp4Kind {
    /// Output and input width of one expert.
    pub open spec fn dims(self) -> (usize, usize) {
        match self {
            K3DeepGemmFp8Fp4Kind::W13 => (6144, 3584),
            K3DeepGemmFp8Fp4Kind::W2 => (3584, 3072),
        }
    }

    /// `(n, k)` of one expert.
    pub fn shape(self) -> (r: (usize, usize))
        ensures
            r == self.dims(),
    {
        match self {
            K3DeepGemmFp8Fp4Kind::W13 => (6144, 3584),
            K3DeepGemmFp8Fp4Kind::W2 => (3584, 3072),
        }
    }

    /// The kind's number in the kernel's interface.
    pub open spec fn code(self) -> i32 {
        match self {
            K3DeepGemmFp8Fp4Kind::W13 => 1,
            K3DeepGemmFp8Fp4Kind::W2 => 2,
        }
    }

    /// The kind's number in the kernel's interface.
    pub fn abi_kind(self) -> (r: i32)
        ensures
            r == self.code(),
    {
        match self {
            K3DeepGemmFp8Fp4Kind::W13 => 1,
            K3DeepGemmFp8Fp4Kind::W2 => 2,
        }
    }
}

/// A stack of expert scales: experts, output width, input width.
#[derive(Clone, Copy, Debug, PartialEq, Eq)]
pub struct K3ScaleStack {
    pub groups: i32,
    pub n: i32,
    pub k: i32,
}

/// Pack the scales of a stacked weight, four exponents per word.
pub fn k3_fp4_sf_prepare_launch(
    groups: usize,
    n: usize,
    k: usize,
    sf_len: usize,
    packed_len: usize,
) -> (r: Result<K3ScaleStack, KernelError>)
    ensures
        r == KernelError::outcome(
            KernelError::unless(
                groups > 0 && n > 0 && k > 0 && n % 4 == 0 && k % K3_FP4_SF_WORD_K == 0,
                "K3 FP4 SF prepare needs groups/n/k>0, n%4=0 and k%128=0",
            )
                .or_fault(KernelError::unless(
                    sf_len >= groups * n * (k / K3_FP4_SF_GROUP_K)
                        && packed_len >= groups * (k / K3_FP4_SF_WORD_K) * n,
                    "K3 FP4 SF prepare buffers too small",
                )),
            (K3ScaleStack { groups: groups as i32, n: n as i32, k: k as i32 }),
        ),
{
    ensure_that(
        groups > 0 && n > 0 && k > 0 && n % 4 == 0 && k % K3_FP4_SF_WORD_K == 0,
        "K3 FP4 SF prepare needs groups/n/k>0, n%4=0 and k%128=0",
    )?;
    ensure_that(
        holds_product3(sf_len, groups, n, k / K3_FP4_SF_GROUP_K)
            && holds_product3(packed_len, groups, k / K3_FP4_SF_WORD_K, n),
        "K3 FP4 SF prepare buffers too small",
    )?;
    Ok(K3ScaleStack { groups: groups as i32, n: n as i32, k: k as i32 })
}

/// What [`k3_deepgemm_sm100_masked_grouped_fp8_fp4_launch`] takes.
#[derive(Clone, Copy, Debug)]
pub struct K3MaskedGemmCall {
    pub kind: K3DeepGemmFp8Fp4Kind,
    pub groups: usize,
    /// Rows reserved per expert.
    pub masked_cap: usize,
    pub num_sms: usize,
    pub activation_len: usize,
    pub activation_scale_len: usize,
    /// Bytes, two weights each.
    pub weight_len: usize,
    pub weight_scale_len: usize,
    pub masked_m_len: usize,
    pub output_len: usize,
}

/// The C arguments that [`k3_deepgemm_sm100_masked_grouped_fp8_fp4_launch`] derives.
#[derive(Clone, Copy, Debug, PartialEq, Eq)]
pub struct K3MaskedGemmLaunch {
    pub kind: i32,
    pub groups: i32,
    pub n: i32,
    pub k: i32,
    pub masked_cap: i32,
    pub num_sms: i32,
}

impl K3MaskedGemmCall {
    /// Why the kernel cannot run, if it cannot.
    pub open spec fn fault(self) -> Option<KernelError> {
        let n = self.kind.dims().0;
        let k = self.kind.dims().1;
        KernelError::unless_met(
            K3_DEEPGEMM_SM100_GROUPS@.contains(self.groups),
            "K3 SM100 masked grouped FP8xFP4 needs 56, 112 or 224 groups",
            self.groups as int,
        )
            .or_fault(KernelError::unless_met(
                self.num_sms == 148 || self.num_sms == 152,
                "K3 SM100 masked grouped FP8xFP4 supports 148 and 152 multiprocessors",
                self.num_sms as int,
            ))
            .or_fault(KernelError::unless_met(
                self.masked_cap > 0 && self.masked_cap % K3_DEEPGEMM_SM100_MASKED_ALIGNMENT == 0,
                "K3 SM100 masked grouped FP8xFP4 needs masked_cap a positive multiple of 128",
                self.masked_cap as int,
            ))
            .or_fault(KernelError::unless(
                self.activation_len >= self.groups * self.masked_cap * k
                    && self.activation_scale_len >= self.groups * (k / K3_FP8_SF_WORD_K) * self.masked_cap
                    && self.weight_len >= self.groups * n * (k / 2)
                    && self.weight_scale_len >= self.groups * (k / K3_FP4_SF_WORD_K) * n
                    && self.masked_m_len >= self.groups
                    && self.output_len >= self.groups * self.masked_cap * n,
                "K3 SM100 masked grouped FP8xFP4 buffers too small",
            ))
    }

    /// The launch of a call without a fault.
    pub open spec fn launch(self) -> K3MaskedGemmLaunch {
        K3MaskedGemmLaunch {
            kind: self.kind.code(),
            groups: self.groups as i32,
            n: self.kind.dims().0 as i32,
            k: self.kind.dims().1 as i32,
            masked_cap: self.masked_cap as i32,
            num_sms: self.num_sms as i32,
        }
    }
}

/// Masked grouped product over the local experts: the first `masked_m[g]` rows
/// of every expert `g`.
pub fn k3_deepgemm_sm100_masked_grouped_fp8_fp4_launch(c: &K3MaskedGemmCall) -> (r: Result<
    K3MaskedGemmLaunch,
    KernelError,
>)
    ensures
        r == KernelError::outcome(c.fault(), c.launch()),
{
    let (n, k): (usize, usize) = c.kind.shape();
    assert(K3_DEEPGEMM_SM100_GROUPS@[0] == 56 && K3_DEEPGEMM_SM100_GROUPS@[1] == 112
        && K3_DEEPGEMM_SM100_GROUPS@[2] == 224);
    ensure_met(
        c.groups == 56 || c.groups == 112 || c.groups == 224,
        "K3 SM100 masked grouped FP8xFP4 needs 56, 112 or 224 groups",
        c.groups,
    )?;
    ensure_met(
        c.num_sms == 148 || c.num_sms == 152,
        "K3 SM100 masked grouped FP8xFP4 supports 148 and 152 multiprocessors",
        c.num_sms,
    )?;
    ensure_met(
        c.masked_cap > 0 && c.masked_cap % K3_DEEPGEMM_SM100_MASKED_ALIGNMENT == 0,
        "K3 SM100 masked grouped FP8xFP4 needs masked_cap a positive multiple of 128",
        c.masked_cap,
    )?;
    ensure_that(
        holds_product3(c.activation_len, c.groups, c.masked_cap, k)
            && holds_product3(c.activation_scale_len, c.groups, k / K3_FP8_SF_WORD_K, c.masked_cap)
            && holds_product3(c.weight_len, c.groups, n, k / 2)
            && holds_product3(c.weight_scale_len, c.groups, k / K3_FP4_SF_WORD_K, n)
            && c.masked_m_len >= c.groups
            && holds_product3(c.output_len, c.groups, c.masked_cap, n),
        "K3 SM100 masked grouped FP8xFP4 buffers too small",
    )?;
    Ok(K3MaskedGemmLaunch {
        kind: c.kind.abi_kind(),
        groups: c.groups as i32,
        n: n as i32,
        k: k as i32,
        masked_cap: c.masked_cap as i32,
        num_sms: c.num_sms as i32,
    })
}

/// A masked grouped product is accepted exactly when its own operands hold
/// what it reads and writes.
pub proof fn law_k3_masked_gemm_is_accepted_when_it_fits(c: K3MaskedGemmCall)
    ensures
        c.fault() is None <==> {
            &&& (c.groups == 56 || c.groups == 112 || c.groups == 224)
            &&& c.num_sms == 148 || c.num_sms == 152
            &&& c.masked_cap > 0
            &&& c.masked_cap % 128 == 0
            &&& c.activation_len >= c.groups * c.masked_cap * (c.kind.dims().1)
            &&& c.activation_scale_len >= c.groups * ((c.kind.dims().1) / 512) * c.masked_cap
            &&& c.weight_len >= c.groups * (c.kind.dims().0) * ((c.kind.dims().1) / 2)
            &&& c.weight_scale_len >= c.groups * ((c.kind.dims().1) / 128) * (c.kind.dims().0)
            &&& c.masked_m_len >= c.groups
            &&& c.output_len >= c.groups * c.masked_cap * (c.kind.dims().0)
        },
{
    let known = K3_DEEPGEMM_SM100_GROUPS@;
    assert(known[0] == 56 && known[1] == 112 && known[2] == 224);
}

/// A masked grouped product is launched with its own numbers, each where it
/// belongs.
pub proof fn law_k3_masked_gemm_launches_its_own_numbers(c: K3MaskedGemmCall)
    requires
        c.fault() is None,
    ensures
        c.launch().kind == c.kind.code(),
        c.launch().groups == c.groups,
        c.launch().n == c.kind.dims().0,
        c.launch().k == c.kind.dims().1,
        c.masked_cap <= i32::MAX ==> c.launch().masked_cap == c.masked_cap,
        c.launch().num_sms == c.num_sms,
{
    let known = K3_DEEPGEMM_SM100_GROUPS@;
    assert(known[0] == 56 && known[1] == 112 && known[2] == 224);
}

/// The two products of an expert are its gate and up projections side by side
/// and its down projection, whose input is as wide as one of the two.
pub proof fn law_expert_products_fit_together()
    ensures
        K3DeepGemmFp8Fp4Kind::W13.dims() == (6144usize, 3584usize),
        K3DeepGemmFp8Fp4Kind::W2.dims() == (3584usize, 3072usize),
        K3DeepGemmFp8Fp4Kind::W13.dims().0 == 2 * K3DeepGemmFp8Fp4Kind::W2.dims().1,
        K3DeepGemmFp8Fp4Kind::W13.dims().1 == K3DeepGemmFp8Fp4Kind::W2.dims().0,
        K3DeepGemmFp8Fp4Kind::W13.code() == 1,
        K3DeepGemmFp8Fp4Kind::W2.code() == 2,
{
}

/// A scale word packs four scales: of groups of thirty-two on the weight side,
/// of one hundred and twenty-eight on the activation side.
pub proof fn law_scale_words_pack_four_scales()
    ensures
        K3_FP4_SF_GROUP_K == 32,
        K3_FP4_SF_WORD_K == 4 * K3_FP4_SF_GROUP_K,
        K3_FP8_SF_WORD_K == 4 * 128,
{
}

/// A masked grouped product that is accepted, and then gets one buffer that
/// does not fit, is refused over that buffer: the answer names the check and
/// shows what it compared.
pub proof fn law_k3_masked_gemm_is_refused_over_the_buffer_at_fault(c: K3MaskedGemmCall, n: usize)
    requires
        c.fault() is None,
    ensures
        n < c.groups * c.masked_cap * (c.kind.dims().1) ==> (K3MaskedGemmCall { activation_len: n,
            ..c }).fault() == Some(
            KernelError::Invalid { what: "K3 SM100 masked grouped FP8xFP4 buffers too small" },
        ),
        n < c.groups * ((c.kind.dims().1) / 512)
            * c.masked_cap ==> (K3MaskedGemmCall { activation_scale_len: n, ..c }).fault() == Some(
            KernelError::Invalid { what: "K3 SM100 masked grouped FP8xFP4 buffers too small" },
        ),
        n < c.groups * (c.kind.dims().0)
            * ((c.kind.dims().1) / 2) ==> (K3MaskedGemmCall { weight_len: n, ..c }).fault() == Some(
            KernelError::Invalid { what: "K3 SM100 masked grouped FP8xFP4 buffers too small" },
        ),
        n < c.groups * ((c.kind.dims().1) / 128)
            * (c.kind.dims().0) ==> (K3MaskedGemmCall { weight_scale_len: n, ..c }).fault() == Some(
            KernelError::Invalid { what: "K3 SM100 masked grouped FP8xFP4 buffers too small" },
        ),
        n < c.groups ==> (K3MaskedGemmCall { masked_m_len: n, ..c }).fault() == Some(
            KernelError::Invalid { what: "K3 SM100 masked grouped FP8xFP4 buffers too small" },
        ),
        n < c.groups * c.masked_cap * (c.kind.dims().0) ==> (K3MaskedGemmCall { output_len: n,
            ..c }).fault() == Some(
            KernelError::Invalid { what: "K3 SM100 masked grouped FP8xFP4 buffers too small" },
        ),
{
}

} // verus!
