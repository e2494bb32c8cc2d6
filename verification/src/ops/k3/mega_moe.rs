//! The K3 routed experts through one fused kernel.
//!
//! Everything that the kernel needs besides the weights is one slab of bytes per
//! rank. With more than one rank, every launch gets the bases of all of them.

use vstd::prelude::*;

use crate::error::checked_i32;
use crate::error::ensure;
use crate::error::ensure_at_most;
use crate::error::ensure_fit;
use crate::error::ensure_met;
use crate::error::ensure_that;
use crate::error::FaultList;
use crate::error::holds_product3;
use crate::error::holds_product4;
use crate::error::holds_product;
use crate::error::KernelError;

verus! {

/// Regions of the symmetric slab.
pub const K3_MEGA_NUM_SUB_BUFFERS: usize = 12;

/// Rows that alternate between gate and up.
pub const K3_MEGA_INTERLEAVE_GRAN: usize = 8;

/// Weights that share a scale.
pub const K3_MEGA_SF_GROUP_K: usize = 32;

/// Weights that one packed word of scales covers.
pub const K3_MEGA_SF_WORD_K: usize = 128;

/// Bytes of an exported memory handle.
pub const K3_MEGA_FABRIC_HANDLE_BYTES: usize = 64;

/// Multiprocessors that the kernel is instantiated for.
pub const K3_MEGA_NUM_SMS: usize = 152;

/// The activation between the two products.
#[derive(Clone, Copy, Debug, PartialEq, Eq)]
pub enum K3MegaActivation {
    /// `gate * sigmoid(gate) * up`.
    Swiglu,
    /// `4 * tanh(gate / 4) * sigmoid(gate) * 25 * tanh(up / 25)`.
    Situ,
}

impl K3MegaActivation {
    /// The activation's number in the kernel's interface.
    pub open spec fn code(self) -> i32 {
        match self {
            K3MegaActivation::Swiglu => 0,
            K3MegaActivation::Situ => 1,
        }
    }

    /// The activation's number in the kernel's interface.
    pub fn abi_kind(self) -> (r: i32)
        ensures
            r == self.code(),
    {
        match self {
            K3MegaActivation::Swiglu => 0,
            K3MegaActivation::Situ => 1,
        }
    }
}

/// Where the regions of the symmetric slab start, in bytes.
#[derive(Clone, Copy, Debug, PartialEq, Eq)]
pub struct K3MegaSymmLayout {
    /// Bytes of the slab.
    pub num_bytes: usize,
    pub offsets: [u64; 12],
    /// Tokens of the ring.
    pub ring_tokens: usize,
    /// Tokens of the scale ring.
    pub sf_ring_tokens: usize,
}

impl K3MegaSymmLayout {
    /// Take a layout that was asked for. A size that does not fit, or a
    /// negative capacity, is no layout.
    pub fn new(num_bytes: u64, offsets: [u64; 12], ring_tokens: i32, sf_ring_tokens: i32) -> (r:
        Result<Self, KernelError>)
        ensures
            match r {
                Ok(layout) => {
                    &&& layout.num_bytes == num_bytes
                    &&& layout.offsets@ == offsets@
                    &&& layout.ring_tokens == ring_tokens
                    &&& layout.sf_ring_tokens == sf_ring_tokens
                },
                Err(e) => KernelError::unless(
                    num_bytes <= usize::MAX,
                    "K3 MegaMoE slab size does not fit",
                )
                    .or_fault(KernelError::unless(
                        ring_tokens >= 0,
                        "K3 MegaMoE ring capacity is negative",
                    ))
                    .or_fault(KernelError::unless(
                        sf_ring_tokens >= 0,
                        "K3 MegaMoE scale ring capacity is negative",
                    )) == Some(e),
            },
    {
        ensure_that(num_bytes <= usize::MAX as u64, "K3 MegaMoE slab size does not fit")?;
        ensure_that(ring_tokens >= 0, "K3 MegaMoE ring capacity is negative")?;
        ensure_that(sf_ring_tokens >= 0, "K3 MegaMoE scale ring capacity is negative")?;
        Ok(
            K3MegaSymmLayout {
                num_bytes: num_bytes as usize,
                offsets,
                ring_tokens: ring_tokens as usize,
                sf_ring_tokens: sf_ring_tokens as usize,
            },
        )
    }

    /// Where the activations start.
    pub fn x(&self) -> (r: u64)
        ensures
            r == self.offsets@[0],
    {
        self.offsets[0]
    }

    /// Where the scales of the activations start.
    pub fn x_sf(&self) -> (r: u64)
        ensures
            r == self.offsets@[1],
    {
        self.offsets[1]
    }

    /// Where the expert ids start.
    pub fn topk_idx(&self) -> (r: u64)
        ensures
            r == self.offsets@[2],
    {
        self.offsets[2]
    }

    /// Where the routing weights start.
    pub fn topk_weights(&self) -> (r: u64)
        ensures
            r == self.offsets@[3],
    {
        self.offsets[3]
    }

    /// Every region's start.
    pub fn offsets(&self) -> (r: &[u64; 12])
        ensures
            r@ == self.offsets@,
    {
        &self.offsets
    }
}

/// The question whether a world has a kernel. A world that the kernel's
/// integers cannot say has none, and is not asked for.
pub fn k3_mega_world_supported(num_experts: usize, num_ranks: usize) -> (r: Option<(i32, i32)>)
    ensures
        r == (if num_experts <= i32::MAX && num_ranks <= i32::MAX {
            Some((num_experts as i32, num_ranks as i32))
        } else {
            None
        }),
{
    if num_experts <= 0x7fff_ffff && num_ranks <= 0x7fff_ffff {
        Some((num_experts as i32, num_ranks as i32))
    } else {
        None
    }
}

/// The device to ask whether it exports memory.
pub fn k3_mega_fabric_supported(device_ordinal: usize) -> (r: Result<i32, KernelError>)
    ensures
        r == KernelError::outcome(
            KernelError::too_wide(device_ordinal as int, "K3 fabric device ordinal"),
            device_ordinal as i32,
        ),
{
    let ordinal: i32 = checked_i32(device_ordinal, "K3 fabric device ordinal")?;
    Ok(ordinal)
}

/// The device and the bytes of an exported slab.
pub fn k3_mega_fabric_slab_alloc(
    device_ordinal: usize,
    num_bytes: usize,
) -> (r: Result<(i32, u64), KernelError>)
    ensures
        r == KernelError::outcome(
            KernelError::unless(num_bytes > 0, "K3 fabric slab needs a non-zero size")
                .or_fault(KernelError::too_wide(device_ordinal as int, "K3 fabric device ordinal")),
            (device_ordinal as i32, num_bytes as u64),
        ),
{
    ensure_that(num_bytes > 0, "K3 fabric slab needs a non-zero size")?;
    let ordinal: i32 = checked_i32(device_ordinal, "K3 fabric device ordinal")?;
    Ok((ordinal, num_bytes as u64))
}

/// The device and the bytes of an imported slab. The bytes are those that the
/// peer asked for.
pub fn k3_mega_fabric_slab_import(
    num_bytes: usize,
    device_ordinal: usize,
) -> (r: Result<(u64, i32), KernelError>)
    ensures
        r == KernelError::outcome(
            KernelError::unless(num_bytes > 0, "K3 fabric slab import needs a non-zero size")
                .or_fault(KernelError::too_wide(device_ordinal as int, "K3 fabric device ordinal")),
            (num_bytes as u64, device_ordinal as i32),
        ),
{
    ensure_that(num_bytes > 0, "K3 fabric slab import needs a non-zero size")?;
    let ordinal: i32 = checked_i32(device_ordinal, "K3 fabric device ordinal")?;
    Ok((num_bytes as u64, ordinal))
}

/// The pair of devices to open for each other.
pub fn k3_mega_open_peer_access(
    self_ordinal: usize,
    peer_ordinal: usize,
) -> (r: Result<(i32, i32), KernelError>)
    ensures
        r == KernelError::outcome(
            KernelError::too_wide(self_ordinal as int, "K3 MegaMoE own ordinal")
                .or_fault(KernelError::too_wide(peer_ordinal as int, "K3 MegaMoE peer ordinal")),
            (self_ordinal as i32, peer_ordinal as i32),
        ),
{
    let own: i32 = checked_i32(self_ordinal, "K3 MegaMoE own ordinal")?;
    let peer: i32 = checked_i32(peer_ordinal, "K3 MegaMoE peer ordinal")?;
    Ok((own, peer))
}

/// What [`k3_mega_symm_buffer_layout`] takes.
#[derive(Clone, Copy, Debug)]
pub struct K3MegaLayoutCall {
    /// The alignment that the kernel asks of a token count.
    pub token_alignment: usize,
    pub num_ranks: usize,
    pub num_experts: usize,
    pub num_max_tokens_per_rank: usize,
    pub num_topk: usize,
    pub hidden: usize,
    pub intermediate_hidden: usize,
    pub num_sms: usize,
}

/// The C arguments that [`k3_mega_symm_buffer_layout`] derives.
#[derive(Clone, Copy, Debug, PartialEq, Eq)]
pub struct K3MegaLayoutQuery {
    pub num_ranks: i32,
    pub num_experts: i32,
    pub num_max_tokens_per_rank: i32,
    pub num_topk: i32,
    pub hidden: i32,
    pub intermediate_hidden: i32,
    pub num_sms: i32,
}

impl K3MegaLayoutCall {
    /// Why the kernel cannot run, if it cannot.
    pub open spec fn fault(self) -> Option<KernelError> {
        KernelError::unless_fit(
            self.num_max_tokens_per_rank > 0
                && crate::ops::is_multiple(self.num_max_tokens_per_rank, self.token_alignment),
            "K3 MegaMoE needs num_max_tokens_per_rank a multiple of the alignment",
            self.num_max_tokens_per_rank as int,
            self.token_alignment as int,
        )
            .or_fault(KernelError::unless_fit(
                self.num_ranks > 0 && self.num_experts > 0
                    && self.num_experts % self.num_ranks == 0,
                "K3 MegaMoE needs num_experts divisible by num_ranks",
                self.num_experts as int,
                self.num_ranks as int,
            ))
            .or_fault(KernelError::too_wide(self.num_ranks as int, "K3 MegaMoE num_ranks"))
            .or_fault(KernelError::too_wide(self.num_experts as int, "K3 MegaMoE num_experts"))
            .or_fault(KernelError::too_wide(
                self.num_max_tokens_per_rank as int,
                "K3 MegaMoE num_max_tokens_per_rank",
            ))
            .or_fault(KernelError::too_wide(self.num_topk as int, "K3 MegaMoE num_topk"))
            .or_fault(KernelError::too_wide(self.hidden as int, "K3 MegaMoE hidden"))
            .or_fault(KernelError::too_wide(
                self.intermediate_hidden as int,
                "K3 MegaMoE intermediate_hidden",
            ))
            .or_fault(KernelError::too_wide(self.num_sms as int, "K3 MegaMoE num_sms"))
    }

    /// The launch of a call without a fault.
    pub open spec fn launch(self) -> K3MegaLayoutQuery {
        let num_ranks = self.num_ranks as i32;
        let num_experts = self.num_experts as i32;
        let num_max_tokens_per_rank = self.num_max_tokens_per_rank as i32;
        let num_topk = self.num_topk as i32;
        let hidden = self.hidden as i32;
        let intermediate_hidden = self.intermediate_hidden as i32;
        let num_sms = self.num_sms as i32;
        K3MegaLayoutQuery {
            num_ranks,
            num_experts,
            num_max_tokens_per_rank,
            num_topk,
            hidden,
            intermediate_hidden,
            num_sms,
        }
    }
}

/// The question for the layout of one rank's slab. The answer goes to
/// [`K3MegaSymmLayout::new`].
pub fn k3_mega_symm_buffer_layout(c: &K3MegaLayoutCall) -> (r: Result<
    K3MegaLayoutQuery,
    KernelError,
>)
    ensures
        r == KernelError::outcome(c.fault(), c.launch()),
{
    ensure_fit(
        c.num_max_tokens_per_rank > 0
            && c.num_max_tokens_per_rank.is_multiple_of(c.token_alignment),
        "K3 MegaMoE needs num_max_tokens_per_rank a multiple of the alignment",
        c.num_max_tokens_per_rank,
        c.token_alignment,
    )?;
    ensure_fit(
        c.num_ranks > 0 && c.num_experts > 0 && c.num_experts % c.num_ranks == 0,
        "K3 MegaMoE needs num_experts divisible by num_ranks",
        c.num_experts,
        c.num_ranks,
    )?;
    let num_ranks: i32 = checked_i32(c.num_ranks, "K3 MegaMoE num_ranks")?;
    let num_experts: i32 = checked_i32(c.num_experts, "K3 MegaMoE num_experts")?;
    let num_max_tokens_per_rank: i32 = checked_i32(
        c.num_max_tokens_per_rank,
        "K3 MegaMoE num_max_tokens_per_rank",
    )?;
    let num_topk: i32 = checked_i32(c.num_topk, "K3 MegaMoE num_topk")?;
    let hidden: i32 = checked_i32(c.hidden, "K3 MegaMoE hidden")?;
    let intermediate_hidden: i32 = checked_i32(
        c.intermediate_hidden,
        "K3 MegaMoE intermediate_hidden",
    )?;
    let num_sms: i32 = checked_i32(c.num_sms, "K3 MegaMoE num_sms")?;
    Ok(K3MegaLayoutQuery {
        num_ranks,
        num_experts,
        num_max_tokens_per_rank,
        num_topk,
        hidden,
        intermediate_hidden,
        num_sms,
    })
}

/// A stack of weights or scales to prepare.
#[derive(Clone, Copy, Debug, PartialEq, Eq)]
pub struct K3MegaStack {
    pub groups: i32,
    pub n: i32,
    pub k: i32,
}

/// Interleave the gating and up rows of the packed first projection.
pub fn k3_mega_prepare_l1_weights_launch(
    groups: usize,
    n: usize,
    k: usize,
    src_len: usize,
    dst_len: usize,
) -> (r: Result<K3MegaStack, KernelError>)
    ensures
        r == KernelError::outcome(
            KernelError::unless(
                groups > 0 && n > 0 && k > 0 && k % 2 == 0 && n % 16 == 0,
                "K3 MegaMoE L1 weight interleave needs k%2=0 and n%16=0",
            )
                .or_fault(KernelError::unless(
                    src_len >= groups * n * (k / 2) && dst_len >= groups * n * (k / 2),
                    "K3 MegaMoE L1 weight interleave buffers too small",
                ))
                .or_fault(KernelError::too_wide(
                    groups as int,
                    "K3 MegaMoE L1 weight interleave groups",
                ))
                .or_fault(KernelError::too_wide(n as int, "K3 MegaMoE L1 weight interleave n"))
                .or_fault(KernelError::too_wide(k as int, "K3 MegaMoE L1 weight interleave k")),
            (K3MegaStack { groups: groups as i32, n: n as i32, k: k as i32 }),
        ),
{
    ensure_that(
        groups > 0 && n > 0 && k > 0 && k % 2 == 0 && n % (2 * K3_MEGA_INTERLEAVE_GRAN) == 0,
        "K3 MegaMoE L1 weight interleave needs k%2=0 and n%16=0",
    )?;
    ensure_that(
        holds_product3(src_len, groups, n, k / 2) && holds_product3(dst_len, groups, n, k / 2),
        "K3 MegaMoE L1 weight interleave buffers too small",
    )?;
    let groups_i32: i32 = checked_i32(groups, "K3 MegaMoE L1 weight interleave groups")?;
    let n_i32: i32 = checked_i32(n, "K3 MegaMoE L1 weight interleave n")?;
    let k_i32: i32 = checked_i32(k, "K3 MegaMoE L1 weight interleave k")?;
    Ok(K3MegaStack { groups: groups_i32, n: n_i32, k: k_i32 })
}

/// Pack the scales of a projection, interleaved where it is the first: the stack
/// and the interleave flag.
pub fn k3_mega_prepare_sf_launch(
    groups: usize,
    n: usize,
    k: usize,
    interleave: bool,
    sf_len: usize,
    packed_len: usize,
) -> (r: Result<(K3MegaStack, i32), KernelError>)
    ensures
        r == KernelError::outcome(
            KernelError::unless(
                groups > 0 && n % 128 == 0 && k > 0 && k % K3_MEGA_SF_WORD_K == 0 && (!interleave
                    || n % 16 == 0),
                "K3 MegaMoE SF prepare needs n%128=0 and k%128=0",
            )
                .or_fault(KernelError::unless(
                    sf_len >= groups * n * (k / K3_MEGA_SF_GROUP_K)
                        && packed_len >= groups * (k / K3_MEGA_SF_WORD_K) * n,
                    "K3 MegaMoE SF prepare buffers too small",
                ))
                .or_fault(KernelError::too_wide(groups as int, "K3 MegaMoE SF prepare groups"))
                .or_fault(KernelError::too_wide(n as int, "K3 MegaMoE SF prepare n"))
                .or_fault(KernelError::too_wide(k as int, "K3 MegaMoE SF prepare k")),
            (
                K3MegaStack { groups: groups as i32, n: n as i32, k: k as i32 },
                if interleave {
                    1i32
                } else {
                    0i32
                },
            ),
        ),
{
    ensure_that(
        groups > 0 && n % 128 == 0 && k > 0 && k % K3_MEGA_SF_WORD_K == 0 && (!interleave
            || n % (2 * K3_MEGA_INTERLEAVE_GRAN) == 0),
        "K3 MegaMoE SF prepare needs n%128=0 and k%128=0",
    )?;
    ensure_that(
        holds_product3(sf_len, groups, n, k / K3_MEGA_SF_GROUP_K)
            && holds_product3(packed_len, groups, k / K3_MEGA_SF_WORD_K, n),
        "K3 MegaMoE SF prepare buffers too small",
    )?;
    let groups_i32: i32 = checked_i32(groups, "K3 MegaMoE SF prepare groups")?;
    let n_i32: i32 = checked_i32(n, "K3 MegaMoE SF prepare n")?;
    let k_i32: i32 = checked_i32(k, "K3 MegaMoE SF prepare k")?;
    Ok((
        K3MegaStack { groups: groups_i32, n: n_i32, k: k_i32 },
        if interleave {
            1
        } else {
            0
        },
    ))
}

/// What [`k3_mega_write_inputs_launch`] takes.
#[derive(Clone, Copy, Debug)]
pub struct K3MegaInputsCall {
    /// Bytes that the layout wants.
    pub layout_bytes: usize,
    pub symm_len: usize,
    pub num_tokens: usize,
    pub hidden: usize,
    pub num_topk: usize,
    pub latent_len: usize,
    pub topk_idx_len: usize,
    pub topk_weight_len: usize,
}

/// The C arguments that [`k3_mega_write_inputs_launch`] derives.
#[derive(Clone, Copy, Debug, PartialEq, Eq)]
pub struct K3MegaInputsLaunch {
    pub num_tokens: i32,
    pub hidden: i32,
    pub scale_words: i32,
    pub num_topk: i32,
}

impl K3MegaInputsCall {
    /// Why the kernel cannot run, if it cannot.
    pub open spec fn fault(self) -> Option<KernelError> {
        let words = self.hidden / K3_MEGA_SF_WORD_K;
        KernelError::unless_met(
            self.hidden % K3_MEGA_SF_WORD_K == 0,
            "K3 MegaMoE input quant needs hidden divisible by 128",
            self.hidden as int,
        )
            .or_fault(KernelError::unless_sized(
                self.symm_len >= self.layout_bytes,
                "K3 MegaMoE symmetric buffer too small",
                self.symm_len as int,
                self.layout_bytes as int,
            ))
            .or_fault(KernelError::unless(
                self.latent_len >= self.num_tokens * self.hidden
                    && self.topk_idx_len >= self.num_tokens * self.num_topk
                    && self.topk_weight_len >= self.num_tokens * self.num_topk,
                "K3 MegaMoE input buffers too small",
            ))
            .or_fault(KernelError::too_wide(self.num_tokens as int, "K3 MegaMoE tokens"))
            .or_fault(KernelError::too_wide(self.hidden as int, "K3 MegaMoE hidden"))
            .or_fault(KernelError::too_wide(words as int, "K3 MegaMoE scale words"))
            .or_fault(KernelError::too_wide(self.num_topk as int, "K3 MegaMoE topk"))
    }

    /// The launch of a call without a fault.
    pub open spec fn launch(self) -> K3MegaInputsLaunch {
        let num_tokens = self.num_tokens as i32;
        let hidden = self.hidden as i32;
        let words = self.hidden / K3_MEGA_SF_WORD_K;
        let scale_words = words as i32;
        let num_topk = self.num_topk as i32;
        K3MegaInputsLaunch {
            num_tokens,
            hidden,
            scale_words,
            num_topk,
        }
    }
}

/// Write the inputs of one step into the slab: the quantized latents with their
/// scales, and the routing.
pub fn k3_mega_write_inputs_launch(c: &K3MegaInputsCall) -> (r: Result<
    K3MegaInputsLaunch,
    KernelError,
>)
    ensures
        r == KernelError::outcome(c.fault(), c.launch()),
{
    ensure_met(
        c.hidden % K3_MEGA_SF_WORD_K == 0,
        "K3 MegaMoE input quant needs hidden divisible by 128",
        c.hidden,
    )?;
    ensure(
        c.symm_len >= c.layout_bytes,
        "K3 MegaMoE symmetric buffer too small",
        c.symm_len,
        c.layout_bytes,
    )?;
    ensure_that(
        holds_product(c.latent_len, c.num_tokens, c.hidden)
            && holds_product(c.topk_idx_len, c.num_tokens, c.num_topk)
            && holds_product(c.topk_weight_len, c.num_tokens, c.num_topk),
        "K3 MegaMoE input buffers too small",
    )?;
    let num_tokens: i32 = checked_i32(c.num_tokens, "K3 MegaMoE tokens")?;
    let hidden: i32 = checked_i32(c.hidden, "K3 MegaMoE hidden")?;
    let words: usize = c.hidden / K3_MEGA_SF_WORD_K;
    let scale_words: i32 = checked_i32(words, "K3 MegaMoE scale words")?;
    let num_topk: i32 = checked_i32(c.num_topk, "K3 MegaMoE topk")?;
    Ok(K3MegaInputsLaunch {
        num_tokens,
        hidden,
        scale_words,
        num_topk,
    })
}

/// The shape of one fused call.
#[derive(Clone, Copy, Debug, PartialEq, Eq)]
pub struct K3MegaShape {
    /// Rows of the step.
    pub num_tokens: usize,
    /// Rows that the slab and the kernel were built for.
    pub num_max_tokens_per_rank: usize,
    /// Experts of the whole world. Rank `r` owns a contiguous block of them.
    pub num_experts: usize,
    pub num_ranks: usize,
    pub rank_idx: usize,
    pub num_topk: usize,
    pub hidden: usize,
    pub intermediate_hidden: usize,
    pub num_sms: usize,
}

impl K3MegaShape {
    /// Experts that the rank holds.
    pub fn local_experts(&self) -> (r: usize)
        requires
            self.num_ranks > 0,
        ensures
            r == self.num_experts / self.num_ranks,
    {
        self.num_experts / self.num_ranks
    }

    /// Why the shape is refused, if it is.
    pub open spec fn fault(self, token_alignment: usize) -> Option<KernelError> {
        KernelError::unless(
            self.num_ranks > 0 && self.rank_idx < self.num_ranks && self.num_experts
                % self.num_ranks == 0,
            "K3 MegaMoE rank does not partition the experts",
        )
            .or_fault(KernelError::unless_at_most(
                self.num_tokens <= self.num_max_tokens_per_rank,
                "K3 MegaMoE fed more tokens than the buffer holds",
                self.num_tokens as int,
                self.num_max_tokens_per_rank as int,
            ))
            .or_fault(KernelError::unless_fit(
                crate::ops::is_multiple(self.num_max_tokens_per_rank, token_alignment),
                "K3 MegaMoE needs num_max_tokens_per_rank a multiple of the alignment",
                self.num_max_tokens_per_rank as int,
                token_alignment as int,
            ))
            .or_fault(KernelError::unless(
                self.hidden % 128 == 0 && self.intermediate_hidden % 128 == 0,
                "K3 MegaMoE needs hidden/intermediate divisible by 128",
            ))
            .or_fault(KernelError::unless_sized(
                self.num_sms == K3_MEGA_NUM_SMS,
                "K3 MegaMoE is instantiated for one grid only",
                self.num_sms as int,
                K3_MEGA_NUM_SMS as int,
            ))
    }

    /// Refuse a shape that the kernel was not built for. `token_alignment` is
    /// the kernel's own.
    pub fn validate(&self, token_alignment: usize) -> (r: Result<(), KernelError>)
        ensures
            r == KernelError::outcome(self.fault(token_alignment), ()),
    {
        ensure_that(
            self.num_ranks > 0 && self.rank_idx < self.num_ranks && self.num_experts
                % self.num_ranks == 0,
            "K3 MegaMoE rank does not partition the experts",
        )?;
        ensure_at_most(
            self.num_tokens <= self.num_max_tokens_per_rank,
            "K3 MegaMoE fed more tokens than the buffer holds",
            self.num_tokens,
            self.num_max_tokens_per_rank,
        )?;
        ensure_fit(
            self.num_max_tokens_per_rank.is_multiple_of(token_alignment),
            "K3 MegaMoE needs num_max_tokens_per_rank a multiple of the alignment",
            self.num_max_tokens_per_rank,
            token_alignment,
        )?;
        ensure_that(
            self.hidden % 128 == 0 && self.intermediate_hidden % 128 == 0,
            "K3 MegaMoE needs hidden/intermediate divisible by 128",
        )?;
        ensure(
            self.num_sms == K3_MEGA_NUM_SMS,
            "K3 MegaMoE is instantiated for one grid only",
            self.num_sms,
            K3_MEGA_NUM_SMS,
        )
    }
}

/// What [`k3_mega_moe_launch`] takes besides the table of bases.
#[derive(Clone, Copy, Debug)]
pub struct K3MegaMoeCall {
    pub shape: K3MegaShape,
    pub token_alignment: usize,
    pub activation: K3MegaActivation,
    /// Bytes that the layout wants.
    pub layout_bytes: usize,
    pub symm_len: usize,
    /// The base of this rank's slab.
    pub symm_base: i64,
    pub l1_weights_len: usize,
    pub l1_weights_sf_len: usize,
    pub l2_weights_len: usize,
    pub l2_weights_sf_len: usize,
    pub output_len: usize,
}

/// The C arguments that [`k3_mega_moe_launch`] derives.
#[derive(Clone, Copy, Debug, PartialEq, Eq)]
pub struct K3MegaMoeLaunch {
    pub num_ranks: i32,
    pub rank_idx: i32,
    pub num_max_tokens_per_rank: i32,
    pub num_tokens: i32,
    pub num_experts: i32,
    pub num_topk: i32,
    pub hidden: i32,
    pub intermediate_hidden: i32,
    pub num_sms: i32,
    pub activation: i32,
}

/// The fused dispatch, products, activation and combine. The slab already has the
/// inputs of the step. `symm_bases` has the slab of every rank, and this rank's
/// own among them.
pub fn k3_mega_moe_launch(
    call: &K3MegaMoeCall,
    symm_bases: &[i64],
) -> (r: Result<K3MegaMoeLaunch, KernelError>)
    ensures
        r == ({
            let local_experts = call.shape.num_experts / call.shape.num_ranks;
            KernelError::outcome(
                call.shape.fault(call.token_alignment)
                    .or_fault(KernelError::unless_sized(
                        call.symm_len >= call.layout_bytes,
                        "K3 MegaMoE symmetric buffer too small",
                        call.symm_len as int,
                        call.layout_bytes as int,
                    ))
                    .or_fault(KernelError::unless_sized(
                        symm_bases@.len() == call.shape.num_ranks,
                        "K3 MegaMoE needs one base per rank",
                        symm_bases@.len() as int,
                        call.shape.num_ranks as int,
                    ))
                    .or_fault(KernelError::unless(
                        call.l1_weights_len >= local_experts * 2 * call.shape.intermediate_hidden * (call.shape.hidden / 2)
                            && call.l1_weights_sf_len >= local_experts * (call.shape.hidden / K3_MEGA_SF_WORD_K) * 2 * call.shape.intermediate_hidden
                            && call.l2_weights_len >= local_experts * call.shape.hidden * (call.shape.intermediate_hidden / 2)
                            && call.l2_weights_sf_len >= local_experts * (call.shape.intermediate_hidden / K3_MEGA_SF_WORD_K) * call.shape.hidden,
                        "K3 MegaMoE weight buffers too small",
                    ))
                    .or_fault(KernelError::unless(
                        call.output_len >= call.shape.num_tokens * call.shape.hidden,
                        "K3 MegaMoE output too small",
                    ))
                    .or_fault(KernelError::unless(
                        symm_bases@[call.shape.rank_idx as int] == call.symm_base,
                        "K3 MegaMoE rank published another base than it launches on",
                    ))
                    .or_fault(KernelError::too_wide(
                        call.shape.num_ranks as int,
                        "K3 MegaMoE num_ranks",
                    ))
                    .or_fault(KernelError::too_wide(
                        call.shape.rank_idx as int,
                        "K3 MegaMoE rank_idx",
                    ))
                    .or_fault(KernelError::too_wide(
                        call.shape.num_max_tokens_per_rank as int,
                        "K3 MegaMoE num_max_tokens_per_rank",
                    ))
                    .or_fault(KernelError::too_wide(
                        call.shape.num_tokens as int,
                        "K3 MegaMoE num_tokens",
                    ))
                    .or_fault(KernelError::too_wide(
                        call.shape.num_experts as int,
                        "K3 MegaMoE num_experts",
                    ))
                    .or_fault(KernelError::too_wide(
                        call.shape.num_topk as int,
                        "K3 MegaMoE num_topk",
                    ))
                    .or_fault(KernelError::too_wide(call.shape.hidden as int, "K3 MegaMoE hidden"))
                    .or_fault(KernelError::too_wide(
                        call.shape.intermediate_hidden as int,
                        "K3 MegaMoE intermediate_hidden",
                    ))
                    .or_fault(KernelError::too_wide(
                        call.shape.num_sms as int,
                        "K3 MegaMoE num_sms",
                    )),
                (K3MegaMoeLaunch {
                    num_ranks: call.shape.num_ranks as i32,
                    rank_idx: call.shape.rank_idx as i32,
                    num_max_tokens_per_rank: call.shape.num_max_tokens_per_rank as i32,
                    num_tokens: call.shape.num_tokens as i32,
                    num_experts: call.shape.num_experts as i32,
                    num_topk: call.shape.num_topk as i32,
                    hidden: call.shape.hidden as i32,
                    intermediate_hidden: call.shape.intermediate_hidden as i32,
                    num_sms: call.shape.num_sms as i32,
                    activation: call.activation.code(),
                }),
            )
        }),
{
    call.shape.validate(call.token_alignment)?;
    ensure(
        call.symm_len >= call.layout_bytes,
        "K3 MegaMoE symmetric buffer too small",
        call.symm_len,
        call.layout_bytes,
    )?;
    let local_experts: usize = call.shape.local_experts();
    ensure(
        symm_bases.len() == call.shape.num_ranks,
        "K3 MegaMoE needs one base per rank",
        symm_bases.len(),
        call.shape.num_ranks,
    )?;
    ensure_that(
        holds_product4(call.l1_weights_len, local_experts, 2, call.shape.intermediate_hidden, call.shape.hidden / 2)
            && holds_product4(call.l1_weights_sf_len, local_experts, call.shape.hidden / K3_MEGA_SF_WORD_K, 2, call.shape.intermediate_hidden)
            && holds_product3(call.l2_weights_len, local_experts, call.shape.hidden, call.shape.intermediate_hidden / 2)
            && holds_product3(call.l2_weights_sf_len, local_experts, call.shape.intermediate_hidden / K3_MEGA_SF_WORD_K, call.shape.hidden),
        "K3 MegaMoE weight buffers too small",
    )?;
    ensure_that(
        holds_product(call.output_len, call.shape.num_tokens, call.shape.hidden),
        "K3 MegaMoE output too small",
    )?;
    ensure_that(
        symm_bases[call.shape.rank_idx] == call.symm_base,
        "K3 MegaMoE rank published another base than it launches on",
    )?;
    let num_ranks: i32 = checked_i32(call.shape.num_ranks, "K3 MegaMoE num_ranks")?;
    let rank_idx: i32 = checked_i32(call.shape.rank_idx, "K3 MegaMoE rank_idx")?;
    let num_max_tokens_per_rank: i32 = checked_i32(
        call.shape.num_max_tokens_per_rank,
        "K3 MegaMoE num_max_tokens_per_rank",
    )?;
    let num_tokens: i32 = checked_i32(call.shape.num_tokens, "K3 MegaMoE num_tokens")?;
    let num_experts: i32 = checked_i32(call.shape.num_experts, "K3 MegaMoE num_experts")?;
    let num_topk: i32 = checked_i32(call.shape.num_topk, "K3 MegaMoE num_topk")?;
    let hidden: i32 = checked_i32(call.shape.hidden, "K3 MegaMoE hidden")?;
    let intermediate_hidden: i32 = checked_i32(
        call.shape.intermediate_hidden,
        "K3 MegaMoE intermediate_hidden",
    )?;
    let num_sms: i32 = checked_i32(call.shape.num_sms, "K3 MegaMoE num_sms")?;
    Ok(K3MegaMoeLaunch {
        num_ranks,
        rank_idx,
        num_max_tokens_per_rank,
        num_tokens,
        num_experts,
        num_topk,
        hidden,
        intermediate_hidden,
        num_sms,
        activation: call.activation.abi_kind(),
    })
}

/// The rank that owns an expert.
pub open spec fn owner(shape: K3MegaShape, expert: int) -> int {
    expert / (shape.num_experts / shape.num_ranks) as int
}

/// In an accepted world every expert has exactly one owner, which is one of the
/// ranks, and each rank owns the block of its own number.
pub proof fn law_every_expert_has_one_owner(
    shape: K3MegaShape,
    token_alignment: usize,
    expert: int,
)
    requires
        shape.fault(token_alignment) is None,
        0 <= expert < shape.num_experts,
    ensures
        0 <= owner(shape, expert) < shape.num_ranks,
        owner(shape, expert) * (shape.num_experts / shape.num_ranks) <= expert,
        expert < (owner(shape, expert) + 1) * (shape.num_experts / shape.num_ranks),
{
    let ranks = shape.num_ranks as int;
    let local = shape.num_experts as int / ranks;
    let o = owner(shape, expert);
    vstd::arithmetic::div_mod::lemma_fundamental_div_mod(shape.num_experts as int, ranks);
    assert(shape.num_experts == ranks * local);
    assert(local > 0) by (nonlinear_arith)
        requires
            shape.num_experts == ranks * local,
            0 <= expert < shape.num_experts,
            ranks > 0,
    ;
    vstd::arithmetic::div_mod::lemma_fundamental_div_mod(expert, local);
    let rest = expert % local;
    assert(expert == local * o + rest && 0 <= rest < local);
    assert(local * o == o * local && (o + 1) * local == o * local + local) by (nonlinear_arith);
    assert(0 <= o < ranks) by (nonlinear_arith)
        requires
            expert == local * o + rest,
            0 <= rest < local,
            0 <= expert < ranks * local,
    ;
}

/// A layout query is accepted exactly when its own operands hold what it
/// reads and writes.
pub proof fn law_k3_mega_layout_is_accepted_when_it_fits(c: K3MegaLayoutCall)
    ensures
        c.fault() is None <==> {
            &&& c.num_max_tokens_per_rank > 0
            &&& crate::ops::is_multiple(c.num_max_tokens_per_rank, c.token_alignment)
            &&& c.num_ranks > 0
            &&& c.num_experts > 0
            &&& c.num_experts % c.num_ranks == 0
            &&& c.num_ranks <= i32::MAX
            &&& c.num_experts <= i32::MAX
            &&& c.num_max_tokens_per_rank <= i32::MAX
            &&& c.num_topk <= i32::MAX
            &&& c.hidden <= i32::MAX
            &&& c.intermediate_hidden <= i32::MAX
            &&& c.num_sms <= i32::MAX
        },
{
}

/// A layout query is launched with its own numbers, each where it belongs.
pub proof fn law_k3_mega_layout_launches_its_own_numbers(c: K3MegaLayoutCall)
    requires
        c.fault() is None,
    ensures
        c.launch().num_ranks == c.num_ranks,
        c.launch().num_experts == c.num_experts,
        c.launch().num_max_tokens_per_rank == c.num_max_tokens_per_rank,
        c.launch().num_topk == c.num_topk,
        c.launch().hidden == c.hidden,
        c.launch().intermediate_hidden == c.intermediate_hidden,
        c.launch().num_sms == c.num_sms,
{
}

/// A copy of the inputs is accepted exactly when its own operands hold what
/// it reads and writes.
pub proof fn law_k3_mega_inputs_is_accepted_when_it_fits(c: K3MegaInputsCall)
    ensures
        c.fault() is None <==> {
            &&& c.hidden % 128 == 0
            &&& c.symm_len >= c.layout_bytes
            &&& c.latent_len >= c.num_tokens * c.hidden
            &&& c.topk_idx_len >= c.num_tokens * c.num_topk
            &&& c.topk_weight_len >= c.num_tokens * c.num_topk
            &&& c.num_tokens <= i32::MAX
            &&& c.hidden <= i32::MAX
            &&& c.hidden / 128 <= i32::MAX
            &&& c.num_topk <= i32::MAX
        },
{
}

/// A copy of the inputs is launched with its own numbers, each where it
/// belongs.
pub proof fn law_k3_mega_inputs_launches_its_own_numbers(c: K3MegaInputsCall)
    requires
        c.fault() is None,
    ensures
        c.launch().num_tokens == c.num_tokens,
        c.launch().hidden == c.hidden,
        c.launch().scale_words == c.hidden / 128,
        c.launch().num_topk == c.num_topk,
{
}

/// A world shape is accepted exactly when its own operands hold what it reads
/// and writes.
pub proof fn law_k3_mega_shape_is_accepted_when_it_fits(c: K3MegaShape, token_alignment: usize)
    ensures
        c.fault(token_alignment) is None <==> {
            &&& c.num_ranks > 0
            &&& c.rank_idx < c.num_ranks
            &&& c.num_experts % c.num_ranks == 0
            &&& c.num_tokens <= c.num_max_tokens_per_rank
            &&& crate::ops::is_multiple(c.num_max_tokens_per_rank, token_alignment)
            &&& c.hidden % 128 == 0
            &&& c.intermediate_hidden % 128 == 0
            &&& c.num_sms == 152
        },
{
}

/// The two activations have their own kernels.
pub proof fn law_activations_have_their_own_code()
    ensures
        K3MegaActivation::Swiglu.code() == 0,
        K3MegaActivation::Situ.code() == 1,
{
}

/// A scale word packs the scales of four groups, gate and up rows are
/// interleaved by eights, and the slab has twelve parts and a handle of
/// sixty-four bytes.
pub proof fn law_scale_words_pack_four_groups()
    ensures
        K3_MEGA_SF_GROUP_K == 32,
        K3_MEGA_SF_WORD_K == 4 * K3_MEGA_SF_GROUP_K,
        K3_MEGA_INTERLEAVE_GRAN == 8,
        K3_MEGA_NUM_SUB_BUFFERS == 12,
        K3_MEGA_FABRIC_HANDLE_BYTES == 64,
{
}

/// A copy of the inputs that is accepted, and then gets one buffer that does
/// not fit, is refused over that buffer: the answer names the check and shows
/// what it compared.
pub proof fn law_k3_mega_inputs_is_refused_over_the_buffer_at_fault(c: K3MegaInputsCall, n: usize)
    requires
        c.fault() is None,
    ensures
        n < c.layout_bytes ==> (K3MegaInputsCall { symm_len: n, ..c }).fault() == Some(
            KernelError::Rejected {
                what: "K3 MegaMoE symmetric buffer too small",
                got: n,
                want: c.layout_bytes,
            },
        ),
        n < c.num_tokens * c.hidden ==> (K3MegaInputsCall { latent_len: n, ..c }).fault() == Some(
            KernelError::Invalid { what: "K3 MegaMoE input buffers too small" },
        ),
        n < c.num_tokens * c.num_topk ==> (K3MegaInputsCall { topk_idx_len: n, ..c }).fault()
            == Some(
            KernelError::Invalid { what: "K3 MegaMoE input buffers too small" },
        ),
        n < c.num_tokens * c.num_topk ==> (K3MegaInputsCall { topk_weight_len: n,
            ..c }).fault() == Some(
            KernelError::Invalid { what: "K3 MegaMoE input buffers too small" },
        ),
{
}

} // verus!
