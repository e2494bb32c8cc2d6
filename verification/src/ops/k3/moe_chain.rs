//! The K3 batched-decode expert chain around the masked grouped product.
//!
//! Nothing here allocates, reads back or varies its launches with what is on
//! the device, so the chain can be captured.

use vstd::prelude::*;

use crate::error::checked_i32;
use crate::error::ensure_met;
use crate::error::ensure_that;
use crate::error::FaultList;
use crate::error::holds_product3;
use crate::error::holds_product4;
use crate::error::holds_product;
use crate::error::KernelError;

verus! {

/// Activations that share a scale.
pub const K3_MOE_QUANT_GROUP: usize = 128;

/// The routing geometry that every kernel of the chain shares. An entry is one
/// pick of one token, at index `token * topk + slot`.
#[derive(Clone, Copy, Debug, PartialEq, Eq)]
pub struct K3MoeRouteShape {
    /// Token rows of the step, padding rows included.
    pub tokens: usize,
    /// Picks per token.
    pub topk: usize,
    /// Local experts.
    pub groups: usize,
    /// Rows reserved per expert.
    pub masked_cap: usize,
}

impl K3MoeRouteShape {
    /// Entries of the step.
    pub fn entries(self) -> (r: usize)
        requires
            self.tokens * self.topk <= usize::MAX,
        ensures
            r == self.tokens * self.topk,
    {
        proof {
            assert(self.tokens * self.topk >= 0) by (nonlinear_arith);
        }
        self.tokens * self.topk
    }

    /// Rows of the expert-major layout.
    pub fn masked_rows(self) -> (r: usize)
        requires
            self.groups * self.masked_cap <= usize::MAX,
        ensures
            r == self.groups * self.masked_cap,
    {
        proof {
            assert(self.groups * self.masked_cap >= 0) by (nonlinear_arith);
        }
        self.groups * self.masked_cap
    }

    /// Why the shape is refused, if it is.
    pub open spec fn fault(self) -> Option<KernelError> {
        KernelError::unless(
            self.tokens > 0 && self.topk > 0 && self.groups > 0,
            "K3 MoE route shape needs tokens/topk/groups > 0",
        )
            .or_fault(KernelError::unless_met(
                self.masked_cap > 0 && self.masked_cap % K3_MOE_QUANT_GROUP == 0,
                "K3 MoE route shape needs masked_cap a positive multiple of 128",
                self.masked_cap as int,
            ))
    }

    /// Refuse a shape that routes nothing or is not aligned.
    pub fn validate(&self) -> (r: Result<(), KernelError>)
        ensures
            r == KernelError::outcome(self.fault(), ()),
    {
        ensure_that(
            self.tokens > 0 && self.topk > 0 && self.groups > 0,
            "K3 MoE route shape needs tokens/topk/groups > 0",
        )?;
        ensure_met(
            self.masked_cap > 0 && self.masked_cap % K3_MOE_QUANT_GROUP == 0,
            "K3 MoE route shape needs masked_cap a positive multiple of 128",
            self.masked_cap,
        )
    }
}

/// What [`windowed_route_metadata_launch`] takes.
#[derive(Clone, Copy, Debug)]
pub struct K3RouteMetadataCall {
    pub shape: K3MoeRouteShape,
    /// The first expert of the window.
    pub local_expert_base: usize,
    pub topk_idx_len: usize,
    pub masked_m_len: usize,
    pub slot_map_len: usize,
}

/// The C arguments that [`windowed_route_metadata_launch`] derives.
#[derive(Clone, Copy, Debug, PartialEq, Eq)]
pub struct K3RouteMetadataLaunch {
    pub tokens: i32,
    pub topk: i32,
    pub groups: i32,
    pub masked_cap: i32,
    pub local_expert_base: i32,
}

impl K3RouteMetadataCall {
    /// Why the kernel cannot run, if it cannot.
    pub open spec fn fault(self) -> Option<KernelError> {
        self.shape.fault()
            .or_fault(KernelError::unless(
                self.topk_idx_len >= self.shape.tokens * self.shape.topk
                    && self.masked_m_len >= self.shape.groups
                    && self.slot_map_len >= self.shape.tokens * self.shape.topk,
                "K3 MoE route metadata buffers too small",
            ))
            .or_fault(KernelError::too_wide(
                self.local_expert_base as int,
                "K3 MoE route metadata local expert base",
            ))
    }

    /// The launch of a call without a fault.
    pub open spec fn launch(self) -> K3RouteMetadataLaunch {
        let local_expert_base = self.local_expert_base as i32;
        K3RouteMetadataLaunch {
            tokens: self.shape.tokens as i32,
            topk: self.shape.topk as i32,
            groups: self.shape.groups as i32,
            masked_cap: self.shape.masked_cap as i32,
            local_expert_base,
        }
    }
}

/// Routing metadata of a window of experts: rows per expert, and the masked slot
/// of every entry, where the entry is in the window.
pub fn windowed_route_metadata_launch(c: &K3RouteMetadataCall) -> (r: Result<
    K3RouteMetadataLaunch,
    KernelError,
>)
    ensures
        r == KernelError::outcome(c.fault(), c.launch()),
{
    c.shape.validate()?;
    ensure_that(
        holds_product(c.topk_idx_len, c.shape.tokens, c.shape.topk)
            && c.masked_m_len >= c.shape.groups
            && holds_product(c.slot_map_len, c.shape.tokens, c.shape.topk),
        "K3 MoE route metadata buffers too small",
    )?;
    let local_expert_base: i32 = checked_i32(
        c.local_expert_base,
        "K3 MoE route metadata local expert base",
    )?;
    Ok(K3RouteMetadataLaunch {
        tokens: c.shape.tokens as i32,
        topk: c.shape.topk as i32,
        groups: c.shape.groups as i32,
        masked_cap: c.shape.masked_cap as i32,
        local_expert_base,
    })
}

/// Routing metadata of every expert.
pub fn k3_moe_local_route_metadata_launch(
    shape: K3MoeRouteShape,
    topk_idx_len: usize,
    masked_m_len: usize,
    slot_map_len: usize,
) -> (r: Result<K3RouteMetadataLaunch, KernelError>)
    ensures
        r == ({
            let call = K3RouteMetadataCall {
                shape,
                local_expert_base: 0,
                topk_idx_len,
                masked_m_len,
                slot_map_len,
            };
            KernelError::outcome(call.fault(), call.launch())
        }),
{
    windowed_route_metadata_launch(
        &K3RouteMetadataCall {
            shape,
            local_expert_base: 0,
            topk_idx_len,
            masked_m_len,
            slot_map_len,
        },
    )
}

/// What [`windowed_gather_fp8_quant_masked_launch`] takes.
#[derive(Clone, Copy, Debug)]
pub struct K3GatherQuantCall {
    pub shape: K3MoeRouteShape,
    pub hidden: usize,
    /// The first expert of the window.
    pub local_expert_base: usize,
    pub latent_len: usize,
    pub topk_idx_len: usize,
    pub slot_map_len: usize,
    pub output_len: usize,
    pub scales_len: usize,
}

/// The C arguments of a masked kernel.
#[derive(Clone, Copy, Debug, PartialEq, Eq)]
pub struct K3MaskedLaunch {
    pub tokens: i32,
    pub topk: i32,
    pub width: i32,
    pub groups: i32,
    pub masked_cap: i32,
    pub local_expert_base: i32,
}

impl K3GatherQuantCall {
    /// Why the kernel cannot run, if it cannot.
    pub open spec fn fault(self) -> Option<KernelError> {
        self.shape.fault()
            .or_fault(KernelError::unless_met(
                self.hidden > 0 && self.hidden % K3_MOE_QUANT_GROUP == 0,
                "K3 MoE gather quant needs hidden a positive multiple of 128",
                self.hidden as int,
            ))
            .or_fault(KernelError::unless(
                self.latent_len >= self.shape.tokens * self.hidden
                    && self.topk_idx_len >= self.shape.tokens * self.shape.topk
                    && self.slot_map_len >= self.shape.tokens * self.shape.topk
                    && self.output_len >= self.shape.groups * self.shape.masked_cap * self.hidden
                    && self.scales_len >= self.shape.groups * (self.hidden / K3_MOE_QUANT_GROUP) * self.shape.masked_cap,
                "K3 MoE gather quant buffers too small",
            ))
            .or_fault(KernelError::too_wide(
                self.local_expert_base as int,
                "K3 MoE gather quant local expert base",
            ))
    }

    /// The launch of a call without a fault.
    pub open spec fn launch(self) -> K3MaskedLaunch {
        let local_expert_base = self.local_expert_base as i32;
        K3MaskedLaunch {
            tokens: self.shape.tokens as i32,
            topk: self.shape.topk as i32,
            width: self.hidden as i32,
            groups: self.shape.groups as i32,
            masked_cap: self.shape.masked_cap as i32,
            local_expert_base,
        }
    }
}

/// Gather the latents of a window of experts into masked rows, quantized per
/// group of 128.
pub fn windowed_gather_fp8_quant_masked_launch(c: &K3GatherQuantCall) -> (r: Result<
    K3MaskedLaunch,
    KernelError,
>)
    ensures
        r == KernelError::outcome(c.fault(), c.launch()),
{
    c.shape.validate()?;
    ensure_met(
        c.hidden > 0 && c.hidden % K3_MOE_QUANT_GROUP == 0,
        "K3 MoE gather quant needs hidden a positive multiple of 128",
        c.hidden,
    )?;
    ensure_that(
        holds_product(c.latent_len, c.shape.tokens, c.hidden)
            && holds_product(c.topk_idx_len, c.shape.tokens, c.shape.topk)
            && holds_product(c.slot_map_len, c.shape.tokens, c.shape.topk)
            && holds_product3(c.output_len, c.shape.groups, c.shape.masked_cap, c.hidden)
            && holds_product3(c.scales_len, c.shape.groups, c.hidden / K3_MOE_QUANT_GROUP, c.shape.masked_cap),
        "K3 MoE gather quant buffers too small",
    )?;
    let local_expert_base: i32 = checked_i32(
        c.local_expert_base,
        "K3 MoE gather quant local expert base",
    )?;
    Ok(K3MaskedLaunch {
        tokens: c.shape.tokens as i32,
        topk: c.shape.topk as i32,
        width: c.hidden as i32,
        groups: c.shape.groups as i32,
        masked_cap: c.shape.masked_cap as i32,
        local_expert_base,
    })
}

/// Gather and quantize the latents of every expert.
pub fn k3_moe_gather_fp8_quant_masked_launch(
    shape: K3MoeRouteShape,
    hidden: usize,
    latent_len: usize,
    topk_idx_len: usize,
    slot_map_len: usize,
    output_len: usize,
    scales_len: usize,
) -> (r: Result<K3MaskedLaunch, KernelError>)
    ensures
        r == ({
            let call = K3GatherQuantCall {
                shape,
                hidden,
                local_expert_base: 0,
                latent_len,
                topk_idx_len,
                slot_map_len,
                output_len,
                scales_len,
            };
            KernelError::outcome(call.fault(), call.launch())
        }),
{
    windowed_gather_fp8_quant_masked_launch(
        &K3GatherQuantCall {
            shape,
            hidden,
            local_expert_base: 0,
            latent_len,
            topk_idx_len,
            slot_map_len,
            output_len,
            scales_len,
        },
    )
}

/// What [`situ_and_mul_fp8_quant_windowed_launch`] takes.
#[derive(Clone, Copy, Debug)]
pub struct K3SituQuantCall {
    pub shape: K3MoeRouteShape,
    pub inter: usize,
    /// The first expert of the window.
    pub local_expert_base: usize,
    pub gate_up_len: usize,
    pub topk_idx_len: usize,
    pub slot_map_len: usize,
    pub output_len: usize,
    pub scales_len: usize,
}

impl K3SituQuantCall {
    /// Why the kernel cannot run, if it cannot.
    pub open spec fn fault(self) -> Option<KernelError> {
        self.shape.fault()
            .or_fault(KernelError::unless_met(
                self.inter > 0 && self.inter % K3_MOE_QUANT_GROUP == 0,
                "K3 MoE situ quant needs inter a positive multiple of 128",
                self.inter as int,
            ))
            .or_fault(KernelError::unless(
                self.gate_up_len >= self.shape.groups * self.shape.masked_cap * 2 * self.inter
                    && self.topk_idx_len >= self.shape.tokens * self.shape.topk
                    && self.slot_map_len >= self.shape.tokens * self.shape.topk
                    && self.output_len >= self.shape.groups * self.shape.masked_cap * self.inter
                    && self.scales_len >= self.shape.groups * (self.inter / K3_MOE_QUANT_GROUP) * self.shape.masked_cap,
                "K3 MoE situ quant buffers too small",
            ))
            .or_fault(KernelError::too_wide(
                self.local_expert_base as int,
                "K3 MoE situ quant local expert base",
            ))
    }

    /// The launch of a call without a fault.
    pub open spec fn launch(self) -> K3MaskedLaunch {
        let local_expert_base = self.local_expert_base as i32;
        K3MaskedLaunch {
            tokens: self.shape.tokens as i32,
            topk: self.shape.topk as i32,
            width: self.inter as i32,
            groups: self.shape.groups as i32,
            masked_cap: self.shape.masked_cap as i32,
            local_expert_base,
        }
    }
}

/// Activate the gating and up rows of a window of experts and quantize the result.
/// Gating has the first `inter` columns and up the second.
pub fn situ_and_mul_fp8_quant_windowed_launch(c: &K3SituQuantCall) -> (r: Result<
    K3MaskedLaunch,
    KernelError,
>)
    ensures
        r == KernelError::outcome(c.fault(), c.launch()),
{
    c.shape.validate()?;
    ensure_met(
        c.inter > 0 && c.inter % K3_MOE_QUANT_GROUP == 0,
        "K3 MoE situ quant needs inter a positive multiple of 128",
        c.inter,
    )?;
    ensure_that(
        holds_product4(c.gate_up_len, c.shape.groups, c.shape.masked_cap, 2, c.inter)
            && holds_product(c.topk_idx_len, c.shape.tokens, c.shape.topk)
            && holds_product(c.slot_map_len, c.shape.tokens, c.shape.topk)
            && holds_product3(c.output_len, c.shape.groups, c.shape.masked_cap, c.inter)
            && holds_product3(c.scales_len, c.shape.groups, c.inter / K3_MOE_QUANT_GROUP, c.shape.masked_cap),
        "K3 MoE situ quant buffers too small",
    )?;
    let local_expert_base: i32 = checked_i32(
        c.local_expert_base,
        "K3 MoE situ quant local expert base",
    )?;
    Ok(K3MaskedLaunch {
        tokens: c.shape.tokens as i32,
        topk: c.shape.topk as i32,
        width: c.inter as i32,
        groups: c.shape.groups as i32,
        masked_cap: c.shape.masked_cap as i32,
        local_expert_base,
    })
}

/// Activate and quantize the rows of every expert.
pub fn k3_situ_and_mul_fp8_quant_masked_launch(
    shape: K3MoeRouteShape,
    inter: usize,
    gate_up_len: usize,
    topk_idx_len: usize,
    slot_map_len: usize,
    output_len: usize,
    scales_len: usize,
) -> (r: Result<K3MaskedLaunch, KernelError>)
    ensures
        r == ({
            let call = K3SituQuantCall {
                shape,
                inter,
                local_expert_base: 0,
                gate_up_len,
                topk_idx_len,
                slot_map_len,
                output_len,
                scales_len,
            };
            KernelError::outcome(call.fault(), call.launch())
        }),
{
    situ_and_mul_fp8_quant_windowed_launch(
        &K3SituQuantCall {
            shape,
            inter,
            local_expert_base: 0,
            gate_up_len,
            topk_idx_len,
            slot_map_len,
            output_len,
            scales_len,
        },
    )
}

/// A stack of scales to pack.
#[derive(Clone, Copy, Debug, PartialEq, Eq)]
pub struct K3ScalePackLaunch {
    pub groups: i32,
    pub scale_cols: i32,
    pub cap: i32,
}

/// Pack the scales of a masked layout, four per word. Every word is rewritten, so
/// no exponent of an earlier step is left.
pub fn k3_fp8_scale_pack_ue8m0_launch(
    groups: usize,
    scale_cols: usize,
    cap: usize,
    scales_len: usize,
    packed_len: usize,
) -> (r: Result<K3ScalePackLaunch, KernelError>)
    ensures
        r == KernelError::outcome(
            KernelError::unless(
                groups > 0 && cap > 0 && scale_cols > 0 && scale_cols % 4 == 0,
                "K3 FP8 scale pack needs groups/cap > 0 and scale_cols a positive multiple of 4",
            )
                .or_fault(KernelError::unless(
                    scales_len >= groups * scale_cols * cap
                        && packed_len >= groups * (scale_cols / 4) * cap,
                    "K3 FP8 scale pack buffers too small",
                )),
            (K3ScalePackLaunch {
                groups: groups as i32,
                scale_cols: scale_cols as i32,
                cap: cap as i32,
            }),
        ),
{
    ensure_that(
        groups > 0 && cap > 0 && scale_cols > 0 && scale_cols % 4 == 0,
        "K3 FP8 scale pack needs groups/cap > 0 and scale_cols a positive multiple of 4",
    )?;
    ensure_that(
        holds_product3(scales_len, groups, scale_cols, cap)
            && holds_product3(packed_len, groups, scale_cols / 4, cap),
        "K3 FP8 scale pack buffers too small",
    )?;
    Ok(K3ScalePackLaunch {
        groups: groups as i32,
        scale_cols: scale_cols as i32,
        cap: cap as i32,
    })
}

/// What [`k3_moe_weighted_combine_launch`] takes.
#[derive(Clone, Copy, Debug)]
pub struct K3CombineCall {
    pub shape: K3MoeRouteShape,
    pub hidden: usize,
    pub expert_out_len: usize,
    pub topk_idx_len: usize,
    pub slot_map_len: usize,
    pub topk_weight_len: usize,
    pub out_len: usize,
}

/// The C arguments that [`k3_moe_weighted_combine_launch`] derives.
#[derive(Clone, Copy, Debug, PartialEq, Eq)]
pub struct K3CombineLaunch {
    pub tokens: i32,
    pub topk: i32,
    pub width: i32,
    pub groups: i32,
    pub masked_cap: i32,
}

impl K3CombineCall {
    /// Why the kernel cannot run, if it cannot.
    pub open spec fn fault(self) -> Option<KernelError> {
        self.shape.fault()
            .or_fault(KernelError::unless(
                self.hidden > 0,
                "K3 MoE weighted combine needs a positive hidden",
            ))
            .or_fault(KernelError::unless(
                self.expert_out_len >= self.shape.groups * self.shape.masked_cap * self.hidden
                    && self.topk_idx_len >= self.shape.tokens * self.shape.topk
                    && self.slot_map_len >= self.shape.tokens * self.shape.topk
                    && self.topk_weight_len >= self.shape.tokens * self.shape.topk
                    && self.out_len >= self.shape.tokens * self.hidden,
                "K3 MoE weighted combine buffers too small",
            ))
    }

    /// The launch of a call without a fault.
    pub open spec fn launch(self) -> K3CombineLaunch {
        K3CombineLaunch {
            tokens: self.shape.tokens as i32,
            topk: self.shape.topk as i32,
            width: self.hidden as i32,
            groups: self.shape.groups as i32,
            masked_cap: self.shape.masked_cap as i32,
        }
    }
}

/// Add up the expert rows of every token by their weights, in the order of the
/// slots, and round once. A token without an active entry gets zeros.
pub fn k3_moe_weighted_combine_launch(c: &K3CombineCall) -> (r: Result<
    K3CombineLaunch,
    KernelError,
>)
    ensures
        r == KernelError::outcome(c.fault(), c.launch()),
{
    c.shape.validate()?;
    ensure_that(c.hidden > 0, "K3 MoE weighted combine needs a positive hidden")?;
    ensure_that(
        holds_product3(c.expert_out_len, c.shape.groups, c.shape.masked_cap, c.hidden)
            && holds_product(c.topk_idx_len, c.shape.tokens, c.shape.topk)
            && holds_product(c.slot_map_len, c.shape.tokens, c.shape.topk)
            && holds_product(c.topk_weight_len, c.shape.tokens, c.shape.topk)
            && holds_product(c.out_len, c.shape.tokens, c.hidden),
        "K3 MoE weighted combine buffers too small",
    )?;
    Ok(K3CombineLaunch {
        tokens: c.shape.tokens as i32,
        topk: c.shape.topk as i32,
        width: c.hidden as i32,
        groups: c.shape.groups as i32,
        masked_cap: c.shape.masked_cap as i32,
    })
}

/// The masked row of the `rank`-th entry of an expert.
pub open spec fn masked_slot(shape: K3MoeRouteShape, expert: int, rank: int) -> int {
    expert * shape.masked_cap + rank
}

/// The index of a token's pick.
pub open spec fn entry_index(shape: K3MoeRouteShape, token: int, slot: int) -> int {
    token * shape.topk + slot
}

/// As long as no expert claims more entries than it has rows, every masked slot
/// is a row of the layout, and no two entries share one.
pub proof fn law_masked_slots_are_distinct(
    shape: K3MoeRouteShape,
    expert: int,
    rank: int,
    other_expert: int,
    other_rank: int,
)
    requires
        shape.fault() is None,
        0 <= expert < shape.groups,
        0 <= rank < shape.masked_cap,
        0 <= other_expert < shape.groups,
        0 <= other_rank < shape.masked_cap,
    ensures
        0 <= masked_slot(shape, expert, rank) < shape.groups * shape.masked_cap,
        masked_slot(shape, expert, rank) == masked_slot(shape, other_expert, other_rank) ==> expert
            == other_expert && rank == other_rank,
{
    let cap = shape.masked_cap as int;
    assert(expert * cap + rank < shape.groups * cap) by (nonlinear_arith)
        requires
            0 <= expert < shape.groups,
            0 <= rank < cap,
    ;
    assert(expert * cap >= 0) by (nonlinear_arith)
        requires
            expert >= 0,
            cap >= 0,
    ;
    if masked_slot(shape, expert, rank) == masked_slot(shape, other_expert, other_rank) {
        assert(expert == other_expert) by (nonlinear_arith)
            requires
                expert * cap + rank == other_expert * cap + other_rank,
                0 <= rank < cap,
                0 <= other_rank < cap,
        ;
    }
}

/// The stages of the chain agree on their buffers: where the activation of a
/// shape is accepted, its entries are backed in both routing arrays, and every
/// masked row has its columns in the output.
pub proof fn law_chain_rows_are_backed(call: K3SituQuantCall, token: int, slot: int, row: int)
    requires
        call.fault() is None,
        0 <= token < call.shape.tokens,
        0 <= slot < call.shape.topk,
        0 <= row < call.shape.groups * call.shape.masked_cap,
    ensures
        0 <= entry_index(call.shape, token, slot) < call.topk_idx_len,
        entry_index(call.shape, token, slot) < call.slot_map_len,
        (row + 1) * call.inter <= call.output_len,
        (row + 1) * (2 * call.inter) <= call.gate_up_len,
{
    let s = call.shape;
    assert(token * s.topk + slot < s.tokens * s.topk) by (nonlinear_arith)
        requires
            0 <= token < s.tokens,
            0 <= slot < s.topk,
    ;
    assert(token * s.topk >= 0) by (nonlinear_arith)
        requires
            token >= 0,
    ;
    let rows = s.groups * s.masked_cap;
    assert((row + 1) * call.inter <= rows * call.inter) by (nonlinear_arith)
        requires
            row + 1 <= rows,
    ;
    assert((row + 1) * (2 * call.inter) <= rows * 2 * call.inter) by (nonlinear_arith)
        requires
            row + 1 <= rows,
            call.inter >= 0,
    ;
}

/// A route shape is accepted exactly when its own operands hold what it reads
/// and writes.
pub proof fn law_k3_moe_route_shape_is_accepted_when_it_fits(c: K3MoeRouteShape)
    ensures
        c.fault() is None <==> {
            &&& c.tokens > 0
            &&& c.topk > 0
            &&& c.groups > 0
            &&& c.masked_cap > 0
            &&& c.masked_cap % 128 == 0
        },
{
}

/// A routing of tokens is accepted exactly when its own operands hold what it
/// reads and writes.
pub proof fn law_k3_route_metadata_is_accepted_when_it_fits(c: K3RouteMetadataCall)
    ensures
        c.fault() is None <==> {
            &&& c.shape.fault() is None
            &&& c.topk_idx_len >= c.shape.tokens * c.shape.topk
            &&& c.masked_m_len >= c.shape.groups
            &&& c.slot_map_len >= c.shape.tokens * c.shape.topk
            &&& c.local_expert_base <= i32::MAX
        },
{
}

/// A routing of tokens is launched with its own numbers, each where it
/// belongs.
pub proof fn law_k3_route_metadata_launches_its_own_numbers(c: K3RouteMetadataCall)
    requires
        c.fault() is None,
    ensures
        c.shape.tokens <= i32::MAX ==> c.launch().tokens == c.shape.tokens,
        c.shape.topk <= i32::MAX ==> c.launch().topk == c.shape.topk,
        c.shape.groups <= i32::MAX ==> c.launch().groups == c.shape.groups,
        c.shape.masked_cap <= i32::MAX ==> c.launch().masked_cap == c.shape.masked_cap,
        c.launch().local_expert_base == c.local_expert_base,
{
}

/// A gather of routed rows is accepted exactly when its own operands hold
/// what it reads and writes.
pub proof fn law_k3_gather_quant_is_accepted_when_it_fits(c: K3GatherQuantCall)
    ensures
        c.fault() is None <==> {
            &&& c.shape.fault() is None
            &&& c.hidden > 0
            &&& c.hidden % 128 == 0
            &&& c.latent_len >= c.shape.tokens * c.hidden
            &&& c.topk_idx_len >= c.shape.tokens * c.shape.topk
            &&& c.slot_map_len >= c.shape.tokens * c.shape.topk
            &&& c.output_len >= c.shape.groups * c.shape.masked_cap * c.hidden
            &&& c.scales_len >= c.shape.groups * (c.hidden / 128) * c.shape.masked_cap
            &&& c.local_expert_base <= i32::MAX
        },
{
}

/// A gather of routed rows is launched with its own numbers, each where it
/// belongs.
pub proof fn law_k3_gather_quant_launches_its_own_numbers(c: K3GatherQuantCall)
    requires
        c.fault() is None,
    ensures
        c.shape.tokens <= i32::MAX ==> c.launch().tokens == c.shape.tokens,
        c.shape.topk <= i32::MAX ==> c.launch().topk == c.shape.topk,
        c.hidden <= i32::MAX ==> c.launch().width == c.hidden,
        c.shape.groups <= i32::MAX ==> c.launch().groups == c.shape.groups,
        c.shape.masked_cap <= i32::MAX ==> c.launch().masked_cap == c.shape.masked_cap,
        c.launch().local_expert_base == c.local_expert_base,
{
}

/// An activation of routed rows is accepted exactly when its own operands
/// hold what it reads and writes.
pub proof fn law_k3_situ_quant_is_accepted_when_it_fits(c: K3SituQuantCall)
    ensures
        c.fault() is None <==> {
            &&& c.shape.fault() is None
            &&& c.inter > 0
            &&& c.inter % 128 == 0
            &&& c.gate_up_len >= c.shape.groups * c.shape.masked_cap * 2 * c.inter
            &&& c.topk_idx_len >= c.shape.tokens * c.shape.topk
            &&& c.slot_map_len >= c.shape.tokens * c.shape.topk
            &&& c.output_len >= c.shape.groups * c.shape.masked_cap * c.inter
            &&& c.scales_len >= c.shape.groups * (c.inter / 128) * c.shape.masked_cap
            &&& c.local_expert_base <= i32::MAX
        },
{
}

/// An activation of routed rows is launched with its own numbers, each where
/// it belongs.
pub proof fn law_k3_situ_quant_launches_its_own_numbers(c: K3SituQuantCall)
    requires
        c.fault() is None,
    ensures
        c.shape.tokens <= i32::MAX ==> c.launch().tokens == c.shape.tokens,
        c.shape.topk <= i32::MAX ==> c.launch().topk == c.shape.topk,
        c.inter <= i32::MAX ==> c.launch().width == c.inter,
        c.shape.groups <= i32::MAX ==> c.launch().groups == c.shape.groups,
        c.shape.masked_cap <= i32::MAX ==> c.launch().masked_cap == c.shape.masked_cap,
        c.launch().local_expert_base == c.local_expert_base,
{
}

/// A combination of expert outputs is accepted exactly when its own operands
/// hold what it reads and writes.
pub proof fn law_k3_combine_is_accepted_when_it_fits(c: K3CombineCall)
    ensures
        c.fault() is None <==> {
            &&& c.shape.fault() is None
            &&& c.hidden > 0
            &&& c.expert_out_len >= c.shape.groups * c.shape.masked_cap * c.hidden
            &&& c.topk_idx_len >= c.shape.tokens * c.shape.topk
            &&& c.slot_map_len >= c.shape.tokens * c.shape.topk
            &&& c.topk_weight_len >= c.shape.tokens * c.shape.topk
            &&& c.out_len >= c.shape.tokens * c.hidden
        },
{
}

/// A combination of expert outputs is launched with its own numbers, each
/// where it belongs.
pub proof fn law_k3_combine_launches_its_own_numbers(c: K3CombineCall)
    requires
        c.fault() is None,
    ensures
        c.shape.tokens <= i32::MAX ==> c.launch().tokens == c.shape.tokens,
        c.shape.topk <= i32::MAX ==> c.launch().topk == c.shape.topk,
        c.hidden <= i32::MAX ==> c.launch().width == c.hidden,
        c.shape.groups <= i32::MAX ==> c.launch().groups == c.shape.groups,
        c.shape.masked_cap <= i32::MAX ==> c.launch().masked_cap == c.shape.masked_cap,
{
}

/// A routing of tokens that is accepted, and then gets one buffer that does
/// not fit, is refused over that buffer: the answer names the check and shows
/// what it compared.
pub proof fn law_k3_route_metadata_is_refused_over_the_buffer_at_fault(
    c: K3RouteMetadataCall,
    n: usize,
)
    requires
        c.fault() is None,
    ensures
        n < c.shape.tokens * c.shape.topk ==> (K3RouteMetadataCall { topk_idx_len: n,
            ..c }).fault() == Some(
            KernelError::Invalid { what: "K3 MoE route metadata buffers too small" },
        ),
        n < c.shape.groups ==> (K3RouteMetadataCall { masked_m_len: n, ..c }).fault() == Some(
            KernelError::Invalid { what: "K3 MoE route metadata buffers too small" },
        ),
        n < c.shape.tokens * c.shape.topk ==> (K3RouteMetadataCall { slot_map_len: n,
            ..c }).fault() == Some(
            KernelError::Invalid { what: "K3 MoE route metadata buffers too small" },
        ),
{
}

/// A gather of routed rows that is accepted, and then gets one buffer that
/// does not fit, is refused over that buffer: the answer names the check and
/// shows what it compared.
pub proof fn law_k3_gather_quant_is_refused_over_the_buffer_at_fault(c: K3GatherQuantCall, n: usize)
    requires
        c.fault() is None,
    ensures
        n < c.shape.tokens * c.hidden ==> (K3GatherQuantCall { latent_len: n, ..c }).fault()
            == Some(
            KernelError::Invalid { what: "K3 MoE gather quant buffers too small" },
        ),
        n < c.shape.tokens * c.shape.topk ==> (K3GatherQuantCall { topk_idx_len: n,
            ..c }).fault() == Some(
            KernelError::Invalid { what: "K3 MoE gather quant buffers too small" },
        ),
        n < c.shape.tokens * c.shape.topk ==> (K3GatherQuantCall { slot_map_len: n,
            ..c }).fault() == Some(
            KernelError::Invalid { what: "K3 MoE gather quant buffers too small" },
        ),
        n < c.shape.groups * c.shape.masked_cap * c.hidden ==> (K3GatherQuantCall { output_len: n,
            ..c }).fault() == Some(
            KernelError::Invalid { what: "K3 MoE gather quant buffers too small" },
        ),
        n < c.shape.groups * (c.hidden / 128)
            * c.shape.masked_cap ==> (K3GatherQuantCall { scales_len: n, ..c }).fault() == Some(
            KernelError::Invalid { what: "K3 MoE gather quant buffers too small" },
        ),
{
}

/// An activation of routed rows that is accepted, and then gets one buffer
/// that does not fit, is refused over that buffer: the answer names the check
/// and shows what it compared.
pub proof fn law_k3_situ_quant_is_refused_over_the_buffer_at_fault(c: K3SituQuantCall, n: usize)
    requires
        c.fault() is None,
    ensures
        n < c.shape.groups * c.shape.masked_cap * 2
            * c.inter ==> (K3SituQuantCall { gate_up_len: n, ..c }).fault() == Some(
            KernelError::Invalid { what: "K3 MoE situ quant buffers too small" },
        ),
        n < c.shape.tokens * c.shape.topk ==> (K3SituQuantCall { topk_idx_len: n,
            ..c }).fault() == Some(
            KernelError::Invalid { what: "K3 MoE situ quant buffers too small" },
        ),
        n < c.shape.tokens * c.shape.topk ==> (K3SituQuantCall { slot_map_len: n,
            ..c }).fault() == Some(
            KernelError::Invalid { what: "K3 MoE situ quant buffers too small" },
        ),
        n < c.shape.groups * c.shape.masked_cap * c.inter ==> (K3SituQuantCall { output_len: n,
            ..c }).fault() == Some(
            KernelError::Invalid { what: "K3 MoE situ quant buffers too small" },
        ),
        n < c.shape.groups * (c.inter / 128)
            * c.shape.masked_cap ==> (K3SituQuantCall { scales_len: n, ..c }).fault() == Some(
            KernelError::Invalid { what: "K3 MoE situ quant buffers too small" },
        ),
{
}

/// A combination of expert outputs that is accepted, and then gets one buffer
/// that does not fit, is refused over that buffer: the answer names the check
/// and shows what it compared.
pub proof fn law_k3_combine_is_refused_over_the_buffer_at_fault(c: K3CombineCall, n: usize)
    requires
        c.fault() is None,
    ensures
        n < c.shape.groups * c.shape.masked_cap * c.hidden ==> (K3CombineCall { expert_out_len: n,
            ..c }).fault() == Some(
            KernelError::Invalid { what: "K3 MoE weighted combine buffers too small" },
        ),
        n < c.shape.tokens * c.shape.topk ==> (K3CombineCall { topk_idx_len: n, ..c }).fault()
            == Some(
            KernelError::Invalid { what: "K3 MoE weighted combine buffers too small" },
        ),
        n < c.shape.tokens * c.shape.topk ==> (K3CombineCall { slot_map_len: n, ..c }).fault()
            == Some(
            KernelError::Invalid { what: "K3 MoE weighted combine buffers too small" },
        ),
        n < c.shape.tokens * c.shape.topk ==> (K3CombineCall { topk_weight_len: n,
            ..c }).fault() == Some(
            KernelError::Invalid { what: "K3 MoE weighted combine buffers too small" },
        ),
        n < c.shape.tokens * c.hidden ==> (K3CombineCall { out_len: n, ..c }).fault() == Some(
            KernelError::Invalid { what: "K3 MoE weighted combine buffers too small" },
        ),
{
}

} // verus!
