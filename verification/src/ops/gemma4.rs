//! The Gemma 4 expert router, its routed products and their block dispatch.

use vstd::prelude::*;

use crate::error::checked_i32;
use crate::error::checked_product;
use crate::error::ensure;
use crate::error::ensure_fit;
use crate::error::ensure_met;
use crate::error::ensure_that;
use crate::error::FaultList;
use crate::error::KernelError;
use crate::shape::DeviceVec;
use crate::shape::HiddenStates;

verus! {

/// Experts of the register router.
pub const GEMMA4_ROUTER_EXPERTS: usize = 128;

/// The most picks of the register router.
pub const GEMMA4_ROUTER_MAX_TOP_K: usize = 32;

/// What [`gemma4_moe_router_topk_into`] takes.
#[derive(Clone, Copy, Debug)]
pub struct RouterTopkCall {
    pub logits: HiddenStates,
    pub per_expert_scale: DeviceVec,
    pub top_k: usize,
    pub index_out_len: usize,
    pub weight_out_len: usize,
}

/// The C arguments that [`gemma4_moe_router_topk_into`] derives.
#[derive(Clone, Copy, Debug, PartialEq, Eq)]
pub struct RouterTopkLaunch {
    pub rows: i32,
    pub experts: i32,
    pub top_k: i32,
}

impl RouterTopkCall {
    /// Why the kernel cannot run, if it cannot.
    pub open spec fn fault(self) -> Option<KernelError> {
        let slots = self.logits.seq_len * self.top_k;
        KernelError::unless_fit(
            self.logits.hidden_dim == GEMMA4_ROUTER_EXPERTS && 1 <= self.top_k
                && self.top_k <= GEMMA4_ROUTER_MAX_TOP_K,
            "gemma4_moe_router_topk_into: the 128-expert register-router contract requires exactly 128 experts and 1..=32 picks",
            self.logits.hidden_dim as int,
            self.top_k as int,
        )
            .or_fault(KernelError::unless(
                self.logits.seq_len > 0 && self.top_k > 0 && self.top_k <= self.logits.hidden_dim,
                "gemma4_moe_router_topk_into: not a routing problem",
            ))
            .or_fault(KernelError::unless_sized(
                self.per_expert_scale.len == self.logits.hidden_dim,
                "gemma4_moe_router_topk_into: the per-expert scale must hold every expert",
                self.per_expert_scale.len as int,
                self.logits.hidden_dim as int,
            ))
            .or_fault(KernelError::unless_sized(
                self.per_expert_scale.data_len >= self.logits.hidden_dim,
                "gemma4_moe_router_topk_into: allocated per-expert scales",
                self.per_expert_scale.data_len as int,
                self.logits.hidden_dim as int,
            ))
            .or_fault(KernelError::overflow(slots, "gemma4_moe_router_topk_into: rows x top_k"))
            .or_fault(self.logits.extent_fault("gemma4_moe_router_topk_into logits"))
            .or_fault(KernelError::unless(
                self.index_out_len >= slots && self.weight_out_len >= slots,
                "gemma4_moe_router_topk_into outputs too small",
            ))
            .or_fault(KernelError::too_wide(
                self.logits.seq_len as int,
                "gemma4_moe_router_topk_into rows",
            ))
    }

    /// The launch of a call without a fault.
    pub open spec fn launch(self) -> RouterTopkLaunch {
        let rows = self.logits.seq_len as i32;
        RouterTopkLaunch {
            rows,
            experts: self.logits.hidden_dim as i32,
            top_k: self.top_k as i32,
        }
    }
}

/// Softmax the router logits over every expert, take the best `top_k`,
/// renormalize them among themselves and apply the per-expert scale.
pub fn gemma4_moe_router_topk_into(c: &RouterTopkCall) -> (r: Result<RouterTopkLaunch, KernelError>)
    ensures
        r == KernelError::outcome(c.fault(), c.launch()),
{
    ensure_fit(
        c.logits.hidden_dim == GEMMA4_ROUTER_EXPERTS && 1 <= c.top_k
            && c.top_k <= GEMMA4_ROUTER_MAX_TOP_K,
        "gemma4_moe_router_topk_into: the 128-expert register-router contract requires exactly 128 experts and 1..=32 picks",
        c.logits.hidden_dim,
        c.top_k,
    )?;
    ensure_that(
        c.logits.seq_len > 0 && c.top_k > 0 && c.top_k <= c.logits.hidden_dim,
        "gemma4_moe_router_topk_into: not a routing problem",
    )?;
    ensure(
        c.per_expert_scale.len == c.logits.hidden_dim,
        "gemma4_moe_router_topk_into: the per-expert scale must hold every expert",
        c.per_expert_scale.len,
        c.logits.hidden_dim,
    )?;
    ensure(
        c.per_expert_scale.data_len >= c.logits.hidden_dim,
        "gemma4_moe_router_topk_into: allocated per-expert scales",
        c.per_expert_scale.data_len,
        c.logits.hidden_dim,
    )?;
    let slots: usize = checked_product(
        c.logits.seq_len,
        c.top_k,
        "gemma4_moe_router_topk_into: rows x top_k",
    )?;
    c.logits.checked_extent("gemma4_moe_router_topk_into logits")?;
    ensure_that(
        c.index_out_len >= slots && c.weight_out_len >= slots,
        "gemma4_moe_router_topk_into outputs too small",
    )?;
    let rows: i32 = checked_i32(c.logits.seq_len, "gemma4_moe_router_topk_into rows")?;
    Ok(RouterTopkLaunch {
        rows,
        experts: c.logits.hidden_dim as i32,
        top_k: c.top_k as i32,
    })
}

/// Fold a routed product of `rows * top_k` rows back onto its `rows` tokens:
/// the rows, the picks and the width.
pub fn gemma4_moe_sum_topk_into(
    routed: &HiddenStates,
    top_k: usize,
    out: &HiddenStates,
) -> (r: Result<(i32, i32, i32), KernelError>)
    requires
        out.seq_len > 0 && top_k > 0 && routed.hidden_dim == out.hidden_dim ==> out.seq_len * top_k
            <= usize::MAX,
    ensures
        r == ({
            let needed = out.seq_len * top_k;
            KernelError::outcome(
                KernelError::unless(
                    out.seq_len > 0 && top_k > 0,
                    "gemma4_moe_sum_topk_into: rows and picks must be non-zero",
                )
                    .or_fault(KernelError::unless_sized(
                        routed.hidden_dim == out.hidden_dim,
                        "gemma4_moe_sum_topk_into: routed must be as wide as out",
                        routed.hidden_dim as int,
                        out.hidden_dim as int,
                    ))
                    .or_fault(KernelError::unless_sized(
                        routed.seq_len >= needed,
                        "gemma4_moe_sum_topk_into: routed rows",
                        routed.seq_len as int,
                        needed,
                    ))
                    .or_fault(KernelError::too_wide(
                        out.seq_len as int,
                        "gemma4_moe_sum_topk_into rows",
                    ))
                    .or_fault(KernelError::too_wide(
                        top_k as int,
                        "gemma4_moe_sum_topk_into top_k",
                    ))
                    .or_fault(KernelError::too_wide(
                        out.hidden_dim as int,
                        "gemma4_moe_sum_topk_into hidden",
                    )),
                (out.seq_len as i32, top_k as i32, out.hidden_dim as i32),
            )
        }),
{
    ensure_that(
        out.seq_len > 0 && top_k > 0,
        "gemma4_moe_sum_topk_into: rows and picks must be non-zero",
    )?;
    ensure(
        routed.hidden_dim == out.hidden_dim,
        "gemma4_moe_sum_topk_into: routed must be as wide as out",
        routed.hidden_dim,
        out.hidden_dim,
    )?;
    proof {
        assert(out.seq_len * top_k >= 0) by (nonlinear_arith);
    }
    let needed: usize = out.seq_len * top_k;
    ensure(
        routed.seq_len >= needed,
        "gemma4_moe_sum_topk_into: routed rows",
        routed.seq_len,
        needed,
    )?;
    let rows: i32 = checked_i32(out.seq_len, "gemma4_moe_sum_topk_into rows")?;
    let picks: i32 = checked_i32(top_k, "gemma4_moe_sum_topk_into top_k")?;
    let hidden: i32 = checked_i32(out.hidden_dim, "gemma4_moe_sum_topk_into hidden")?;
    Ok((rows, picks, hidden))
}

/// What an expert-blocked product needs beyond its operands.
#[derive(Clone, Copy, Debug, PartialEq, Eq)]
pub struct MarlinDispatch {
    pub sorted_token_ids_len: usize,
    pub block_size: usize,
    /// The picks per token for the first projection, which gathers each token
    /// once per pick; one for the second, whose rows are already per pick.
    pub top_k: usize,
    pub mul_topk_weights: bool,
}

/// What [`gemma4_marlin_nvfp4_moe`] takes.
#[derive(Clone, Copy, Debug)]
pub struct MarlinMoeCall {
    pub input: HiddenStates,
    pub workspace_len: usize,
    pub dispatch: MarlinDispatch,
    pub rows: usize,
    pub size_n: usize,
    pub size_k: usize,
    pub out: HiddenStates,
}

/// The C arguments that [`gemma4_marlin_nvfp4_moe`] derives.
#[derive(Clone, Copy, Debug, PartialEq, Eq)]
pub struct MarlinMoeLaunch {
    pub workspace_len: i32,
    pub sorted_len: i32,
    pub block_size: i32,
    pub top_k: i32,
    pub mul_topk_weights: bool,
    pub rows: i32,
    pub size_n: i32,
    pub size_k: i32,
}

impl MarlinMoeCall {
    /// Why the kernel cannot run, if it cannot.
    pub open spec fn fault(self) -> Option<KernelError> {
        let needed = self.rows * self.dispatch.top_k;
        KernelError::unless(
            self.rows > 0 && self.size_n > 0 && self.size_k > 0,
            "gemma4_marlin_nvfp4_moe: not a GEMM",
        )
            .or_fault(KernelError::unless(
                self.input.hidden_dim == self.size_k && self.input.seq_len >= self.rows,
                "gemma4_marlin_nvfp4_moe: input must be rows x size_k",
            ))
            .or_fault(KernelError::unless_sized(
                self.out.hidden_dim == self.size_n,
                "gemma4_marlin_nvfp4_moe: out must be size_n wide",
                self.out.hidden_dim as int,
                self.size_n as int,
            ))
            .or_fault(KernelError::unless_sized(
                self.out.seq_len >= needed,
                "gemma4_marlin_nvfp4_moe: out must hold every pick",
                self.out.seq_len as int,
                needed,
            ))
            .or_fault(KernelError::too_wide(
                self.workspace_len as int,
                "gemma4_marlin_nvfp4_moe workspace_len",
            ))
            .or_fault(KernelError::too_wide(
                self.dispatch.sorted_token_ids_len as int,
                "gemma4_marlin_nvfp4_moe sorted_len",
            ))
            .or_fault(KernelError::too_wide(
                self.dispatch.block_size as int,
                "gemma4_marlin_nvfp4_moe block_size",
            ))
            .or_fault(KernelError::too_wide(
                self.dispatch.top_k as int,
                "gemma4_marlin_nvfp4_moe top_k",
            ))
            .or_fault(KernelError::too_wide(self.rows as int, "gemma4_marlin_nvfp4_moe rows"))
            .or_fault(KernelError::too_wide(self.size_n as int, "gemma4_marlin_nvfp4_moe size_n"))
            .or_fault(KernelError::too_wide(self.size_k as int, "gemma4_marlin_nvfp4_moe size_k"))
    }

    /// The launch of a call without a fault.
    pub open spec fn launch(self) -> MarlinMoeLaunch {
        let workspace_len = self.workspace_len as i32;
        let sorted_len = self.dispatch.sorted_token_ids_len as i32;
        let block_size = self.dispatch.block_size as i32;
        let top_k = self.dispatch.top_k as i32;
        let rows = self.rows as i32;
        let size_n = self.size_n as i32;
        let size_k = self.size_k as i32;
        MarlinMoeLaunch {
            workspace_len,
            sorted_len,
            block_size,
            top_k,
            mul_topk_weights: self.dispatch.mul_topk_weights,
            rows,
            size_n,
            size_k,
        }
    }
}

/// One expert-blocked product. `rows` counts the rows of the input, which the
/// dispatch's `top_k` expands to those of the output.
pub fn gemma4_marlin_nvfp4_moe(c: &MarlinMoeCall) -> (r: Result<MarlinMoeLaunch, KernelError>)
    requires
        c.rows > 0 && c.size_n > 0 && c.size_k > 0 && c.input.hidden_dim == c.size_k
            && c.input.seq_len >= c.rows && c.out.hidden_dim == c.size_n ==> c.rows
            * c.dispatch.top_k <= usize::MAX,
    ensures
        r == KernelError::outcome(c.fault(), c.launch()),
{
    ensure_that(c.rows > 0 && c.size_n > 0 && c.size_k > 0, "gemma4_marlin_nvfp4_moe: not a GEMM")?;
    ensure_that(
        c.input.hidden_dim == c.size_k && c.input.seq_len >= c.rows,
        "gemma4_marlin_nvfp4_moe: input must be rows x size_k",
    )?;
    ensure(
        c.out.hidden_dim == c.size_n,
        "gemma4_marlin_nvfp4_moe: out must be size_n wide",
        c.out.hidden_dim,
        c.size_n,
    )?;
    proof {
        assert(c.rows * c.dispatch.top_k >= 0) by (nonlinear_arith);
    }
    let needed: usize = c.rows * c.dispatch.top_k;
    ensure(
        c.out.seq_len >= needed,
        "gemma4_marlin_nvfp4_moe: out must hold every pick",
        c.out.seq_len,
        needed,
    )?;
    let workspace_len: i32 = checked_i32(c.workspace_len, "gemma4_marlin_nvfp4_moe workspace_len")?;
    let sorted_len: i32 = checked_i32(
        c.dispatch.sorted_token_ids_len,
        "gemma4_marlin_nvfp4_moe sorted_len",
    )?;
    let block_size: i32 = checked_i32(c.dispatch.block_size, "gemma4_marlin_nvfp4_moe block_size")?;
    let top_k: i32 = checked_i32(c.dispatch.top_k, "gemma4_marlin_nvfp4_moe top_k")?;
    let rows: i32 = checked_i32(c.rows, "gemma4_marlin_nvfp4_moe rows")?;
    let size_n: i32 = checked_i32(c.size_n, "gemma4_marlin_nvfp4_moe size_n")?;
    let size_k: i32 = checked_i32(c.size_k, "gemma4_marlin_nvfp4_moe size_k")?;
    Ok(MarlinMoeLaunch {
        workspace_len,
        sorted_len,
        block_size,
        top_k,
        mul_topk_weights: c.dispatch.mul_topk_weights,
        rows,
        size_n,
        size_k,
    })
}

/// The extents of a stack of expert weights.
#[derive(Clone, Copy, Debug, PartialEq, Eq)]
pub struct ExpertStack {
    pub experts: i32,
    pub in_dim: i32,
    pub out_dim: i32,
}

/// Rewrite the block scales of a stacked projection, one byte per sixteen
/// inputs.
pub fn gemma4_marlin_nvfp4_prepare_scales(
    checkpoint_len: usize,
    prepared_len: usize,
    experts: usize,
    in_dim: usize,
    out_dim: usize,
) -> (r: Result<ExpertStack, KernelError>)
    requires
        experts * out_dim <= usize::MAX,
        experts * out_dim * (in_dim / 16) <= usize::MAX,
    ensures
        r == ({
            let expected = experts * out_dim * (in_dim / 16);
            KernelError::outcome(
                KernelError::unless_met(
                    in_dim % 16 == 0,
                    "gemma4_marlin_nvfp4_prepare_scales: in_dim must be a multiple of 16",
                    in_dim as int,
                )
                    .or_fault(KernelError::unless_sized(
                        checkpoint_len >= expected,
                        "gemma4_marlin_nvfp4_prepare_scales: checkpoint scale bytes",
                        checkpoint_len as int,
                        expected,
                    ))
                    .or_fault(KernelError::unless_sized(
                        prepared_len >= expected,
                        "gemma4_marlin_nvfp4_prepare_scales: prepared scale bytes",
                        prepared_len as int,
                        expected,
                    ))
                    .or_fault(KernelError::too_wide(
                        experts as int,
                        "gemma4_marlin_nvfp4_prepare_scales experts",
                    ))
                    .or_fault(KernelError::too_wide(
                        in_dim as int,
                        "gemma4_marlin_nvfp4_prepare_scales in_dim",
                    ))
                    .or_fault(KernelError::too_wide(
                        out_dim as int,
                        "gemma4_marlin_nvfp4_prepare_scales out_dim",
                    )),
                (ExpertStack {
                    experts: experts as i32,
                    in_dim: in_dim as i32,
                    out_dim: out_dim as i32,
                }),
            )
        }),
{
    proof {
        assert(experts * out_dim >= 0) by (nonlinear_arith);
        assert(experts * out_dim * (in_dim / 16) >= 0) by (nonlinear_arith)
            requires
                experts * out_dim >= 0,
                in_dim / 16 >= 0,
        ;
    }
    let expected: usize = experts * out_dim * (in_dim / 16);
    ensure_met(
        in_dim % 16 == 0,
        "gemma4_marlin_nvfp4_prepare_scales: in_dim must be a multiple of 16",
        in_dim,
    )?;
    ensure(
        checkpoint_len >= expected,
        "gemma4_marlin_nvfp4_prepare_scales: checkpoint scale bytes",
        checkpoint_len,
        expected,
    )?;
    ensure(
        prepared_len >= expected,
        "gemma4_marlin_nvfp4_prepare_scales: prepared scale bytes",
        prepared_len,
        expected,
    )?;
    let experts_i32: i32 = checked_i32(experts, "gemma4_marlin_nvfp4_prepare_scales experts")?;
    let in_i32: i32 = checked_i32(in_dim, "gemma4_marlin_nvfp4_prepare_scales in_dim")?;
    let out_i32: i32 = checked_i32(out_dim, "gemma4_marlin_nvfp4_prepare_scales out_dim")?;
    Ok(ExpertStack { experts: experts_i32, in_dim: in_i32, out_dim: out_i32 })
}

/// Rewrite a stacked four-bit projection, two weights per byte.
pub fn marlin_repack_4bit(
    src_len: usize,
    dst_len: usize,
    experts: usize,
    in_dim: usize,
    out_dim: usize,
) -> (r: Result<ExpertStack, KernelError>)
    requires
        experts * out_dim <= usize::MAX,
        experts * out_dim * in_dim <= usize::MAX,
    ensures
        r == ({
            let expected = experts * out_dim * in_dim / 2;
            KernelError::outcome(
                KernelError::unless_sized(
                    src_len >= expected,
                    "marlin_repack_4bit: packed source bytes",
                    src_len as int,
                    expected,
                )
                    .or_fault(KernelError::unless_sized(
                        dst_len >= expected,
                        "marlin_repack_4bit: packed destination bytes",
                        dst_len as int,
                        expected,
                    ))
                    .or_fault(KernelError::too_wide(experts as int, "marlin_repack_4bit experts"))
                    .or_fault(KernelError::too_wide(in_dim as int, "marlin_repack_4bit in_dim"))
                    .or_fault(KernelError::too_wide(out_dim as int, "marlin_repack_4bit out_dim")),
                (ExpertStack {
                    experts: experts as i32,
                    in_dim: in_dim as i32,
                    out_dim: out_dim as i32,
                }),
            )
        }),
{
    proof {
        assert(experts * out_dim >= 0) by (nonlinear_arith);
        assert(experts * out_dim * in_dim >= 0) by (nonlinear_arith)
            requires
                experts * out_dim >= 0,
        ;
    }
    let expected: usize = experts * out_dim * in_dim / 2;
    ensure(src_len >= expected, "marlin_repack_4bit: packed source bytes", src_len, expected)?;
    ensure(
        dst_len >= expected,
        "marlin_repack_4bit: packed destination bytes",
        dst_len,
        expected,
    )?;
    let experts_i32: i32 = checked_i32(experts, "marlin_repack_4bit experts")?;
    let in_i32: i32 = checked_i32(in_dim, "marlin_repack_4bit in_dim")?;
    let out_i32: i32 = checked_i32(out_dim, "marlin_repack_4bit out_dim")?;
    Ok(ExpertStack { experts: experts_i32, in_dim: in_i32, out_dim: out_i32 })
}

/// Lengths of the buffers that the block alignment writes.
#[derive(Clone, Copy, Debug, PartialEq, Eq)]
pub struct MoeAlignScratch {
    pub sorted_token_ids_len: usize,
    pub expert_ids_len: usize,
    pub num_tokens_post_padded_len: usize,
    pub expert_offsets_len: usize,
}

/// What [`marlin_moe_align_block_size`] takes.
#[derive(Clone, Copy, Debug)]
pub struct MoeAlignCall {
    pub topk_idx_len: usize,
    pub rows: usize,
    pub top_k: usize,
    pub experts: usize,
    pub block_size: usize,
    pub out: MoeAlignScratch,
}

/// The C arguments that [`marlin_moe_align_block_size`] derives.
#[derive(Clone, Copy, Debug, PartialEq, Eq)]
pub struct MoeAlignLaunch {
    pub rows: i32,
    pub top_k: i32,
    pub first_expert: i32,
    pub experts: i32,
    pub block_size: i32,
    pub max_padded: i32,
    pub max_blocks: i32,
}

impl MoeAlignCall {
    /// Why the kernel cannot run, if it cannot.
    pub open spec fn fault(self) -> Option<KernelError> {
        let routes = self.rows * self.top_k;
        let worst = routes + self.experts * (self.block_size - 1);
        KernelError::overflow(routes, "marlin_moe_align_block_size: rows x top_k")
            .or_fault(KernelError::unless(
                self.topk_idx_len >= routes && self.out.num_tokens_post_padded_len != 0
                    && self.out.expert_offsets_len > self.experts,
                "marlin_moe_align_block_size scratch too small",
            ))
            .or_fault(KernelError::unless_sized(
                self.out.sorted_token_ids_len >= worst,
                "marlin_moe_align_block_size: padded slots cannot hold the routes with one part filled block per expert",
                self.out.sorted_token_ids_len as int,
                worst,
            ))
            .or_fault(KernelError::too_wide(self.rows as int, "marlin_moe_align_block_size rows"))
            .or_fault(KernelError::too_wide(self.top_k as int, "marlin_moe_align_block_size top_k"))
            .or_fault(KernelError::too_wide(
                self.experts as int,
                "marlin_moe_align_block_size experts",
            ))
            .or_fault(KernelError::too_wide(
                self.block_size as int,
                "marlin_moe_align_block_size block_size",
            ))
            .or_fault(KernelError::too_wide(
                self.out.sorted_token_ids_len as int,
                "marlin_moe_align_block_size max_padded",
            ))
            .or_fault(KernelError::too_wide(
                self.out.expert_ids_len as int,
                "marlin_moe_align_block_size max_blocks",
            ))
    }

    /// The launch of a call without a fault.
    pub open spec fn launch(self) -> MoeAlignLaunch {
        let rows = self.rows as i32;
        let top_k = self.top_k as i32;
        let experts = self.experts as i32;
        let block_size = self.block_size as i32;
        let max_padded = self.out.sorted_token_ids_len as i32;
        let max_blocks = self.out.expert_ids_len as i32;
        MoeAlignLaunch {
            rows,
            top_k,
            first_expert: 0,
            experts,
            block_size,
            max_padded,
            max_blocks,
        }
    }
}

/// Group the routed slots into blocks of fixed width, one expert per block.
/// Entries past the padded count may stay stale: consumers read that count.
pub fn marlin_moe_align_block_size(c: &MoeAlignCall) -> (r: Result<MoeAlignLaunch, KernelError>)
    requires
        c.topk_idx_len >= c.rows * c.top_k && c.out.num_tokens_post_padded_len != 0
            && c.out.expert_offsets_len > c.experts ==> c.block_size >= 1 && c.rows * c.top_k
            + c.experts * (c.block_size - 1) <= usize::MAX,
    ensures
        r == KernelError::outcome(c.fault(), c.launch()),
{
    let routes: usize = checked_product(
        c.rows,
        c.top_k,
        "marlin_moe_align_block_size: rows x top_k",
    )?;
    ensure_that(
        c.topk_idx_len >= routes && c.out.num_tokens_post_padded_len != 0
            && c.out.expert_offsets_len > c.experts,
        "marlin_moe_align_block_size scratch too small",
    )?;
    proof {
        assert(c.experts * (c.block_size - 1) >= 0) by (nonlinear_arith)
            requires
                c.block_size >= 1,
        ;
    }
    let worst: usize = routes + c.experts * (c.block_size - 1);
    ensure(
        c.out.sorted_token_ids_len >= worst,
        "marlin_moe_align_block_size: padded slots cannot hold the routes with one part filled block per expert",
        c.out.sorted_token_ids_len,
        worst,
    )?;
    let rows: i32 = checked_i32(c.rows, "marlin_moe_align_block_size rows")?;
    let top_k: i32 = checked_i32(c.top_k, "marlin_moe_align_block_size top_k")?;
    let experts: i32 = checked_i32(c.experts, "marlin_moe_align_block_size experts")?;
    let block_size: i32 = checked_i32(c.block_size, "marlin_moe_align_block_size block_size")?;
    let max_padded: i32 = checked_i32(
        c.out.sorted_token_ids_len,
        "marlin_moe_align_block_size max_padded",
    )?;
    let max_blocks: i32 = checked_i32(
        c.out.expert_ids_len,
        "marlin_moe_align_block_size max_blocks",
    )?;
    Ok(MoeAlignLaunch {
        rows,
        top_k,
        first_expert: 0,
        experts,
        block_size,
        max_padded,
        max_blocks,
    })
}

/// Slots that the first `n` experts take when each expert's slots are rounded
/// up to whole blocks.
pub open spec fn padded_slots(counts: Seq<nat>, block_size: int, n: nat) -> int
    decreases n,
{
    if n == 0 {
        0
    } else {
        padded_slots(counts, block_size, (n - 1) as nat) + super::ceil_div(
            counts[n - 1] as int,
            block_size,
        ) * block_size
    }
}

/// Slots of the first `n` experts.
pub open spec fn routed_slots(counts: Seq<nat>, n: nat) -> int
    decreases n,
{
    if n == 0 {
        0
    } else {
        routed_slots(counts, (n - 1) as nat) + counts[n - 1]
    }
}

/// However the routes fall on the experts, an accepted alignment has room for
/// every expert's slots padded to whole blocks.
pub proof fn law_aligned_blocks_fit(call: MoeAlignCall, counts: Seq<nat>)
    requires
        call.fault() is None,
        call.block_size >= 1,
        counts.len() == call.experts,
        routed_slots(counts, counts.len()) == call.rows * call.top_k,
    ensures
        padded_slots(counts, call.block_size as int, counts.len())
            <= call.out.sorted_token_ids_len,
{
    lemma_padding_bound(counts, call.block_size as int, counts.len());
}

proof fn lemma_padding_bound(counts: Seq<nat>, block_size: int, n: nat)
    requires
        block_size >= 1,
        n <= counts.len(),
    ensures
        padded_slots(counts, block_size, n) <= routed_slots(counts, n) + n * (block_size - 1),
    decreases n,
{
    if n > 0 {
        lemma_padding_bound(counts, block_size, (n - 1) as nat);
        let count = counts[n - 1] as int;
        super::law_ceil_div_covers(count, block_size);
        let q = super::ceil_div(count, block_size);
        assert(q * block_size <= count + block_size - 1) by {
            if count > 0 {
                assert((q - 1) * block_size == q * block_size - block_size) by (nonlinear_arith);
            } else {
                assert((0 + block_size - 1) / block_size == 0) by (nonlinear_arith)
                    requires
                        block_size >= 1,
                ;
            }
        }
        assert(n * (block_size - 1) == (n - 1) * (block_size - 1) + (block_size - 1))
            by (nonlinear_arith);
    }
}

/// A router selection is accepted exactly when its own operands hold what it
/// reads and writes.
pub proof fn law_router_topk_is_accepted_when_it_fits(c: RouterTopkCall)
    ensures
        c.fault() is None <==> {
            &&& c.logits.hidden_dim == 128
            &&& 1 <= c.top_k
            &&& c.top_k <= 32
            &&& c.logits.seq_len > 0
            &&& c.top_k > 0
            &&& c.top_k <= c.logits.hidden_dim
            &&& c.per_expert_scale.len == c.logits.hidden_dim
            &&& c.per_expert_scale.data_len >= c.logits.hidden_dim
            &&& c.logits.hidden_dim * c.logits.seq_len <= c.logits.data_len
            &&& c.index_out_len >= c.logits.seq_len * c.top_k
            &&& c.weight_out_len >= c.logits.seq_len * c.top_k
            &&& c.logits.seq_len <= i32::MAX
        },
{
    assert((c.logits.seq_len * c.top_k) >= 0) by (nonlinear_arith);
    assert(c.logits.hidden_dim * c.logits.seq_len >= 0) by (nonlinear_arith);
}

/// A router selection is launched with its own numbers, each where it
/// belongs.
pub proof fn law_router_topk_launches_its_own_numbers(c: RouterTopkCall)
    requires
        c.fault() is None,
    ensures
        c.launch().rows == c.logits.seq_len,
        c.launch().experts == c.logits.hidden_dim,
        c.launch().top_k == c.top_k,
{
}

/// A grouped expert product is accepted exactly when its own operands hold
/// what it reads and writes.
pub proof fn law_marlin_moe_is_accepted_when_it_fits(c: MarlinMoeCall)
    ensures
        c.fault() is None <==> {
            &&& c.rows > 0
            &&& c.size_n > 0
            &&& c.size_k > 0
            &&& c.input.hidden_dim == c.size_k
            &&& c.input.seq_len >= c.rows
            &&& c.out.hidden_dim == c.size_n
            &&& c.out.seq_len >= c.rows * c.dispatch.top_k
            &&& c.workspace_len <= i32::MAX
            &&& c.dispatch.sorted_token_ids_len <= i32::MAX
            &&& c.dispatch.block_size <= i32::MAX
            &&& c.dispatch.top_k <= i32::MAX
            &&& c.rows <= i32::MAX
            &&& c.size_n <= i32::MAX
            &&& c.size_k <= i32::MAX
        },
{
}

/// A grouped expert product is launched with its own numbers, each where it
/// belongs.
pub proof fn law_marlin_moe_launches_its_own_numbers(c: MarlinMoeCall)
    requires
        c.fault() is None,
    ensures
        c.launch().workspace_len == c.workspace_len,
        c.launch().sorted_len == c.dispatch.sorted_token_ids_len,
        c.launch().block_size == c.dispatch.block_size,
        c.launch().top_k == c.dispatch.top_k,
        c.launch().mul_topk_weights == c.dispatch.mul_topk_weights,
        c.launch().rows == c.rows,
        c.launch().size_n == c.size_n,
        c.launch().size_k == c.size_k,
{
}

/// An alignment of routed rows to blocks is accepted exactly when its own
/// operands hold what it reads and writes.
pub proof fn law_moe_align_is_accepted_when_it_fits(c: MoeAlignCall)
    ensures
        c.fault() is None <==> {
            &&& c.topk_idx_len >= c.rows * c.top_k
            &&& c.out.num_tokens_post_padded_len != 0
            &&& c.out.expert_offsets_len > c.experts
            &&& c.out.sorted_token_ids_len >= ((c.rows * c.top_k) + c.experts * (c.block_size - 1))
            &&& c.rows <= i32::MAX
            &&& c.top_k <= i32::MAX
            &&& c.experts <= i32::MAX
            &&& c.block_size <= i32::MAX
            &&& c.out.sorted_token_ids_len <= i32::MAX
            &&& c.out.expert_ids_len <= i32::MAX
        },
{
    assert((c.rows * c.top_k) >= 0) by (nonlinear_arith);
}

/// An alignment of routed rows to blocks is launched with its own numbers,
/// each where it belongs.
pub proof fn law_moe_align_launches_its_own_numbers(c: MoeAlignCall)
    requires
        c.fault() is None,
    ensures
        c.launch().rows == c.rows,
        c.launch().top_k == c.top_k,
        c.launch().first_expert == 0,
        c.launch().experts == c.experts,
        c.launch().block_size == c.block_size,
        c.launch().max_padded == c.out.sorted_token_ids_len,
        c.launch().max_blocks == c.out.expert_ids_len,
{
}

/// A router selection that is accepted, and then gets one buffer that does
/// not fit, is refused over that buffer: the answer names the check and shows
/// what it compared.
pub proof fn law_router_topk_is_refused_over_the_buffer_at_fault(c: RouterTopkCall, n: usize)
    requires
        c.fault() is None,
    ensures
        n < c.logits.seq_len * c.top_k ==> (RouterTopkCall { index_out_len: n, ..c }).fault()
            == Some(
            KernelError::Invalid { what: "gemma4_moe_router_topk_into outputs too small" },
        ),
        n < c.logits.seq_len * c.top_k ==> (RouterTopkCall { weight_out_len: n, ..c }).fault()
            == Some(
            KernelError::Invalid { what: "gemma4_moe_router_topk_into outputs too small" },
        ),
{
}

/// An alignment of routed rows to blocks that is accepted, and then gets one
/// buffer that does not fit, is refused over that buffer: the answer names
/// the check and shows what it compared.
pub proof fn law_moe_align_is_refused_over_the_buffer_at_fault(c: MoeAlignCall, n: usize)
    requires
        c.fault() is None,
    ensures
        n < c.rows * c.top_k ==> (MoeAlignCall { topk_idx_len: n, ..c }).fault() == Some(
            KernelError::Invalid { what: "marlin_moe_align_block_size scratch too small" },
        ),
{
}

/// A router selection that is accepted, and then gets one tensor with fewer
/// elements than its shape claims, is refused over that tensor: the answer
/// names it and shows both lengths.
pub proof fn law_router_topk_is_refused_over_the_tensor_at_fault(c: RouterTopkCall, n: usize)
    requires
        c.fault() is None,
    ensures
        n < c.logits.hidden_dim * c.logits.seq_len ==> (RouterTopkCall {
            logits: HiddenStates { data_len: n, ..c.logits },
            ..c
        }).fault() == Some(
            KernelError::Backing {
                what: "gemma4_moe_router_topk_into logits",
                len: n,
                need: (c.logits.hidden_dim * c.logits.seq_len) as usize,
            },
        ),
{
    assert(c.logits.hidden_dim * c.logits.seq_len >= 0) by (nonlinear_arith);
}

} // verus!
