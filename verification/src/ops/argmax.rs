//! Row-wise argmax, log-probabilities and the Markov-head draft steps.

use vstd::prelude::*;

use super::div_ceil;
use crate::error::checked_i32;
use crate::error::checked_product;
use crate::error::checked_sum;
use crate::error::ensure;
use crate::error::ensure_at_most;
use crate::error::ensure_below;
use crate::error::ensure_fit;
use crate::error::ensure_that;
use crate::error::FaultList;
use crate::error::KernelError;
use crate::shape::DeviceVec;
use crate::shape::HiddenStates;

verus! {

/// Elements of a tile of the batched argmax.
pub const ARGMAX_TILE_ELEMS: usize = 4096;

/// Elements of a tile of the Markov-step argmax. It reads one logits row and
/// one bias row, so it needs finer tiles than the full-row argmax.
pub const MARKOV_STEP_TILE_ELEMS: usize = 1024;

/// The most rows of a Markov step: the grid's second dimension.
pub const MARKOV_MAX_ROWS: usize = 65_535;

/// The largest vocabulary of a Markov step whose last tile still ends inside
/// the kernel's `int`.
pub const MARKOV_MAX_VOCAB: usize = 0x7fff_fbff;

/// The largest index of the kernels' `int`.
pub const INDEX_MAX: usize = 0x7fff_ffff;

/// The most requests of a hedge force whose last block of threads still ends
/// inside the kernel's `int`.
pub const HEDGE_MAX_REQUESTS: usize = 0x7fff_ff7f;

/// A row-wise selection: rows and columns.
#[derive(Clone, Copy, Debug, PartialEq, Eq)]
pub struct RowSelectLaunch {
    pub rows: i32,
    pub vocab: i32,
}

/// Index of the largest element of a vector: the element count.
pub fn argmax(x: &DeviceVec) -> (r: i32)
    ensures
        r == x.len as i32,
{
    x.len as i32
}

/// Index of the largest element of each row.
pub fn argmax_batch_bf16_into(
    logits: &HiddenStates,
    values_len: usize,
    out_len: usize,
) -> (r: Result<RowSelectLaunch, KernelError>)
    ensures
        r == KernelError::outcome(
            KernelError::unless(logits.seq_len != 0, "argmax batch requires at least one row")
                .or_fault(KernelError::unless_sized(
                    values_len >= logits.seq_len,
                    "argmax batch values scratch too small",
                    values_len as int,
                    logits.seq_len as int,
                ))
                .or_fault(KernelError::unless_sized(
                    out_len >= logits.seq_len,
                    "argmax batch output too small",
                    out_len as int,
                    logits.seq_len as int,
                )),
            (RowSelectLaunch { rows: logits.seq_len as i32, vocab: logits.hidden_dim as i32 }),
        ),
{
    ensure_that(logits.seq_len != 0, "argmax batch requires at least one row")?;
    ensure(
        values_len >= logits.seq_len,
        "argmax batch values scratch too small",
        values_len,
        logits.seq_len,
    )?;
    ensure(out_len >= logits.seq_len, "argmax batch output too small", out_len, logits.seq_len)?;
    Ok(RowSelectLaunch { rows: logits.seq_len as i32, vocab: logits.hidden_dim as i32 })
}

/// Elements of a partial buffer of the batched argmax: one per row and tile.
pub fn argmax_batch_bf16_split_partials_len(rows: usize, vocab: usize) -> (r: usize)
    requires
        rows * super::ceil_div(vocab as int, ARGMAX_TILE_ELEMS as int) <= usize::MAX,
    ensures
        r == rows * super::ceil_div(vocab as int, ARGMAX_TILE_ELEMS as int),
{
    let tiles: usize = div_ceil(vocab, ARGMAX_TILE_ELEMS);
    proof {
        assert(rows * tiles >= 0) by (nonlinear_arith);
    }
    rows * tiles
}

/// Elements of a partial buffer of the Markov step: one per row and tile. A
/// count that does not fit is the largest one, which no buffer holds.
pub open spec fn markov_partials(rows: usize, vocab: usize) -> int {
    let n = rows * super::ceil_div(vocab as int, MARKOV_STEP_TILE_ELEMS as int);
    if n <= usize::MAX {
        n
    } else {
        usize::MAX as int
    }
}

/// Elements of a partial buffer of the Markov step. The count saturates: a
/// request that overflows is then refused by every buffer check instead of
/// wrapping into a small count.
pub fn markov_step_argmax_partials_len(rows: usize, vocab: usize) -> (r: usize)
    ensures
        r == markov_partials(rows, vocab),
{
    let tiles: usize = div_ceil(vocab, MARKOV_STEP_TILE_ELEMS);
    proof {
        assert(rows * tiles >= 0) by (nonlinear_arith);
    }
    match rows.checked_mul(tiles) {
        Some(n) => n,
        None => usize::MAX,
    }
}

/// Two-stage row-wise argmax over `rows` rows of `n`: partials per tile, then one
/// finalize block per row. The lowest index wins ties and a NaN never wins.
pub fn argmax_bf16_split_into(
    logits_len: usize,
    rows: usize,
    n: usize,
    partial_values_len: usize,
    partial_indices_len: usize,
    values_len: usize,
    indices_len: usize,
) -> (r: Result<RowSelectLaunch, KernelError>)
    requires
        rows * n <= usize::MAX,
    ensures
        r == ({
            let elements = rows * n;
            let needed = rows * super::ceil_div(n as int, ARGMAX_TILE_ELEMS as int);
            KernelError::outcome(
                KernelError::unless(
                    rows != 0 && n != 0,
                    "argmax_bf16_split_into requires rows and columns",
                )
                    .or_fault(KernelError::unless_sized(
                        logits_len >= elements,
                        "argmax_bf16_split_into logits too small",
                        logits_len as int,
                        elements,
                    ))
                    .or_fault(KernelError::unless(
                        values_len >= rows && indices_len >= rows,
                        "argmax_bf16_split_into outputs must hold one element per row",
                    ))
                    .or_fault(KernelError::unless(
                        partial_values_len >= needed && partial_indices_len >= needed,
                        "argmax_bf16_split_into partials too small",
                    )),
                (RowSelectLaunch { rows: rows as i32, vocab: n as i32 }),
            )
        }),
{
    proof {
        assert(rows * n >= 0) by (nonlinear_arith);
    }
    let elements: usize = rows * n;
    ensure_that(rows != 0 && n != 0, "argmax_bf16_split_into requires rows and columns")?;
    ensure(
        logits_len >= elements,
        "argmax_bf16_split_into logits too small",
        logits_len,
        elements,
    )?;
    ensure_that(
        values_len >= rows && indices_len >= rows,
        "argmax_bf16_split_into outputs must hold one element per row",
    )?;
    proof {
        super::law_ceil_div_covers(n as int, ARGMAX_TILE_ELEMS as int);
        let tiles = super::ceil_div(n as int, ARGMAX_TILE_ELEMS as int);
        assert(tiles <= n);
        assert(rows * tiles <= rows * n) by (nonlinear_arith)
            requires
                tiles <= n,
                rows >= 0,
        ;
    }
    let needed: usize = argmax_batch_bf16_split_partials_len(rows, n);
    ensure_that(
        partial_values_len >= needed && partial_indices_len >= needed,
        "argmax_bf16_split_into partials too small",
    )?;
    Ok(RowSelectLaunch { rows: rows as i32, vocab: n as i32 })
}

/// Two-stage argmax of the rows that an index array names.
pub fn argmax_batch_bf16_split_indexed_into(
    logits: &HiddenStates,
    row_indices_len: usize,
    rows: usize,
    partial_values_len: usize,
    partial_indices_len: usize,
    values_len: usize,
    out_len: usize,
) -> (r: Result<RowSelectLaunch, KernelError>)
    requires
        row_indices_len >= rows ==> rows * super::ceil_div(
            logits.hidden_dim as int,
            ARGMAX_TILE_ELEMS as int,
        ) <= usize::MAX,
    ensures
        r == ({
            let needed = rows * super::ceil_div(logits.hidden_dim as int, ARGMAX_TILE_ELEMS as int);
            KernelError::outcome(
                KernelError::unless(
                    rows != 0,
                    "argmax split indexed batch requires at least one row",
                )
                    .or_fault(KernelError::unless_sized(
                        row_indices_len >= rows,
                        "argmax split indexed row scratch too small",
                        row_indices_len as int,
                        rows as int,
                    ))
                    .or_fault(KernelError::unless(
                        partial_values_len >= needed && partial_indices_len >= needed,
                        "argmax split indexed partials scratch too small",
                    ))
                    .or_fault(KernelError::unless(
                        values_len >= rows && out_len >= rows,
                        "argmax split indexed outputs too small",
                    )),
                (RowSelectLaunch { rows: rows as i32, vocab: logits.hidden_dim as i32 }),
            )
        }),
{
    ensure_that(rows != 0, "argmax split indexed batch requires at least one row")?;
    ensure(
        row_indices_len >= rows,
        "argmax split indexed row scratch too small",
        row_indices_len,
        rows,
    )?;
    let needed: usize = argmax_batch_bf16_split_partials_len(rows, logits.hidden_dim);
    ensure_that(
        partial_values_len >= needed && partial_indices_len >= needed,
        "argmax split indexed partials scratch too small",
    )?;
    ensure_that(values_len >= rows && out_len >= rows, "argmax split indexed outputs too small")?;
    Ok(RowSelectLaunch { rows: rows as i32, vocab: logits.hidden_dim as i32 })
}

/// What [`logprob_topk_batch_bf16_into`] takes.
#[derive(Clone, Copy, Debug)]
pub struct LogprobTopkCall {
    pub logits: HiddenStates,
    pub row_indices_len: usize,
    pub picked_len: usize,
    pub top_k_len: usize,
    pub rows: usize,
    pub k_max: usize,
    pub out_picked_lp_len: usize,
    pub out_topk_vals_len: usize,
    pub out_topk_ids_len: usize,
}

/// The C arguments that [`logprob_topk_batch_bf16_into`] derives.
#[derive(Clone, Copy, Debug, PartialEq, Eq)]
pub struct LogprobTopkLaunch {
    pub rows: i32,
    pub vocab: i32,
    pub k_max: i32,
}

impl LogprobTopkCall {
    /// Why the kernel cannot run, if it cannot.
    pub open spec fn fault(self) -> Option<KernelError> {
        let backing = self.logits.hidden_dim * self.logits.seq_len;
        let topk_needed = self.rows * self.k_max;
        KernelError::unless(
            self.rows > 0 && self.logits.hidden_dim > 0,
            "logprob_topk requires rows > 0 and a non-empty vocab",
        )
            .or_fault(KernelError::overflow(backing, "logprob_topk arena extent"))
            .or_fault(KernelError::unless_sized(
                self.logits.data_len >= backing,
                "logprob_topk arena backing too small",
                self.logits.data_len as int,
                backing,
            ))
            .or_fault(KernelError::unless(
                self.row_indices_len >= self.rows && self.picked_len >= self.rows
                    && self.top_k_len >= self.rows,
                "logprob_topk inputs must hold one element per row",
            ))
            .or_fault(KernelError::unless_sized(
                self.out_picked_lp_len >= self.rows,
                "logprob_topk picked output too small",
                self.out_picked_lp_len as int,
                self.rows as int,
            ))
            .or_fault(KernelError::overflow(topk_needed, "logprob_topk rows * k_max"))
            .or_fault(KernelError::unless(
                self.out_topk_vals_len >= topk_needed && self.out_topk_ids_len >= topk_needed,
                "logprob_topk top-k outputs too small",
            ))
            .or_fault(KernelError::too_wide(self.rows as int, "logprob_topk rows"))
            .or_fault(KernelError::too_wide(self.logits.hidden_dim as int, "logprob_topk vocab"))
            .or_fault(KernelError::too_wide(self.k_max as int, "logprob_topk k_max"))
    }

    /// The launch of a call without a fault.
    pub open spec fn launch(self) -> LogprobTopkLaunch {
        let rows = self.rows as i32;
        let vocab = self.logits.hidden_dim as i32;
        let k_max = self.k_max as i32;
        LogprobTopkLaunch {
            rows,
            vocab,
            k_max,
        }
    }
}

/// Per-row log-probabilities of the picked tokens and of the `k_max` best. The
/// outputs are laid out row-major; a row writes its own count and leaves the
/// tail untouched.
pub fn logprob_topk_batch_bf16_into(c: &LogprobTopkCall) -> (r: Result<
    LogprobTopkLaunch,
    KernelError,
>)
    ensures
        r == KernelError::outcome(c.fault(), c.launch()),
{
    ensure_that(
        c.rows > 0 && c.logits.hidden_dim > 0,
        "logprob_topk requires rows > 0 and a non-empty vocab",
    )?;
    let backing: usize = checked_product(
        c.logits.hidden_dim,
        c.logits.seq_len,
        "logprob_topk arena extent",
    )?;
    ensure(
        c.logits.data_len >= backing,
        "logprob_topk arena backing too small",
        c.logits.data_len,
        backing,
    )?;
    ensure_that(
        c.row_indices_len >= c.rows && c.picked_len >= c.rows && c.top_k_len >= c.rows,
        "logprob_topk inputs must hold one element per row",
    )?;
    ensure(
        c.out_picked_lp_len >= c.rows,
        "logprob_topk picked output too small",
        c.out_picked_lp_len,
        c.rows,
    )?;
    let topk_needed: usize = checked_product(c.rows, c.k_max, "logprob_topk rows * k_max")?;
    ensure_that(
        c.out_topk_vals_len >= topk_needed && c.out_topk_ids_len >= topk_needed,
        "logprob_topk top-k outputs too small",
    )?;
    let rows: i32 = checked_i32(c.rows, "logprob_topk rows")?;
    let vocab: i32 = checked_i32(c.logits.hidden_dim, "logprob_topk vocab")?;
    let k_max: i32 = checked_i32(c.k_max, "logprob_topk k_max")?;
    Ok(LogprobTopkLaunch {
        rows,
        vocab,
        k_max,
    })
}

impl MarkovStepCall {
    /// Groups that the map covers: its entries, or every group without one.
    pub open spec fn mapped_groups(self) -> usize {
        match self.req_map_len {
            Some(len) => len,
            None => self.rows / self.chains,
        }
    }
}

/// What a Markov-head step takes.
#[derive(Clone, Copy, Debug)]
pub struct MarkovStepCall {
    /// Block logits, `block_size` rows per request.
    pub base: HiddenStates,
    /// Bias logits, one row per chain row.
    pub bias: HiddenStates,
    pub block_size: usize,
    pub step: usize,
    /// Chain rows per group.
    pub chains: usize,
    /// Entries of the map from group to block, where there is one.
    pub req_map_len: Option<usize>,
    pub rows: usize,
    pub partial_values_len: usize,
    pub partial_indices_len: usize,
    pub out_tokens_len: usize,
    pub sampled_tokens_len: usize,
}

/// The C arguments of a Markov-head step.
#[derive(Clone, Copy, Debug, PartialEq, Eq)]
pub struct MarkovStepLaunch {
    pub block_size: i32,
    pub step: i32,
    pub chains: i32,
    pub rows: i32,
    pub vocab: i32,
}

impl MarkovStepCall {
    /// Why the kernel cannot run, if it cannot.
    pub open spec fn fault(self) -> Option<KernelError> {
        let groups = self.rows / self.chains;
        let base_needed = groups * self.block_size;
        let mapped = self.mapped_groups();
        let sampled_needed = self.rows * self.block_size;
        let needed = markov_partials(self.rows, self.base.hidden_dim);
        KernelError::unless(self.rows != 0, "markov step argmax requires at least one row")
            .or_fault(KernelError::unless(
                self.base.hidden_dim != 0,
                "markov step argmax requires a non-zero vocab",
            ))
            .or_fault(KernelError::unless_below(
                self.step < self.block_size,
                "markov step step must be below block_size",
                self.step as int,
                self.block_size as int,
            ))
            .or_fault(self.base.extent_fault("markov step base"))
            .or_fault(self.bias.extent_fault("markov step bias"))
            .or_fault(KernelError::too_wide(self.base.seq_len as int, "markov step base rows"))
            .or_fault(KernelError::unless_at_most(
                self.rows <= MARKOV_MAX_ROWS,
                "markov step rows exceed the grid-y limit",
                self.rows as int,
                MARKOV_MAX_ROWS as int,
            ))
            .or_fault(KernelError::unless_at_most(
                self.base.hidden_dim <= MARKOV_MAX_VOCAB,
                "markov step vocab too large",
                self.base.hidden_dim as int,
                MARKOV_MAX_VOCAB as int,
            ))
            .or_fault(KernelError::unless_sized(
                self.bias.hidden_dim == self.base.hidden_dim,
                "markov step bias vocab must be the base vocab",
                self.bias.hidden_dim as int,
                self.base.hidden_dim as int,
            ))
            .or_fault(KernelError::unless_fit(
                self.chains != 0 && self.rows % self.chains == 0,
                "markov step rows not divisible by chains",
                self.rows as int,
                self.chains as int,
            ))
            .or_fault(KernelError::overflow(base_needed, "markov step (rows/chains)*block_size"))
            .or_fault(KernelError::unless_sized(
                self.req_map_len is Some || self.base.seq_len >= base_needed,
                "markov step base rows below (rows/chains)*block_size",
                self.base.seq_len as int,
                base_needed,
            ))
            .or_fault(KernelError::unless_sized(
                mapped >= groups,
                "markov step req_map below the chain groups",
                mapped as int,
                groups as int,
            ))
            .or_fault(KernelError::unless_sized(
                self.bias.seq_len >= self.rows,
                "markov step bias rows",
                self.bias.seq_len as int,
                self.rows as int,
            ))
            .or_fault(KernelError::unless_sized(
                self.out_tokens_len >= self.rows,
                "markov step out too small",
                self.out_tokens_len as int,
                self.rows as int,
            ))
            .or_fault(KernelError::overflow(sampled_needed, "markov step rows*block_size"))
            .or_fault(KernelError::unless_sized(
                self.sampled_tokens_len >= sampled_needed,
                "markov sampled-token scratch too small",
                self.sampled_tokens_len as int,
                sampled_needed,
            ))
            .or_fault(KernelError::unless(
                self.partial_values_len >= needed && self.partial_indices_len >= needed,
                "markov step partials too small",
            ))
            .or_fault(KernelError::unless(
                needed <= INDEX_MAX && sampled_needed <= INDEX_MAX,
                "markov step index space too large",
            ))
            .or_fault(KernelError::too_wide(self.block_size as int, "markov step block_size"))
            .or_fault(KernelError::too_wide(self.step as int, "markov step step"))
            .or_fault(KernelError::too_wide(self.chains as int, "markov step chains"))
            .or_fault(KernelError::too_wide(self.rows as int, "markov step rows"))
            .or_fault(KernelError::too_wide(self.base.hidden_dim as int, "markov step vocab"))
    }

    /// The launch of a call without a fault.
    pub open spec fn launch(self) -> MarkovStepLaunch {
        let block_size = self.block_size as i32;
        let step = self.step as i32;
        let chains = self.chains as i32;
        let rows = self.rows as i32;
        let vocab = self.base.hidden_dim as i32;
        MarkovStepLaunch {
            block_size,
            step,
            chains,
            rows,
            vocab,
        }
    }
}

/// The Markov-head step over `rows` chain rows: chain row `r` belongs to group
/// `r / chains` and reads row `step` of that group's block of logits, biased by
/// its own bias row.
pub fn markov_step_argmax_impl(c: &MarkovStepCall) -> (r: Result<MarkovStepLaunch, KernelError>)
    ensures
        r == KernelError::outcome(c.fault(), c.launch()),
{
    ensure_that(c.rows != 0, "markov step argmax requires at least one row")?;
    ensure_that(c.base.hidden_dim != 0, "markov step argmax requires a non-zero vocab")?;
    ensure_below(
        c.step < c.block_size,
        "markov step step must be below block_size",
        c.step,
        c.block_size,
    )?;
    c.base.checked_extent("markov step base")?;
    c.bias.checked_extent("markov step bias")?;
    checked_i32(c.base.seq_len, "markov step base rows")?;
    ensure_at_most(
        c.rows <= MARKOV_MAX_ROWS,
        "markov step rows exceed the grid-y limit",
        c.rows,
        MARKOV_MAX_ROWS,
    )?;
    ensure_at_most(
        c.base.hidden_dim <= MARKOV_MAX_VOCAB,
        "markov step vocab too large",
        c.base.hidden_dim,
        MARKOV_MAX_VOCAB,
    )?;
    ensure(
        c.bias.hidden_dim == c.base.hidden_dim,
        "markov step bias vocab must be the base vocab",
        c.bias.hidden_dim,
        c.base.hidden_dim,
    )?;
    ensure_fit(
        c.chains != 0 && c.rows % c.chains == 0,
        "markov step rows not divisible by chains",
        c.rows,
        c.chains,
    )?;
    let groups: usize = c.rows / c.chains;
    let base_needed: usize = checked_product(
        groups,
        c.block_size,
        "markov step (rows/chains)*block_size",
    )?;
    ensure(
        c.req_map_len.is_some() || c.base.seq_len >= base_needed,
        "markov step base rows below (rows/chains)*block_size",
        c.base.seq_len,
        base_needed,
    )?;
    let mapped: usize = match c.req_map_len {
        Some(len) => len,
        None => groups,
    };
    ensure(mapped >= groups, "markov step req_map below the chain groups", mapped, groups)?;
    ensure(c.bias.seq_len >= c.rows, "markov step bias rows", c.bias.seq_len, c.rows)?;
    ensure(c.out_tokens_len >= c.rows, "markov step out too small", c.out_tokens_len, c.rows)?;
    let sampled_needed: usize = checked_product(
        c.rows,
        c.block_size,
        "markov step rows*block_size",
    )?;
    ensure(
        c.sampled_tokens_len >= sampled_needed,
        "markov sampled-token scratch too small",
        c.sampled_tokens_len,
        sampled_needed,
    )?;
    let needed: usize = markov_step_argmax_partials_len(c.rows, c.base.hidden_dim);
    ensure_that(
        c.partial_values_len >= needed && c.partial_indices_len >= needed,
        "markov step partials too small",
    )?;
    ensure_that(
        needed <= INDEX_MAX && sampled_needed <= INDEX_MAX,
        "markov step index space too large",
    )?;
    let block_size: i32 = checked_i32(c.block_size, "markov step block_size")?;
    let step: i32 = checked_i32(c.step, "markov step step")?;
    let chains: i32 = checked_i32(c.chains, "markov step chains")?;
    let rows: i32 = checked_i32(c.rows, "markov step rows")?;
    let vocab: i32 = checked_i32(c.base.hidden_dim, "markov step vocab")?;
    Ok(MarkovStepLaunch {
        block_size,
        step,
        chains,
        rows,
        vocab,
    })
}

/// One chain row per request, block `r` of the logits for request `r`.
pub fn markov_step_argmax_into(
    base: HiddenStates,
    bias: HiddenStates,
    block_size: usize,
    step: usize,
    rows: usize,
    partial_values_len: usize,
    partial_indices_len: usize,
    out_tokens_len: usize,
    sampled_tokens_len: usize,
) -> (r: Result<MarkovStepLaunch, KernelError>)
    ensures
        r == ({
            let call = MarkovStepCall {
                base,
                bias,
                block_size,
                step,
                chains: 1,
                req_map_len: None,
                rows,
                partial_values_len,
                partial_indices_len,
                out_tokens_len,
                sampled_tokens_len,
            };
            KernelError::outcome(call.fault(), call.launch())
        }),
{
    markov_step_argmax_impl(
        &MarkovStepCall {
            base,
            bias,
            block_size,
            step,
            chains: 1,
            req_map_len: None,
            rows,
            partial_values_len,
            partial_indices_len,
            out_tokens_len,
            sampled_tokens_len,
        },
    )
}

/// Groups of `chains` rows, each on the block that the map gives its group, so
/// that a subset that is no prefix of the batch still reads its own requests.
/// The map's entries are on the device: see [`law_markov_step_reads_in_range`]
/// for what they have to be.
pub fn markov_step_argmax_mapped_into(
    base: HiddenStates,
    bias: HiddenStates,
    block_size: usize,
    step: usize,
    chains: usize,
    req_map_len: usize,
    rows: usize,
    partial_values_len: usize,
    partial_indices_len: usize,
    out_tokens_len: usize,
    sampled_tokens_len: usize,
) -> (r: Result<MarkovStepLaunch, KernelError>)
    ensures
        r == ({
            let call = MarkovStepCall {
                base,
                bias,
                block_size,
                step,
                chains,
                req_map_len: Some(req_map_len),
                rows,
                partial_values_len,
                partial_indices_len,
                out_tokens_len,
                sampled_tokens_len,
            };
            KernelError::outcome(call.fault(), call.launch())
        }),
{
    markov_step_argmax_impl(
        &MarkovStepCall {
            base,
            bias,
            block_size,
            step,
            chains,
            req_map_len: Some(req_map_len),
            rows,
            partial_values_len,
            partial_indices_len,
            out_tokens_len,
            sampled_tokens_len,
        },
    )
}

/// What [`markov_step_top2_into`] takes.
#[derive(Clone, Copy, Debug)]
pub struct MarkovTop2Call {
    pub base: HiddenStates,
    pub bias: HiddenStates,
    pub block_size: usize,
    pub step: usize,
    pub rows: usize,
    pub partial_v1_len: usize,
    pub partial_i1_len: usize,
    pub partial_v2_len: usize,
    pub partial_i2_len: usize,
    pub output_len: usize,
    pub sampled_tokens_len: usize,
    pub out_top2_len: usize,
}

impl MarkovTop2Call {
    /// Why the kernel cannot run, if it cannot.
    pub open spec fn fault(self) -> Option<KernelError> {
        let needed_rows = self.rows * self.block_size;
        let needed = markov_partials(self.rows, self.base.hidden_dim);
        KernelError::unless(self.rows != 0, "markov step top2 requires at least one row")
            .or_fault(KernelError::unless(
                self.base.hidden_dim != 0,
                "markov step top2 requires a non-zero vocab",
            ))
            .or_fault(KernelError::unless_below(
                self.step < self.block_size,
                "markov top2 step must be below block_size",
                self.step as int,
                self.block_size as int,
            ))
            .or_fault(self.base.extent_fault("markov top2 base"))
            .or_fault(self.bias.extent_fault("markov top2 bias"))
            .or_fault(KernelError::too_wide(self.base.seq_len as int, "markov top2 base rows"))
            .or_fault(KernelError::unless_at_most(
                self.rows <= MARKOV_MAX_ROWS,
                "markov top2 rows exceed the grid-y limit",
                self.rows as int,
                MARKOV_MAX_ROWS as int,
            ))
            .or_fault(KernelError::unless_at_most(
                self.base.hidden_dim <= MARKOV_MAX_VOCAB,
                "markov top2 vocab too large",
                self.base.hidden_dim as int,
                MARKOV_MAX_VOCAB as int,
            ))
            .or_fault(KernelError::overflow(needed_rows, "markov top2 rows*block_size"))
            .or_fault(KernelError::unless_sized(
                self.sampled_tokens_len >= needed_rows,
                "markov top2 sampled buffer below rows*block_size",
                self.sampled_tokens_len as int,
                needed_rows,
            ))
            .or_fault(KernelError::unless_sized(
                self.bias.hidden_dim == self.base.hidden_dim,
                "markov top2 bias vocab must be the base vocab",
                self.bias.hidden_dim as int,
                self.base.hidden_dim as int,
            ))
            .or_fault(KernelError::unless_sized(
                self.base.seq_len >= needed_rows,
                "markov top2 base rows below rows*block_size",
                self.base.seq_len as int,
                needed_rows,
            ))
            .or_fault(KernelError::unless_sized(
                self.bias.seq_len >= self.rows,
                "markov top2 bias rows",
                self.bias.seq_len as int,
                self.rows as int,
            ))
            .or_fault(KernelError::unless(
                self.output_len >= self.rows && self.out_top2_len >= self.rows,
                "markov top2 out too small",
            ))
            .or_fault(KernelError::unless(
                self.partial_v1_len >= needed && self.partial_i1_len >= needed
                    && self.partial_v2_len >= needed && self.partial_i2_len >= needed,
                "markov top2 partials too small",
            ))
            .or_fault(KernelError::unless(
                needed <= INDEX_MAX && needed_rows <= INDEX_MAX,
                "markov top2 index space too large",
            ))
            .or_fault(KernelError::too_wide(self.block_size as int, "markov top2 block_size"))
            .or_fault(KernelError::too_wide(self.step as int, "markov top2 step"))
            .or_fault(KernelError::too_wide(self.rows as int, "markov top2 rows"))
            .or_fault(KernelError::too_wide(self.base.hidden_dim as int, "markov top2 vocab"))
    }

    /// The launch of a call without a fault.
    pub open spec fn launch(self) -> MarkovStepLaunch {
        let block_size = self.block_size as i32;
        let step = self.step as i32;
        let rows = self.rows as i32;
        let vocab = self.base.hidden_dim as i32;
        MarkovStepLaunch {
            block_size,
            step,
            chains: 1,
            rows,
            vocab,
        }
    }
}

/// The two best tokens of a Markov-head step, one chain row per request. A row
/// with fewer than two finite logits returns index zero as its runner-up, so
/// callers drop duplicates.
pub fn markov_step_top2_into(c: &MarkovTop2Call) -> (r: Result<MarkovStepLaunch, KernelError>)
    ensures
        r == KernelError::outcome(c.fault(), c.launch()),
{
    ensure_that(c.rows != 0, "markov step top2 requires at least one row")?;
    ensure_that(c.base.hidden_dim != 0, "markov step top2 requires a non-zero vocab")?;
    ensure_below(
        c.step < c.block_size,
        "markov top2 step must be below block_size",
        c.step,
        c.block_size,
    )?;
    c.base.checked_extent("markov top2 base")?;
    c.bias.checked_extent("markov top2 bias")?;
    checked_i32(c.base.seq_len, "markov top2 base rows")?;
    ensure_at_most(
        c.rows <= MARKOV_MAX_ROWS,
        "markov top2 rows exceed the grid-y limit",
        c.rows,
        MARKOV_MAX_ROWS,
    )?;
    ensure_at_most(
        c.base.hidden_dim <= MARKOV_MAX_VOCAB,
        "markov top2 vocab too large",
        c.base.hidden_dim,
        MARKOV_MAX_VOCAB,
    )?;
    let needed_rows: usize = checked_product(c.rows, c.block_size, "markov top2 rows*block_size")?;
    ensure(
        c.sampled_tokens_len >= needed_rows,
        "markov top2 sampled buffer below rows*block_size",
        c.sampled_tokens_len,
        needed_rows,
    )?;
    ensure(
        c.bias.hidden_dim == c.base.hidden_dim,
        "markov top2 bias vocab must be the base vocab",
        c.bias.hidden_dim,
        c.base.hidden_dim,
    )?;
    ensure(
        c.base.seq_len >= needed_rows,
        "markov top2 base rows below rows*block_size",
        c.base.seq_len,
        needed_rows,
    )?;
    ensure(c.bias.seq_len >= c.rows, "markov top2 bias rows", c.bias.seq_len, c.rows)?;
    ensure_that(c.output_len >= c.rows && c.out_top2_len >= c.rows, "markov top2 out too small")?;
    let needed: usize = markov_step_argmax_partials_len(c.rows, c.base.hidden_dim);
    ensure_that(
        c.partial_v1_len >= needed && c.partial_i1_len >= needed && c.partial_v2_len >= needed
            && c.partial_i2_len >= needed,
        "markov top2 partials too small",
    )?;
    ensure_that(
        needed <= INDEX_MAX && needed_rows <= INDEX_MAX,
        "markov top2 index space too large",
    )?;
    let block_size: i32 = checked_i32(c.block_size, "markov top2 block_size")?;
    let step: i32 = checked_i32(c.step, "markov top2 step")?;
    let rows: i32 = checked_i32(c.rows, "markov top2 rows")?;
    let vocab: i32 = checked_i32(c.base.hidden_dim, "markov top2 vocab")?;
    Ok(MarkovStepLaunch {
        block_size,
        step,
        chains: 1,
        rows,
        vocab,
    })
}

/// What [`hedge_ladder_force_into`] takes.
#[derive(Clone, Copy, Debug)]
pub struct HedgeForceCall {
    pub prev_tokens_len: usize,
    pub sampled_tokens_len: usize,
    pub runner_tokens_len: usize,
    pub req_map_len: usize,
    /// Requests.
    pub n: usize,
    /// Chains per request.
    pub c: usize,
    /// The chain to force.
    pub j: usize,
    pub runner_stride: usize,
    pub block_size: usize,
    pub step: usize,
}

/// The C arguments that [`hedge_ladder_force_into`] derives.
#[derive(Clone, Copy, Debug, PartialEq, Eq)]
pub struct HedgeForceLaunch {
    pub n: i32,
    pub c: i32,
    pub j: i32,
    pub runner_stride: i32,
    pub block_size: i32,
    pub step: i32,
}

impl HedgeForceCall {
    /// Why the kernel cannot run, if it cannot.
    pub open spec fn fault(self) -> Option<KernelError> {
        let rows = self.n * self.c;
        let sampled_needed = rows * self.block_size;
        let stripes = self.j + 1;
        let runner_needed = stripes * self.runner_stride;
        KernelError::unless(self.n != 0 && self.c != 0 && self.j < self.c, "hedge force bad shape")
            .or_fault(KernelError::overflow(rows, "hedge force n*c"))
            .or_fault(KernelError::overflow(sampled_needed, "hedge force n*c*block_size"))
            .or_fault(KernelError::overflow(stripes, "hedge force runner stripe"))
            .or_fault(KernelError::overflow(runner_needed, "hedge force runner stripe"))
            .or_fault(KernelError::unless(
                self.prev_tokens_len >= rows && self.sampled_tokens_len >= sampled_needed
                    && self.runner_tokens_len >= runner_needed,
                "hedge force buffers too small",
            ))
            .or_fault(KernelError::unless_below(
                self.step < self.block_size,
                "hedge force step must be below block_size",
                self.step as int,
                self.block_size as int,
            ))
            .or_fault(KernelError::unless_sized(
                self.runner_stride >= self.n,
                "hedge force runner stride below n",
                self.runner_stride as int,
                self.n as int,
            ))
            .or_fault(KernelError::unless_sized(
                self.req_map_len >= self.n,
                "hedge force req_map below n",
                self.req_map_len as int,
                self.n as int,
            ))
            .or_fault(KernelError::unless_at_most(
                self.n <= HEDGE_MAX_REQUESTS,
                "hedge force n too large",
                self.n as int,
                HEDGE_MAX_REQUESTS as int,
            ))
            .or_fault(KernelError::unless(
                sampled_needed <= INDEX_MAX && runner_needed <= INDEX_MAX,
                "hedge force index space too large",
            ))
            .or_fault(KernelError::too_wide(self.n as int, "hedge force n"))
            .or_fault(KernelError::too_wide(self.c as int, "hedge force c"))
            .or_fault(KernelError::too_wide(self.j as int, "hedge force j"))
            .or_fault(KernelError::too_wide(self.runner_stride as int, "hedge force runner_stride"))
            .or_fault(KernelError::too_wide(self.block_size as int, "hedge force block_size"))
            .or_fault(KernelError::too_wide(self.step as int, "hedge force step"))
    }

    /// The launch of a call without a fault.
    pub open spec fn launch(self) -> HedgeForceLaunch {
        let n = self.n as i32;
        let chains = self.c as i32;
        let j = self.j as i32;
        let runner_stride = self.runner_stride as i32;
        let block_size = self.block_size as i32;
        let step = self.step as i32;
        HedgeForceLaunch {
            n,
            c: chains,
            j,
            runner_stride,
            block_size,
            step,
        }
    }
}

/// Stamp chain `j`'s runner token of every request into the previous-token buffer
/// and the sampled block at `step`.
pub fn hedge_ladder_force_into(c: &HedgeForceCall) -> (r: Result<HedgeForceLaunch, KernelError>)
    ensures
        r == KernelError::outcome(c.fault(), c.launch()),
{
    ensure_that(c.n != 0 && c.c != 0 && c.j < c.c, "hedge force bad shape")?;
    let rows: usize = checked_product(c.n, c.c, "hedge force n*c")?;
    let sampled_needed: usize = checked_product(rows, c.block_size, "hedge force n*c*block_size")?;
    let stripes: usize = checked_sum(c.j, 1, "hedge force runner stripe")?;
    let runner_needed: usize = checked_product(
        stripes,
        c.runner_stride,
        "hedge force runner stripe",
    )?;
    ensure_that(
        c.prev_tokens_len >= rows && c.sampled_tokens_len >= sampled_needed
            && c.runner_tokens_len >= runner_needed,
        "hedge force buffers too small",
    )?;
    ensure_below(
        c.step < c.block_size,
        "hedge force step must be below block_size",
        c.step,
        c.block_size,
    )?;
    ensure(c.runner_stride >= c.n, "hedge force runner stride below n", c.runner_stride, c.n)?;
    ensure(c.req_map_len >= c.n, "hedge force req_map below n", c.req_map_len, c.n)?;
    ensure_at_most(c.n <= HEDGE_MAX_REQUESTS, "hedge force n too large", c.n, HEDGE_MAX_REQUESTS)?;
    ensure_that(
        sampled_needed <= INDEX_MAX && runner_needed <= INDEX_MAX,
        "hedge force index space too large",
    )?;
    let n: i32 = checked_i32(c.n, "hedge force n")?;
    let chains: i32 = checked_i32(c.c, "hedge force c")?;
    let j: i32 = checked_i32(c.j, "hedge force j")?;
    let runner_stride: i32 = checked_i32(c.runner_stride, "hedge force runner_stride")?;
    let block_size: i32 = checked_i32(c.block_size, "hedge force block_size")?;
    let step: i32 = checked_i32(c.step, "hedge force step")?;
    Ok(HedgeForceLaunch {
        n,
        c: chains,
        j,
        runner_stride,
        block_size,
        step,
    })
}

/// Best token of each row through a library whose scratch size is told by
/// `row_states_bytes`.
pub fn flashinfer_top1_batch_into(
    logits: &HiddenStates,
    top1_values_len: usize,
    row_states_len: usize,
    row_states_bytes: usize,
    out_len: usize,
) -> (r: Result<RowSelectLaunch, KernelError>)
    ensures
        r == KernelError::outcome(
            KernelError::unless_sized(
                top1_values_len >= logits.seq_len,
                "top1 values scratch too small",
                top1_values_len as int,
                logits.seq_len as int,
            )
                .or_fault(KernelError::unless_sized(
                    out_len >= logits.seq_len,
                    "top1 output too small",
                    out_len as int,
                    logits.seq_len as int,
                ))
                .or_fault(KernelError::unless_sized(
                    row_states_len >= row_states_bytes,
                    "top1 row states scratch too small",
                    row_states_len as int,
                    row_states_bytes as int,
                )),
            (RowSelectLaunch { rows: logits.seq_len as i32, vocab: logits.hidden_dim as i32 }),
        ),
{
    ensure(
        top1_values_len >= logits.seq_len,
        "top1 values scratch too small",
        top1_values_len,
        logits.seq_len,
    )?;
    ensure(out_len >= logits.seq_len, "top1 output too small", out_len, logits.seq_len)?;
    ensure(
        row_states_len >= row_states_bytes,
        "top1 row states scratch too small",
        row_states_len,
        row_states_bytes,
    )?;
    Ok(RowSelectLaunch { rows: logits.seq_len as i32, vocab: logits.hidden_dim as i32 })
}

/// The row of the block logits that chain row `r` of a Markov step reads, when
/// its group's block is `block`.
pub open spec fn markov_base_row(block: int, block_size: usize, step: usize) -> int {
    block * block_size + step
}

/// Where the step is accepted, no chain row reads outside the block logits:
/// without a map for every chain row, and with one for every chain row whose
/// map entry is one of the blocks that the logits hold.
pub proof fn law_markov_step_reads_in_range(call: MarkovStepCall, r: int, block: int)
    requires
        call.fault() is None,
        0 <= r < call.rows,
        call.req_map_len is None ==> block == r / call.chains as int,
        call.req_map_len is Some ==> 0 <= block < call.base.seq_len / call.block_size,
    ensures
        0 <= markov_base_row(block, call.block_size, call.step) < call.base.seq_len,
        call.req_map_len is Some ==> 0 <= r / call.chains as int
            && r / call.chains as int <= call.mapped_groups() - 1,
{
    let groups = call.rows / call.chains;
    let chains = call.chains as int;
    let g = r / chains;
    assert(0 <= g < groups) by (nonlinear_arith)
        requires
            0 <= r < call.rows,
            chains > 0,
            chains == call.chains,
            call.rows % call.chains == 0,
            g == r / chains,
            groups == call.rows / call.chains,
    ;
    let limit = if call.req_map_len is None {
        groups as int
    } else {
        (call.base.seq_len / call.block_size) as int
    };
    assert(limit * call.block_size <= call.base.seq_len) by {
        if call.req_map_len is Some {
            assert(call.base.seq_len / call.block_size * call.block_size <= call.base.seq_len)
                by (nonlinear_arith)
                requires
                    call.block_size > 0,
            ;
        }
    }
    assert(block * call.block_size + call.step < limit * call.block_size) by (nonlinear_arith)
        requires
            0 <= block < limit,
            call.step < call.block_size,
    ;
    assert(block * call.block_size >= 0) by (nonlinear_arith)
        requires
            block >= 0,
            call.block_size >= 0,
    ;
}

/// Where the step is accepted, each chain row stamps its own place of the
/// sampled blocks, and no two chain rows share one.
pub proof fn law_markov_stamps_are_distinct(call: MarkovStepCall, r: int, s: int)
    requires
        call.fault() is None,
        0 <= r < call.rows,
        0 <= s < call.rows,
        r != s,
    ensures
        0 <= markov_base_row(r, call.block_size, call.step) < call.sampled_tokens_len,
        markov_base_row(r, call.block_size, call.step) != markov_base_row(
            s,
            call.block_size,
            call.step,
        ),
{
    assert(r * call.block_size + call.step < call.rows * call.block_size) by (nonlinear_arith)
        requires
            0 <= r < call.rows,
            call.step < call.block_size,
    ;
    assert(r * call.block_size >= 0) by (nonlinear_arith)
        requires
            r >= 0,
            call.block_size >= 0,
    ;
    assert(r * call.block_size != s * call.block_size) by (nonlinear_arith)
        requires
            r != s,
            call.block_size > 0,
    ;
}

/// Where the force is accepted, the runner token of every request whose map
/// entry is below the stride lies in the runner buffer, although the map may
/// address the whole stripe and not only its first `n` entries.
pub proof fn law_hedge_runner_is_backed(call: HedgeForceCall, entry: int)
    requires
        call.fault() is None,
        0 <= entry < call.runner_stride,
    ensures
        0 <= call.j * call.runner_stride + entry < call.runner_tokens_len,
{
    assert(call.j * call.runner_stride + entry < (call.j + 1) * call.runner_stride)
        by (nonlinear_arith)
        requires
            0 <= entry < call.runner_stride,
    ;
    assert(call.j * call.runner_stride >= 0) by (nonlinear_arith);
}

/// A log-probability readout is accepted exactly when its own operands hold
/// what it reads and writes.
pub proof fn law_logprob_topk_is_accepted_when_it_fits(c: LogprobTopkCall)
    ensures
        c.fault() is None <==> {
            &&& c.rows > 0
            &&& c.logits.hidden_dim > 0
            &&& c.logits.data_len >= c.logits.hidden_dim * c.logits.seq_len
            &&& c.row_indices_len >= c.rows
            &&& c.picked_len >= c.rows
            &&& c.top_k_len >= c.rows
            &&& c.out_picked_lp_len >= c.rows
            &&& c.out_topk_vals_len >= c.rows * c.k_max
            &&& c.out_topk_ids_len >= c.rows * c.k_max
            &&& c.rows <= i32::MAX
            &&& c.logits.hidden_dim <= i32::MAX
            &&& c.k_max <= i32::MAX
        },
{
    assert((c.logits.hidden_dim * c.logits.seq_len) >= 0) by (nonlinear_arith);
    assert((c.rows * c.k_max) >= 0) by (nonlinear_arith);
}

/// A log-probability readout is launched with its own numbers, each where it
/// belongs.
pub proof fn law_logprob_topk_launches_its_own_numbers(c: LogprobTopkCall)
    requires
        c.fault() is None,
    ensures
        c.launch().rows == c.rows,
        c.launch().vocab == c.logits.hidden_dim,
        c.launch().k_max == c.k_max,
{
}

/// A Markov draft step is accepted exactly when its own operands hold what it
/// reads and writes.
pub proof fn law_markov_step_is_accepted_when_it_fits(c: MarkovStepCall)
    ensures
        c.fault() is None <==> {
            &&& c.rows != 0
            &&& c.base.hidden_dim != 0
            &&& c.step < c.block_size
            &&& c.base.hidden_dim * c.base.seq_len <= c.base.data_len
            &&& c.bias.hidden_dim * c.bias.seq_len <= c.bias.data_len
            &&& c.base.seq_len <= i32::MAX
            &&& c.rows <= 65_535
            &&& c.base.hidden_dim <= 0x7fff_fbff
            &&& c.bias.hidden_dim == c.base.hidden_dim
            &&& c.chains != 0
            &&& c.rows % c.chains == 0
            &&& c.req_map_len is Some || c.base.seq_len >= ((c.rows / c.chains) * c.block_size)
            &&& (c.req_map_len matches Some(len) ==> len >= c.rows / c.chains)
            &&& c.bias.seq_len >= c.rows
            &&& c.out_tokens_len >= c.rows
            &&& c.sampled_tokens_len >= c.rows * c.block_size
            &&& c.partial_values_len >= markov_partials(c.rows, c.base.hidden_dim)
            &&& c.partial_indices_len >= markov_partials(c.rows, c.base.hidden_dim)
            &&& markov_partials(c.rows, c.base.hidden_dim) <= 0x7fff_ffff
            &&& c.rows * c.block_size <= 0x7fff_ffff
            &&& c.block_size <= i32::MAX
            &&& c.step <= i32::MAX
            &&& c.chains <= i32::MAX
            &&& c.rows <= i32::MAX
            &&& c.base.hidden_dim <= i32::MAX
        },
{
    assert(c.base.hidden_dim * c.base.seq_len >= 0) by (nonlinear_arith);
    assert(c.bias.hidden_dim * c.bias.seq_len >= 0) by (nonlinear_arith);
    assert((c.rows * c.block_size) >= 0) by (nonlinear_arith);
    if c.chains != 0 {
        assert(0 <= (c.rows / c.chains) * c.block_size <= c.rows * c.block_size)
            by (nonlinear_arith)
            requires
                c.chains > 0,
        ;
    }
}

/// A Markov draft step is launched with its own numbers, each where it
/// belongs.
pub proof fn law_markov_step_launches_its_own_numbers(c: MarkovStepCall)
    requires
        c.fault() is None,
    ensures
        c.launch().block_size == c.block_size,
        c.launch().step == c.step,
        c.launch().chains == c.chains,
        c.launch().rows == c.rows,
        c.launch().vocab == c.base.hidden_dim,
{
}

/// A Markov draft step with runners-up is accepted exactly when its own
/// operands hold what it reads and writes.
pub proof fn law_markov_top2_is_accepted_when_it_fits(c: MarkovTop2Call)
    ensures
        c.fault() is None <==> {
            &&& c.rows != 0
            &&& c.base.hidden_dim != 0
            &&& c.step < c.block_size
            &&& c.base.hidden_dim * c.base.seq_len <= c.base.data_len
            &&& c.bias.hidden_dim * c.bias.seq_len <= c.bias.data_len
            &&& c.base.seq_len <= i32::MAX
            &&& c.rows <= 65_535
            &&& c.base.hidden_dim <= 0x7fff_fbff
            &&& c.sampled_tokens_len >= c.rows * c.block_size
            &&& c.bias.hidden_dim == c.base.hidden_dim
            &&& c.base.seq_len >= c.rows * c.block_size
            &&& c.bias.seq_len >= c.rows
            &&& c.output_len >= c.rows
            &&& c.out_top2_len >= c.rows
            &&& c.partial_v1_len >= markov_partials(c.rows, c.base.hidden_dim)
            &&& c.partial_i1_len >= markov_partials(c.rows, c.base.hidden_dim)
            &&& c.partial_v2_len >= markov_partials(c.rows, c.base.hidden_dim)
            &&& c.partial_i2_len >= markov_partials(c.rows, c.base.hidden_dim)
            &&& markov_partials(c.rows, c.base.hidden_dim) <= 0x7fff_ffff
            &&& c.rows * c.block_size <= 0x7fff_ffff
            &&& c.block_size <= i32::MAX
            &&& c.step <= i32::MAX
            &&& c.rows <= i32::MAX
            &&& c.base.hidden_dim <= i32::MAX
        },
{
    assert(c.base.hidden_dim * c.base.seq_len >= 0) by (nonlinear_arith);
    assert(c.bias.hidden_dim * c.bias.seq_len >= 0) by (nonlinear_arith);
    assert((c.rows * c.block_size) >= 0) by (nonlinear_arith);
}

/// A Markov draft step with runners-up is launched with its own numbers, each
/// where it belongs.
pub proof fn law_markov_top2_launches_its_own_numbers(c: MarkovTop2Call)
    requires
        c.fault() is None,
    ensures
        c.launch().block_size == c.block_size,
        c.launch().step == c.step,
        c.launch().chains == 1,
        c.launch().rows == c.rows,
        c.launch().vocab == c.base.hidden_dim,
{
}

/// A hedge of draft tokens is accepted exactly when its own operands hold
/// what it reads and writes.
pub proof fn law_hedge_force_is_accepted_when_it_fits(c: HedgeForceCall)
    ensures
        c.fault() is None <==> {
            &&& c.n != 0
            &&& c.c != 0
            &&& c.j < c.c
            &&& c.j + 1 <= usize::MAX
            &&& c.prev_tokens_len >= c.n * c.c
            &&& c.sampled_tokens_len >= ((c.n * c.c) * c.block_size)
            &&& c.runner_tokens_len >= ((c.j + 1) * c.runner_stride)
            &&& c.step < c.block_size
            &&& c.runner_stride >= c.n
            &&& c.req_map_len >= c.n
            &&& c.n <= 0x7fff_ff7f
            &&& ((c.n * c.c) * c.block_size) <= 0x7fff_ffff
            &&& ((c.j + 1) * c.runner_stride) <= 0x7fff_ffff
            &&& c.n <= i32::MAX
            &&& c.c <= i32::MAX
            &&& c.j <= i32::MAX
            &&& c.runner_stride <= i32::MAX
            &&& c.block_size <= i32::MAX
            &&& c.step <= i32::MAX
        },
{
    assert((c.n * c.c) >= 0) by (nonlinear_arith);
    assert(((c.n * c.c) * c.block_size) >= 0) by (nonlinear_arith);
    assert(((c.j + 1) * c.runner_stride) >= 0) by (nonlinear_arith);
}

/// A hedge of draft tokens is launched with its own numbers, each where it
/// belongs.
pub proof fn law_hedge_force_launches_its_own_numbers(c: HedgeForceCall)
    requires
        c.fault() is None,
    ensures
        c.launch().n == c.n,
        c.launch().c == c.c,
        c.launch().j == c.j,
        c.launch().runner_stride == c.runner_stride,
        c.launch().block_size == c.block_size,
        c.launch().step == c.step,
{
}

/// A Markov step keeps one partial for every tile of a thousand and
/// twenty-four entries that the vocabulary of every row takes, as far as that
/// can be counted.
pub proof fn law_markov_partials_cover_every_tile(rows: usize, vocab: usize, tiles: int)
    requires
        tiles * 1024 >= vocab,
        (tiles - 1) * 1024 < vocab,
    ensures
        rows * tiles <= usize::MAX ==> markov_partials(rows, vocab) == rows * tiles,
        rows * tiles > usize::MAX ==> markov_partials(rows, vocab) == usize::MAX,
{
    assert((vocab as int + 1024 - 1) / 1024 == tiles);
    assert(MARKOV_STEP_TILE_ELEMS == 1024);
}

/// The split argmax keeps its partials by tiles of four thousand and
/// ninety-six entries, four tiles of a Markov step each; and an index is what
/// fits the kernels' integers.
pub proof fn law_argmax_tiles_are_four_markov_tiles(vocab: usize, tiles: int)
    requires
        tiles * 4096 >= vocab,
        (tiles - 1) * 4096 < vocab,
    ensures
        super::ceil_div(vocab as int, ARGMAX_TILE_ELEMS as int) == tiles,
        ARGMAX_TILE_ELEMS == 4 * MARKOV_STEP_TILE_ELEMS,
        INDEX_MAX == i32::MAX,
{
    assert((vocab as int + 4096 - 1) / 4096 == tiles);
    assert(ARGMAX_TILE_ELEMS == 4096);
}

/// A log-probability readout that is accepted, and then gets one buffer that
/// does not fit, is refused over that buffer: the answer names the check and
/// shows what it compared.
pub proof fn law_logprob_topk_is_refused_over_the_buffer_at_fault(c: LogprobTopkCall, n: usize)
    requires
        c.fault() is None,
    ensures
        n < c.rows ==> (LogprobTopkCall { row_indices_len: n, ..c }).fault() == Some(
            KernelError::Invalid { what: "logprob_topk inputs must hold one element per row" },
        ),
        n < c.rows ==> (LogprobTopkCall { picked_len: n, ..c }).fault() == Some(
            KernelError::Invalid { what: "logprob_topk inputs must hold one element per row" },
        ),
        n < c.rows ==> (LogprobTopkCall { top_k_len: n, ..c }).fault() == Some(
            KernelError::Invalid { what: "logprob_topk inputs must hold one element per row" },
        ),
        n < c.rows ==> (LogprobTopkCall { out_picked_lp_len: n, ..c }).fault() == Some(
            KernelError::Rejected {
                what: "logprob_topk picked output too small",
                got: n,
                want: c.rows,
            },
        ),
        n < c.rows * c.k_max ==> (LogprobTopkCall { out_topk_vals_len: n, ..c }).fault() == Some(
            KernelError::Invalid { what: "logprob_topk top-k outputs too small" },
        ),
        n < c.rows * c.k_max ==> (LogprobTopkCall { out_topk_ids_len: n, ..c }).fault() == Some(
            KernelError::Invalid { what: "logprob_topk top-k outputs too small" },
        ),
{
}

/// A Markov draft step that is accepted, and then gets one buffer that does
/// not fit, is refused over that buffer: the answer names the check and shows
/// what it compared.
pub proof fn law_markov_step_is_refused_over_the_buffer_at_fault(c: MarkovStepCall, n: usize)
    requires
        c.fault() is None,
    ensures
        n < markov_partials(c.rows,
            c.base.hidden_dim) ==> (MarkovStepCall { partial_values_len: n, ..c }).fault() == Some(
            KernelError::Invalid { what: "markov step partials too small" },
        ),
        n < markov_partials(c.rows,
            c.base.hidden_dim) ==> (MarkovStepCall { partial_indices_len: n, ..c }).fault() == Some(
            KernelError::Invalid { what: "markov step partials too small" },
        ),
        n < c.rows ==> (MarkovStepCall { out_tokens_len: n, ..c }).fault() == Some(
            KernelError::Rejected { what: "markov step out too small", got: n, want: c.rows },
        ),
        n < c.rows * c.block_size ==> (MarkovStepCall { sampled_tokens_len: n, ..c }).fault()
            == Some(
            KernelError::Rejected {
                what: "markov sampled-token scratch too small",
                got: n,
                want: (c.rows * c.block_size) as usize,
            },
        ),
{
}

/// A Markov draft step with runners-up that is accepted, and then gets one
/// buffer that does not fit, is refused over that buffer: the answer names
/// the check and shows what it compared.
pub proof fn law_markov_top2_is_refused_over_the_buffer_at_fault(c: MarkovTop2Call, n: usize)
    requires
        c.fault() is None,
    ensures
        n < markov_partials(c.rows, c.base.hidden_dim) ==> (MarkovTop2Call { partial_v1_len: n,
            ..c }).fault() == Some(
            KernelError::Invalid { what: "markov top2 partials too small" },
        ),
        n < markov_partials(c.rows, c.base.hidden_dim) ==> (MarkovTop2Call { partial_i1_len: n,
            ..c }).fault() == Some(
            KernelError::Invalid { what: "markov top2 partials too small" },
        ),
        n < markov_partials(c.rows, c.base.hidden_dim) ==> (MarkovTop2Call { partial_v2_len: n,
            ..c }).fault() == Some(
            KernelError::Invalid { what: "markov top2 partials too small" },
        ),
        n < markov_partials(c.rows, c.base.hidden_dim) ==> (MarkovTop2Call { partial_i2_len: n,
            ..c }).fault() == Some(
            KernelError::Invalid { what: "markov top2 partials too small" },
        ),
        n < c.rows ==> (MarkovTop2Call { output_len: n, ..c }).fault() == Some(
            KernelError::Invalid { what: "markov top2 out too small" },
        ),
        n < c.rows * c.block_size ==> (MarkovTop2Call { sampled_tokens_len: n, ..c }).fault()
            == Some(
            KernelError::Rejected {
                what: "markov top2 sampled buffer below rows*block_size",
                got: n,
                want: (c.rows * c.block_size) as usize,
            },
        ),
        n < c.rows ==> (MarkovTop2Call { out_top2_len: n, ..c }).fault() == Some(
            KernelError::Invalid { what: "markov top2 out too small" },
        ),
{
}

/// A hedge of draft tokens that is accepted, and then gets one buffer that
/// does not fit, is refused over that buffer: the answer names the check and
/// shows what it compared.
pub proof fn law_hedge_force_is_refused_over_the_buffer_at_fault(c: HedgeForceCall, n: usize)
    requires
        c.fault() is None,
    ensures
        n < c.n * c.c ==> (HedgeForceCall { prev_tokens_len: n, ..c }).fault() == Some(
            KernelError::Invalid { what: "hedge force buffers too small" },
        ),
        n < (c.n * c.c) * c.block_size ==> (HedgeForceCall { sampled_tokens_len: n,
            ..c }).fault() == Some(
            KernelError::Invalid { what: "hedge force buffers too small" },
        ),
        n < (c.j + 1) * c.runner_stride ==> (HedgeForceCall { runner_tokens_len: n,
            ..c }).fault() == Some(
            KernelError::Invalid { what: "hedge force buffers too small" },
        ),
        n < c.n ==> (HedgeForceCall { req_map_len: n, ..c }).fault() == Some(
            KernelError::Rejected { what: "hedge force req_map below n", got: n, want: c.n },
        ),
{
}

/// A Markov draft step that is accepted, and then gets one tensor with fewer
/// elements than its shape claims, is refused over that tensor: the answer
/// names it and shows both lengths.
pub proof fn law_markov_step_is_refused_over_the_tensor_at_fault(c: MarkovStepCall, n: usize)
    requires
        c.fault() is None,
    ensures
        n < c.base.hidden_dim * c.base.seq_len ==> (MarkovStepCall {
            base: HiddenStates { data_len: n, ..c.base },
            ..c
        }).fault() == Some(
            KernelError::Backing {
                what: "markov step base",
                len: n,
                need: (c.base.hidden_dim * c.base.seq_len) as usize,
            },
        ),
        n < c.bias.hidden_dim * c.bias.seq_len ==> (MarkovStepCall {
            bias: HiddenStates { data_len: n, ..c.bias },
            ..c
        }).fault() == Some(
            KernelError::Backing {
                what: "markov step bias",
                len: n,
                need: (c.bias.hidden_dim * c.bias.seq_len) as usize,
            },
        ),
{
    assert(c.base.hidden_dim * c.base.seq_len >= 0) by (nonlinear_arith);
    assert(c.bias.hidden_dim * c.bias.seq_len >= 0) by (nonlinear_arith);
}

/// A Markov draft step with runners-up that is accepted, and then gets one
/// tensor with fewer elements than its shape claims, is refused over that
/// tensor: the answer names it and shows both lengths.
pub proof fn law_markov_top2_is_refused_over_the_tensor_at_fault(c: MarkovTop2Call, n: usize)
    requires
        c.fault() is None,
    ensures
        n < c.base.hidden_dim * c.base.seq_len ==> (MarkovTop2Call {
            base: HiddenStates { data_len: n, ..c.base },
            ..c
        }).fault() == Some(
            KernelError::Backing {
                what: "markov top2 base",
                len: n,
                need: (c.base.hidden_dim * c.base.seq_len) as usize,
            },
        ),
        n < c.bias.hidden_dim * c.bias.seq_len ==> (MarkovTop2Call {
            bias: HiddenStates { data_len: n, ..c.bias },
            ..c
        }).fault() == Some(
            KernelError::Backing {
                what: "markov top2 bias",
                len: n,
                need: (c.bias.hidden_dim * c.bias.seq_len) as usize,
            },
        ),
{
    assert(c.base.hidden_dim * c.base.seq_len >= 0) by (nonlinear_arith);
    assert(c.bias.hidden_dim * c.bias.seq_len >= 0) by (nonlinear_arith);
}

} // verus!
