//! Batched temperature, top-k, top-p and min-p sampling.
//!
//! A sampling call runs one device pass, or two where min-p rows are mixed
//! with rows that have none: [`gpu_sample_batch_into`] says which passes to
//! run, [`sample_uniform_batch_into`] checks one pass and lays out its inputs,
//! [`read_sampled_tokens`] checks what the device returned, and
//! [`merge_sampled_tokens`] puts two passes back in the order of the call.

use vstd::prelude::*;

use super::div_ceil;
use crate::error::checked_i32;
use crate::error::ensure;
use crate::error::ensure_at_most;
use crate::error::ensure_below;
use crate::error::ensure_that;
use crate::error::FaultList;
use crate::error::KernelError;
use crate::float_bits;
use crate::shape::HiddenStates;

verus! {

/// Columns of a softmax partial.
pub const SOFTMAX_TILE: usize = 8192;

/// What separates the seed of the min-p pass from the seed of the call. Both
/// passes start their streams at zero, so one seed would correlate them.
pub const MIN_P_SEED_SPLIT: u64 = 0x9E37_79B9_7F4A_7C15;

/// One row to sample. Greedy rows belong on the argmax path. Scalars are
/// single-precision bit patterns.
#[derive(Clone, Copy, Debug, PartialEq, Eq)]
pub struct BatchSamplingRow {
    /// Row of the logits arena.
    pub row: usize,
    /// Greater than zero and finite.
    pub temperature: u32,
    /// Zero or less: no limit.
    pub top_k: i32,
    /// In `(0, 1]`.
    pub top_p: u32,
    /// In `[0, 1)`; zero: no threshold.
    pub min_p: u32,
}

impl BatchSamplingRow {
    /// Whether the row has a min-p threshold.
    pub open spec fn thresholded(self) -> bool {
        float_bits::positive(self.min_p)
    }

    /// Why the row cannot be sampled from `logits`, if it cannot.
    pub open spec fn fault(self, logits: HiddenStates, vocab: usize) -> Option<KernelError> {
        KernelError::unless_below(
            self.row < logits.seq_len,
            "batch sampling row out of arena range",
            self.row as int,
            logits.seq_len as int,
        )
            .or_fault(KernelError::unless(
                float_bits::positive(self.temperature) && float_bits::finite(self.temperature),
                "batch sampling temperature must be finite and > 0",
            ))
            .or_fault(KernelError::unless(
                float_bits::positive(self.top_p) && float_bits::at_most_one(self.top_p),
                "batch sampling top_p must be in (0, 1]",
            ))
            .or_fault(KernelError::unless(
                float_bits::non_negative(self.min_p) && float_bits::below_one(self.min_p)
                    && float_bits::finite(self.min_p),
                "batch sampling min_p must be in [0, 1)",
            ))
            .or_fault(KernelError::too_wide(self.row as int, "batch sampling row"))
            .or_fault(KernelError::too_wide(vocab as int, "batch sampling vocab"))
    }

    /// Whether the row's top-k removes anything from a vocabulary of `vocab`.
    pub open spec fn filters_top_k(self, vocab: usize) -> bool {
        0 < self.top_k < vocab
    }

    /// The top-k that the device takes: the row's, or the whole vocabulary
    /// where it removes nothing.
    pub open spec fn device_top_k(self, vocab: usize) -> i32 {
        if self.filters_top_k(vocab) {
            self.top_k
        } else {
            vocab as i32
        }
    }

    fn check(&self, logits: &HiddenStates, vocab: usize) -> (r: Result<(), KernelError>)
        ensures
            r == KernelError::outcome(self.fault(*logits, vocab), ()),
    {
        ensure_below(
            self.row < logits.seq_len,
            "batch sampling row out of arena range",
            self.row,
            logits.seq_len,
        )?;
        ensure_that(
            float_bits::is_positive(self.temperature) && float_bits::is_finite(self.temperature),
            "batch sampling temperature must be finite and > 0",
        )?;
        ensure_that(
            float_bits::is_positive(self.top_p) && float_bits::is_at_most_one(self.top_p),
            "batch sampling top_p must be in (0, 1]",
        )?;
        ensure_that(
            float_bits::is_non_negative(self.min_p) && float_bits::is_below_one(self.min_p)
                && float_bits::is_finite(self.min_p),
            "batch sampling min_p must be in [0, 1)",
        )?;
        checked_i32(self.row, "batch sampling row")?;
        checked_i32(vocab, "batch sampling vocab")?;
        Ok(())
    }
}

/// Lengths of the device buffers of a sampling pass over at most `max_rows`
/// rows of `vocab` columns.
#[derive(Clone, Copy, Debug, PartialEq, Eq)]
pub struct BatchSamplingScratch {
    pub probs_len: usize,
    /// Row indices, temperatures, top-k, top-p, min-p, validity flags and
    /// tokens: one element per row each.
    pub per_row_len: usize,
    pub topk_row_states_bytes: usize,
    pub softmax_workspace_bytes: usize,
    pub max_rows: usize,
    pub vocab: usize,
}

/// Bytes of the softmax workspace: one maximum and one denominator per row and
/// tile, and slack for alignment.
pub open spec fn softmax_workspace_bytes(max_rows: usize, vocab: usize) -> int {
    max_rows * super::ceil_div(vocab as int, SOFTMAX_TILE as int) * 8 + 256
}

impl BatchSamplingScratch {
    /// Whether the buffers hold what a pass of `max_rows` rows needs.
    pub open spec fn wf(self) -> bool {
        &&& self.max_rows > 0
        &&& self.vocab > 0
        &&& self.probs_len == self.max_rows * self.vocab
        &&& self.per_row_len == self.max_rows
        &&& self.softmax_workspace_bytes == softmax_workspace_bytes(self.max_rows, self.vocab)
    }

    /// Size the buffers. `topk_row_states_bytes` is what the sampling library
    /// asks for.
    pub fn new(max_rows: usize, vocab: usize, topk_row_states_bytes: usize) -> (r: Result<
        Self,
        KernelError,
    >)
        requires
            max_rows * vocab <= usize::MAX,
            softmax_workspace_bytes(max_rows, vocab) <= usize::MAX,
        ensures
            r == KernelError::outcome(
                KernelError::unless(
                    max_rows > 0 && vocab > 0,
                    "batch sampling scratch requires max_rows > 0 and vocab > 0",
                ),
                (BatchSamplingScratch {
                    probs_len: (max_rows * vocab) as usize,
                    per_row_len: max_rows,
                    topk_row_states_bytes,
                    softmax_workspace_bytes: softmax_workspace_bytes(max_rows, vocab) as usize,
                    max_rows,
                    vocab,
                }),
            ),
            r matches Ok(s) ==> s.wf(),
    {
        ensure_that(
            max_rows > 0 && vocab > 0,
            "batch sampling scratch requires max_rows > 0 and vocab > 0",
        )?;
        let tiles: usize = div_ceil(vocab, SOFTMAX_TILE);
        proof {
            assert(max_rows * vocab >= 0) by (nonlinear_arith);
            assert(max_rows * tiles >= 0) by (nonlinear_arith);
        }
        Ok(
            BatchSamplingScratch {
                probs_len: max_rows * vocab,
                per_row_len: max_rows,
                topk_row_states_bytes,
                softmax_workspace_bytes: max_rows * tiles * 8 + 256,
                max_rows,
                vocab,
            },
        )
    }
}

/// The host side of one pass: what goes to the device.
#[derive(Debug)]
pub struct SamplingPass {
    pub row_indices: Vec<i32>,
    pub temperature: Vec<u32>,
    pub top_k: Vec<i32>,
    pub top_p: Vec<u32>,
    pub min_p: Vec<u32>,
    pub has_top_k_filter: bool,
    pub has_top_p_filter: bool,
    /// Without a min-p row the device gets no min-p array and no row states.
    pub has_min_p_filter: bool,
    pub rows: i32,
    pub vocab: i32,
    pub softmax_workspace_bytes: usize,
    pub seed: u64,
}

/// The fault of the first of the first `n` rows that has one.
pub open spec fn rows_fault(
    rows: Seq<BatchSamplingRow>,
    n: nat,
    logits: HiddenStates,
    vocab: usize,
) -> Option<KernelError>
    decreases n,
{
    if n == 0 {
        None
    } else {
        rows_fault(rows, (n - 1) as nat, logits, vocab).or_fault(
            rows[n - 1].fault(logits, vocab),
        )
    }
}

/// Why a pass over `rows` is refused, if it is.
pub open spec fn pass_fault(
    logits: HiddenStates,
    rows: Seq<BatchSamplingRow>,
    scratch: BatchSamplingScratch,
) -> Option<KernelError> {
    KernelError::unless(rows.len() > 0, "batch sampling requires at least one row")
        .or_fault(KernelError::unless_at_most(
            rows.len() <= scratch.max_rows,
            "batch sampling scratch too small",
            rows.len() as int,
            scratch.max_rows as int,
        ))
        .or_fault(KernelError::unless_sized(
            logits.hidden_dim == scratch.vocab,
            "batch sampling vocab mismatch",
            logits.hidden_dim as int,
            scratch.vocab as int,
        ))
        .or_fault(rows_fault(rows, rows.len(), logits, scratch.vocab))
}

impl SamplingPass {
    /// The pass lays out the first `n` rows.
    pub open spec fn lays_out(self, rows: Seq<BatchSamplingRow>, n: int, vocab: usize) -> bool {
        &&& self.row_indices@ =~= Seq::new(n as nat, |i: int| rows[i].row as i32)
        &&& self.temperature@ =~= Seq::new(n as nat, |i: int| rows[i].temperature)
        &&& self.top_k@ =~= Seq::new(n as nat, |i: int| rows[i].device_top_k(vocab))
        &&& self.top_p@ =~= Seq::new(n as nat, |i: int| rows[i].top_p)
        &&& self.min_p@ =~= Seq::new(n as nat, |i: int| rows[i].min_p)
        &&& self.has_top_k_filter == exists|i: int|
            0 <= i < n && (#[trigger] rows[i]).filters_top_k(vocab)
        &&& self.has_top_p_filter == exists|i: int|
            0 <= i < n && float_bits::below_one((#[trigger] rows[i]).top_p)
        &&& self.has_min_p_filter == exists|i: int|
            0 <= i < n && (#[trigger] rows[i]).thresholded()
    }
}

/// Check one pass and lay out its inputs, one element per row and in the order
/// of the rows.
pub fn sample_uniform_batch_into(
    logits: &HiddenStates,
    rows: &[BatchSamplingRow],
    seed: u64,
    scratch: &BatchSamplingScratch,
) -> (r: Result<SamplingPass, KernelError>)
    ensures
        match r {
            Ok(pass) => {
                &&& pass_fault(*logits, rows@, *scratch) is None
                &&& pass.lays_out(rows@, rows@.len() as int, scratch.vocab)
                &&& pass.rows == rows@.len() as i32
                &&& pass.vocab == scratch.vocab as i32
                &&& pass.softmax_workspace_bytes == scratch.softmax_workspace_bytes
                &&& pass.seed == seed
                &&& forall|i: int|
                    0 <= i < rows@.len() && 0 < (#[trigger] rows@[i]).top_k < scratch.vocab
                        ==> pass.top_k@[i] == rows@[i].top_k && pass.has_top_k_filter
            },
            Err(e) => pass_fault(*logits, rows@, *scratch) == Some(e),
        },
{
    let n: usize = rows.len();
    ensure_that(n > 0, "batch sampling requires at least one row")?;
    ensure_at_most(n <= scratch.max_rows, "batch sampling scratch too small", n, scratch.max_rows)?;
    ensure(
        logits.hidden_dim == scratch.vocab,
        "batch sampling vocab mismatch",
        logits.hidden_dim,
        scratch.vocab,
    )?;
    let mut pass = SamplingPass {
        row_indices: Vec::new(),
        temperature: Vec::new(),
        top_k: Vec::new(),
        top_p: Vec::new(),
        min_p: Vec::new(),
        has_top_k_filter: false,
        has_top_p_filter: false,
        has_min_p_filter: false,
        rows: n as i32,
        vocab: scratch.vocab as i32,
        softmax_workspace_bytes: scratch.softmax_workspace_bytes,
        seed,
    };
    let mut i: usize = 0;
    assert(pass.lays_out(rows@, 0, scratch.vocab));
    while i < n
        invariant
            i <= n == rows@.len(),
            0 < n <= scratch.max_rows,
            logits.hidden_dim == scratch.vocab,
            rows_fault(rows@, i as nat, *logits, scratch.vocab) is None,
            pass.lays_out(rows@, i as int, scratch.vocab),
            pass.rows == n as i32,
            pass.vocab == scratch.vocab as i32,
            pass.softmax_workspace_bytes == scratch.softmax_workspace_bytes,
            pass.seed == seed,
        decreases n - i,
    {
        let row: BatchSamplingRow = rows[i];
        let checked: Result<(), KernelError> = row.check(logits, scratch.vocab);
        match checked {
            Ok(_) => {},
            Err(e) => {
                proof {
                    lemma_first_row_fault(rows@, i as nat, rows@.len(), *logits, scratch.vocab);
                }
                return Err(e);
            },
        }
        let ghost before = pass;
        pass.row_indices.push(row.row as i32);
        pass.temperature.push(row.temperature);
        let vocab: i32 = scratch.vocab as i32;
        if row.top_k > 0 && row.top_k < vocab {
            pass.has_top_k_filter = true;
            pass.top_k.push(row.top_k);
        } else {
            pass.top_k.push(vocab);
        }
        if float_bits::is_below_one(row.top_p) {
            pass.has_top_p_filter = true;
        }
        pass.top_p.push(row.top_p);
        if float_bits::is_positive(row.min_p) {
            pass.has_min_p_filter = true;
        }
        pass.min_p.push(row.min_p);
        proof {
            lemma_layout_step(before, pass, rows@, i as int, scratch.vocab);
        }
        i += 1;
    }
    Ok(pass)
}

proof fn lemma_layout_step(
    before: SamplingPass,
    after: SamplingPass,
    rows: Seq<BatchSamplingRow>,
    i: int,
    vocab: usize,
)
    requires
        before.lays_out(rows, i, vocab),
        0 <= i < rows.len(),
        after.row_indices@ == before.row_indices@.push(rows[i].row as i32),
        after.temperature@ == before.temperature@.push(rows[i].temperature),
        after.top_k@ == before.top_k@.push(rows[i].device_top_k(vocab)),
        after.top_p@ == before.top_p@.push(rows[i].top_p),
        after.min_p@ == before.min_p@.push(rows[i].min_p),
        after.has_top_k_filter == (before.has_top_k_filter || rows[i].filters_top_k(vocab)),
        after.has_top_p_filter == (before.has_top_p_filter || float_bits::below_one(
            rows[i].top_p,
        )),
        after.has_min_p_filter == (before.has_min_p_filter || rows[i].thresholded()),
    ensures
        after.lays_out(rows, i + 1, vocab),
{
    let n = (i + 1) as nat;
    assert(after.row_indices@ =~= Seq::new(n, |k: int| rows[k].row as i32));
    assert(after.temperature@ =~= Seq::new(n, |k: int| rows[k].temperature));
    assert(after.top_k@ =~= Seq::new(n, |k: int| rows[k].device_top_k(vocab)));
    assert(after.top_p@ =~= Seq::new(n, |k: int| rows[k].top_p));
    assert(after.min_p@ =~= Seq::new(n, |k: int| rows[k].min_p));
    if after.has_top_k_filter && before.has_top_k_filter {
        let k = choose|k: int| 0 <= k < i && (#[trigger] rows[k]).filters_top_k(vocab);
        assert(0 <= k < i + 1 && rows[k].filters_top_k(vocab));
    }
    if after.has_top_p_filter && before.has_top_p_filter {
        let k = choose|k: int| 0 <= k < i && float_bits::below_one((#[trigger] rows[k]).top_p);
        assert(0 <= k < i + 1 && float_bits::below_one(rows[k].top_p));
    }
    if after.has_min_p_filter && before.has_min_p_filter {
        let k = choose|k: int| 0 <= k < i && (#[trigger] rows[k]).thresholded();
        assert(0 <= k < i + 1 && rows[k].thresholded());
    }
}

proof fn lemma_first_row_fault(
    rows: Seq<BatchSamplingRow>,
    i: nat,
    n: nat,
    logits: HiddenStates,
    vocab: usize,
)
    requires
        i < n <= rows.len(),
        rows_fault(rows, i, logits, vocab) is None,
        rows[i as int].fault(logits, vocab) is Some,
    ensures
        rows_fault(rows, n, logits, vocab) == rows[i as int].fault(logits, vocab),
    decreases n,
{
    if n > i + 1 {
        lemma_first_row_fault(rows, i, (n - 1) as nat, logits, vocab);
    }
}

/// What the device returned for row `i`, checked: the row has to have a token,
/// and the token has to be in the vocabulary.
pub open spec fn token_fault(valid: Seq<u8>, out: Seq<i32>, i: int, vocab: usize) -> Option<
    KernelError,
> {
    KernelError::unless(valid[i] != 0, "batch sampling produced no valid token")
        .or_fault(KernelError::unless(
            0 <= out[i] < vocab,
            "batch sampling token out of vocab range",
        ))
}

/// The fault of the first of the first `n` tokens that has one.
pub open spec fn tokens_fault(valid: Seq<u8>, out: Seq<i32>, n: nat, vocab: usize) -> Option<
    KernelError,
>
    decreases n,
{
    if n == 0 {
        None
    } else {
        tokens_fault(valid, out, (n - 1) as nat, vocab).or_fault(
            token_fault(valid, out, n - 1, vocab),
        )
    }
}

/// Check the tokens of a pass of `n` rows.
pub fn read_sampled_tokens(n: usize, valid: &[u8], out: &[i32], vocab: usize) -> (r: Result<
    Vec<u32>,
    KernelError,
>)
    requires
        n <= valid@.len(),
        n <= out@.len(),
    ensures
        match r {
            Ok(tokens) => {
                &&& tokens_fault(valid@, out@, n as nat, vocab) is None
                &&& tokens@ == Seq::new(n as nat, |i: int| out@[i] as u32)
                &&& forall|i: int| 0 <= i < n ==> (#[trigger] tokens@[i]) < vocab
            },
            Err(e) => tokens_fault(valid@, out@, n as nat, vocab) == Some(e),
        },
{
    let mut tokens: Vec<u32> = Vec::new();
    let mut i: usize = 0;
    while i < n
        invariant
            i <= n,
            n <= valid@.len(),
            n <= out@.len(),
            tokens_fault(valid@, out@, i as nat, vocab) is None,
            tokens@ == Seq::new(i as nat, |k: int| out@[k] as u32),
            forall|k: int| 0 <= k < i ==> (#[trigger] tokens@[k]) < vocab,
        decreases n - i,
    {
        if valid[i] == 0 {
            proof {
                lemma_first_token_fault(valid@, out@, i as nat, n as nat, vocab);
            }
            return Err(KernelError::Invalid { what: "batch sampling produced no valid token" });
        }
        if !(out[i] >= 0 && (out[i] as usize) < vocab) {
            proof {
                lemma_first_token_fault(valid@, out@, i as nat, n as nat, vocab);
            }
            return Err(KernelError::Invalid { what: "batch sampling token out of vocab range" });
        }
        tokens.push(out[i] as u32);
        i += 1;
        assert(tokens@ =~= Seq::new(i as nat, |k: int| out@[k] as u32));
    }
    Ok(tokens)
}

proof fn lemma_first_token_fault(valid: Seq<u8>, out: Seq<i32>, i: nat, n: nat, vocab: usize)
    requires
        i < n,
        tokens_fault(valid, out, i, vocab) is None,
        token_fault(valid, out, i as int, vocab) is Some,
    ensures
        tokens_fault(valid, out, n, vocab) == token_fault(valid, out, i as int, vocab),
    decreases n,
{
    if n > i + 1 {
        lemma_first_token_fault(valid, out, i, (n - 1) as nat, vocab);
    }
}

/// The rows of a call that have a min-p threshold, in their order.
pub open spec fn min_p_rows(rows: Seq<BatchSamplingRow>) -> Seq<BatchSamplingRow> {
    rows.filter(|r: BatchSamplingRow| r.thresholded())
}

/// The rows of a call that have none, in their order.
pub open spec fn plain_rows(rows: Seq<BatchSamplingRow>) -> Seq<BatchSamplingRow> {
    rows.filter(|r: BatchSamplingRow| !r.thresholded())
}

/// The passes of a sampling call.
#[derive(Debug)]
pub enum SamplingPlan {
    /// Every row in one pass, under the seed of the call.
    Uniform { seed: u64 },
    /// The rows without a threshold first, under the seed of the call; then
    /// those with one, under a seed of their own.
    Split {
        plain: Vec<BatchSamplingRow>,
        seed: u64,
        min_p: Vec<BatchSamplingRow>,
        min_p_seed: u64,
    },
}

/// Whether the rows go through the device in one pass: all of them have a
/// threshold, or all of them are at most zero.
pub open spec fn is_uniform(rows: Seq<BatchSamplingRow>) -> bool {
    ||| forall|i: int| 0 <= i < rows.len() ==> (#[trigger] rows[i]).thresholded()
    ||| forall|i: int| 0 <= i < rows.len() ==> float_bits::at_most_zero((#[trigger] rows[i]).min_p)
}

/// The passes that a call runs. Rows without a threshold never share a pass
/// with rows that have one: the min-p pass scales its draws, so they could
/// sample another token than they would alone.
pub fn gpu_sample_batch_into(rows: &[BatchSamplingRow], seed: u64) -> (r: SamplingPlan)
    ensures
        match r {
            SamplingPlan::Uniform { seed: s } => is_uniform(rows@) && s == seed,
            SamplingPlan::Split { plain, seed: s, min_p, min_p_seed } => {
                &&& !is_uniform(rows@)
                &&& plain@ == plain_rows(rows@)
                &&& s == seed
                &&& min_p@ == min_p_rows(rows@)
                &&& min_p_seed == seed ^ MIN_P_SEED_SPLIT
            },
        },
{
    let mut plain: Vec<BatchSamplingRow> = Vec::new();
    let mut min_p: Vec<BatchSamplingRow> = Vec::new();
    let mut all_min_p: bool = true;
    let mut all_zero: bool = true;
    let mut i: usize = 0;
    proof {
        reveal(Seq::filter);
        assert(rows@.take(0) =~= Seq::empty());
    }
    while i < rows.len()
        invariant
            i <= rows@.len(),
            plain@ == plain_rows(rows@.take(i as int)),
            min_p@ == min_p_rows(rows@.take(i as int)),
            all_min_p == forall|k: int| 0 <= k < i ==> (#[trigger] rows@[k]).thresholded(),
            all_zero == forall|k: int|
                0 <= k < i ==> float_bits::at_most_zero((#[trigger] rows@[k]).min_p),
        decreases rows@.len() - i,
    {
        let row: BatchSamplingRow = rows[i];
        proof {
            reveal(Seq::filter);
            assert(rows@.take(i + 1).drop_last() =~= rows@.take(i as int));
            assert(rows@.take(i + 1).last() == row);
            assert(rows@[i as int] == row);
        }
        if float_bits::is_positive(row.min_p) {
            min_p.push(row);
        } else {
            all_min_p = false;
            plain.push(row);
        }
        if !float_bits::is_at_most_zero(row.min_p) {
            all_zero = false;
        }
        i += 1;
    }
    assert(rows@.take(rows@.len() as int) =~= rows@);
    if all_min_p || all_zero {
        SamplingPlan::Uniform { seed }
    } else {
        SamplingPlan::Split { plain, seed, min_p, min_p_seed: seed ^ MIN_P_SEED_SPLIT }
    }
}

/// Rows with a threshold among the first `i`.
pub open spec fn min_p_rank(rows: Seq<BatchSamplingRow>, i: int) -> int {
    min_p_rows(rows.take(i)).len() as int
}

/// The tokens of two passes in the order of the call: row `i` has the token of
/// its own pass, at its place among the rows of that pass.
pub open spec fn merged(
    rows: Seq<BatchSamplingRow>,
    plain: Seq<u32>,
    min_p: Seq<u32>,
) -> Seq<u32> {
    Seq::new(
        rows.len(),
        |i: int|
            if rows[i].thresholded() {
                min_p[min_p_rank(rows, i)]
            } else {
                plain[i - min_p_rank(rows, i)]
            },
    )
}

/// Put the tokens of two passes back in the order of the call.
pub fn merge_sampled_tokens(rows: &[BatchSamplingRow], plain: &[u32], min_p: &[u32]) -> (r: Vec<
    u32,
>)
    requires
        plain@.len() == plain_rows(rows@).len(),
        min_p@.len() == min_p_rows(rows@).len(),
    ensures
        r@ == merged(rows@, plain@, min_p@),
{
    let mut tokens: Vec<u32> = Vec::new();
    let mut i: usize = 0;
    let mut rank: usize = 0;
    proof {
        reveal(Seq::filter);
        assert(rows@.take(0) =~= Seq::empty());
    }
    while i < rows.len()
        invariant
            i <= rows@.len(),
            plain@.len() == plain_rows(rows@).len(),
            min_p@.len() == min_p_rows(rows@).len(),
            rank == min_p_rank(rows@, i as int),
            rank <= i,
            tokens@ == merged(rows@, plain@, min_p@).take(i as int),
        decreases rows@.len() - i,
    {
        proof {
            lemma_rank_step(rows@, i as int);
            lemma_rank_bound(rows@, i as int);
        }
        let ghost done = tokens@;
        if float_bits::is_positive(rows[i].min_p) {
            tokens.push(min_p[rank]);
            rank += 1;
        } else {
            tokens.push(plain[i - rank]);
        }
        proof {
            let all = merged(rows@, plain@, min_p@);
            assert(tokens@ =~= all.take(i + 1)) by {
                assert(all.take(i + 1) =~= all.take(i as int).push(all[i as int]));
            }
        }
        i += 1;
    }
    assert(tokens@ =~= merged(rows@, plain@, min_p@));
    tokens
}

/// The rank grows by one on a row with a threshold and stays on any other.
proof fn lemma_rank_step(rows: Seq<BatchSamplingRow>, i: int)
    requires
        0 <= i < rows.len(),
    ensures
        min_p_rank(rows, i + 1) == min_p_rank(rows, i) + (if rows[i].thresholded() {
            1int
        } else {
            0
        }),
        plain_rows(rows.take(i + 1)).len() == plain_rows(rows.take(i)).len() + (
        if rows[i].thresholded() {
            0int
        } else {
            1
        }),
{
    reveal(Seq::filter);
    assert(rows.take(i + 1).drop_last() =~= rows.take(i));
    assert(rows.take(i + 1).last() == rows[i]);
}

/// The two kinds of rows split every prefix, and a prefix has at most what the
/// whole has.
proof fn lemma_prefix_counts(rows: Seq<BatchSamplingRow>, i: int)
    requires
        0 <= i <= rows.len(),
    ensures
        min_p_rank(rows, i) + plain_rows(rows.take(i)).len() == i,
        min_p_rank(rows, i) >= 0,
    decreases i,
{
    reveal(Seq::filter);
    if i == 0 {
        assert(rows.take(0) =~= Seq::empty());
    } else {
        lemma_prefix_counts(rows, i - 1);
        lemma_rank_step(rows, i - 1);
    }
}

proof fn lemma_counts_grow(rows: Seq<BatchSamplingRow>, i: int, j: int)
    requires
        0 <= i <= j <= rows.len(),
    ensures
        min_p_rank(rows, i) <= min_p_rank(rows, j),
        plain_rows(rows.take(i)).len() <= plain_rows(rows.take(j)).len(),
    decreases j - i,
{
    if i < j {
        lemma_counts_grow(rows, i, j - 1);
        lemma_rank_step(rows, j - 1);
    }
}

/// Row `i` has a place in its own pass.
proof fn lemma_rank_bound(rows: Seq<BatchSamplingRow>, i: int)
    requires
        0 <= i < rows.len(),
    ensures
        0 <= min_p_rank(rows, i) <= i,
        rows[i].thresholded() ==> min_p_rank(rows, i) < min_p_rows(rows).len(),
        !rows[i].thresholded() ==> i - min_p_rank(rows, i) < plain_rows(rows).len(),
{
    lemma_prefix_counts(rows, i);
    lemma_rank_step(rows, i);
    lemma_counts_grow(rows, i + 1, rows.len() as int);
    assert(rows.take(rows.len() as int) =~= rows);
}

/// Row `i` stands at its rank in its own pass.
proof fn lemma_rank_places(rows: Seq<BatchSamplingRow>, i: int, n: int)
    requires
        0 <= i < n <= rows.len(),
    ensures
        rows[i].thresholded() ==> min_p_rank(rows, i) < min_p_rank(rows, n) && min_p_rows(
            rows.take(n),
        )[min_p_rank(rows, i)] == rows[i],
        !rows[i].thresholded() ==> i - min_p_rank(rows, i) < plain_rows(rows.take(n)).len()
            && plain_rows(rows.take(n))[i - min_p_rank(rows, i)] == rows[i],
    decreases n - i,
{
    reveal(Seq::filter);
    lemma_prefix_counts(rows, i);
    lemma_rank_step(rows, n - 1);
    assert(rows.take(n).drop_last() =~= rows.take(n - 1));
    assert(rows.take(n).last() == rows[n - 1]);
    if i < n - 1 {
        lemma_rank_places(rows, i, n - 1);
    }
}

/// One token per row, in the order of the rows: where the token at place `k`
/// of a pass was drawn for the row at place `k` of that pass, the merged token
/// `i` is the one that was drawn for row `i` of the call.
pub proof fn law_merge_keeps_row_order(
    rows: Seq<BatchSamplingRow>,
    plain: Seq<u32>,
    min_p: Seq<u32>,
    drawn_plain: spec_fn(BatchSamplingRow) -> u32,
    drawn_min_p: spec_fn(BatchSamplingRow) -> u32,
    i: int,
)
    requires
        0 <= i < rows.len(),
        plain == plain_rows(rows).map_values(drawn_plain),
        min_p == min_p_rows(rows).map_values(drawn_min_p),
    ensures
        merged(rows, plain, min_p).len() == rows.len(),
        merged(rows, plain, min_p)[i] == (if rows[i].thresholded() {
            drawn_min_p(rows[i])
        } else {
            drawn_plain(rows[i])
        }),
{
    lemma_rank_places(rows, i, rows.len() as int);
    lemma_prefix_counts(rows, i);
    assert(rows.take(rows.len() as int) =~= rows);
}

/// No pass mixes rows with a threshold and rows without one, no row is lost,
/// and the second pass has a seed of its own.
pub proof fn law_passes_are_homogeneous(rows: Seq<BatchSamplingRow>, seed: u64)
    ensures
        forall|i: int|
            0 <= i < min_p_rows(rows).len() ==> (#[trigger] min_p_rows(rows)[i]).thresholded(),
        forall|i: int|
            0 <= i < plain_rows(rows).len() ==> !(#[trigger] plain_rows(rows)[i]).thresholded(),
        min_p_rows(rows).len() + plain_rows(rows).len() == rows.len(),
        seed ^ MIN_P_SEED_SPLIT != seed,
{
    broadcast use vstd::seq_lib::group_filter_ensures;

    lemma_prefix_counts(rows, rows.len() as int);
    assert(rows.take(rows.len() as int) =~= rows);
    assert(seed ^ 0x9E37_79B9_7F4A_7C15 != seed) by (bit_vector);
}

/// Two calls with different seeds never give their min-p passes one seed.
pub proof fn law_min_p_seeds_follow_the_call(a: u64, b: u64)
    requires
        a != b,
    ensures
        a ^ MIN_P_SEED_SPLIT != b ^ MIN_P_SEED_SPLIT,
{
    assert(a ^ 0x9E37_79B9_7F4A_7C15 != b ^ 0x9E37_79B9_7F4A_7C15) by (bit_vector)
        requires
            a != b,
    ;
}

/// An accepted pass asks the device only for rows of the arena and for a top-k
/// of at least one token and at most the vocabulary.
pub proof fn law_pass_stays_in_the_arena(
    logits: HiddenStates,
    rows: Seq<BatchSamplingRow>,
    scratch: BatchSamplingScratch,
    i: int,
)
    requires
        pass_fault(logits, rows, scratch) is None,
        scratch.wf(),
        0 <= i < rows.len(),
    ensures
        0 <= rows[i].row as i32 == rows[i].row < logits.seq_len,
        1 <= rows[i].device_top_k(scratch.vocab) <= scratch.vocab,
        i < scratch.per_row_len,
        i * scratch.vocab + scratch.vocab <= scratch.probs_len,
{
    lemma_no_row_fault(rows, rows.len(), logits, scratch.vocab, i);
    assert(i * scratch.vocab + scratch.vocab <= scratch.max_rows * scratch.vocab)
        by (nonlinear_arith)
        requires
            i + 1 <= scratch.max_rows,
    ;
}

proof fn lemma_no_row_fault(
    rows: Seq<BatchSamplingRow>,
    n: nat,
    logits: HiddenStates,
    vocab: usize,
    i: int,
)
    requires
        n <= rows.len(),
        rows_fault(rows, n, logits, vocab) is None,
        0 <= i < n,
    ensures
        rows[i].fault(logits, vocab) is None,
    decreases n,
{
    if i < n - 1 {
        lemma_no_row_fault(rows, (n - 1) as nat, logits, vocab, i);
    }
}

/// What an accepted pass tells the device about row `i`, whatever the other
/// rows ask for: its own place in the arena, its own temperature, top-p and
/// min-p, and its own top-k wherever that keeps fewer tokens than the
/// vocabulary has. A row that has no such top-k keeps the whole vocabulary.
/// A filter of any row is run.
pub proof fn law_pass_carries_each_row(
    logits: HiddenStates,
    rows: Seq<BatchSamplingRow>,
    scratch: BatchSamplingScratch,
    pass: SamplingPass,
    i: int,
)
    requires
        pass_fault(logits, rows, scratch) is None,
        pass.lays_out(rows, rows.len() as int, scratch.vocab),
        0 <= i < rows.len(),
    ensures
        pass.row_indices@.len() == rows.len(),
        pass.temperature@.len() == rows.len(),
        pass.top_k@.len() == rows.len(),
        pass.top_p@.len() == rows.len(),
        pass.min_p@.len() == rows.len(),
        pass.row_indices@[i] == rows[i].row,
        pass.temperature@[i] == rows[i].temperature,
        pass.top_p@[i] == rows[i].top_p,
        pass.min_p@[i] == rows[i].min_p,
        0 < rows[i].top_k < scratch.vocab ==> pass.top_k@[i] == rows[i].top_k
            && pass.has_top_k_filter,
        !(0 < rows[i].top_k < scratch.vocab) ==> pass.top_k@[i] == scratch.vocab,
        float_bits::below_one(rows[i].top_p) ==> pass.has_top_p_filter,
        float_bits::positive(rows[i].min_p) ==> pass.has_min_p_filter,
{
    lemma_no_row_fault(rows, rows.len(), logits, scratch.vocab, i);
}

/// A pass runs a filter only where some row asks for it.
pub proof fn law_pass_filters_for_some_row(
    logits: HiddenStates,
    rows: Seq<BatchSamplingRow>,
    scratch: BatchSamplingScratch,
    pass: SamplingPass,
)
    requires
        pass_fault(logits, rows, scratch) is None,
        pass.lays_out(rows, rows.len() as int, scratch.vocab),
    ensures
        pass.has_top_k_filter ==> exists|i: int|
            0 <= i < rows.len() && 0 < (#[trigger] rows[i]).top_k < scratch.vocab,
        pass.has_top_p_filter ==> exists|i: int|
            0 <= i < rows.len() && float_bits::below_one((#[trigger] rows[i]).top_p),
        pass.has_min_p_filter ==> exists|i: int|
            0 <= i < rows.len() && float_bits::positive((#[trigger] rows[i]).min_p),
{
    if pass.has_top_k_filter {
        let w = choose|i: int|
            0 <= i < rows.len() && (#[trigger] rows[i]).filters_top_k(scratch.vocab);
        assert(0 < rows[w].top_k < scratch.vocab);
    }
    if pass.has_min_p_filter {
        let w = choose|i: int| 0 <= i < rows.len() && (#[trigger] rows[i]).thresholded();
        assert(float_bits::positive(rows[w].min_p));
    }
}

/// A pass is accepted exactly when it has rows, the scratch has room for them
/// and is of the logits' width, and every row lies in the arena with a finite
/// positive temperature, a top-p above zero up to one and a min-p from zero
/// below one.
pub proof fn law_pass_is_accepted_when_its_rows_are(
    logits: HiddenStates,
    rows: Seq<BatchSamplingRow>,
    scratch: BatchSamplingScratch,
)
    ensures
        pass_fault(logits, rows, scratch) is None <==> {
            &&& 0 < rows.len() <= scratch.max_rows
            &&& logits.hidden_dim == scratch.vocab
            &&& scratch.vocab <= i32::MAX
            &&& forall|i: int|
                0 <= i < rows.len() ==> {
                    &&& (#[trigger] rows[i]).row < logits.seq_len
                    &&& rows[i].row <= i32::MAX
                    &&& float_bits::finite(rows[i].temperature)
                    &&& float_bits::positive(rows[i].temperature)
                    &&& float_bits::positive(rows[i].top_p)
                    &&& float_bits::at_most_one(rows[i].top_p)
                    &&& float_bits::finite(rows[i].min_p)
                    &&& float_bits::non_negative(rows[i].min_p)
                    &&& float_bits::below_one(rows[i].min_p)
                }
        },
{
    if 0 < rows.len() {
        if rows_fault(rows, rows.len(), logits, scratch.vocab) is None {
            assert forall|i: int| 0 <= i < rows.len() implies (#[trigger] rows[i]).fault(
                logits,
                scratch.vocab,
            ) is None by {
                lemma_no_row_fault(rows, rows.len(), logits, scratch.vocab, i);
            }
            assert(rows[0].fault(logits, scratch.vocab) is None);
        } else {
            lemma_some_row_fault(rows, rows.len(), logits, scratch.vocab);
        }
    }
}

proof fn lemma_some_row_fault(
    rows: Seq<BatchSamplingRow>,
    n: nat,
    logits: HiddenStates,
    vocab: usize,
)
    requires
        n <= rows.len(),
        rows_fault(rows, n, logits, vocab) is Some,
    ensures
        exists|i: int| 0 <= i < n && (#[trigger] rows[i]).fault(logits, vocab) is Some,
    decreases n,
{
    if n > 0 {
        if rows_fault(rows, (n - 1) as nat, logits, vocab) is Some {
            lemma_some_row_fault(rows, (n - 1) as nat, logits, vocab);
        } else {
            assert(rows[n - 1].fault(logits, vocab) is Some);
        }
    }
}

/// The tokens are handed back exactly when every row drew one and all of them
/// are of the vocabulary.
pub proof fn law_tokens_are_read_when_all_are_valid(
    valid: Seq<u8>,
    out: Seq<i32>,
    n: nat,
    vocab: usize,
)
    requires
        n <= valid.len(),
        n <= out.len(),
    ensures
        tokens_fault(valid, out, n, vocab) is None <==> (forall|i: int|
            #![trigger valid[i]]
            #![trigger out[i]]
            0 <= i < n ==> valid[i] != 0 && 0 <= out[i] < vocab),
{
    if tokens_fault(valid, out, n, vocab) is None {
        lemma_drawn_tokens(valid, out, n, vocab);
    } else if forall|i: int|
        #![trigger valid[i]]
        #![trigger out[i]]
        0 <= i < n ==> valid[i] != 0 && 0 <= out[i] < vocab {
        lemma_drawn_tokens_are_read(valid, out, n, vocab);
    }
}

proof fn lemma_drawn_tokens(valid: Seq<u8>, out: Seq<i32>, n: nat, vocab: usize)
    requires
        tokens_fault(valid, out, n, vocab) is None,
    ensures
        forall|i: int|
            #![trigger valid[i]]
            #![trigger out[i]]
            0 <= i < n ==> valid[i] != 0 && 0 <= out[i] < vocab,
    decreases n,
{
    if n > 0 {
        lemma_drawn_tokens(valid, out, (n - 1) as nat, vocab);
        assert(token_fault(valid, out, n - 1, vocab) is None);
    }
}

proof fn lemma_drawn_tokens_are_read(valid: Seq<u8>, out: Seq<i32>, n: nat, vocab: usize)
    requires
        forall|i: int|
            #![trigger valid[i]]
            #![trigger out[i]]
            0 <= i < n ==> valid[i] != 0 && 0 <= out[i] < vocab,
    ensures
        tokens_fault(valid, out, n, vocab) is None,
    decreases n,
{
    if n > 0 {
        lemma_drawn_tokens_are_read(valid, out, (n - 1) as nat, vocab);
        assert(0 <= out[n - 1] < vocab);
    }
}

/// A call is drawn in one pass exactly when its rows are all above the zero
/// min-p or all not above it. The rows of the two passes of any other call are
/// those above zero and those that are not, each in the order of the call.
pub proof fn law_rows_are_parted_by_their_min_p(rows: Seq<BatchSamplingRow>)
    ensures
        is_uniform(rows) <==> {
            ||| forall|i: int|
                0 <= i < rows.len() ==> float_bits::positive((#[trigger] rows[i]).min_p)
            ||| forall|i: int|
                0 <= i < rows.len() ==> float_bits::at_most_zero((#[trigger] rows[i]).min_p)
        },
        min_p_rows(rows) == rows.filter(|r: BatchSamplingRow| float_bits::positive(r.min_p)),
        plain_rows(rows) == rows.filter(|r: BatchSamplingRow| !float_bits::positive(r.min_p)),
{
    let above = |r: BatchSamplingRow| float_bits::positive(r.min_p);
    let thresholded = |r: BatchSamplingRow| r.thresholded();
    assert(above =~= thresholded);
    let below = |r: BatchSamplingRow| !float_bits::positive(r.min_p);
    let plain = |r: BatchSamplingRow| !r.thresholded();
    assert(below =~= plain);
    assert forall|i: int| 0 <= i < rows.len() implies (#[trigger] rows[i]).thresholded()
        == float_bits::positive(rows[i].min_p) by {}
}

/// A scratch has one probability row and one slot of each kind for every row,
/// and its softmax workspace holds two words for every tile that the
/// vocabulary of every row takes, and a fixed rest.
pub proof fn law_scratch_covers_its_rows(max_rows: usize, vocab: usize, tiles: int)
    requires
        tiles * 8192 >= vocab,
        (tiles - 1) * 8192 < vocab,
    ensures
        softmax_workspace_bytes(max_rows, vocab) == max_rows * tiles * 8 + 256,
{
    assert((vocab as int + 8192 - 1) / 8192 == tiles);
    assert(SOFTMAX_TILE == 8192);
}

/// A pass is refused over its first bad row, and over nothing of it that the
/// row got right: a row outside the arena is answered with its number and the
/// arena's rows, a parameter outside its range with that range.
pub proof fn law_pass_is_refused_over_its_first_bad_row(
    logits: HiddenStates,
    rows: Seq<BatchSamplingRow>,
    scratch: BatchSamplingScratch,
    i: int,
)
    requires
        0 <= i < rows.len() <= scratch.max_rows,
        logits.hidden_dim == scratch.vocab,
        forall|k: int| 0 <= k < i ==> (#[trigger] rows[k]).fault(logits, scratch.vocab) is None,
    ensures
        rows[i].row >= logits.seq_len ==> pass_fault(logits, rows, scratch) == Some(
            KernelError::NotBelow {
                what: "batch sampling row out of arena range",
                got: rows[i].row,
                bound: logits.seq_len,
            },
        ),
        rows[i].row < logits.seq_len ==> {
            let heated = float_bits::finite(rows[i].temperature) && float_bits::positive(
                rows[i].temperature,
            );
            let nucleus = float_bits::positive(rows[i].top_p) && float_bits::at_most_one(
                rows[i].top_p,
            );
            let floored = float_bits::finite(rows[i].min_p) && float_bits::non_negative(
                rows[i].min_p,
            ) && float_bits::below_one(rows[i].min_p);
            &&& !heated ==> pass_fault(logits, rows, scratch) == Some(
                KernelError::Invalid { what: "batch sampling temperature must be finite and > 0" },
            )
            &&& heated && !nucleus ==> pass_fault(logits, rows, scratch) == Some(
                KernelError::Invalid { what: "batch sampling top_p must be in (0, 1]" },
            )
            &&& heated && nucleus && !floored ==> pass_fault(logits, rows, scratch) == Some(
                KernelError::Invalid { what: "batch sampling min_p must be in [0, 1)" },
            )
        },
{
    if rows_fault(rows, i as nat, logits, scratch.vocab) is Some {
        lemma_some_row_fault(rows, i as nat, logits, scratch.vocab);
    }
    if rows[i].fault(logits, scratch.vocab) is Some {
        lemma_first_row_fault(rows, i as nat, rows.len(), logits, scratch.vocab);
    }
}

/// A pass that does not fit its scratch is refused with the numbers that clash.
pub proof fn law_pass_is_refused_over_its_scratch(
    logits: HiddenStates,
    rows: Seq<BatchSamplingRow>,
    scratch: BatchSamplingScratch,
)
    requires
        rows.len() <= usize::MAX,
    ensures
        rows.len() == 0 ==> pass_fault(logits, rows, scratch) == Some(
            KernelError::Invalid { what: "batch sampling requires at least one row" },
        ),
        rows.len() > scratch.max_rows ==> pass_fault(logits, rows, scratch) == Some(
            KernelError::Exceeds {
                what: "batch sampling scratch too small",
                got: rows.len() as usize,
                max: scratch.max_rows,
            },
        ),
        0 < rows.len() <= scratch.max_rows && logits.hidden_dim != scratch.vocab ==> pass_fault(
            logits,
            rows,
            scratch,
        ) == Some(
            KernelError::Rejected {
                what: "batch sampling vocab mismatch",
                got: logits.hidden_dim,
                want: scratch.vocab,
            },
        ),
{
}

} // verus!
