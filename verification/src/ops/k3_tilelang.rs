//! The generated K3 decode kernels.
//!
//! Every kernel is row-independent and its batch size is fixed when it is
//! generated. A step runs the next batch size up and discards the tail, so the
//! buffers hold the batch size and not only the live rows.

use vstd::prelude::*;

use crate::error::ensure_met;
use crate::error::ensure_that;
use crate::error::FaultList;
use crate::error::holds_product3;
use crate::error::holds_product;
use crate::error::KernelError;

verus! {

/// Batch sizes that the generator instantiates, ascending.
pub const K3_BATCH_BUCKETS: [usize; 10] = [1, 2, 4, 8, 16, 32, 48, 64, 96, 128];

/// The largest batch: the rows that every reusable buffer holds.
pub const K3_MAX_BATCH: usize = 128;

/// Expert counts that the router is instantiated for.
pub const K3_ROUTER_EXPERTS: [usize; 2] = [224, 896];

/// Picks of the router.
pub const K3_ROUTER_TOPK: usize = 16;

/// Hidden size of the attention-residual kernels.
pub const K3_ATTNRES_HIDDEN: usize = 7168;

/// The most candidate blocks of the attention-residual kernels.
pub const K3_ATTNRES_MAX_BLOCKS: usize = 8;

/// Query and key width of a head.
pub const K3_QK_DIM: usize = 192;

/// Value width of a head.
pub const K3_V_DIM: usize = 128;

/// The first batch size from `i` on that holds `rows`; zero where none does.
pub open spec fn first_bucket(rows: usize, i: nat) -> usize
    decreases 10 - i,
{
    if i >= 10 {
        0
    } else if K3_BATCH_BUCKETS@[i as int] >= rows {
        K3_BATCH_BUCKETS@[i as int]
    } else {
        first_bucket(rows, i + 1)
    }
}

/// The batch size that a step of `rows` live rows runs at.
pub open spec fn batch_bucket(rows: usize) -> usize {
    first_bucket(rows, 0)
}

/// Why a step of `rows` live rows cannot run, if it cannot.
pub open spec fn bucket_fault(rows: usize) -> Option<KernelError> {
    KernelError::unless(rows > 0, "K3 batch bucket needs rows > 0")
        .or_fault(KernelError::unless_at_most(
            rows <= K3_MAX_BATCH,
            "K3 kernels support at most 128 rows per step",
            rows as int,
            K3_MAX_BATCH as int,
        ))
}

/// Round a live row count up to the nearest instantiated batch size.
pub fn k3_batch_bucket(rows: usize) -> (r: Result<usize, KernelError>)
    ensures
        r == KernelError::outcome(bucket_fault(rows), batch_bucket(rows)),
        r matches Ok(bucket) ==> rows <= bucket <= K3_MAX_BATCH,
{
    ensure_that(rows > 0, "K3 batch bucket needs rows > 0")?;
    let mut i: usize = 0;
    while i < 10
        invariant
            i <= 10,
            rows > 0,
            batch_bucket(rows) == first_bucket(rows, i as nat),
            forall|k: int| 0 <= k < i ==> (#[trigger] K3_BATCH_BUCKETS@[k]) < rows,
        decreases 10 - i,
    {
        let bucket: usize = K3_BATCH_BUCKETS[i];
        proof {
            lemma_buckets(i as int);
        }
        if bucket >= rows {
            return Ok(bucket);
        }
        i += 1;
    }
    assert(K3_BATCH_BUCKETS@[9] < rows);
    Err(
        KernelError::Exceeds {
            what: "K3 kernels support at most 128 rows per step",
            got: rows,
            max: K3_MAX_BATCH,
        },
    )
}

proof fn lemma_buckets(i: int)
    requires
        0 <= i < 10,
    ensures
        1 <= K3_BATCH_BUCKETS@[i] <= K3_MAX_BATCH,
        i > 0 ==> K3_BATCH_BUCKETS@[i - 1] < K3_BATCH_BUCKETS@[i],
        K3_BATCH_BUCKETS@[9] == K3_MAX_BATCH,
{
    assert(K3_BATCH_BUCKETS@[0] == 1);
    assert(K3_BATCH_BUCKETS@[1] == 2);
    assert(K3_BATCH_BUCKETS@[2] == 4);
    assert(K3_BATCH_BUCKETS@[3] == 8);
    assert(K3_BATCH_BUCKETS@[4] == 16);
    assert(K3_BATCH_BUCKETS@[5] == 32);
    assert(K3_BATCH_BUCKETS@[6] == 48);
    assert(K3_BATCH_BUCKETS@[7] == 64);
    assert(K3_BATCH_BUCKETS@[8] == 96);
    assert(K3_BATCH_BUCKETS@[9] == 128);
    assert(i == 0 || i == 1 || i == 2 || i == 3 || i == 4 || i == 5 || i == 6 || i == 7 || i == 8
        || i == 9);
}

proof fn lemma_buckets_ascend(i: int, j: int)
    requires
        0 <= i <= j < 10,
    ensures
        K3_BATCH_BUCKETS@[i] <= K3_BATCH_BUCKETS@[j],
    decreases j - i,
{
    if i < j {
        lemma_buckets_ascend(i, j - 1);
        lemma_buckets(j);
    }
}

proof fn lemma_first_bucket(rows: usize, i: nat, j: int)
    requires
        i <= j < 10,
        K3_BATCH_BUCKETS@[j] >= rows,
    ensures
        rows <= first_bucket(rows, i) <= K3_BATCH_BUCKETS@[j],
        K3_BATCH_BUCKETS@.contains(first_bucket(rows, i)),
    decreases 10 - i,
{
    if K3_BATCH_BUCKETS@[i as int] >= rows {
        lemma_buckets_ascend(i as int, j);
    } else {
        lemma_first_bucket(rows, i + 1, j);
    }
}

/// The batch size of a step is one of the instantiated ones, holds the step's
/// rows, and is the smallest that does.
pub proof fn law_bucket_is_the_smallest(rows: usize, other: usize)
    requires
        bucket_fault(rows) is None,
        K3_BATCH_BUCKETS@.contains(other),
        other >= rows,
    ensures
        K3_BATCH_BUCKETS@.contains(batch_bucket(rows)),
        rows <= batch_bucket(rows) <= other,
{
    let j = choose|j: int| 0 <= j < 10 && K3_BATCH_BUCKETS@[j] == other;
    lemma_first_bucket(rows, 0, j);
}

/// More rows never run at a smaller batch size, and an instantiated batch size
/// runs at itself.
pub proof fn law_buckets_are_monotone(fewer: usize, more: usize)
    requires
        bucket_fault(fewer) is None,
        bucket_fault(more) is None,
        fewer <= more,
    ensures
        batch_bucket(fewer) <= batch_bucket(more),
        K3_BATCH_BUCKETS@.contains(more) ==> batch_bucket(more) == more,
{
    lemma_buckets(9);
    lemma_first_bucket(more, 0, 9);
    law_bucket_is_the_smallest(fewer, batch_bucket(more));
    if K3_BATCH_BUCKETS@.contains(more) {
        law_bucket_is_the_smallest(more, more);
    }
}

/// What [`k3_router_topk_launch`] takes.
#[derive(Clone, Copy, Debug)]
pub struct K3RouterTopkCall {
    pub num_experts: usize,
    pub rows: usize,
    pub scores_len: usize,
    pub bias_len: usize,
    pub routed_scale_len: usize,
    pub idx_len: usize,
    pub weights_len: usize,
}

/// The C arguments that [`k3_router_topk_launch`] derives.
#[derive(Clone, Copy, Debug, PartialEq, Eq)]
pub struct K3RouterTopkLaunch {
    pub num_experts: i32,
    pub topk: i32,
    pub batch: i32,
}

impl K3RouterTopkCall {
    /// Why the kernel cannot run, if it cannot.
    pub open spec fn fault(self) -> Option<KernelError> {
        let batch = batch_bucket(self.rows);
        bucket_fault(self.rows)
            .or_fault(KernelError::unless_met(
                K3_ROUTER_EXPERTS@.contains(self.num_experts),
                "K3 router is instantiated for 224 and 896 experts",
                self.num_experts as int,
            ))
            .or_fault(KernelError::unless(
                self.scores_len >= batch * self.num_experts && self.bias_len >= self.num_experts
                    && self.routed_scale_len >= 1 && self.idx_len >= batch * K3_ROUTER_TOPK
                    && self.weights_len >= batch * K3_ROUTER_TOPK,
                "K3 router buffers too small",
            ))
    }

    /// The launch of a call without a fault.
    pub open spec fn launch(self) -> K3RouterTopkLaunch {
        let batch = batch_bucket(self.rows);
        K3RouterTopkLaunch {
            num_experts: self.num_experts as i32,
            topk: K3_ROUTER_TOPK as i32,
            batch: batch as i32,
        }
    }
}

/// Sigmoid router with a biased top-k over `rows` live rows. The buffers hold
/// the batch size that the rows run at, not only the rows.
pub fn k3_router_topk_launch(c: &K3RouterTopkCall) -> (r: Result<K3RouterTopkLaunch, KernelError>)
    ensures
        r == KernelError::outcome(c.fault(), c.launch()),
{
    let batch: usize = k3_batch_bucket(c.rows)?;
    ensure_met(
        c.num_experts == K3_ROUTER_EXPERTS[0] || c.num_experts == K3_ROUTER_EXPERTS[1],
        "K3 router is instantiated for 224 and 896 experts",
        c.num_experts,
    )?;
    ensure_that(
        holds_product(c.scores_len, batch, c.num_experts) && c.bias_len >= c.num_experts
            && c.routed_scale_len >= 1 && holds_product(c.idx_len, batch, K3_ROUTER_TOPK)
            && holds_product(c.weights_len, batch, K3_ROUTER_TOPK),
        "K3 router buffers too small",
    )?;
    Ok(K3RouterTopkLaunch {
        num_experts: c.num_experts as i32,
        topk: K3_ROUTER_TOPK as i32,
        batch: batch as i32,
    })
}

/// What [`k3_attnres_scores_launch`] takes.
#[derive(Clone, Copy, Debug)]
pub struct K3AttnresScoresCall {
    pub num_blocks: usize,
    pub rows: usize,
    pub prefix_sum_len: usize,
    pub blocks_len: usize,
    pub score_weight_len: usize,
    pub scores_out_len: usize,
}

/// The C arguments of an attention-residual kernel.
#[derive(Clone, Copy, Debug, PartialEq, Eq)]
pub struct K3AttnresLaunch {
    pub num_blocks: i32,
    pub hidden: i32,
    pub batch: i32,
}

impl K3AttnresScoresCall {
    /// Why the kernel cannot run, if it cannot.
    pub open spec fn fault(self) -> Option<KernelError> {
        let batch = batch_bucket(self.rows);
        bucket_fault(self.rows)
            .or_fault(KernelError::unless_met(
                1 <= self.num_blocks && self.num_blocks <= K3_ATTNRES_MAX_BLOCKS,
                "K3 attention-residual scoring is instantiated for 1..=8 blocks",
                self.num_blocks as int,
            ))
            .or_fault(KernelError::unless(
                self.prefix_sum_len >= batch * K3_ATTNRES_HIDDEN
                    && self.blocks_len >= batch * self.num_blocks * K3_ATTNRES_HIDDEN
                    && self.score_weight_len >= K3_ATTNRES_HIDDEN
                    && self.scores_out_len >= batch * (self.num_blocks + 1),
                "K3 attention-residual scoring buffers too small",
            ))
    }

    /// The launch of a call without a fault.
    pub open spec fn launch(self) -> K3AttnresLaunch {
        let batch = batch_bucket(self.rows);
        K3AttnresLaunch {
            num_blocks: self.num_blocks as i32,
            hidden: K3_ATTNRES_HIDDEN as i32,
            batch: batch as i32,
        }
    }
}

/// Score every attention-residual candidate: the blocks, then the prefix sum.
pub fn k3_attnres_scores_launch(c: &K3AttnresScoresCall) -> (r: Result<
    K3AttnresLaunch,
    KernelError,
>)
    ensures
        r == KernelError::outcome(c.fault(), c.launch()),
{
    let batch: usize = k3_batch_bucket(c.rows)?;
    ensure_met(
        1 <= c.num_blocks && c.num_blocks <= K3_ATTNRES_MAX_BLOCKS,
        "K3 attention-residual scoring is instantiated for 1..=8 blocks",
        c.num_blocks,
    )?;
    ensure_that(
        holds_product(c.prefix_sum_len, batch, K3_ATTNRES_HIDDEN)
            && holds_product3(c.blocks_len, batch, c.num_blocks, K3_ATTNRES_HIDDEN)
            && c.score_weight_len >= K3_ATTNRES_HIDDEN
            && holds_product(c.scores_out_len, batch, c.num_blocks + 1),
        "K3 attention-residual scoring buffers too small",
    )?;
    Ok(K3AttnresLaunch {
        num_blocks: c.num_blocks as i32,
        hidden: K3_ATTNRES_HIDDEN as i32,
        batch: batch as i32,
    })
}

/// What [`k3_attnres_mix_launch`] takes.
#[derive(Clone, Copy, Debug)]
pub struct K3AttnresMixCall {
    pub num_blocks: usize,
    pub rows: usize,
    pub prefix_sum_len: usize,
    pub blocks_len: usize,
    pub scores_len: usize,
    pub out_len: usize,
}

impl K3AttnresMixCall {
    /// Why the kernel cannot run, if it cannot.
    pub open spec fn fault(self) -> Option<KernelError> {
        let batch = batch_bucket(self.rows);
        bucket_fault(self.rows)
            .or_fault(KernelError::unless_met(
                1 <= self.num_blocks && self.num_blocks <= K3_ATTNRES_MAX_BLOCKS,
                "K3 attention-residual mixing is instantiated for 1..=8 blocks",
                self.num_blocks as int,
            ))
            .or_fault(KernelError::unless(
                self.prefix_sum_len >= batch * K3_ATTNRES_HIDDEN
                    && self.blocks_len >= batch * self.num_blocks * K3_ATTNRES_HIDDEN
                    && self.scores_len >= batch * (self.num_blocks + 1)
                    && self.out_len >= batch * K3_ATTNRES_HIDDEN,
                "K3 attention-residual mixing buffers too small",
            ))
    }

    /// The launch of a call without a fault.
    pub open spec fn launch(self) -> K3AttnresLaunch {
        let batch = batch_bucket(self.rows);
        K3AttnresLaunch {
            num_blocks: self.num_blocks as i32,
            hidden: K3_ATTNRES_HIDDEN as i32,
            batch: batch as i32,
        }
    }
}

/// Mix the attention-residual candidates by the softmax of their scores.
pub fn k3_attnres_mix_launch(c: &K3AttnresMixCall) -> (r: Result<K3AttnresLaunch, KernelError>)
    ensures
        r == KernelError::outcome(c.fault(), c.launch()),
{
    let batch: usize = k3_batch_bucket(c.rows)?;
    ensure_met(
        1 <= c.num_blocks && c.num_blocks <= K3_ATTNRES_MAX_BLOCKS,
        "K3 attention-residual mixing is instantiated for 1..=8 blocks",
        c.num_blocks,
    )?;
    ensure_that(
        holds_product(c.prefix_sum_len, batch, K3_ATTNRES_HIDDEN)
            && holds_product3(c.blocks_len, batch, c.num_blocks, K3_ATTNRES_HIDDEN)
            && holds_product(c.scores_len, batch, c.num_blocks + 1)
            && holds_product(c.out_len, batch, K3_ATTNRES_HIDDEN),
        "K3 attention-residual mixing buffers too small",
    )?;
    Ok(K3AttnresLaunch {
        num_blocks: c.num_blocks as i32,
        hidden: K3_ATTNRES_HIDDEN as i32,
        batch: batch as i32,
    })
}

/// A router selection is accepted exactly when its own operands hold what it
/// reads and writes.
pub proof fn law_k3_router_topk_is_accepted_when_it_fits(c: K3RouterTopkCall)
    ensures
        c.fault() is None <==> {
            &&& bucket_fault(c.rows) is None
            &&& (c.num_experts == 224 || c.num_experts == 896)
            &&& c.scores_len >= batch_bucket(c.rows) * c.num_experts
            &&& c.bias_len >= c.num_experts
            &&& c.routed_scale_len >= 1
            &&& c.idx_len >= batch_bucket(c.rows) * 16
            &&& c.weights_len >= batch_bucket(c.rows) * 16
        },
{
    let known = K3_ROUTER_EXPERTS@;
    assert(known[0] == 224 && known[1] == 896);
}

/// A router selection is launched with its own numbers, each where it
/// belongs.
pub proof fn law_k3_router_topk_launches_its_own_numbers(c: K3RouterTopkCall)
    requires
        c.fault() is None,
    ensures
        c.launch().num_experts == c.num_experts,
        c.launch().topk == 16,
        c.launch().batch == batch_bucket(c.rows),
        c.rows <= c.launch().batch <= 128,
{
    let known = K3_ROUTER_EXPERTS@;
    assert(known[0] == 224 && known[1] == 896);
    lemma_buckets(9);
    lemma_first_bucket(c.rows, 0, 9);
}

/// A scoring of attention residuals is accepted exactly when its own operands
/// hold what it reads and writes.
pub proof fn law_k3_attnres_scores_is_accepted_when_it_fits(c: K3AttnresScoresCall)
    ensures
        c.fault() is None <==> {
            &&& bucket_fault(c.rows) is None
            &&& 1 <= c.num_blocks
            &&& c.num_blocks <= 8
            &&& c.prefix_sum_len >= batch_bucket(c.rows) * 7168
            &&& c.blocks_len >= batch_bucket(c.rows) * c.num_blocks * 7168
            &&& c.score_weight_len >= 7168
            &&& c.scores_out_len >= batch_bucket(c.rows) * (c.num_blocks + 1)
        },
{
}

/// A scoring of attention residuals is launched with its own numbers, each
/// where it belongs.
pub proof fn law_k3_attnres_scores_launches_its_own_numbers(c: K3AttnresScoresCall)
    requires
        c.fault() is None,
    ensures
        c.launch().num_blocks == c.num_blocks,
        c.launch().hidden == 7168,
        c.launch().batch == batch_bucket(c.rows),
        c.rows <= c.launch().batch <= 128,
{
    lemma_buckets(9);
    lemma_first_bucket(c.rows, 0, 9);
}

/// A mix of attention residuals is accepted exactly when its own operands
/// hold what it reads and writes.
pub proof fn law_k3_attnres_mix_is_accepted_when_it_fits(c: K3AttnresMixCall)
    ensures
        c.fault() is None <==> {
            &&& bucket_fault(c.rows) is None
            &&& 1 <= c.num_blocks
            &&& c.num_blocks <= 8
            &&& c.prefix_sum_len >= batch_bucket(c.rows) * 7168
            &&& c.blocks_len >= batch_bucket(c.rows) * c.num_blocks * 7168
            &&& c.scores_len >= batch_bucket(c.rows) * (c.num_blocks + 1)
            &&& c.out_len >= batch_bucket(c.rows) * 7168
        },
{
}

/// A mix of attention residuals is launched with its own numbers, each where
/// it belongs.
pub proof fn law_k3_attnres_mix_launches_its_own_numbers(c: K3AttnresMixCall)
    requires
        c.fault() is None,
    ensures
        c.launch().num_blocks == c.num_blocks,
        c.launch().hidden == 7168,
        c.launch().batch == batch_bucket(c.rows),
        c.rows <= c.launch().batch <= 128,
{
    lemma_buckets(9);
    lemma_first_bucket(c.rows, 0, 9);
}

/// The steps that have a bucket are those of one row up to one hundred and
/// twenty-eight, and the buckets are these.
pub proof fn law_buckets_cover_a_step(rows: usize)
    ensures
        bucket_fault(rows) is None <==> 1 <= rows <= 128,
        K3_BATCH_BUCKETS@ == seq![1usize, 2, 4, 8, 16, 32, 48, 64, 96, 128],
{
    let known = K3_BATCH_BUCKETS@;
    assert(known.len() == 10);
    assert(known[0] == 1 && known[1] == 2 && known[2] == 4 && known[3] == 8 && known[4] == 16);
    assert(known[5] == 32 && known[6] == 48 && known[7] == 64 && known[8] == 96 && known[9] == 128);
    assert(known =~= seq![1usize, 2, 4, 8, 16, 32, 48, 64, 96, 128]);
}

/// A router selection that is accepted, and then gets one buffer that does
/// not fit, is refused over that buffer: the answer names the check and shows
/// what it compared.
pub proof fn law_k3_router_topk_is_refused_over_the_buffer_at_fault(c: K3RouterTopkCall, n: usize)
    requires
        c.fault() is None,
    ensures
        n < batch_bucket(c.rows) * c.num_experts ==> (K3RouterTopkCall { scores_len: n,
            ..c }).fault() == Some(
            KernelError::Invalid { what: "K3 router buffers too small" },
        ),
        n < c.num_experts ==> (K3RouterTopkCall { bias_len: n, ..c }).fault() == Some(
            KernelError::Invalid { what: "K3 router buffers too small" },
        ),
        n < 1 ==> (K3RouterTopkCall { routed_scale_len: n, ..c }).fault() == Some(
            KernelError::Invalid { what: "K3 router buffers too small" },
        ),
        n < batch_bucket(c.rows) * 16 ==> (K3RouterTopkCall { idx_len: n, ..c }).fault() == Some(
            KernelError::Invalid { what: "K3 router buffers too small" },
        ),
        n < batch_bucket(c.rows) * 16 ==> (K3RouterTopkCall { weights_len: n, ..c }).fault()
            == Some(
            KernelError::Invalid { what: "K3 router buffers too small" },
        ),
{
}

/// A scoring of attention residuals that is accepted, and then gets one
/// buffer that does not fit, is refused over that buffer: the answer names
/// the check and shows what it compared.
pub proof fn law_k3_attnres_scores_is_refused_over_the_buffer_at_fault(
    c: K3AttnresScoresCall,
    n: usize,
)
    requires
        c.fault() is None,
    ensures
        n < batch_bucket(c.rows) * 7168 ==> (K3AttnresScoresCall { prefix_sum_len: n,
            ..c }).fault() == Some(
            KernelError::Invalid { what: "K3 attention-residual scoring buffers too small" },
        ),
        n < batch_bucket(c.rows) * c.num_blocks * 7168 ==> (K3AttnresScoresCall { blocks_len: n,
            ..c }).fault() == Some(
            KernelError::Invalid { what: "K3 attention-residual scoring buffers too small" },
        ),
        n < 7168 ==> (K3AttnresScoresCall { score_weight_len: n, ..c }).fault() == Some(
            KernelError::Invalid { what: "K3 attention-residual scoring buffers too small" },
        ),
        n < batch_bucket(c.rows) * (c.num_blocks
            + 1) ==> (K3AttnresScoresCall { scores_out_len: n, ..c }).fault() == Some(
            KernelError::Invalid { what: "K3 attention-residual scoring buffers too small" },
        ),
{
}

/// A mix of attention residuals that is accepted, and then gets one buffer
/// that does not fit, is refused over that buffer: the answer names the check
/// and shows what it compared.
pub proof fn law_k3_attnres_mix_is_refused_over_the_buffer_at_fault(c: K3AttnresMixCall, n: usize)
    requires
        c.fault() is None,
    ensures
        n < batch_bucket(c.rows) * 7168 ==> (K3AttnresMixCall { prefix_sum_len: n,
            ..c }).fault() == Some(
            KernelError::Invalid { what: "K3 attention-residual mixing buffers too small" },
        ),
        n < batch_bucket(c.rows) * c.num_blocks * 7168 ==> (K3AttnresMixCall { blocks_len: n,
            ..c }).fault() == Some(
            KernelError::Invalid { what: "K3 attention-residual mixing buffers too small" },
        ),
        n < batch_bucket(c.rows) * (c.num_blocks + 1) ==> (K3AttnresMixCall { scores_len: n,
            ..c }).fault() == Some(
            KernelError::Invalid { what: "K3 attention-residual mixing buffers too small" },
        ),
        n < batch_bucket(c.rows) * 7168 ==> (K3AttnresMixCall { out_len: n, ..c }).fault() == Some(
            KernelError::Invalid { what: "K3 attention-residual mixing buffers too small" },
        ),
{
}

} // verus!
