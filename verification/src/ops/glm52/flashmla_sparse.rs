//! GLM 5.2 sparse latent attention: prefill, and decode over the paged cache.

use vstd::prelude::*;

use crate::error::checked_product;
use crate::error::checked_sum;
use crate::error::ensure;
use crate::error::ensure_met;
use crate::error::ensure_that;
use crate::error::FaultList;
use crate::error::holds_product3;
use crate::error::holds_product;
use crate::error::KernelError;
use crate::float_bits;

verus! {

pub const GLM52_FLASHMLA_SPARSE_BATCH_CAPACITY: usize = 128;

pub const GLM52_FLASHMLA_SPARSE_HEADS: usize = 64;

pub const GLM52_FLASHMLA_SPARSE_QK_HEAD_DIM: usize = 576;

pub const GLM52_FLASHMLA_SPARSE_V_HEAD_DIM: usize = 512;

/// Tokens of a page.
pub const GLM52_FLASHMLA_SPARSE_PAGE_SIZE: usize = 64;

/// Cached bytes of a token.
pub const GLM52_FLASHMLA_SPARSE_BYTES_PER_TOKEN: usize = 656;

/// Bytes of a page.
pub const GLM52_FLASHMLA_SPARSE_PAGE_BYTES: usize = 41984;

/// The most keys that a query attends to.
pub const GLM52_FLASHMLA_SPARSE_TOPK: usize = 2048;

/// Keys that the kernel walks at a time.
pub const GLM52_FLASHMLA_SPARSE_TOPK_BLOCK: usize = 64;

/// Words of scheduler metadata of a part.
pub const GLM52_FLASHMLA_SPARSE_SCHED_META_INTS: usize = 8;

/// The most parts that the multiprocessors are split into.
pub const GLM52_FLASHMLA_SPARSE_MAX_SM_PARTS: usize = 160;

impl Glm52SparsePrefillCall {
    /// Rows that the pick counts cover: all of them where there are no counts.
    pub open spec fn counted_rows(self) -> usize {
        match self.topk_length_len {
            Some(len) => len,
            None => self.query_rows,
        }
    }
}

/// What [`glm52_flashmla_sparse_prefill_launch`] takes.
#[derive(Clone, Copy, Debug)]
pub struct Glm52SparsePrefillCall {
    pub query_rows: usize,
    pub kv_rows: usize,
    pub topk: usize,
    /// The softmax scale, as its bit pattern.
    pub sm_scale_bits: u32,
    pub q_len: usize,
    pub kv_len: usize,
    pub topk_indices_len: usize,
    /// Entries of the pick counts, where there are any.
    pub topk_length_len: Option<usize>,
    pub out_len: usize,
    pub max_logits_len: usize,
    pub lse_len: usize,
}

/// The C arguments that [`glm52_flashmla_sparse_prefill_launch`] derives.
#[derive(Clone, Copy, Debug, PartialEq, Eq)]
pub struct Glm52SparsePrefillLaunch {
    pub query_rows: i32,
    pub kv_rows: i32,
    pub topk: i32,
}

impl Glm52SparsePrefillCall {
    /// Why the kernel cannot run, if it cannot.
    pub open spec fn fault(self) -> Option<KernelError> {
        let lengths = self.counted_rows();
        KernelError::unless(
            self.query_rows > 0 && self.kv_rows > 0 && self.topk > 0
                && self.topk <= GLM52_FLASHMLA_SPARSE_TOPK
                && self.topk % GLM52_FLASHMLA_SPARSE_TOPK_BLOCK == 0
                && crate::float_bits::finite(self.sm_scale_bits)
                && crate::float_bits::positive(self.sm_scale_bits),
            "GLM5.2 FlashMLA sparse prefill shape is invalid",
        )
            .or_fault(KernelError::unless(
                self.q_len >= self.query_rows * GLM52_FLASHMLA_SPARSE_HEADS * GLM52_FLASHMLA_SPARSE_QK_HEAD_DIM
                    && self.kv_len >= self.kv_rows * GLM52_FLASHMLA_SPARSE_QK_HEAD_DIM
                    && self.topk_indices_len >= self.query_rows * self.topk
                    && lengths >= self.query_rows
                    && self.out_len >= self.query_rows * GLM52_FLASHMLA_SPARSE_HEADS * GLM52_FLASHMLA_SPARSE_V_HEAD_DIM
                    && self.max_logits_len >= self.query_rows * GLM52_FLASHMLA_SPARSE_HEADS
                    && self.lse_len >= self.query_rows * GLM52_FLASHMLA_SPARSE_HEADS,
                "GLM5.2 FlashMLA sparse prefill buffers are too small",
            ))
    }

    /// The launch of a call without a fault.
    pub open spec fn launch(self) -> Glm52SparsePrefillLaunch {
        Glm52SparsePrefillLaunch {
            query_rows: self.query_rows as i32,
            kv_rows: self.kv_rows as i32,
            topk: self.topk as i32,
        }
    }
}

/// Sparse prefill: every query row attends to its own picked keys.
pub fn glm52_flashmla_sparse_prefill_launch(c: &Glm52SparsePrefillCall) -> (r: Result<
    Glm52SparsePrefillLaunch,
    KernelError,
>)
    ensures
        r == KernelError::outcome(c.fault(), c.launch()),
{
    ensure_that(
        c.query_rows > 0 && c.kv_rows > 0 && c.topk > 0 && c.topk <= GLM52_FLASHMLA_SPARSE_TOPK
            && c.topk % GLM52_FLASHMLA_SPARSE_TOPK_BLOCK == 0
            && float_bits::is_finite(c.sm_scale_bits) && float_bits::is_positive(c.sm_scale_bits),
        "GLM5.2 FlashMLA sparse prefill shape is invalid",
    )?;
    let lengths: usize = match c.topk_length_len {
        Some(len) => len,
        None => c.query_rows,
    };
    ensure_that(
        holds_product3(c.q_len, c.query_rows, GLM52_FLASHMLA_SPARSE_HEADS, GLM52_FLASHMLA_SPARSE_QK_HEAD_DIM)
            && holds_product(c.kv_len, c.kv_rows, GLM52_FLASHMLA_SPARSE_QK_HEAD_DIM)
            && holds_product(c.topk_indices_len, c.query_rows, c.topk) && lengths >= c.query_rows
            && holds_product3(c.out_len, c.query_rows, GLM52_FLASHMLA_SPARSE_HEADS, GLM52_FLASHMLA_SPARSE_V_HEAD_DIM)
            && holds_product(c.max_logits_len, c.query_rows, GLM52_FLASHMLA_SPARSE_HEADS)
            && holds_product(c.lse_len, c.query_rows, GLM52_FLASHMLA_SPARSE_HEADS),
        "GLM5.2 FlashMLA sparse prefill buffers are too small",
    )?;
    Ok(Glm52SparsePrefillLaunch {
        query_rows: c.query_rows as i32,
        kv_rows: c.kv_rows as i32,
        topk: c.topk as i32,
    })
}

/// One sparse decode. The scale is a bit pattern.
#[derive(Clone, Copy, Debug, PartialEq, Eq)]
pub struct Glm52FlashMlaSparseDecode {
    pub batch_size: usize,
    pub num_blocks: usize,
    /// Bytes before the layer's first page.
    pub kv_layer_offset_bytes: usize,
    /// Bytes between two pages.
    pub kv_block_stride_bytes: usize,
    pub topk: usize,
    pub num_sm_parts: usize,
    pub sm_scale: u32,
}

impl Glm52FlashMlaSparseDecode {
    /// Why the decode is refused, if it is.
    pub open spec fn fault(self) -> Option<KernelError> {
        KernelError::unless_met(
            1 <= self.batch_size <= GLM52_FLASHMLA_SPARSE_BATCH_CAPACITY,
            "GLM5.2 FlashMLA sparse decode batch_size must be in 1..=128",
            self.batch_size as int,
        )
            .or_fault(KernelError::unless(
                self.num_blocks > 0,
                "GLM5.2 FlashMLA sparse decode num_blocks must be positive",
            ))
            .or_fault(KernelError::unless_met(
                self.kv_block_stride_bytes >= GLM52_FLASHMLA_SPARSE_PAGE_BYTES && self.kv_block_stride_bytes
                    % GLM52_FLASHMLA_SPARSE_BYTES_PER_TOKEN == 0,
                "GLM5.2 FlashMLA sparse decode kv_block_stride_bytes must be whole tokens and cover a page",
                self.kv_block_stride_bytes as int,
            ))
            .or_fault(KernelError::unless_met(
                0 < self.topk <= GLM52_FLASHMLA_SPARSE_TOPK && self.topk % GLM52_FLASHMLA_SPARSE_TOPK_BLOCK == 0,
                "GLM5.2 FlashMLA sparse decode topk must be a multiple of 64 in 64..=2048",
                self.topk as int,
            ))
            .or_fault(KernelError::unless_met(
                1 <= self.num_sm_parts <= GLM52_FLASHMLA_SPARSE_MAX_SM_PARTS,
                "GLM5.2 FlashMLA sparse decode num_sm_parts must be in 1..=160",
                self.num_sm_parts as int,
            ))
            .or_fault(KernelError::unless(
                crate::float_bits::finite(self.sm_scale) && crate::float_bits::positive(
                    self.sm_scale,
                ),
                "GLM5.2 FlashMLA sparse decode sm_scale must be finite and positive",
            ))
    }

    /// Refuse a decode that the kernel was not built for.
    pub fn validate(&self) -> (r: Result<(), KernelError>)
        ensures
            r == KernelError::outcome(self.fault(), ()),
    {
        ensure_met(
            1 <= self.batch_size && self.batch_size <= GLM52_FLASHMLA_SPARSE_BATCH_CAPACITY,
            "GLM5.2 FlashMLA sparse decode batch_size must be in 1..=128",
            self.batch_size,
        )?;
        ensure_that(
            self.num_blocks > 0,
            "GLM5.2 FlashMLA sparse decode num_blocks must be positive",
        )?;
        ensure_met(
            self.kv_block_stride_bytes >= GLM52_FLASHMLA_SPARSE_PAGE_BYTES && self.kv_block_stride_bytes
                % GLM52_FLASHMLA_SPARSE_BYTES_PER_TOKEN == 0,
            "GLM5.2 FlashMLA sparse decode kv_block_stride_bytes must be whole tokens and cover a page",
            self.kv_block_stride_bytes,
        )?;
        ensure_met(
            self.topk > 0 && self.topk <= GLM52_FLASHMLA_SPARSE_TOPK && self.topk % GLM52_FLASHMLA_SPARSE_TOPK_BLOCK == 0,
            "GLM5.2 FlashMLA sparse decode topk must be a multiple of 64 in 64..=2048",
            self.topk,
        )?;
        ensure_met(
            1 <= self.num_sm_parts && self.num_sm_parts <= GLM52_FLASHMLA_SPARSE_MAX_SM_PARTS,
            "GLM5.2 FlashMLA sparse decode num_sm_parts must be in 1..=160",
            self.num_sm_parts,
        )?;
        ensure_that(
            float_bits::is_finite(self.sm_scale) && float_bits::is_positive(self.sm_scale),
            "GLM5.2 FlashMLA sparse decode sm_scale must be finite and positive",
        )
    }

    /// Elements of the queries.
    pub fn q_len(&self) -> (r: usize)
        requires
            self.batch_size * GLM52_FLASHMLA_SPARSE_HEADS * GLM52_FLASHMLA_SPARSE_QK_HEAD_DIM <= usize::MAX,
        ensures
            r == self.batch_size * GLM52_FLASHMLA_SPARSE_HEADS * GLM52_FLASHMLA_SPARSE_QK_HEAD_DIM,
    {
        self.batch_size * GLM52_FLASHMLA_SPARSE_HEADS * GLM52_FLASHMLA_SPARSE_QK_HEAD_DIM
    }

    /// Bytes up to the end of the last page.
    pub open spec fn kv_bytes(self) -> int {
        self.kv_layer_offset_bytes + (self.num_blocks - 1) * self.kv_block_stride_bytes
            + GLM52_FLASHMLA_SPARSE_PAGE_BYTES
    }

    /// Bytes up to the end of the last page.
    pub fn packed_kv_cache_len(&self) -> (r: usize)
        requires
            self.num_blocks >= 1,
            self.kv_bytes() <= usize::MAX,
        ensures
            r == self.kv_bytes(),
    {
        proof {
            assert((self.num_blocks - 1) * self.kv_block_stride_bytes >= 0) by (nonlinear_arith)
                requires
                    self.num_blocks >= 1,
            ;
        }
        self.kv_layer_offset_bytes + (self.num_blocks - 1) * self.kv_block_stride_bytes
            + GLM52_FLASHMLA_SPARSE_PAGE_BYTES
    }

    /// Bytes up to the end of the last page, refused where they do not fit
    /// `usize`.
    fn checked_kv_cache_len(&self) -> (r: Result<usize, KernelError>)
        requires
            self.num_blocks >= 1,
        ensures
            r == KernelError::outcome(
                KernelError::overflow(
                    self.kv_bytes(),
                    "GLM5.2 FlashMLA sparse packed kv cache size",
                ),
                self.kv_bytes() as usize,
            ),
    {
        proof {
            assert((self.num_blocks - 1) * self.kv_block_stride_bytes >= 0) by (nonlinear_arith)
                requires
                    self.num_blocks >= 1,
            ;
        }
        let strides: usize = checked_product(
            self.num_blocks - 1,
            self.kv_block_stride_bytes,
            "GLM5.2 FlashMLA sparse packed kv cache size",
        )?;
        let last_page: usize = checked_sum(
            self.kv_layer_offset_bytes,
            strides,
            "GLM5.2 FlashMLA sparse packed kv cache size",
        )?;
        checked_sum(
            last_page,
            GLM52_FLASHMLA_SPARSE_PAGE_BYTES,
            "GLM5.2 FlashMLA sparse packed kv cache size",
        )
    }

    /// Entries of the picks.
    pub fn topk_indices_len(&self) -> (r: usize)
        requires
            self.batch_size * self.topk <= usize::MAX,
        ensures
            r == self.batch_size * self.topk,
    {
        proof {
            assert(self.batch_size * self.topk >= 0) by (nonlinear_arith);
        }
        self.batch_size * self.topk
    }

    /// Words of the scheduler metadata.
    pub fn tile_scheduler_metadata_len(&self) -> (r: usize)
        requires
            self.num_sm_parts * GLM52_FLASHMLA_SPARSE_SCHED_META_INTS <= usize::MAX,
        ensures
            r == self.num_sm_parts * GLM52_FLASHMLA_SPARSE_SCHED_META_INTS,
    {
        self.num_sm_parts * GLM52_FLASHMLA_SPARSE_SCHED_META_INTS
    }

    /// Entries of the split boundaries: one per row and one more.
    pub fn num_splits_len(&self) -> (r: usize)
        requires
            self.batch_size < usize::MAX,
        ensures
            r == self.batch_size + 1,
    {
        self.batch_size + 1
    }

    /// Entries of the row sums.
    pub fn lse_len(&self) -> (r: usize)
        requires
            self.batch_size * GLM52_FLASHMLA_SPARSE_HEADS <= usize::MAX,
        ensures
            r == self.batch_size * GLM52_FLASHMLA_SPARSE_HEADS,
    {
        self.batch_size * GLM52_FLASHMLA_SPARSE_HEADS
    }

    /// Elements of the output.
    pub fn latent_len(&self) -> (r: usize)
        requires
            self.batch_size * GLM52_FLASHMLA_SPARSE_HEADS * GLM52_FLASHMLA_SPARSE_V_HEAD_DIM <= usize::MAX,
        ensures
            r == self.batch_size * GLM52_FLASHMLA_SPARSE_HEADS * GLM52_FLASHMLA_SPARSE_V_HEAD_DIM,
    {
        self.batch_size * GLM52_FLASHMLA_SPARSE_HEADS * GLM52_FLASHMLA_SPARSE_V_HEAD_DIM
    }

    /// The most splits of a step: one per row and one per part.
    pub fn split_count(&self) -> (r: usize)
        requires
            self.batch_size + self.num_sm_parts <= usize::MAX,
        ensures
            r == self.batch_size + self.num_sm_parts,
    {
        self.batch_size + self.num_sm_parts
    }

    /// Entries of the split sums.
    pub fn lse_accum_len(&self) -> (r: usize)
        requires
            (self.batch_size + self.num_sm_parts) * GLM52_FLASHMLA_SPARSE_HEADS <= usize::MAX,
        ensures
            r == (self.batch_size + self.num_sm_parts) * GLM52_FLASHMLA_SPARSE_HEADS,
    {
        self.split_count() * GLM52_FLASHMLA_SPARSE_HEADS
    }

    /// Elements of the split outputs.
    pub fn o_accum_len(&self) -> (r: usize)
        requires
            (self.batch_size + self.num_sm_parts) * GLM52_FLASHMLA_SPARSE_HEADS * GLM52_FLASHMLA_SPARSE_V_HEAD_DIM <= usize::MAX,
        ensures
            r == (self.batch_size + self.num_sm_parts) * GLM52_FLASHMLA_SPARSE_HEADS * GLM52_FLASHMLA_SPARSE_V_HEAD_DIM,
    {
        self.split_count() * GLM52_FLASHMLA_SPARSE_HEADS * GLM52_FLASHMLA_SPARSE_V_HEAD_DIM
    }
}

/// Accept the part count that the kernel was asked for.
pub fn glm52_flashmla_sparse_decode_num_sm_parts(num_sm_parts: i32) -> (r: Result<
    usize,
    KernelError,
>)
    ensures
        r == KernelError::outcome(
            KernelError::unless(
                1 <= num_sm_parts <= GLM52_FLASHMLA_SPARSE_MAX_SM_PARTS,
                "GLM5.2 FlashMLA sparse num_sm_parts query out of range",
            ),
            num_sm_parts as usize,
        ),
{
    ensure_that(
        1 <= num_sm_parts && num_sm_parts <= GLM52_FLASHMLA_SPARSE_MAX_SM_PARTS as i32,
        "GLM5.2 FlashMLA sparse num_sm_parts query out of range",
    )?;
    Ok(num_sm_parts as usize)
}

/// Why the metadata buffers are refused, if they are.
pub open spec fn metadata_fault(
    contract: Glm52FlashMlaSparseDecode,
    tile_scheduler_metadata_len: usize,
    num_splits_len: usize,
) -> Option<KernelError> {
    KernelError::unless_sized(
        tile_scheduler_metadata_len >= contract.num_sm_parts * GLM52_FLASHMLA_SPARSE_SCHED_META_INTS,
        "GLM5.2 FlashMLA sparse scheduler metadata too small",
        tile_scheduler_metadata_len as int,
        contract.num_sm_parts * GLM52_FLASHMLA_SPARSE_SCHED_META_INTS,
    )
        .or_fault(KernelError::unless_sized(
            num_splits_len >= contract.batch_size + 1,
            "GLM5.2 FlashMLA sparse num_splits too small",
            num_splits_len as int,
            contract.batch_size + 1,
        ))
}

/// Refuse metadata buffers that do not cover the parts and the rows.
pub fn validate_metadata_buffers(
    contract: &Glm52FlashMlaSparseDecode,
    tile_scheduler_metadata_len: usize,
    num_splits_len: usize,
) -> (r: Result<(), KernelError>)
    requires
        contract.num_sm_parts * GLM52_FLASHMLA_SPARSE_SCHED_META_INTS <= usize::MAX,
        contract.batch_size < usize::MAX,
    ensures
        r == KernelError::outcome(
            metadata_fault(*contract, tile_scheduler_metadata_len, num_splits_len),
            (),
        ),
{
    let words: usize = contract.tile_scheduler_metadata_len();
    ensure(
        tile_scheduler_metadata_len >= words,
        "GLM5.2 FlashMLA sparse scheduler metadata too small",
        tile_scheduler_metadata_len,
        words,
    )?;
    let splits: usize = contract.num_splits_len();
    ensure(
        num_splits_len >= splits,
        "GLM5.2 FlashMLA sparse num_splits too small",
        num_splits_len,
        splits,
    )
}

/// The decode that metadata planning stands for. Planning never reads the
/// cache, so it takes a single tight page.
pub open spec fn planning_contract(
    batch_size: usize,
    topk: usize,
    num_sm_parts: usize,
) -> Glm52FlashMlaSparseDecode {
    Glm52FlashMlaSparseDecode {
        batch_size,
        num_blocks: 1,
        kv_layer_offset_bytes: 0,
        kv_block_stride_bytes: GLM52_FLASHMLA_SPARSE_PAGE_BYTES,
        topk,
        num_sm_parts,
        sm_scale: crate::float_bits::ONE_BITS,
    }
}

/// Plan the splits of a step: the rows, the picks and the parts.
pub fn glm52_flashmla_sparse_decode_metadata_launch(
    batch_size: usize,
    topk: usize,
    num_sm_parts: usize,
    tile_scheduler_metadata_len: usize,
    num_splits_len: usize,
) -> (r: Result<(i32, i32, i32), KernelError>)
    ensures
        r == ({
            let contract = planning_contract(batch_size, topk, num_sm_parts);
            KernelError::outcome(
                contract.fault().or_fault(
                    metadata_fault(contract, tile_scheduler_metadata_len, num_splits_len),
                ),
                (batch_size as i32, topk as i32, num_sm_parts as i32),
            )
        }),
{
    let contract = Glm52FlashMlaSparseDecode {
        batch_size,
        num_blocks: 1,
        kv_layer_offset_bytes: 0,
        kv_block_stride_bytes: GLM52_FLASHMLA_SPARSE_PAGE_BYTES,
        topk,
        num_sm_parts,
        sm_scale: float_bits::ONE_BITS,
    };
    contract.validate()?;
    validate_metadata_buffers(&contract, tile_scheduler_metadata_len, num_splits_len)?;
    Ok((batch_size as i32, topk as i32, num_sm_parts as i32))
}

/// What [`glm52_flashmla_sparse_decode_launch`] takes.
#[derive(Clone, Copy, Debug)]
pub struct Glm52SparseDecodeCall {
    pub contract: Glm52FlashMlaSparseDecode,
    pub q_len: usize,
    pub packed_kv_cache_len: usize,
    pub topk_indices_len: usize,
    pub tile_scheduler_metadata_len: usize,
    pub num_splits_len: usize,
    pub out_latent_len: usize,
    pub lse_len: usize,
    pub lse_accum_len: usize,
    pub o_accum_len: usize,
}

/// The C arguments that [`glm52_flashmla_sparse_decode_launch`] derives, with the
/// bytes before the layer in the cache.
#[derive(Clone, Copy, Debug, PartialEq, Eq)]
pub struct Glm52SparseDecodeLaunch {
    pub kv_bytes: u64,
    pub batch_size: i32,
    pub num_blocks: i32,
    pub block_stride_bytes: i64,
    pub topk: i32,
    pub num_sm_parts: i32,
}

impl Glm52SparseDecodeCall {
    /// Why the kernel cannot run, if it cannot.
    pub open spec fn fault(self) -> Option<KernelError> {
        let q_len_need =
            self.contract.batch_size * GLM52_FLASHMLA_SPARSE_HEADS * GLM52_FLASHMLA_SPARSE_QK_HEAD_DIM;
        let packed_kv_cache_len_need = self.contract.kv_bytes();
        let topk_indices_len_need = self.contract.batch_size * self.contract.topk;
        let out_latent_len_need =
            self.contract.batch_size * GLM52_FLASHMLA_SPARSE_HEADS * GLM52_FLASHMLA_SPARSE_V_HEAD_DIM;
        let lse_len_need = self.contract.batch_size * GLM52_FLASHMLA_SPARSE_HEADS;
        let lse_accum_len_need =
            (self.contract.batch_size + self.contract.num_sm_parts) * GLM52_FLASHMLA_SPARSE_HEADS;
        let o_accum_len_need =
            (self.contract.batch_size + self.contract.num_sm_parts) * GLM52_FLASHMLA_SPARSE_HEADS * GLM52_FLASHMLA_SPARSE_V_HEAD_DIM;
        self.contract.fault()
            .or_fault(KernelError::unless_sized(
                self.q_len >= q_len_need,
                "GLM5.2 FlashMLA sparse q too small",
                self.q_len as int,
                q_len_need,
            ))
            .or_fault(KernelError::overflow(
                packed_kv_cache_len_need,
                "GLM5.2 FlashMLA sparse packed kv cache size",
            ))
            .or_fault(KernelError::unless_sized(
                self.packed_kv_cache_len >= packed_kv_cache_len_need,
                "GLM5.2 FlashMLA sparse packed kv cache too small",
                self.packed_kv_cache_len as int,
                packed_kv_cache_len_need,
            ))
            .or_fault(KernelError::unless_sized(
                self.topk_indices_len >= topk_indices_len_need,
                "GLM5.2 FlashMLA sparse topk_indices too small",
                self.topk_indices_len as int,
                topk_indices_len_need,
            ))
            .or_fault(metadata_fault(
                self.contract,
                self.tile_scheduler_metadata_len,
                self.num_splits_len,
            ))
            .or_fault(KernelError::unless_sized(
                self.out_latent_len >= out_latent_len_need,
                "GLM5.2 FlashMLA sparse latent output too small",
                self.out_latent_len as int,
                out_latent_len_need,
            ))
            .or_fault(KernelError::unless_sized(
                self.lse_len >= lse_len_need,
                "GLM5.2 FlashMLA sparse lse too small",
                self.lse_len as int,
                lse_len_need,
            ))
            .or_fault(KernelError::unless_sized(
                self.lse_accum_len >= lse_accum_len_need,
                "GLM5.2 FlashMLA sparse lse_accum too small",
                self.lse_accum_len as int,
                lse_accum_len_need,
            ))
            .or_fault(KernelError::unless_sized(
                self.o_accum_len >= o_accum_len_need,
                "GLM5.2 FlashMLA sparse o_accum too small",
                self.o_accum_len as int,
                o_accum_len_need,
            ))
    }

    /// The launch of a call without a fault.
    pub open spec fn launch(self) -> Glm52SparseDecodeLaunch {
        Glm52SparseDecodeLaunch {
            kv_bytes: self.contract.kv_layer_offset_bytes as u64,
            batch_size: self.contract.batch_size as i32,
            num_blocks: self.contract.num_blocks as i32,
            block_stride_bytes: self.contract.kv_block_stride_bytes as i64,
            topk: self.contract.topk as i32,
            num_sm_parts: self.contract.num_sm_parts as i32,
        }
    }
}

/// Sparse decode over the paged cache, split across the multiprocessors.
pub fn glm52_flashmla_sparse_decode_launch(c: &Glm52SparseDecodeCall) -> (r: Result<
    Glm52SparseDecodeLaunch,
    KernelError,
>)
    ensures
        r == KernelError::outcome(c.fault(), c.launch()),
{
    c.contract.validate()?;
    let q_len_need: usize = c.contract.q_len();
    ensure(c.q_len >= q_len_need, "GLM5.2 FlashMLA sparse q too small", c.q_len, q_len_need)?;
    let packed_kv_cache_len_need: usize = c.contract.checked_kv_cache_len()?;
    ensure(
        c.packed_kv_cache_len >= packed_kv_cache_len_need,
        "GLM5.2 FlashMLA sparse packed kv cache too small",
        c.packed_kv_cache_len,
        packed_kv_cache_len_need,
    )?;
    assert(c.contract.batch_size * c.contract.topk <= 128 * 2048) by (nonlinear_arith)
        requires
            c.contract.batch_size <= 128,
            c.contract.topk <= 2048,
    ;
    let topk_indices_len_need: usize = c.contract.topk_indices_len();
    ensure(
        c.topk_indices_len >= topk_indices_len_need,
        "GLM5.2 FlashMLA sparse topk_indices too small",
        c.topk_indices_len,
        topk_indices_len_need,
    )?;
    validate_metadata_buffers(&c.contract, c.tile_scheduler_metadata_len, c.num_splits_len)?;
    let out_latent_len_need: usize = c.contract.latent_len();
    ensure(
        c.out_latent_len >= out_latent_len_need,
        "GLM5.2 FlashMLA sparse latent output too small",
        c.out_latent_len,
        out_latent_len_need,
    )?;
    let lse_len_need: usize = c.contract.lse_len();
    ensure(
        c.lse_len >= lse_len_need,
        "GLM5.2 FlashMLA sparse lse too small",
        c.lse_len,
        lse_len_need,
    )?;
    let lse_accum_len_need: usize = c.contract.lse_accum_len();
    ensure(
        c.lse_accum_len >= lse_accum_len_need,
        "GLM5.2 FlashMLA sparse lse_accum too small",
        c.lse_accum_len,
        lse_accum_len_need,
    )?;
    let o_accum_len_need: usize = c.contract.o_accum_len();
    ensure(
        c.o_accum_len >= o_accum_len_need,
        "GLM5.2 FlashMLA sparse o_accum too small",
        c.o_accum_len,
        o_accum_len_need,
    )?;
    Ok(Glm52SparseDecodeLaunch {
        kv_bytes: c.contract.kv_layer_offset_bytes as u64,
        batch_size: c.contract.batch_size as i32,
        num_blocks: c.contract.num_blocks as i32,
        block_stride_bytes: c.contract.kv_block_stride_bytes as i64,
        topk: c.contract.topk as i32,
        num_sm_parts: c.contract.num_sm_parts as i32,
    })
}

/// Every page of an accepted decode lies in the cache, whatever the stride.
pub proof fn law_pages_lie_in_the_cache(call: Glm52SparseDecodeCall, page: int)
    requires
        call.fault() is None,
        0 <= page < call.contract.num_blocks,
    ensures
        call.contract.kv_layer_offset_bytes + page * call.contract.kv_block_stride_bytes
            + GLM52_FLASHMLA_SPARSE_PAGE_BYTES <= call.packed_kv_cache_len,
{
    let stride = call.contract.kv_block_stride_bytes as int;
    assert(page * stride <= (call.contract.num_blocks - 1) * stride) by (nonlinear_arith)
        requires
            page <= call.contract.num_blocks - 1,
            stride >= 0,
    ;
}

/// A decode whose metadata was planned for its rows, picks and parts finds its
/// metadata buffers large enough.
pub proof fn law_planned_metadata_covers_the_decode(
    call: Glm52SparseDecodeCall,
    tile_scheduler_metadata_len: usize,
    num_splits_len: usize,
)
    requires
        metadata_fault(
            planning_contract(
                call.contract.batch_size,
                call.contract.topk,
                call.contract.num_sm_parts,
            ),
            tile_scheduler_metadata_len,
            num_splits_len,
        ) is None,
    ensures
        metadata_fault(call.contract, tile_scheduler_metadata_len, num_splits_len) is None,
{
}

/// A sparse prefill is accepted exactly when its own operands hold what it
/// reads and writes.
pub proof fn law_glm52_sparse_prefill_is_accepted_when_it_fits(c: Glm52SparsePrefillCall)
    ensures
        c.fault() is None <==> {
            &&& c.query_rows > 0
            &&& c.kv_rows > 0
            &&& c.topk > 0
            &&& c.topk <= 2048
            &&& c.topk % 64 == 0
            &&& crate::float_bits::finite(c.sm_scale_bits)
            &&& crate::float_bits::positive(c.sm_scale_bits)
            &&& c.q_len >= c.query_rows * 64 * 576
            &&& c.kv_len >= c.kv_rows * 576
            &&& c.topk_indices_len >= c.query_rows * c.topk
            &&& (c.topk_length_len matches Some(len) ==> len >= c.query_rows)
            &&& c.out_len >= c.query_rows * 64 * 512
            &&& c.max_logits_len >= c.query_rows * 64
            &&& c.lse_len >= c.query_rows * 64
        },
{
}

/// A sparse prefill is launched with its own numbers, each where it belongs.
pub proof fn law_glm52_sparse_prefill_launches_its_own_numbers(c: Glm52SparsePrefillCall)
    requires
        c.fault() is None,
    ensures
        c.query_rows <= i32::MAX ==> c.launch().query_rows == c.query_rows,
        c.kv_rows <= i32::MAX ==> c.launch().kv_rows == c.kv_rows,
        c.launch().topk == c.topk,
{
}

/// The contract of a sparse decode is accepted exactly when its own operands
/// hold what it reads and writes.
pub proof fn law_glm52_flash_mla_sparse_decode_is_accepted_when_it_fits(
    c: Glm52FlashMlaSparseDecode,
)
    ensures
        c.fault() is None <==> {
            &&& 1 <= c.batch_size <= 128
            &&& c.num_blocks > 0
            &&& c.kv_block_stride_bytes >= 41984
            &&& c.kv_block_stride_bytes % 656 == 0
            &&& 0 < c.topk <= 2048
            &&& c.topk % 64 == 0
            &&& 1 <= c.num_sm_parts <= 160
            &&& crate::float_bits::finite(c.sm_scale)
            &&& crate::float_bits::positive(c.sm_scale)
        },
{
}

/// A sparse decode is accepted exactly when its own operands hold what it
/// reads and writes.
pub proof fn law_glm52_sparse_decode_is_accepted_when_it_fits(c: Glm52SparseDecodeCall)
    ensures
        c.fault() is None <==> {
            &&& c.contract.fault() is None
            &&& c.q_len >= c.contract.batch_size * 64 * 576
            &&& c.packed_kv_cache_len >= c.contract.kv_layer_offset_bytes
                    + (c.contract.num_blocks - 1) * c.contract.kv_block_stride_bytes + 41984
            &&& c.topk_indices_len >= c.contract.batch_size * c.contract.topk
            &&& c.tile_scheduler_metadata_len >= c.contract.num_sm_parts * 8
            &&& c.num_splits_len >= c.contract.batch_size + 1
            &&& c.out_latent_len >= c.contract.batch_size * 64 * 512
            &&& c.lse_len >= c.contract.batch_size * 64
            &&& c.lse_accum_len >= ((c.contract.batch_size + c.contract.num_sm_parts) * 64)
            &&& c.o_accum_len >= ((c.contract.batch_size + c.contract.num_sm_parts) * 64 * 512)
        },
{
    if c.contract.num_blocks > 0 {
        assert((c.contract.num_blocks - 1) * c.contract.kv_block_stride_bytes >= 0)
            by (nonlinear_arith)
            requires
                c.contract.num_blocks > 0,
        ;
    }
}

/// A sparse decode is launched with its own numbers, each where it belongs.
pub proof fn law_glm52_sparse_decode_launches_its_own_numbers(c: Glm52SparseDecodeCall)
    requires
        c.fault() is None,
    ensures
        c.launch().kv_bytes == c.contract.kv_layer_offset_bytes,
        c.launch().batch_size == c.contract.batch_size,
        c.contract.num_blocks <= i32::MAX ==> c.launch().num_blocks == c.contract.num_blocks,
        c.contract.kv_block_stride_bytes <= i64::MAX ==> c.launch().block_stride_bytes
            == c.contract.kv_block_stride_bytes,
        c.launch().topk == c.contract.topk,
        c.launch().num_sm_parts == c.contract.num_sm_parts,
{
}

/// Metadata buffers pass exactly when they hold eight words for every part and
/// one split boundary more than requests. A plan is made for one whole page of
/// the request's own batch, selection and parts.
pub proof fn law_metadata_buffers_cover_the_plan(
    batch_size: usize,
    topk: usize,
    num_sm_parts: usize,
    metadata_len: usize,
    splits_len: usize,
)
    ensures
        ({
            let plan = planning_contract(batch_size, topk, num_sm_parts);
            &&& metadata_fault(plan, metadata_len, splits_len) is None <==> metadata_len >= 8
                * num_sm_parts && splits_len > batch_size
            &&& plan.fault() is None <==> {
                &&& 1 <= batch_size <= 128
                &&& 64 <= topk <= 2048
                &&& topk % 64 == 0
                &&& 1 <= num_sm_parts <= 160
            }
            &&& plan.kv_bytes() == 64 * 656
        }),
{
    let plan = planning_contract(batch_size, topk, num_sm_parts);
    crate::float_bits::law_predicates_follow_the_encoding(plan.sm_scale);
    assert((plan.num_blocks - 1) * plan.kv_block_stride_bytes == 0) by (nonlinear_arith)
        requires
            plan.num_blocks == 1,
    ;
}

/// A page holds whole tokens.
pub proof fn law_a_page_holds_whole_tokens()
    ensures
        GLM52_FLASHMLA_SPARSE_PAGE_SIZE == 64,
        GLM52_FLASHMLA_SPARSE_PAGE_BYTES == GLM52_FLASHMLA_SPARSE_PAGE_SIZE
            * GLM52_FLASHMLA_SPARSE_BYTES_PER_TOKEN,
{
}

/// A sparse prefill that is accepted, and then gets one buffer that does not
/// fit, is refused over that buffer: the answer names the check and shows
/// what it compared.
pub proof fn law_glm52_sparse_prefill_is_refused_over_the_buffer_at_fault(
    c: Glm52SparsePrefillCall,
    n: usize,
)
    requires
        c.fault() is None,
    ensures
        n < c.query_rows * 64 * 576 ==> (Glm52SparsePrefillCall { q_len: n, ..c }).fault() == Some(
            KernelError::Invalid { what: "GLM5.2 FlashMLA sparse prefill buffers are too small" },
        ),
        n < c.kv_rows * 576 ==> (Glm52SparsePrefillCall { kv_len: n, ..c }).fault() == Some(
            KernelError::Invalid { what: "GLM5.2 FlashMLA sparse prefill buffers are too small" },
        ),
        n < c.query_rows * c.topk ==> (Glm52SparsePrefillCall { topk_indices_len: n,
            ..c }).fault() == Some(
            KernelError::Invalid { what: "GLM5.2 FlashMLA sparse prefill buffers are too small" },
        ),
        n < c.query_rows * 64 * 512 ==> (Glm52SparsePrefillCall { out_len: n, ..c }).fault()
            == Some(
            KernelError::Invalid { what: "GLM5.2 FlashMLA sparse prefill buffers are too small" },
        ),
        n < c.query_rows * 64 ==> (Glm52SparsePrefillCall { max_logits_len: n, ..c }).fault()
            == Some(
            KernelError::Invalid { what: "GLM5.2 FlashMLA sparse prefill buffers are too small" },
        ),
        n < c.query_rows * 64 ==> (Glm52SparsePrefillCall { lse_len: n, ..c }).fault() == Some(
            KernelError::Invalid { what: "GLM5.2 FlashMLA sparse prefill buffers are too small" },
        ),
{
}

/// A sparse decode that is accepted, and then gets one buffer that does not
/// fit, is refused over that buffer: the answer names the check and shows
/// what it compared.
pub proof fn law_glm52_sparse_decode_is_refused_over_the_buffer_at_fault(
    c: Glm52SparseDecodeCall,
    n: usize,
)
    requires
        c.fault() is None,
    ensures
        n < c.contract.batch_size * 64 * 576 ==> (Glm52SparseDecodeCall { q_len: n,
            ..c }).fault() == Some(
            KernelError::Rejected {
                what: "GLM5.2 FlashMLA sparse q too small",
                got: n,
                want: (c.contract.batch_size * 64 * 576) as usize,
            },
        ),
        n < c.contract.kv_bytes() ==> (Glm52SparseDecodeCall { packed_kv_cache_len: n,
            ..c }).fault() == Some(
            KernelError::Rejected {
                what: "GLM5.2 FlashMLA sparse packed kv cache too small",
                got: n,
                want: (c.contract.kv_bytes()) as usize,
            },
        ),
        n < c.contract.batch_size
            * c.contract.topk ==> (Glm52SparseDecodeCall { topk_indices_len: n, ..c }).fault()
            == Some(
            KernelError::Rejected {
                what: "GLM5.2 FlashMLA sparse topk_indices too small",
                got: n,
                want: (c.contract.batch_size * c.contract.topk) as usize,
            },
        ),
        n < c.contract.batch_size * 64 * 512 ==> (Glm52SparseDecodeCall { out_latent_len: n,
            ..c }).fault() == Some(
            KernelError::Rejected {
                what: "GLM5.2 FlashMLA sparse latent output too small",
                got: n,
                want: (c.contract.batch_size * 64 * 512) as usize,
            },
        ),
        n < c.contract.batch_size * 64 ==> (Glm52SparseDecodeCall { lse_len: n, ..c }).fault()
            == Some(
            KernelError::Rejected {
                what: "GLM5.2 FlashMLA sparse lse too small",
                got: n,
                want: (c.contract.batch_size * 64) as usize,
            },
        ),
        n < (c.contract.batch_size + c.contract.num_sm_parts)
            * 64 ==> (Glm52SparseDecodeCall { lse_accum_len: n, ..c }).fault() == Some(
            KernelError::Rejected {
                what: "GLM5.2 FlashMLA sparse lse_accum too small",
                got: n,
                want: ((c.contract.batch_size + c.contract.num_sm_parts) * 64) as usize,
            },
        ),
        n < (c.contract.batch_size + c.contract.num_sm_parts) * 64
            * 512 ==> (Glm52SparseDecodeCall { o_accum_len: n, ..c }).fault() == Some(
            KernelError::Rejected {
                what: "GLM5.2 FlashMLA sparse o_accum too small",
                got: n,
                want: ((c.contract.batch_size + c.contract.num_sm_parts) * 64 * 512) as usize,
            },
        ),
{
}

} // verus!
