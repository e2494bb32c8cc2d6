//! The GLM 5.2 indexer: its paged key cache, its head weights and the
//! conversion of its picks to cache slots.

use vstd::prelude::*;

use crate::error::checked_product;
use crate::error::checked_sum;
use crate::error::ensure;
use crate::error::ensure_that;
use crate::error::FaultList;
use crate::error::holds_product;
use crate::error::KernelError;

verus! {

/// Width of an indexer head.
pub const GLM52_INDEXER_HEAD_DIM: usize = 128;

/// Elements that share a scale.
pub const GLM52_INDEXER_QUANT_BLOCK_SIZE: usize = 128;

/// Cached bytes of a token: its key and its scale.
pub const GLM52_INDEXER_TOKEN_BYTES: usize = 132;

/// The most picks of a query.
pub const GLM52_INDEXER_TOPK: usize = 2048;

/// Where the indexer keys of a layer stand in the cache.
#[derive(Clone, Copy, Debug, PartialEq, Eq)]
pub struct Glm52IndexerCacheLayout {
    pub cache_blocks: usize,
    pub cache_block_size: usize,
    /// Bytes before the layer's first page.
    pub cache_layer_offset_bytes: usize,
    pub cache_block_stride_bytes: usize,
}

impl Glm52IndexerCacheLayout {
    /// Why the layout is refused, if it is.
    pub open spec fn fault(self) -> Option<KernelError> {
        KernelError::unless(
            self.cache_blocks > 0,
            "GLM5.2 indexer cache_blocks must be positive",
        )
            .or_fault(KernelError::unless(
                self.cache_block_size > 0,
                "GLM5.2 indexer cache_block_size must be positive",
            ))
            .or_fault(KernelError::unless(
                self.cache_block_stride_bytes >= self.cache_block_size * GLM52_INDEXER_TOKEN_BYTES,
                "GLM5.2 indexer cache block stride too small",
            ))
    }

    /// Refuse a layout without room for its blocks.
    pub fn validate(&self) -> (r: Result<(), KernelError>)
        ensures
            r == KernelError::outcome(self.fault(), ()),
    {
        ensure_that(self.cache_blocks > 0, "GLM5.2 indexer cache_blocks must be positive")?;
        ensure_that(
            self.cache_block_size > 0,
            "GLM5.2 indexer cache_block_size must be positive",
        )?;
        ensure_that(
            holds_product(
                self.cache_block_stride_bytes,
                self.cache_block_size,
                GLM52_INDEXER_TOKEN_BYTES,
            ),
            "GLM5.2 indexer cache block stride too small",
        )
    }

    /// Bytes up to the end of the last block.
    pub open spec fn cache_bytes(self) -> int {
        self.cache_blocks * self.cache_block_stride_bytes + self.cache_layer_offset_bytes
    }

    /// Why the layout has no byte size, if it has none.
    pub open spec fn bytes_fault(self) -> Option<KernelError> {
        self.fault().or_fault(
            KernelError::overflow(self.cache_bytes(), "GLM5.2 indexer cache byte size"),
        )
    }

    /// Bytes that the cache has to have.
    pub fn min_cache_bytes(&self) -> (r: Result<usize, KernelError>)
        ensures
            r == KernelError::outcome(self.bytes_fault(), self.cache_bytes() as usize),
    {
        self.validate()?;
        proof {
            assert(self.cache_blocks * self.cache_block_stride_bytes >= 0) by (nonlinear_arith);
        }
        let extent: usize = checked_product(
            self.cache_blocks,
            self.cache_block_stride_bytes,
            "GLM5.2 indexer cache byte size",
        )?;
        checked_sum(
            extent,
            self.cache_layer_offset_bytes,
            "GLM5.2 indexer cache byte size",
        )
    }
}

/// An insertion of tokens into the cache.
#[derive(Clone, Copy, Debug, PartialEq, Eq)]
pub struct Glm52IndexerCacheInsert {
    pub tokens: usize,
    pub layout: Glm52IndexerCacheLayout,
}

impl Glm52IndexerCacheInsert {
    /// Why the insertion is refused, if it is.
    pub open spec fn fault(self) -> Option<KernelError> {
        KernelError::unless(
            self.tokens > 0,
            "GLM5.2 indexer cache insert tokens must be positive",
        ).or_fault(self.layout.fault())
    }

    /// Refuse an empty insertion and a layout without room.
    pub fn validate(&self) -> (r: Result<(), KernelError>)
        ensures
            r == KernelError::outcome(self.fault(), ()),
    {
        ensure_that(self.tokens > 0, "GLM5.2 indexer cache insert tokens must be positive")?;
        self.layout.validate()
    }
}

/// What [`glm52_indexer_k_quant_and_cache_launch`] takes.
#[derive(Clone, Copy, Debug)]
pub struct Glm52KCacheCall {
    pub contract: Glm52IndexerCacheInsert,
    pub k_len: usize,
    pub indexer_cache_len: usize,
    pub slot_mapping_len: usize,
}

/// The C arguments that [`glm52_indexer_k_quant_and_cache_launch`] derives, with
/// the bytes before the layer in the cache.
#[derive(Clone, Copy, Debug, PartialEq, Eq)]
pub struct Glm52KCacheLaunch {
    pub cache_bytes: u64,
    pub tokens: i32,
    pub head_dim: i32,
    pub quant_block: i32,
    pub block_size: i32,
    pub block_stride_bytes: i64,
}

impl Glm52KCacheCall {
    /// Why the kernel cannot run, if it cannot.
    pub open spec fn fault(self) -> Option<KernelError> {
        let min_cache_bytes = self.contract.layout.cache_bytes();
        self.contract.fault()
            .or_fault(KernelError::unless(
                self.k_len >= self.contract.tokens * GLM52_INDEXER_HEAD_DIM,
                "GLM5.2 indexer K buffer too small",
            ))
            .or_fault(KernelError::unless_sized(
                self.slot_mapping_len >= self.contract.tokens,
                "GLM5.2 indexer slot_mapping too small",
                self.slot_mapping_len as int,
                self.contract.tokens as int,
            ))
            .or_fault(self.contract.layout.bytes_fault())
            .or_fault(KernelError::unless_sized(
                self.indexer_cache_len >= min_cache_bytes,
                "GLM5.2 indexer cache buffer too small",
                self.indexer_cache_len as int,
                min_cache_bytes,
            ))
    }

    /// The launch of a call without a fault.
    pub open spec fn launch(self) -> Glm52KCacheLaunch {
        Glm52KCacheLaunch {
            cache_bytes: self.contract.layout.cache_layer_offset_bytes as u64,
            tokens: self.contract.tokens as i32,
            head_dim: GLM52_INDEXER_HEAD_DIM as i32,
            quant_block: GLM52_INDEXER_QUANT_BLOCK_SIZE as i32,
            block_size: self.contract.layout.cache_block_size as i32,
            block_stride_bytes: self.contract.layout.cache_block_stride_bytes as i64,
        }
    }
}

/// Quantize the indexer keys of a step and store them in the cache.
pub fn glm52_indexer_k_quant_and_cache_launch(c: &Glm52KCacheCall) -> (r: Result<
    Glm52KCacheLaunch,
    KernelError,
>)
    ensures
        r == KernelError::outcome(c.fault(), c.launch()),
{
    c.contract.validate()?;
    ensure_that(
        holds_product(c.k_len, c.contract.tokens, GLM52_INDEXER_HEAD_DIM),
        "GLM5.2 indexer K buffer too small",
    )?;
    ensure(
        c.slot_mapping_len >= c.contract.tokens,
        "GLM5.2 indexer slot_mapping too small",
        c.slot_mapping_len,
        c.contract.tokens,
    )?;
    let min_cache_bytes: usize = c.contract.layout.min_cache_bytes()?;
    ensure(
        c.indexer_cache_len >= min_cache_bytes,
        "GLM5.2 indexer cache buffer too small",
        c.indexer_cache_len,
        min_cache_bytes,
    )?;
    Ok(Glm52KCacheLaunch {
        cache_bytes: c.contract.layout.cache_layer_offset_bytes as u64,
        tokens: c.contract.tokens as i32,
        head_dim: GLM52_INDEXER_HEAD_DIM as i32,
        quant_block: GLM52_INDEXER_QUANT_BLOCK_SIZE as i32,
        block_size: c.contract.layout.cache_block_size as i32,
        block_stride_bytes: c.contract.layout.cache_block_stride_bytes as i64,
    })
}

/// A conversion of local picks to slots of the cache.
#[derive(Clone, Copy, Debug, PartialEq, Eq)]
pub struct Glm52IndexerLocalTopKToSlots {
    pub num_tokens: usize,
    pub topk: usize,
    pub block_size: usize,
    pub block_table_cols: usize,
}

impl Glm52IndexerLocalTopKToSlots {
    /// Why the conversion is refused, if it is.
    pub open spec fn fault(self) -> Option<KernelError> {
        KernelError::unless(
            self.num_tokens > 0,
            "GLM5.2 indexer local_topk_to_slots num_tokens must be positive",
        )
            .or_fault(KernelError::unless(
                self.topk > 0,
                "GLM5.2 indexer local_topk_to_slots topk must be positive",
            ))
            .or_fault(KernelError::unless(
                self.block_size > 0,
                "GLM5.2 indexer local_topk_to_slots block_size must be positive",
            ))
            .or_fault(KernelError::unless(
                self.block_table_cols > 0,
                "GLM5.2 indexer local_topk_to_slots block_table_cols must be positive",
            ))
    }

    /// Refuse a conversion of nothing.
    pub fn validate(&self) -> (r: Result<(), KernelError>)
        ensures
            r == KernelError::outcome(self.fault(), ()),
    {
        ensure_that(
            self.num_tokens > 0,
            "GLM5.2 indexer local_topk_to_slots num_tokens must be positive",
        )?;
        ensure_that(
            self.topk > 0,
            "GLM5.2 indexer local_topk_to_slots topk must be positive",
        )?;
        ensure_that(
            self.block_size > 0,
            "GLM5.2 indexer local_topk_to_slots block_size must be positive",
        )?;
        ensure_that(
            self.block_table_cols > 0,
            "GLM5.2 indexer local_topk_to_slots block_table_cols must be positive",
        )
    }
}

/// What [`glm52_indexer_local_topk_to_slots_launch`] takes.
#[derive(Clone, Copy, Debug)]
pub struct Glm52TopkSlotsCall {
    pub contract: Glm52IndexerLocalTopKToSlots,
    pub local_topk_offsets_len: usize,
    pub seq_lens_len: usize,
    pub block_table_len: usize,
    pub global_slots_len: usize,
    pub topk_lens_len: usize,
}

/// The C arguments that [`glm52_indexer_local_topk_to_slots_launch`] derives.
#[derive(Clone, Copy, Debug, PartialEq, Eq)]
pub struct Glm52TopkSlotsLaunch {
    pub offsets_stride: i32,
    pub table_stride: i32,
    pub table_cols: i32,
    pub block_size: i32,
    pub topk: i32,
    pub num_tokens: i32,
}

impl Glm52TopkSlotsCall {
    /// Why the kernel cannot run, if it cannot.
    pub open spec fn fault(self) -> Option<KernelError> {
        self.contract.fault()
            .or_fault(KernelError::unless(
                self.local_topk_offsets_len >= self.contract.num_tokens * self.contract.topk,
                "GLM5.2 indexer local_topk_to_slots offsets too small",
            ))
            .or_fault(KernelError::unless_sized(
                self.seq_lens_len >= self.contract.num_tokens,
                "GLM5.2 indexer local_topk_to_slots seq_lens too small",
                self.seq_lens_len as int,
                self.contract.num_tokens as int,
            ))
            .or_fault(KernelError::unless(
                self.block_table_len >= self.contract.num_tokens * self.contract.block_table_cols,
                "GLM5.2 indexer local_topk_to_slots block_table too small",
            ))
            .or_fault(KernelError::unless(
                self.global_slots_len >= self.contract.num_tokens * self.contract.topk,
                "GLM5.2 indexer local_topk_to_slots global_slots too small",
            ))
            .or_fault(KernelError::unless_sized(
                self.topk_lens_len >= self.contract.num_tokens,
                "GLM5.2 indexer local_topk_to_slots topk_lens too small",
                self.topk_lens_len as int,
                self.contract.num_tokens as int,
            ))
    }

    /// The launch of a call without a fault.
    pub open spec fn launch(self) -> Glm52TopkSlotsLaunch {
        Glm52TopkSlotsLaunch {
            offsets_stride: self.contract.topk as i32,
            table_stride: self.contract.block_table_cols as i32,
            table_cols: self.contract.block_table_cols as i32,
            block_size: self.contract.block_size as i32,
            topk: self.contract.topk as i32,
            num_tokens: self.contract.num_tokens as i32,
        }
    }
}

/// Turn picks within a sequence into slots of the cache through the block table.
/// A pick outside the sequence becomes minus one, and the valid picks of every
/// token are counted.
pub fn glm52_indexer_local_topk_to_slots_launch(c: &Glm52TopkSlotsCall) -> (r: Result<
    Glm52TopkSlotsLaunch,
    KernelError,
>)
    ensures
        r == KernelError::outcome(c.fault(), c.launch()),
{
    c.contract.validate()?;
    ensure_that(
        holds_product(c.local_topk_offsets_len, c.contract.num_tokens, c.contract.topk),
        "GLM5.2 indexer local_topk_to_slots offsets too small",
    )?;
    ensure(
        c.seq_lens_len >= c.contract.num_tokens,
        "GLM5.2 indexer local_topk_to_slots seq_lens too small",
        c.seq_lens_len,
        c.contract.num_tokens,
    )?;
    ensure_that(
        holds_product(c.block_table_len, c.contract.num_tokens, c.contract.block_table_cols),
        "GLM5.2 indexer local_topk_to_slots block_table too small",
    )?;
    ensure_that(
        holds_product(c.global_slots_len, c.contract.num_tokens, c.contract.topk),
        "GLM5.2 indexer local_topk_to_slots global_slots too small",
    )?;
    ensure(
        c.topk_lens_len >= c.contract.num_tokens,
        "GLM5.2 indexer local_topk_to_slots topk_lens too small",
        c.topk_lens_len,
        c.contract.num_tokens,
    )?;
    Ok(Glm52TopkSlotsLaunch {
        offsets_stride: c.contract.topk as i32,
        table_stride: c.contract.block_table_cols as i32,
        table_cols: c.contract.block_table_cols as i32,
        block_size: c.contract.block_size as i32,
        topk: c.contract.topk as i32,
        num_tokens: c.contract.num_tokens as i32,
    })
}

/// The most tokens of the small matrix-vector product.
pub const GLM52_MIN_GEMV_MAX_TOKENS: usize = 96;

/// Whether the small product is instantiated for a token count.
pub open spec fn min_gemv_instantiated(tokens: usize) -> bool {
    1 <= tokens <= 8 || tokens == 16 || tokens == 32 || tokens == 48 || tokens == 64 || tokens
        == 96
}

/// Whether the small product is instantiated for a token count: one to eight,
/// or a decode batch size.
pub fn glm52_min_gemv_tokens_supported(tokens: usize) -> (r: bool)
    ensures
        r == min_gemv_instantiated(tokens),
        r ==> tokens <= GLM52_MIN_GEMV_MAX_TOKENS,
{
    (1 <= tokens && tokens <= 8) || tokens == 16 || tokens == 32 || tokens == 48 || tokens == 64
        || tokens == 96
}

/// The head weights of every token, by a small product of fixed order: the
/// tokens, the heads and the hidden size.
pub fn glm52_indexer_weights_proj_launch(
    hidden_len: usize,
    weights_proj_len: usize,
    tokens: usize,
    heads: usize,
    hidden_dim: usize,
    out_len: usize,
) -> (r: Result<(i32, i32, i32), KernelError>)
    ensures
        r == KernelError::outcome(
            KernelError::unless(
                min_gemv_instantiated(tokens),
                "GLM5.2 indexer weights_proj tokens not instantiated",
            )
                .or_fault(KernelError::unless(
                    hidden_len >= tokens * hidden_dim,
                    "GLM5.2 indexer weights_proj hidden too small",
                ))
                .or_fault(KernelError::unless(
                    weights_proj_len >= heads * hidden_dim,
                    "GLM5.2 indexer weights_proj weights too small",
                ))
                .or_fault(KernelError::unless(
                    out_len >= tokens * heads,
                    "GLM5.2 indexer weights_proj out too small",
                )),
            (tokens as i32, heads as i32, hidden_dim as i32),
        ),
{
    ensure_that(
        glm52_min_gemv_tokens_supported(tokens),
        "GLM5.2 indexer weights_proj tokens not instantiated",
    )?;
    ensure_that(
        holds_product(hidden_len, tokens, hidden_dim),
        "GLM5.2 indexer weights_proj hidden too small",
    )?;
    ensure_that(
        holds_product(weights_proj_len, heads, hidden_dim),
        "GLM5.2 indexer weights_proj weights too small",
    )?;
    ensure_that(
        holds_product(out_len, tokens, heads),
        "GLM5.2 indexer weights_proj out too small",
    )?;
    Ok((tokens as i32, heads as i32, hidden_dim as i32))
}

/// Fold the head weights with their quantization scales: the heads.
pub fn glm52_indexer_weights_fold_launch(
    weights_len: usize,
    q_scale_len: usize,
    out_len: usize,
) -> (r: Result<i32, KernelError>)
    ensures
        r == KernelError::outcome(
            KernelError::unless(out_len > 0, "GLM5.2 indexer weights fold is empty")
                .or_fault(KernelError::unless(
                    weights_len >= out_len && q_scale_len >= out_len,
                    "GLM5.2 indexer weights fold inputs too small",
                )),
            out_len as i32,
        ),
{
    ensure_that(out_len > 0, "GLM5.2 indexer weights fold is empty")?;
    ensure_that(
        weights_len >= out_len && q_scale_len >= out_len,
        "GLM5.2 indexer weights fold inputs too small",
    )?;
    Ok(out_len as i32)
}

/// What [`glm52_indexer_k_gather_launch`] takes.
#[derive(Clone, Copy, Debug)]
pub struct Glm52KGatherCall {
    pub num_requests: usize,
    pub table_stride: usize,
    pub block_size: usize,
    pub layer_offset_bytes: usize,
    pub block_stride_bytes: usize,
    pub block_table_len: usize,
    pub seq_lens_len: usize,
    pub out_offsets_len: usize,
}

/// The C arguments that [`glm52_indexer_k_gather_launch`] derives.
#[derive(Clone, Copy, Debug, PartialEq, Eq)]
pub struct Glm52KGatherLaunch {
    pub cache_bytes: u64,
    pub num_requests: i32,
    pub table_stride: i32,
    pub block_size: i32,
    pub block_stride_bytes: i64,
}

impl Glm52KGatherCall {
    /// Why the kernel cannot run, if it cannot.
    pub open spec fn fault(self) -> Option<KernelError> {
        KernelError::unless(
            self.num_requests > 0 && self.table_stride > 0 && self.block_size > 0
                && self.block_stride_bytes >= self.block_size * GLM52_INDEXER_TOKEN_BYTES
                && self.block_table_len >= self.num_requests * self.table_stride
                && self.seq_lens_len >= self.num_requests
                && self.out_offsets_len >= self.num_requests,
            "GLM5.2 indexer K gather shape is invalid",
        )
    }

    /// The launch of a call without a fault.
    pub open spec fn launch(self) -> Glm52KGatherLaunch {
        Glm52KGatherLaunch {
            cache_bytes: self.layer_offset_bytes as u64,
            num_requests: self.num_requests as i32,
            table_stride: self.table_stride as i32,
            block_size: self.block_size as i32,
            block_stride_bytes: self.block_stride_bytes as i64,
        }
    }
}

/// Gather the paged keys into a compact layout, with the slot of every position.
pub fn glm52_indexer_k_gather_launch(c: &Glm52KGatherCall) -> (r: Result<
    Glm52KGatherLaunch,
    KernelError,
>)
    ensures
        r == KernelError::outcome(c.fault(), c.launch()),
{
    ensure_that(
        c.num_requests > 0 && c.table_stride > 0 && c.block_size > 0
            && holds_product(c.block_stride_bytes, c.block_size, GLM52_INDEXER_TOKEN_BYTES)
            && holds_product(c.block_table_len, c.num_requests, c.table_stride)
            && c.seq_lens_len >= c.num_requests && c.out_offsets_len >= c.num_requests,
        "GLM5.2 indexer K gather shape is invalid",
    )?;
    Ok(Glm52KGatherLaunch {
        cache_bytes: c.layer_offset_bytes as u64,
        num_requests: c.num_requests as i32,
        table_stride: c.table_stride as i32,
        block_size: c.block_size as i32,
        block_stride_bytes: c.block_stride_bytes as i64,
    })
}

/// What [`glm52_indexer_topk_to_slots_lut_launch`] takes.
#[derive(Clone, Copy, Debug)]
pub struct Glm52TopkLutCall {
    pub rows: usize,
    pub topk: usize,
    pub topk_offsets_len: usize,
    pub context_lens_len: usize,
    pub cu_seqlen_ks_len: usize,
    pub slot_lut_len: usize,
    pub global_slots_len: usize,
    pub topk_lens_len: usize,
}

/// The C arguments that [`glm52_indexer_topk_to_slots_lut_launch`] derives.
#[derive(Clone, Copy, Debug, PartialEq, Eq)]
pub struct Glm52TopkLutLaunch {
    pub rows: i32,
    pub topk: i32,
}

impl Glm52TopkLutCall {
    /// Why the kernel cannot run, if it cannot.
    pub open spec fn fault(self) -> Option<KernelError> {
        KernelError::unless(
            self.rows > 0 && self.topk > 0 && self.topk <= GLM52_INDEXER_TOPK
                && self.topk_offsets_len >= self.rows * self.topk
                && self.context_lens_len >= self.rows && self.cu_seqlen_ks_len >= self.rows
                && self.slot_lut_len >= 1 && self.global_slots_len >= self.rows * self.topk
                && self.topk_lens_len >= self.rows,
            "GLM5.2 indexer top-k LUT conversion buffers are invalid",
        )
    }

    /// The launch of a call without a fault.
    pub open spec fn launch(self) -> Glm52TopkLutLaunch {
        Glm52TopkLutLaunch {
            rows: self.rows as i32,
            topk: self.topk as i32,
        }
    }
}

/// Turn picks within a request's segment into slots through the gathered
/// positions. A pick outside the segment becomes minus one.
pub fn glm52_indexer_topk_to_slots_lut_launch(c: &Glm52TopkLutCall) -> (r: Result<
    Glm52TopkLutLaunch,
    KernelError,
>)
    ensures
        r == KernelError::outcome(c.fault(), c.launch()),
{
    ensure_that(
        c.rows > 0 && c.topk > 0 && c.topk <= GLM52_INDEXER_TOPK
            && holds_product(c.topk_offsets_len, c.rows, c.topk) && c.context_lens_len >= c.rows
            && c.cu_seqlen_ks_len >= c.rows && c.slot_lut_len >= 1
            && holds_product(c.global_slots_len, c.rows, c.topk) && c.topk_lens_len >= c.rows,
        "GLM5.2 indexer top-k LUT conversion buffers are invalid",
    )?;
    Ok(Glm52TopkLutLaunch {
        rows: c.rows as i32,
        topk: c.topk as i32,
    })
}

/// Where the room that a block reserves for token `t` starts, in bytes from the
/// start of the cache: the block has room for one key and one scale per token,
/// in whatever order the kernel keeps them.
pub open spec fn token_room(layout: Glm52IndexerCacheLayout, block: int, t: int) -> int {
    layout.cache_layer_offset_bytes + block * layout.cache_block_stride_bytes + t
        * GLM52_INDEXER_TOKEN_BYTES
}

/// The room of every token of an accepted layout is inside its own block, and
/// the last block ends inside the bytes that the layout asks for.
pub proof fn law_token_rooms_stay_in_their_block(
    layout: Glm52IndexerCacheLayout,
    block: int,
    t: int,
)
    requires
        layout.bytes_fault() is None,
        0 <= block < layout.cache_blocks,
        0 <= t < layout.cache_block_size,
    ensures
        layout.cache_layer_offset_bytes + block * layout.cache_block_stride_bytes <= token_room(
            layout,
            block,
            t,
        ),
        token_room(layout, block, t) + GLM52_INDEXER_TOKEN_BYTES
            <= layout.cache_layer_offset_bytes + (block + 1) * layout.cache_block_stride_bytes,
        layout.cache_layer_offset_bytes + (block + 1) * layout.cache_block_stride_bytes
            <= layout.cache_bytes(),
{
    let stride = layout.cache_block_stride_bytes as int;
    assert((t + 1) * GLM52_INDEXER_TOKEN_BYTES <= layout.cache_block_size
        * GLM52_INDEXER_TOKEN_BYTES) by (nonlinear_arith)
        requires
            t + 1 <= layout.cache_block_size,
    ;
    assert((block + 1) * stride == block * stride + stride) by (nonlinear_arith);
    assert((block + 1) * stride <= layout.cache_blocks * stride) by (nonlinear_arith)
        requires
            block + 1 <= layout.cache_blocks,
            stride >= 0,
    ;
}

/// An indexer cache layout is accepted exactly when its own operands hold
/// what it reads and writes.
pub proof fn law_glm52_indexer_cache_layout_is_accepted_when_it_fits(c: Glm52IndexerCacheLayout)
    ensures
        c.fault() is None <==> {
            &&& c.cache_blocks > 0
            &&& c.cache_block_size > 0
            &&& c.cache_block_stride_bytes >= c.cache_block_size * 132
        },
{
}

/// The contract of an indexer cache insert is accepted exactly when its own
/// operands hold what it reads and writes.
pub proof fn law_glm52_indexer_cache_insert_is_accepted_when_it_fits(c: Glm52IndexerCacheInsert)
    ensures
        c.fault() is None <==> {
            &&& c.tokens > 0
            &&& c.layout.fault() is None
        },
{
}

/// An indexer cache insert is accepted exactly when its own operands hold
/// what it reads and writes.
pub proof fn law_glm52_k_cache_is_accepted_when_it_fits(c: Glm52KCacheCall)
    ensures
        c.fault() is None <==> {
            &&& c.contract.fault() is None
            &&& c.k_len >= c.contract.tokens * 128
            &&& c.slot_mapping_len >= c.contract.tokens
            &&& c.contract.layout.cache_blocks * c.contract.layout.cache_block_stride_bytes
                    + c.contract.layout.cache_layer_offset_bytes <= c.indexer_cache_len
        },
{
    assert(c.contract.layout.cache_blocks * c.contract.layout.cache_block_stride_bytes >= 0)
        by (nonlinear_arith);
}

/// An indexer cache insert is launched with its own numbers, each where it
/// belongs.
pub proof fn law_glm52_k_cache_launches_its_own_numbers(c: Glm52KCacheCall)
    requires
        c.fault() is None,
    ensures
        c.launch().cache_bytes == c.contract.layout.cache_layer_offset_bytes,
        c.contract.tokens <= i32::MAX ==> c.launch().tokens == c.contract.tokens,
        c.launch().head_dim == 128,
        c.launch().quant_block == 128,
        c.contract.layout.cache_block_size <= i32::MAX ==> c.launch().block_size
            == c.contract.layout.cache_block_size,
        c.contract.layout.cache_block_stride_bytes <= i64::MAX
            ==> c.launch().block_stride_bytes == c.contract.layout.cache_block_stride_bytes,
{
}

/// The contract of a selection of slots is accepted exactly when its own
/// operands hold what it reads and writes.
pub proof fn law_glm52_indexer_local_top_k_to_slots_is_accepted_when_it_fits(
    c: Glm52IndexerLocalTopKToSlots,
)
    ensures
        c.fault() is None <==> {
            &&& c.num_tokens > 0
            &&& c.topk > 0
            &&& c.block_size > 0
            &&& c.block_table_cols > 0
        },
{
}

/// A selection of slots is accepted exactly when its own operands hold what
/// it reads and writes.
pub proof fn law_glm52_topk_slots_is_accepted_when_it_fits(c: Glm52TopkSlotsCall)
    ensures
        c.fault() is None <==> {
            &&& c.contract.fault() is None
            &&& c.local_topk_offsets_len >= c.contract.num_tokens * c.contract.topk
            &&& c.seq_lens_len >= c.contract.num_tokens
            &&& c.block_table_len >= c.contract.num_tokens * c.contract.block_table_cols
            &&& c.global_slots_len >= c.contract.num_tokens * c.contract.topk
            &&& c.topk_lens_len >= c.contract.num_tokens
        },
{
}

/// A selection of slots is launched with its own numbers, each where it
/// belongs.
pub proof fn law_glm52_topk_slots_launches_its_own_numbers(c: Glm52TopkSlotsCall)
    requires
        c.fault() is None,
    ensures
        c.contract.topk <= i32::MAX ==> c.launch().offsets_stride == c.contract.topk,
        c.contract.block_table_cols <= i32::MAX ==> c.launch().table_stride
            == c.contract.block_table_cols,
        c.contract.block_table_cols <= i32::MAX ==> c.launch().table_cols
            == c.contract.block_table_cols,
        c.contract.block_size <= i32::MAX ==> c.launch().block_size == c.contract.block_size,
        c.contract.topk <= i32::MAX ==> c.launch().topk == c.contract.topk,
        c.contract.num_tokens <= i32::MAX ==> c.launch().num_tokens == c.contract.num_tokens,
{
}

/// A gather of indexer keys is accepted exactly when its own operands hold
/// what it reads and writes.
pub proof fn law_glm52_k_gather_is_accepted_when_it_fits(c: Glm52KGatherCall)
    ensures
        c.fault() is None <==> {
            &&& c.num_requests > 0
            &&& c.table_stride > 0
            &&& c.block_size > 0
            &&& c.block_stride_bytes >= c.block_size * 132
            &&& c.block_table_len >= c.num_requests * c.table_stride
            &&& c.seq_lens_len >= c.num_requests
            &&& c.out_offsets_len >= c.num_requests
        },
{
}

/// A gather of indexer keys is launched with its own numbers, each where it
/// belongs.
pub proof fn law_glm52_k_gather_launches_its_own_numbers(c: Glm52KGatherCall)
    requires
        c.fault() is None,
    ensures
        c.launch().cache_bytes == c.layer_offset_bytes,
        c.num_requests <= i32::MAX ==> c.launch().num_requests == c.num_requests,
        c.table_stride <= i32::MAX ==> c.launch().table_stride == c.table_stride,
        c.block_size <= i32::MAX ==> c.launch().block_size == c.block_size,
        c.block_stride_bytes <= i64::MAX ==> c.launch().block_stride_bytes == c.block_stride_bytes,
{
}

/// A selection of slots through a table is accepted exactly when its own
/// operands hold what it reads and writes.
pub proof fn law_glm52_topk_lut_is_accepted_when_it_fits(c: Glm52TopkLutCall)
    ensures
        c.fault() is None <==> {
            &&& c.rows > 0
            &&& c.topk > 0
            &&& c.topk <= 2048
            &&& c.topk_offsets_len >= c.rows * c.topk
            &&& c.context_lens_len >= c.rows
            &&& c.cu_seqlen_ks_len >= c.rows
            &&& c.slot_lut_len >= 1
            &&& c.global_slots_len >= c.rows * c.topk
            &&& c.topk_lens_len >= c.rows
        },
{
}

/// A selection of slots through a table is launched with its own numbers,
/// each where it belongs.
pub proof fn law_glm52_topk_lut_launches_its_own_numbers(c: Glm52TopkLutCall)
    requires
        c.fault() is None,
    ensures
        c.rows <= i32::MAX ==> c.launch().rows == c.rows,
        c.launch().topk == c.topk,
{
}

/// The cache of a layout ends behind its last block, and its size is given out
/// exactly when the layout is sound and the size can be counted.
pub proof fn law_cache_ends_behind_its_last_block(layout: Glm52IndexerCacheLayout)
    ensures
        layout.cache_bytes() == layout.cache_layer_offset_bytes + layout.cache_blocks
            * layout.cache_block_stride_bytes,
        layout.bytes_fault() is None <==> {
            &&& layout.cache_blocks > 0
            &&& layout.cache_block_size > 0
            &&& layout.cache_block_stride_bytes >= layout.cache_block_size * 132
            &&& layout.cache_bytes() <= usize::MAX
        },
{
    assert(layout.cache_blocks * layout.cache_block_stride_bytes >= 0) by (nonlinear_arith);
}

/// The token counts that the small product is instantiated for.
pub proof fn law_small_products_are_instantiated(tokens: usize)
    ensures
        min_gemv_instantiated(tokens) <==> 0 < tokens && (tokens <= 8 || (tokens % 16 == 0 && tokens
            <= 96 && tokens != 80)),
{
}

/// An indexer cache insert that is accepted, and then gets one buffer that
/// does not fit, is refused over that buffer: the answer names the check and
/// shows what it compared.
pub proof fn law_glm52_k_cache_is_refused_over_the_buffer_at_fault(c: Glm52KCacheCall, n: usize)
    requires
        c.fault() is None,
    ensures
        n < c.contract.tokens * 128 ==> (Glm52KCacheCall { k_len: n, ..c }).fault() == Some(
            KernelError::Invalid { what: "GLM5.2 indexer K buffer too small" },
        ),
        n < c.contract.layout.cache_bytes() ==> (Glm52KCacheCall { indexer_cache_len: n,
            ..c }).fault() == Some(
            KernelError::Rejected {
                what: "GLM5.2 indexer cache buffer too small",
                got: n,
                want: (c.contract.layout.cache_bytes()) as usize,
            },
        ),
        n < c.contract.tokens ==> (Glm52KCacheCall { slot_mapping_len: n, ..c }).fault() == Some(
            KernelError::Rejected {
                what: "GLM5.2 indexer slot_mapping too small",
                got: n,
                want: c.contract.tokens,
            },
        ),
{
}

/// A selection of slots that is accepted, and then gets one buffer that does
/// not fit, is refused over that buffer: the answer names the check and shows
/// what it compared.
pub proof fn law_glm52_topk_slots_is_refused_over_the_buffer_at_fault(
    c: Glm52TopkSlotsCall,
    n: usize,
)
    requires
        c.fault() is None,
    ensures
        n < c.contract.num_tokens
            * c.contract.topk ==> (Glm52TopkSlotsCall { local_topk_offsets_len: n,
            ..c }).fault() == Some(
            KernelError::Invalid { what: "GLM5.2 indexer local_topk_to_slots offsets too small" },
        ),
        n < c.contract.num_tokens ==> (Glm52TopkSlotsCall { seq_lens_len: n, ..c }).fault() == Some(
            KernelError::Rejected {
                what: "GLM5.2 indexer local_topk_to_slots seq_lens too small",
                got: n,
                want: c.contract.num_tokens,
            },
        ),
        n < c.contract.num_tokens
            * c.contract.block_table_cols ==> (Glm52TopkSlotsCall { block_table_len: n,
            ..c }).fault() == Some(
            KernelError::Invalid {
                what: "GLM5.2 indexer local_topk_to_slots block_table too small",
            },
        ),
        n < c.contract.num_tokens * c.contract.topk ==> (Glm52TopkSlotsCall { global_slots_len: n,
            ..c }).fault() == Some(
            KernelError::Invalid {
                what: "GLM5.2 indexer local_topk_to_slots global_slots too small",
            },
        ),
        n < c.contract.num_tokens ==> (Glm52TopkSlotsCall { topk_lens_len: n, ..c }).fault()
            == Some(
            KernelError::Rejected {
                what: "GLM5.2 indexer local_topk_to_slots topk_lens too small",
                got: n,
                want: c.contract.num_tokens,
            },
        ),
{
}

/// A gather of indexer keys that is accepted, and then gets one buffer that
/// does not fit, is refused over that buffer: the answer names the check and
/// shows what it compared.
pub proof fn law_glm52_k_gather_is_refused_over_the_buffer_at_fault(c: Glm52KGatherCall, n: usize)
    requires
        c.fault() is None,
    ensures
        n < c.num_requests * c.table_stride ==> (Glm52KGatherCall { block_table_len: n,
            ..c }).fault() == Some(
            KernelError::Invalid { what: "GLM5.2 indexer K gather shape is invalid" },
        ),
        n < c.num_requests ==> (Glm52KGatherCall { seq_lens_len: n, ..c }).fault() == Some(
            KernelError::Invalid { what: "GLM5.2 indexer K gather shape is invalid" },
        ),
        n < c.num_requests ==> (Glm52KGatherCall { out_offsets_len: n, ..c }).fault() == Some(
            KernelError::Invalid { what: "GLM5.2 indexer K gather shape is invalid" },
        ),
{
}

/// A selection of slots through a table that is accepted, and then gets one
/// buffer that does not fit, is refused over that buffer: the answer names
/// the check and shows what it compared.
pub proof fn law_glm52_topk_lut_is_refused_over_the_buffer_at_fault(c: Glm52TopkLutCall, n: usize)
    requires
        c.fault() is None,
    ensures
        n < c.rows * c.topk ==> (Glm52TopkLutCall { topk_offsets_len: n, ..c }).fault() == Some(
            KernelError::Invalid {
                what: "GLM5.2 indexer top-k LUT conversion buffers are invalid",
            },
        ),
        n < c.rows ==> (Glm52TopkLutCall { context_lens_len: n, ..c }).fault() == Some(
            KernelError::Invalid {
                what: "GLM5.2 indexer top-k LUT conversion buffers are invalid",
            },
        ),
        n < c.rows ==> (Glm52TopkLutCall { cu_seqlen_ks_len: n, ..c }).fault() == Some(
            KernelError::Invalid {
                what: "GLM5.2 indexer top-k LUT conversion buffers are invalid",
            },
        ),
        n < 1 ==> (Glm52TopkLutCall { slot_lut_len: n, ..c }).fault() == Some(
            KernelError::Invalid {
                what: "GLM5.2 indexer top-k LUT conversion buffers are invalid",
            },
        ),
        n < c.rows * c.topk ==> (Glm52TopkLutCall { global_slots_len: n, ..c }).fault() == Some(
            KernelError::Invalid {
                what: "GLM5.2 indexer top-k LUT conversion buffers are invalid",
            },
        ),
        n < c.rows ==> (Glm52TopkLutCall { topk_lens_len: n, ..c }).fault() == Some(
            KernelError::Invalid {
                what: "GLM5.2 indexer top-k LUT conversion buffers are invalid",
            },
        ),
{
}

} // verus!
