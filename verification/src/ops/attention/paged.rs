//! Attention over the paged pool: prefill and decode.

use vstd::prelude::*;

use super::geometry::checked_paged_geometry;
use super::geometry::PagedGeometry;
use super::plan::TileQuery;
use super::prefill_plan::PrefillPagedPlan;
use crate::error::checked_i32;
use crate::error::checked_product;
use crate::error::ensure;
use crate::error::ensure_below;
use crate::error::ensure_fit;
use crate::error::ensure_that;
use crate::error::FaultList;
use crate::error::is_product;
use crate::error::KernelError;
use crate::float_bits;
use crate::paged_kv::KvStorage;
use crate::paged_kv::PagedKvLayout;
use crate::shape::DeviceVec;
use crate::shape::HiddenStates;

verus! {

/// What [`prefill_attention_paged_into`] takes.
#[derive(Clone, Copy, Debug)]
pub struct PrefillAttentionPaged {
    pub cos_cache: DeviceVec,
    /// Two-byte slots of the pool.
    pub kv_pool_len: usize,
    pub layout: PagedKvLayout,
    pub layer: usize,
    pub plan: PrefillPagedPlan,
    pub num_q_heads: usize,
    pub num_kv_heads: usize,
    pub head_dim: usize,
}

/// The C arguments that [`prefill_attention_paged_into`] derives.
#[derive(Clone, Copy, Debug, PartialEq, Eq)]
pub struct PrefillAttentionPagedLaunch {
    pub geometry: PagedGeometry,
    pub num_q_heads: i32,
    pub num_kv_heads: i32,
    pub head_dim: i32,
    pub page_size: i32,
    pub total_tokens: i32,
    pub cos_max_pos: i32,
    pub src_stride_n: i64,
    pub src_stride_h: i64,
    pub batch_size: i32,
    pub num_tiles: i32,
    pub cta_tile_q: i32,
}

impl PrefillAttentionPaged {
    /// Why the kernel cannot run, if it cannot.
    pub open spec fn fault(self) -> Option<KernelError> {
        super::geometry::geometry_fault(
            "paged prefill",
            self.layout,
            self.kv_pool_len,
            self.layer,
            self.head_dim,
            self.num_kv_heads,
            false,
        )
    }

    /// The launch of a call without a fault.
    pub open spec fn launch(self) -> PrefillAttentionPagedLaunch {
        let kv_dim = self.num_kv_heads * self.head_dim;
        let geometry = super::geometry::geometry_of(self.layout, self.kv_pool_len, self.layer);
        PrefillAttentionPagedLaunch {
            geometry,
            num_q_heads: self.num_q_heads as i32,
            num_kv_heads: self.num_kv_heads as i32,
            head_dim: self.head_dim as i32,
            page_size: self.layout.page_size as i32,
            total_tokens: self.plan.total_tokens as i32,
            cos_max_pos: (self.cos_cache.data_len / self.head_dim) as i32,
            src_stride_n: kv_dim as i64,
            src_stride_h: self.head_dim as i64,
            batch_size: self.plan.batch_size,
            num_tiles: self.plan.num_tiles,
            cta_tile_q: self.plan.cta_tile_q,
        }
    }
}

/// One layer of paged prefill: QK norm and RoPE, scatter of K and V into the
/// pool, attention over the pages. Every position comes from the plan's
/// per-token array, so a prompt that starts behind a cached prefix works for
/// any batch.
pub fn prefill_attention_paged_into(c: &PrefillAttentionPaged) -> (r: Result<
    PrefillAttentionPagedLaunch,
    KernelError,
>)
    requires
        c.num_kv_heads * c.head_dim <= usize::MAX,
    ensures
        r == KernelError::outcome(c.fault(), c.launch()),
        r matches Ok(l) ==> {
            &&& c.num_q_heads <= i32::MAX ==> l.num_q_heads == c.num_q_heads
            &&& c.num_kv_heads <= i32::MAX ==> l.num_kv_heads == c.num_kv_heads
        },
{
    proof {
        assert(c.num_kv_heads * c.head_dim >= 0) by (nonlinear_arith);
    }
    let kv_dim: usize = c.num_kv_heads * c.head_dim;
    let geometry: PagedGeometry = checked_paged_geometry(
        "paged prefill",
        &c.layout,
        c.kv_pool_len,
        c.layer,
        c.head_dim,
        c.num_kv_heads,
        false,
    )?;
    Ok(PrefillAttentionPagedLaunch {
        geometry,
        num_q_heads: c.num_q_heads as i32,
        num_kv_heads: c.num_kv_heads as i32,
        head_dim: c.head_dim as i32,
        page_size: c.layout.page_size as i32,
        total_tokens: c.plan.total_tokens as i32,
        cos_max_pos: (c.cos_cache.data_len / c.head_dim) as i32,
        src_stride_n: kv_dim as i64,
        src_stride_h: c.head_dim as i64,
        batch_size: c.plan.batch_size,
        num_tiles: c.plan.num_tiles,
        cta_tile_q: c.plan.cta_tile_q,
    })
}

/// What [`paged_attention_batch_decode_into`] takes.
#[derive(Clone, Copy, Debug)]
pub struct PagedBatchDecode {
    /// Two-byte slots of the pool.
    pub kv_pool_len: usize,
    pub layout: PagedKvLayout,
    pub layer: usize,
    pub num_qo_heads: usize,
    pub batch_size: usize,
}

/// The C arguments that [`paged_attention_batch_decode_into`] derives.
#[derive(Clone, Copy, Debug, PartialEq, Eq)]
pub struct PagedBatchDecodeLaunch {
    pub geometry: PagedGeometry,
    pub num_qo_heads: i32,
    pub num_kv_heads: i32,
    pub head_dim: i32,
    pub page_size: i32,
    pub batch_size: i32,
    pub src_stride_n: i64,
    pub src_stride_h: i64,
}

impl PagedBatchDecode {
    /// Why the kernel cannot run, if it cannot.
    pub open spec fn fault(self) -> Option<KernelError> {
        super::geometry::geometry_fault(
            "batch decode",
            self.layout,
            self.kv_pool_len,
            self.layer,
            self.layout.head_dim,
            self.layout.num_kv_heads,
            false,
        )
    }

    /// The launch of a call without a fault.
    pub open spec fn launch(self) -> PagedBatchDecodeLaunch {
        let geometry = super::geometry::geometry_of(self.layout, self.kv_pool_len, self.layer);
        let kv_dim = self.layout.num_kv_heads * self.layout.head_dim;
        PagedBatchDecodeLaunch {
            geometry,
            num_qo_heads: self.num_qo_heads as i32,
            num_kv_heads: self.layout.num_kv_heads as i32,
            head_dim: self.layout.head_dim as i32,
            page_size: self.layout.page_size as i32,
            batch_size: self.batch_size as i32,
            src_stride_n: kv_dim as i64,
            src_stride_h: self.layout.head_dim as i64,
        }
    }
}

/// Batched paged decode: append K and V to the pages, attend over them.
pub fn paged_attention_batch_decode_into(c: &PagedBatchDecode) -> (r: Result<
    PagedBatchDecodeLaunch,
    KernelError,
>)
    ensures
        r == KernelError::outcome(c.fault(), c.launch()),
{
    let geometry: PagedGeometry = checked_paged_geometry(
        "batch decode",
        &c.layout,
        c.kv_pool_len,
        c.layer,
        c.layout.head_dim,
        c.layout.num_kv_heads,
        false,
    )?;
    proof {
        super::geometry::lemma_head_row_fits(c.layout);
    }
    let kv_dim: usize = c.layout.num_kv_heads * c.layout.head_dim;
    Ok(PagedBatchDecodeLaunch {
        geometry,
        num_qo_heads: c.num_qo_heads as i32,
        num_kv_heads: c.layout.num_kv_heads as i32,
        head_dim: c.layout.head_dim as i32,
        page_size: c.layout.page_size as i32,
        batch_size: c.batch_size as i32,
        src_stride_n: kv_dim as i64,
        src_stride_h: c.layout.head_dim as i64,
    })
}

/// What [`paged_attention_batch_decode_split_kv_into`] takes.
#[derive(Clone, Copy, Debug)]
pub struct PagedBatchDecodeSplitKv {
    pub q: HiddenStates,
    pub k: HiddenStates,
    pub v: HiddenStates,
    pub output: HiddenStates,
    pub row_offset: usize,
    /// Two-byte slots of the pool.
    pub kv_pool_len: usize,
    pub layout: PagedKvLayout,
    pub layer: usize,
    pub split_padded_slots: usize,
    pub num_qo_heads: usize,
    pub batch_size: usize,
}

/// The C arguments that [`paged_attention_batch_decode_split_kv_into`] derives.
#[derive(Clone, Copy, Debug, PartialEq, Eq)]
pub struct PagedBatchDecodeSplitKvLaunch {
    pub geometry: PagedGeometry,
    pub q_row_bytes: u64,
    pub k_row_bytes: u64,
    pub v_row_bytes: u64,
    pub output_row_bytes: u64,
    pub num_qo_heads: i32,
    pub num_kv_heads: i32,
    pub head_dim: i32,
    pub page_size: i32,
    pub batch_size: i32,
    pub padded_slots: i32,
    pub src_stride_n: i64,
    pub src_stride_h: i64,
}

impl PagedBatchDecodeSplitKv {
    /// Why the kernel cannot run, if it cannot.
    pub open spec fn fault(self) -> Option<KernelError> {
        self.q.row_fault(
            self.row_offset,
            self.batch_size,
            "paged_attention_batch_decode_split_kv q",
        )
            .or_fault(self.k.row_fault(
                self.row_offset,
                self.batch_size,
                "paged_attention_batch_decode_split_kv k",
            ))
            .or_fault(self.v.row_fault(
                self.row_offset,
                self.batch_size,
                "paged_attention_batch_decode_split_kv v",
            ))
            .or_fault(self.output.row_fault(
                self.row_offset,
                self.batch_size,
                "paged_attention_batch_decode_split_kv output",
            ))
            .or_fault(super::geometry::geometry_fault(
                "batch split-K decode",
                self.layout,
                self.kv_pool_len,
                self.layer,
                self.layout.head_dim,
                self.layout.num_kv_heads,
                false,
            ))
    }

    /// The launch of a call without a fault.
    pub open spec fn launch(self) -> PagedBatchDecodeSplitKvLaunch {
        let q_row_bytes = self.q.row_bytes(self.row_offset) as u64;
        let k_row_bytes = self.k.row_bytes(self.row_offset) as u64;
        let v_row_bytes = self.v.row_bytes(self.row_offset) as u64;
        let output_row_bytes = self.output.row_bytes(self.row_offset) as u64;
        let geometry = super::geometry::geometry_of(self.layout, self.kv_pool_len, self.layer);
        let kv_dim = self.layout.num_kv_heads * self.layout.head_dim;
        PagedBatchDecodeSplitKvLaunch {
            geometry,
            q_row_bytes,
            k_row_bytes,
            v_row_bytes,
            output_row_bytes,
            num_qo_heads: self.num_qo_heads as i32,
            num_kv_heads: self.layout.num_kv_heads as i32,
            head_dim: self.layout.head_dim as i32,
            page_size: self.layout.page_size as i32,
            batch_size: self.batch_size as i32,
            padded_slots: self.split_padded_slots as i32,
            src_stride_n: kv_dim as i64,
            src_stride_h: self.layout.head_dim as i64,
        }
    }
}

/// Batched paged decode that splits each request's KV over several blocks, for
/// few requests with long contexts. Q, K, V and the output are the row window
/// `[row_offset, row_offset + batch_size)`; the metadata is indexed from local
/// row 0.
pub fn paged_attention_batch_decode_split_kv_into(c: &PagedBatchDecodeSplitKv) -> (r: Result<
    PagedBatchDecodeSplitKvLaunch,
    KernelError,
>)
    ensures
        r == KernelError::outcome(c.fault(), c.launch()),
{
    let q_row_bytes: u64 = c.q.checked_row_offset(
        c.row_offset,
        c.batch_size,
        "paged_attention_batch_decode_split_kv q",
    )?;
    let k_row_bytes: u64 = c.k.checked_row_offset(
        c.row_offset,
        c.batch_size,
        "paged_attention_batch_decode_split_kv k",
    )?;
    let v_row_bytes: u64 = c.v.checked_row_offset(
        c.row_offset,
        c.batch_size,
        "paged_attention_batch_decode_split_kv v",
    )?;
    let output_row_bytes: u64 = c.output.checked_row_offset(
        c.row_offset,
        c.batch_size,
        "paged_attention_batch_decode_split_kv output",
    )?;
    let geometry: PagedGeometry = checked_paged_geometry(
        "batch split-K decode",
        &c.layout,
        c.kv_pool_len,
        c.layer,
        c.layout.head_dim,
        c.layout.num_kv_heads,
        false,
    )?;
    proof {
        super::geometry::lemma_head_row_fits(c.layout);
    }
    let kv_dim: usize = c.layout.num_kv_heads * c.layout.head_dim;
    Ok(PagedBatchDecodeSplitKvLaunch {
        geometry,
        q_row_bytes,
        k_row_bytes,
        v_row_bytes,
        output_row_bytes,
        num_qo_heads: c.num_qo_heads as i32,
        num_kv_heads: c.layout.num_kv_heads as i32,
        head_dim: c.layout.head_dim as i32,
        page_size: c.layout.page_size as i32,
        batch_size: c.batch_size as i32,
        padded_slots: c.split_padded_slots as i32,
        src_stride_n: kv_dim as i64,
        src_stride_h: c.layout.head_dim as i64,
    })
}

/// What [`scatter_decode_kv_into_paged`] takes.
#[derive(Clone, Copy, Debug)]
pub struct ScatterDecodeKv {
    /// The operation that the scatter is part of.
    pub op_name: &'static str,
    /// Two-byte slots of the pool.
    pub kv_pool_len: usize,
    pub layout: PagedKvLayout,
    pub layer: usize,
    pub batch_size: usize,
}

/// The C arguments that [`scatter_decode_kv_into_paged`] derives.
#[derive(Clone, Copy, Debug, PartialEq, Eq)]
pub struct ScatterDecodeKvLaunch {
    pub geometry: PagedGeometry,
    pub num_kv_heads: i32,
    pub head_dim: i32,
    pub page_size: i32,
    pub batch_size: i32,
    pub src_stride_n: i64,
    pub src_stride_h: i64,
}

impl ScatterDecodeKv {
    /// Why the kernel cannot run, if it cannot.
    pub open spec fn fault(self) -> Option<KernelError> {
        super::geometry::geometry_fault(
            self.op_name,
            self.layout,
            self.kv_pool_len,
            self.layer,
            self.layout.head_dim,
            self.layout.num_kv_heads,
            false,
        )
    }

    /// The launch of a call without a fault.
    pub open spec fn launch(self) -> ScatterDecodeKvLaunch {
        let geometry = super::geometry::geometry_of(self.layout, self.kv_pool_len, self.layer);
        let kv_dim = self.layout.num_kv_heads * self.layout.head_dim;
        ScatterDecodeKvLaunch {
            geometry,
            num_kv_heads: self.layout.num_kv_heads as i32,
            head_dim: self.layout.head_dim as i32,
            page_size: self.layout.page_size as i32,
            batch_size: self.batch_size as i32,
            src_stride_n: kv_dim as i64,
            src_stride_h: self.layout.head_dim as i64,
        }
    }
}

/// Scatter one K and V row per request into the pages.
pub fn scatter_decode_kv_into_paged(c: &ScatterDecodeKv) -> (r: Result<
    ScatterDecodeKvLaunch,
    KernelError,
>)
    ensures
        r == KernelError::outcome(c.fault(), c.launch()),
{
    let geometry: PagedGeometry = checked_paged_geometry(
        c.op_name,
        &c.layout,
        c.kv_pool_len,
        c.layer,
        c.layout.head_dim,
        c.layout.num_kv_heads,
        false,
    )?;
    proof {
        super::geometry::lemma_head_row_fits(c.layout);
    }
    let kv_dim: usize = c.layout.num_kv_heads * c.layout.head_dim;
    Ok(ScatterDecodeKvLaunch {
        geometry,
        num_kv_heads: c.layout.num_kv_heads as i32,
        head_dim: c.layout.head_dim as i32,
        page_size: c.layout.page_size as i32,
        batch_size: c.batch_size as i32,
        src_stride_n: kv_dim as i64,
        src_stride_h: c.layout.head_dim as i64,
    })
}

/// What [`paged_attention_batch_decode_hd256_into`] takes.
#[derive(Clone, Copy, Debug)]
pub struct PagedBatchDecodeHd256 {
    /// Two-byte slots of the pool.
    pub kv_pool_len: usize,
    pub layout: PagedKvLayout,
    pub layer: usize,
    pub num_qo_heads: usize,
    pub batch_size: usize,
}

/// The C arguments that [`paged_attention_batch_decode_hd256_into`] derives.
#[derive(Clone, Copy, Debug, PartialEq, Eq)]
pub struct PagedBatchDecodeHd256Launch {
    pub geometry: PagedGeometry,
    pub scatter: ScatterDecodeKvLaunch,
    pub num_qo_heads: i32,
    pub num_kv_heads: i32,
    pub head_dim: i32,
    pub page_size: i32,
    pub batch_size: i32,
}

impl PagedBatchDecodeHd256 {
    /// Why the kernel cannot run, if it cannot.
    pub open spec fn fault(self) -> Option<KernelError> {
        super::geometry::geometry_fault(
            "batch hd256 decode",
            self.layout,
            self.kv_pool_len,
            self.layer,
            self.layout.head_dim,
            self.layout.num_kv_heads,
            false,
        )
            .or_fault(self.scatter_call().fault())
    }

    /// The launch of a call without a fault.
    pub open spec fn launch(self) -> PagedBatchDecodeHd256Launch {
        let geometry = super::geometry::geometry_of(self.layout, self.kv_pool_len, self.layer);
        let scatter = self.scatter_call().launch();
        PagedBatchDecodeHd256Launch {
            geometry,
            scatter,
            num_qo_heads: self.num_qo_heads as i32,
            num_kv_heads: self.layout.num_kv_heads as i32,
            head_dim: self.layout.head_dim as i32,
            page_size: self.layout.page_size as i32,
            batch_size: self.batch_size as i32,
        }
    }
}

/// Batched paged decode at head_dim 256.
pub fn paged_attention_batch_decode_hd256_into(c: &PagedBatchDecodeHd256) -> (r: Result<
    PagedBatchDecodeHd256Launch,
    KernelError,
>)
    requires
        c.layout.head_dim == 256,
    ensures
        r == KernelError::outcome(c.fault(), c.launch()),
{
    let geometry: PagedGeometry = checked_paged_geometry(
        "batch hd256 decode",
        &c.layout,
        c.kv_pool_len,
        c.layer,
        c.layout.head_dim,
        c.layout.num_kv_heads,
        false,
    )?;
    let scatter: ScatterDecodeKvLaunch = scatter_decode_kv_into_paged(
        &ScatterDecodeKv {
            op_name: "batch hd256 decode",
            kv_pool_len: c.kv_pool_len,
            layout: c.layout,
            layer: c.layer,
            batch_size: c.batch_size,
        },
    )?;
    Ok(PagedBatchDecodeHd256Launch {
        geometry,
        scatter,
        num_qo_heads: c.num_qo_heads as i32,
        num_kv_heads: c.layout.num_kv_heads as i32,
        head_dim: c.layout.head_dim as i32,
        page_size: c.layout.page_size as i32,
        batch_size: c.batch_size as i32,
    })
}

impl PagedBatchDecodeHd256 {
    /// The scatter that precedes the attention.
    pub open spec fn scatter_call(self) -> ScatterDecodeKv {
        ScatterDecodeKv {
            op_name: "batch hd256 decode",
            kv_pool_len: self.kv_pool_len,
            layout: self.layout,
            layer: self.layer,
            batch_size: self.batch_size,
        }
    }
}

/// What [`paged_attention_batch_decode_via_prefill_hd256_into`] takes.
#[derive(Clone, Copy, Debug)]
pub struct PagedDecodeViaPrefillHd256 {
    /// Two-byte slots of the pool.
    pub kv_pool_len: usize,
    pub layout: PagedKvLayout,
    pub layer: usize,
    pub plan: PrefillPagedPlan,
    pub num_qo_heads: usize,
    pub batch_size: usize,
}

/// The C arguments that [`paged_attention_batch_decode_via_prefill_hd256_into`] derives.
#[derive(Clone, Copy, Debug, PartialEq, Eq)]
pub struct PagedDecodeViaPrefillHd256Launch {
    pub geometry: PagedGeometry,
    pub scatter: ScatterDecodeKvLaunch,
    pub num_qo_heads: i32,
    pub num_kv_heads: i32,
    pub head_dim: i32,
    pub page_size: i32,
    pub batch_size: i32,
    pub plan_batch_size: i32,
    pub num_tiles: i32,
}

impl PagedDecodeViaPrefillHd256 {
    /// Why the kernel cannot run, if it cannot.
    pub open spec fn fault(self) -> Option<KernelError> {
        KernelError::unless(
            self.batch_size == self.plan.total_tokens
                && self.batch_size == self.plan.batch_size as usize,
            "decode-via-prefill plan shape mismatch",
        )
            .or_fault(self.scatter_call().fault())
            .or_fault(super::geometry::geometry_fault(
                "batch hd256 decode via prefill",
                self.layout,
                self.kv_pool_len,
                self.layer,
                self.layout.head_dim,
                self.layout.num_kv_heads,
                false,
            ))
    }

    /// The launch of a call without a fault.
    pub open spec fn launch(self) -> PagedDecodeViaPrefillHd256Launch {
        let scatter = self.scatter_call().launch();
        let geometry = super::geometry::geometry_of(self.layout, self.kv_pool_len, self.layer);
        PagedDecodeViaPrefillHd256Launch {
            geometry,
            scatter,
            num_qo_heads: self.num_qo_heads as i32,
            num_kv_heads: self.layout.num_kv_heads as i32,
            head_dim: self.layout.head_dim as i32,
            page_size: self.layout.page_size as i32,
            batch_size: self.batch_size as i32,
            plan_batch_size: self.plan.batch_size,
            num_tiles: self.plan.num_tiles,
        }
    }
}

/// Decode at head_dim 256 through the prefill kernel: one query row per
/// request, so the plan holds as many tokens as requests.
pub fn paged_attention_batch_decode_via_prefill_hd256_into(c: &PagedDecodeViaPrefillHd256) -> (r: Result<
    PagedDecodeViaPrefillHd256Launch,
    KernelError,
>)
    requires
        c.layout.head_dim == 256,
    ensures
        r == KernelError::outcome(c.fault(), c.launch()),
{
    ensure_that(
        c.batch_size == c.plan.total_tokens && c.batch_size == c.plan.batch_size as usize,
        "decode-via-prefill plan shape mismatch",
    )?;
    let scatter: ScatterDecodeKvLaunch = scatter_decode_kv_into_paged(
        &ScatterDecodeKv {
            op_name: "batch hd256 decode via prefill",
            kv_pool_len: c.kv_pool_len,
            layout: c.layout,
            layer: c.layer,
            batch_size: c.batch_size,
        },
    )?;
    let geometry: PagedGeometry = checked_paged_geometry(
        "batch hd256 decode via prefill",
        &c.layout,
        c.kv_pool_len,
        c.layer,
        c.layout.head_dim,
        c.layout.num_kv_heads,
        false,
    )?;
    Ok(PagedDecodeViaPrefillHd256Launch {
        geometry,
        scatter,
        num_qo_heads: c.num_qo_heads as i32,
        num_kv_heads: c.layout.num_kv_heads as i32,
        head_dim: c.layout.head_dim as i32,
        page_size: c.layout.page_size as i32,
        batch_size: c.batch_size as i32,
        plan_batch_size: c.plan.batch_size,
        num_tiles: c.plan.num_tiles,
    })
}

impl PagedDecodeViaPrefillHd256 {
    /// The scatter that precedes the attention.
    pub open spec fn scatter_call(self) -> ScatterDecodeKv {
        ScatterDecodeKv {
            op_name: "batch hd256 decode via prefill",
            kv_pool_len: self.kv_pool_len,
            layout: self.layout,
            layer: self.layer,
            batch_size: self.batch_size,
        }
    }
}

/// Lengths of the metadata arrays of the hd512 split-KV decode, validated at
/// use against the batch that the launch derives.
#[derive(Clone, Copy, Debug, PartialEq, Eq)]
pub struct Hd512DecodeMetadata {
    pub page_indices: usize,
    pub page_indptr: usize,
    pub last_page_len: usize,
    pub request_indices: usize,
    pub kv_tile_indices: usize,
    pub kv_chunk_size: usize,
}

impl Hd512DecodeMetadata {
    pub fn new(
        page_indices: usize,
        page_indptr: usize,
        last_page_len: usize,
        request_indices: usize,
        kv_tile_indices: usize,
        kv_chunk_size: usize,
    ) -> (r: Self)
        ensures
            r == (Hd512DecodeMetadata {
                page_indices,
                page_indptr,
                last_page_len,
                request_indices,
                kv_tile_indices,
                kv_chunk_size,
            }),
    {
        Hd512DecodeMetadata {
            page_indices,
            page_indptr,
            last_page_len,
            request_indices,
            kv_tile_indices,
            kv_chunk_size,
        }
    }

    /// Why the arrays do not cover a batch, if they do not.
    pub open spec fn fault(self, batch_size: usize) -> Option<KernelError> {
        KernelError::unless(
            self.page_indices > 0,
            "Hd512DecodeMetadata: page_indices must be non-empty",
        )
            .or_fault(KernelError::unless_fit(
                self.page_indptr > batch_size,
                "Hd512DecodeMetadata: page_indptr must hold one entry more than batch_size",
                self.page_indptr as int,
                batch_size as int,
            ))
            .or_fault(KernelError::unless_sized(
                self.last_page_len >= batch_size,
                "Hd512DecodeMetadata: last_page_len must hold batch_size",
                self.last_page_len as int,
                batch_size as int,
            ))
            .or_fault(KernelError::unless_sized(
                self.request_indices >= batch_size,
                "Hd512DecodeMetadata: request_indices must hold batch_size",
                self.request_indices as int,
                batch_size as int,
            ))
            .or_fault(KernelError::unless_sized(
                self.kv_tile_indices >= batch_size,
                "Hd512DecodeMetadata: kv_tile_indices must hold batch_size",
                self.kv_tile_indices as int,
                batch_size as int,
            ))
            .or_fault(KernelError::unless(
                self.kv_chunk_size > 0,
                "Hd512DecodeMetadata: kv_chunk_size must hold its one entry",
            ))
    }

    /// Refuse arrays that do not cover a batch.
    pub fn validate(&self, batch_size: usize) -> (r: Result<(), KernelError>)
        ensures
            r == KernelError::outcome(self.fault(batch_size), ()),
    {
        ensure_that(
            self.page_indices > 0,
            "Hd512DecodeMetadata: page_indices must be non-empty",
        )?;
        ensure_fit(
            self.page_indptr > batch_size,
            "Hd512DecodeMetadata: page_indptr must hold one entry more than batch_size",
            self.page_indptr,
            batch_size,
        )?;
        ensure(
            self.last_page_len >= batch_size,
            "Hd512DecodeMetadata: last_page_len must hold batch_size",
            self.last_page_len,
            batch_size,
        )?;
        ensure(
            self.request_indices >= batch_size,
            "Hd512DecodeMetadata: request_indices must hold batch_size",
            self.request_indices,
            batch_size,
        )?;
        ensure(
            self.kv_tile_indices >= batch_size,
            "Hd512DecodeMetadata: kv_tile_indices must hold batch_size",
            self.kv_tile_indices,
            batch_size,
        )?;
        ensure_that(
            self.kv_chunk_size > 0,
            "Hd512DecodeMetadata: kv_chunk_size must hold its one entry",
        )
    }
}

/// What [`paged_attention_batch_decode_split_kv_hd512_into`] takes.
#[derive(Clone, Copy, Debug)]
pub struct PagedSplitDecodeHd512 {
    pub q: HiddenStates,
    pub output: HiddenStates,
    pub row_offset: usize,
    /// Two-byte slots of the pool.
    pub kv_pool_len: usize,
    pub layout: PagedKvLayout,
    pub layer: usize,
    pub meta: Hd512DecodeMetadata,
    /// Lengths of the split arrays and of the workspace.
    pub split_o_indptr_len: usize,
    pub split_valid_mask_len: usize,
    pub split_tmp_v_len: usize,
    pub split_tmp_s_len: usize,
    pub split_padded_slots: usize,
    pub num_qo_heads: usize,
    /// The softmax scale, as its bit pattern.
    pub sm_scale_bits: u32,
}

/// The C arguments that [`paged_attention_batch_decode_split_kv_hd512_into`] derives.
#[derive(Clone, Copy, Debug, PartialEq, Eq)]
pub struct PagedSplitDecodeHd512Launch {
    pub geometry: PagedGeometry,
    pub q_row_bytes: u64,
    pub output_row_bytes: u64,
    pub num_qo_heads: i32,
    pub num_kv_heads: i32,
    pub batch_size: i32,
    pub padded_slots: i32,
}

impl PagedSplitDecodeHd512 {
    /// Why the kernel cannot run, if it cannot.
    pub open spec fn fault(self) -> Option<KernelError> {
        let batch = self.q.seq_len - self.row_offset;
        let qo_dim = self.num_qo_heads * 512;
        let tmp_v_need = self.split_padded_slots * qo_dim;
        let tmp_s_need = self.split_padded_slots * self.num_qo_heads;
        let q_extent = self.q.extent();
        let output_extent = self.output.extent();
        KernelError::unless(
            crate::float_bits::finite(self.sm_scale_bits),
            "paged_attention_batch_decode_hd512 sm_scale must be finite",
        )
            .or_fault(super::geometry::geometry_fault(
                "hd512 split decode",
                self.layout,
                self.kv_pool_len,
                self.layer,
                512,
                self.layout.num_kv_heads,
                false,
            ))
            .or_fault(KernelError::unless_below(
                self.row_offset < self.q.seq_len,
                "hd512 split decode row_offset leaves no rows",
                self.row_offset as int,
                self.q.seq_len as int,
            ))
            .or_fault(self.meta.fault(batch as usize))
            .or_fault(KernelError::unless_sized(
                self.output.seq_len == self.q.seq_len,
                "hd512 decode output.seq_len",
                self.output.seq_len as int,
                self.q.seq_len as int,
            ))
            .or_fault(KernelError::overflow(qo_dim, "hd512 split decode num_qo_heads"))
            .or_fault(KernelError::unless_sized(
                self.q.hidden_dim == qo_dim,
                "hd512 decode q.hidden_dim",
                self.q.hidden_dim as int,
                qo_dim,
            ))
            .or_fault(KernelError::unless_sized(
                self.output.hidden_dim == qo_dim,
                "hd512 decode output.hidden_dim",
                self.output.hidden_dim as int,
                qo_dim,
            ))
            .or_fault(KernelError::unless_sized(
                self.split_padded_slots >= batch,
                "hd512 split decode padded_slots below the batch",
                self.split_padded_slots as int,
                batch,
            ))
            .or_fault(KernelError::unless(
                self.meta.request_indices >= self.split_padded_slots
                    && self.meta.kv_tile_indices >= self.split_padded_slots
                    && self.split_valid_mask_len >= self.split_padded_slots,
                "hd512 split decode plan arrays shorter than padded_slots",
            ))
            .or_fault(KernelError::unless_fit(
                self.split_o_indptr_len > batch,
                "hd512 split decode o_indptr must hold one entry more than the batch",
                self.split_o_indptr_len as int,
                batch,
            ))
            .or_fault(KernelError::overflow(tmp_v_need, "hd512 split decode padded_slots * qo_dim"))
            .or_fault(KernelError::overflow(
                tmp_s_need,
                "hd512 split decode padded_slots * num_qo_heads",
            ))
            .or_fault(KernelError::unless(
                self.split_tmp_v_len >= tmp_v_need && self.split_tmp_s_len >= tmp_s_need,
                "hd512 split decode workspace shorter than padded_slots",
            ))
            .or_fault(self.q.extent_fault("batch_decode_hd512 q"))
            .or_fault(self.output.extent_fault("batch_decode_hd512 output"))
            .or_fault(KernelError::too_wide(q_extent, "hd512 split decode q extent"))
            .or_fault(KernelError::too_wide(output_extent, "hd512 split decode output extent"))
            .or_fault(KernelError::too_wide(batch, "hd512 split decode batch"))
            .or_fault(KernelError::too_wide(
                self.split_padded_slots as int,
                "hd512 split decode padded slots",
            ))
            .or_fault(KernelError::too_wide(
                self.num_qo_heads as int,
                "hd512 split decode qo heads",
            ))
            .or_fault(KernelError::too_wide(
                self.layout.num_kv_heads as int,
                "hd512 split decode kv heads",
            ))
            .or_fault(self.q.row_fault(self.row_offset, batch as usize, "hd512 split decode q"))
            .or_fault(self.output.row_fault(
                self.row_offset,
                batch as usize,
                "hd512 split decode output",
            ))
    }

    /// The launch of a call without a fault.
    pub open spec fn launch(self) -> PagedSplitDecodeHd512Launch {
        let geometry = super::geometry::geometry_of(self.layout, self.kv_pool_len, self.layer);
        let batch = self.q.seq_len - self.row_offset;
        let batch_size = batch as i32;
        let padded_slots = self.split_padded_slots as i32;
        let num_qo_heads = self.num_qo_heads as i32;
        let num_kv_heads = self.layout.num_kv_heads as i32;
        let q_row_bytes = self.q.row_bytes(self.row_offset) as u64;
        let output_row_bytes = self.output.row_bytes(self.row_offset) as u64;
        PagedSplitDecodeHd512Launch {
            geometry,
            q_row_bytes,
            output_row_bytes,
            num_qo_heads,
            num_kv_heads,
            batch_size,
            padded_slots,
        }
    }
}

/// Split-KV decode at head_dim 512 over resident pages; the prep has already
/// written this step's K and V.
pub fn paged_attention_batch_decode_split_kv_hd512_into(c: &PagedSplitDecodeHd512) -> (r: Result<
    PagedSplitDecodeHd512Launch,
    KernelError,
>)
    ensures
        r == KernelError::outcome(c.fault(), c.launch()),
{
    ensure_that(
        float_bits::is_finite(c.sm_scale_bits),
        "paged_attention_batch_decode_hd512 sm_scale must be finite",
    )?;
    let geometry: PagedGeometry = checked_paged_geometry(
        "hd512 split decode",
        &c.layout,
        c.kv_pool_len,
        c.layer,
        512,
        c.layout.num_kv_heads,
        false,
    )?;
    ensure_below(
        c.row_offset < c.q.seq_len,
        "hd512 split decode row_offset leaves no rows",
        c.row_offset,
        c.q.seq_len,
    )?;
    let batch: usize = c.q.seq_len - c.row_offset;
    c.meta.validate(batch)?;
    ensure(
        c.output.seq_len == c.q.seq_len,
        "hd512 decode output.seq_len",
        c.output.seq_len,
        c.q.seq_len,
    )?;
    let qo_dim: usize = checked_product(c.num_qo_heads, 512, "hd512 split decode num_qo_heads")?;
    ensure(c.q.hidden_dim == qo_dim, "hd512 decode q.hidden_dim", c.q.hidden_dim, qo_dim)?;
    ensure(
        c.output.hidden_dim == qo_dim,
        "hd512 decode output.hidden_dim",
        c.output.hidden_dim,
        qo_dim,
    )?;
    ensure(
        c.split_padded_slots >= batch,
        "hd512 split decode padded_slots below the batch",
        c.split_padded_slots,
        batch,
    )?;
    ensure_that(
        c.meta.request_indices >= c.split_padded_slots
            && c.meta.kv_tile_indices >= c.split_padded_slots
            && c.split_valid_mask_len >= c.split_padded_slots,
        "hd512 split decode plan arrays shorter than padded_slots",
    )?;
    ensure_fit(
        c.split_o_indptr_len > batch,
        "hd512 split decode o_indptr must hold one entry more than the batch",
        c.split_o_indptr_len,
        batch,
    )?;
    let tmp_v_need: usize = checked_product(
        c.split_padded_slots,
        qo_dim,
        "hd512 split decode padded_slots * qo_dim",
    )?;
    let tmp_s_need: usize = checked_product(
        c.split_padded_slots,
        c.num_qo_heads,
        "hd512 split decode padded_slots * num_qo_heads",
    )?;
    ensure_that(
        c.split_tmp_v_len >= tmp_v_need && c.split_tmp_s_len >= tmp_s_need,
        "hd512 split decode workspace shorter than padded_slots",
    )?;
    let q_extent: usize = c.q.checked_extent("batch_decode_hd512 q")?;
    let output_extent: usize = c.output.checked_extent("batch_decode_hd512 output")?;
    checked_i32(q_extent, "hd512 split decode q extent")?;
    checked_i32(output_extent, "hd512 split decode output extent")?;
    let batch_size: i32 = checked_i32(batch, "hd512 split decode batch")?;
    let padded_slots: i32 = checked_i32(c.split_padded_slots, "hd512 split decode padded slots")?;
    let num_qo_heads: i32 = checked_i32(c.num_qo_heads, "hd512 split decode qo heads")?;
    let num_kv_heads: i32 = checked_i32(c.layout.num_kv_heads, "hd512 split decode kv heads")?;
    let q_row_bytes: u64 = c.q.checked_row_offset(c.row_offset, batch, "hd512 split decode q")?;
    let output_row_bytes: u64 = c.output.checked_row_offset(
        c.row_offset,
        batch,
        "hd512 split decode output",
    )?;
    Ok(PagedSplitDecodeHd512Launch {
        geometry,
        q_row_bytes,
        output_row_bytes,
        num_qo_heads,
        num_kv_heads,
        batch_size,
        padded_slots,
    })
}

/// What the kernel library is asked for the tile that it derives by itself
/// for a plan.
pub fn auto_tile_query(plan: &PrefillPagedPlan) -> (r: TileQuery)
    ensures
        r == (TileQuery {
            total_tokens: plan.total_tokens as i32,
            num_q_heads: plan.num_qo_heads as i32,
            num_kv_heads: plan.num_kv_heads as i32,
            head_dim: plan.head_dim as i32,
        }),
{
    TileQuery {
        total_tokens: plan.total_tokens as i32,
        num_q_heads: plan.num_qo_heads as i32,
        num_kv_heads: plan.num_kv_heads as i32,
        head_dim: plan.head_dim as i32,
    }
}

/// What [`paged_attention_batch_decode_via_prefill_hd512_into`] takes.
#[derive(Clone, Copy, Debug)]
pub struct PagedDecodeViaPrefillHd512 {
    pub q: HiddenStates,
    pub k: HiddenStates,
    pub v: HiddenStates,
    pub output: HiddenStates,
    /// Two-byte slots of the pool.
    pub kv_pool_len: usize,
    pub layout: PagedKvLayout,
    pub layer: usize,
    pub plan: PrefillPagedPlan,
    /// Entries of the positions array.
    pub positions_len: usize,
    pub num_qo_heads: usize,
    /// The softmax scale, as its bit pattern.
    pub sm_scale_bits: u32,
    /// The tile that the kernel derives: the answer to [`auto_tile_query`].
    pub kernel_cta_tile_q: i32,
}

/// The C arguments that [`paged_attention_batch_decode_via_prefill_hd512_into`] derives.
#[derive(Clone, Copy, Debug, PartialEq, Eq)]
pub struct PagedDecodeViaPrefillHd512Launch {
    pub geometry: PagedGeometry,
    pub scatter: ScatterDecodeKvLaunch,
    pub num_qo_heads: i32,
    pub num_kv_heads: i32,
    pub head_dim: i32,
    pub page_size: i32,
    pub total_tokens: i32,
    pub batch_size: i32,
    pub num_tiles: i32,
}

impl PagedDecodeViaPrefillHd512 {
    /// Why the kernel cannot run, if it cannot.
    pub open spec fn fault(self) -> Option<KernelError> {
        let batch = self.plan.batch_size as usize;
        KernelError::unless(
            crate::float_bits::finite(self.sm_scale_bits),
            "paged_attention_batch_decode_via_prefill_hd512 sm_scale must be finite",
        )
            .or_fault(KernelError::unless_sized(
                self.layout.head_dim == 512,
                "hd512 expects head_dim 512",
                self.layout.head_dim as int,
                512,
            ))
            .or_fault(KernelError::unless_fit(
                self.q.hidden_dim == self.num_qo_heads * 512,
                "hd512 decode-via-prefill q.hidden_dim must be 512 per query head",
                self.q.hidden_dim as int,
                self.num_qo_heads as int,
            ))
            .or_fault(KernelError::unless_fit(
                self.output.hidden_dim == self.num_qo_heads * 512,
                "hd512 decode-via-prefill output.hidden_dim must be 512 per query head",
                self.output.hidden_dim as int,
                self.num_qo_heads as int,
            ))
            .or_fault(KernelError::unless_sized(
                self.q.seq_len >= self.plan.total_tokens,
                "hd512 decode-via-prefill q.seq_len below the plan",
                self.q.seq_len as int,
                self.plan.total_tokens as int,
            ))
            .or_fault(KernelError::unless_sized(
                self.output.seq_len >= self.plan.total_tokens,
                "hd512 decode-via-prefill output.seq_len below the plan",
                self.output.seq_len as int,
                self.plan.total_tokens as int,
            ))
            .or_fault(KernelError::unless_below(
                self.layer < self.layout.num_layers,
                "hd512 decode-via-prefill layer is not below num_layers",
                self.layer as int,
                self.layout.num_layers as int,
            ))
            .or_fault(self.q.extent_fault("decode_via_prefill_hd512 q"))
            .or_fault(self.output.extent_fault("decode_via_prefill_hd512 output"))
            .or_fault(KernelError::unless_sized(
                self.positions_len >= batch,
                "hd512 decode-via-prefill positions_d below the batch",
                self.positions_len as int,
                batch as int,
            ))
            .or_fault(KernelError::unless_fit(
                self.k.hidden_dim == self.layout.num_kv_heads * 512,
                "hd512 decode-via-prefill k.hidden_dim must be 512 per KV head",
                self.k.hidden_dim as int,
                self.layout.num_kv_heads as int,
            ))
            .or_fault(KernelError::unless_fit(
                self.v.hidden_dim == self.layout.num_kv_heads * 512,
                "hd512 decode-via-prefill v.hidden_dim must be 512 per KV head",
                self.v.hidden_dim as int,
                self.layout.num_kv_heads as int,
            ))
            .or_fault(KernelError::unless_sized(
                self.k.seq_len >= batch,
                "hd512 decode-via-prefill k.seq_len below the batch",
                self.k.seq_len as int,
                batch as int,
            ))
            .or_fault(KernelError::unless_sized(
                self.v.seq_len >= batch,
                "hd512 decode-via-prefill v.seq_len below the batch",
                self.v.seq_len as int,
                batch as int,
            ))
            .or_fault(self.k.extent_fault("decode_via_prefill_hd512 k"))
            .or_fault(self.v.extent_fault("decode_via_prefill_hd512 v"))
            .or_fault(KernelError::unless_sized(
                self.plan.head_dim == 512,
                "plan built for another head_dim",
                self.plan.head_dim as int,
                512,
            ))
            .or_fault(KernelError::unless_sized(
                self.plan.num_kv_heads == self.layout.num_kv_heads,
                "plan built for another num_kv_heads",
                self.plan.num_kv_heads as int,
                self.layout.num_kv_heads as int,
            ))
            .or_fault(KernelError::unless_sized(
                self.plan.num_qo_heads == self.num_qo_heads,
                "plan built for another num_qo_heads",
                self.plan.num_qo_heads as int,
                self.num_qo_heads as int,
            ))
            .or_fault(KernelError::unless_sized(
                self.plan.total_tokens == batch,
                "decode-via-prefill plan shape mismatch",
                self.plan.total_tokens as int,
                batch as int,
            ))
            .or_fault(KernelError::unless(
                self.kernel_cta_tile_q == self.plan.cta_tile_q,
                "hd512 decode-via-prefill overridden plans are not supported at hd512",
            ))
            .or_fault(self.scatter_call().fault())
            .or_fault(super::geometry::geometry_fault(
                "batch hd512 decode via prefill",
                self.layout,
                self.kv_pool_len,
                self.layer,
                self.layout.head_dim,
                self.layout.num_kv_heads,
                false,
            ))
    }

    /// The launch of a call without a fault.
    pub open spec fn launch(self) -> PagedDecodeViaPrefillHd512Launch {
        let scatter = self.scatter_call().launch();
        let geometry = super::geometry::geometry_of(self.layout, self.kv_pool_len, self.layer);
        PagedDecodeViaPrefillHd512Launch {
            geometry,
            scatter,
            num_qo_heads: self.num_qo_heads as i32,
            num_kv_heads: self.layout.num_kv_heads as i32,
            head_dim: self.layout.head_dim as i32,
            page_size: self.layout.page_size as i32,
            total_tokens: self.plan.total_tokens as i32,
            batch_size: self.plan.batch_size,
            num_tiles: self.plan.num_tiles,
        }
    }
}

/// Decode at head_dim 512 through the prefill kernel. The kernel derives its
/// query tile by itself, so a plan laid out for another tile is refused.
pub fn paged_attention_batch_decode_via_prefill_hd512_into(c: &PagedDecodeViaPrefillHd512) -> (r: Result<
    PagedDecodeViaPrefillHd512Launch,
    KernelError,
>)
    ensures
        r == KernelError::outcome(c.fault(), c.launch()),
{
    ensure_that(
        float_bits::is_finite(c.sm_scale_bits),
        "paged_attention_batch_decode_via_prefill_hd512 sm_scale must be finite",
    )?;
    ensure(c.layout.head_dim == 512, "hd512 expects head_dim 512", c.layout.head_dim, 512)?;
    ensure_fit(
        is_product(c.q.hidden_dim, c.num_qo_heads, 512),
        "hd512 decode-via-prefill q.hidden_dim must be 512 per query head",
        c.q.hidden_dim,
        c.num_qo_heads,
    )?;
    ensure_fit(
        is_product(c.output.hidden_dim, c.num_qo_heads, 512),
        "hd512 decode-via-prefill output.hidden_dim must be 512 per query head",
        c.output.hidden_dim,
        c.num_qo_heads,
    )?;
    ensure(
        c.q.seq_len >= c.plan.total_tokens,
        "hd512 decode-via-prefill q.seq_len below the plan",
        c.q.seq_len,
        c.plan.total_tokens,
    )?;
    ensure(
        c.output.seq_len >= c.plan.total_tokens,
        "hd512 decode-via-prefill output.seq_len below the plan",
        c.output.seq_len,
        c.plan.total_tokens,
    )?;
    ensure_below(
        c.layer < c.layout.num_layers,
        "hd512 decode-via-prefill layer is not below num_layers",
        c.layer,
        c.layout.num_layers,
    )?;
    c.q.checked_extent("decode_via_prefill_hd512 q")?;
    c.output.checked_extent("decode_via_prefill_hd512 output")?;
    let batch: usize = c.plan.batch_size as usize;
    ensure(
        c.positions_len >= batch,
        "hd512 decode-via-prefill positions_d below the batch",
        c.positions_len,
        batch,
    )?;
    ensure_fit(
        is_product(c.k.hidden_dim, c.layout.num_kv_heads, 512),
        "hd512 decode-via-prefill k.hidden_dim must be 512 per KV head",
        c.k.hidden_dim,
        c.layout.num_kv_heads,
    )?;
    ensure_fit(
        is_product(c.v.hidden_dim, c.layout.num_kv_heads, 512),
        "hd512 decode-via-prefill v.hidden_dim must be 512 per KV head",
        c.v.hidden_dim,
        c.layout.num_kv_heads,
    )?;
    ensure(
        c.k.seq_len >= batch,
        "hd512 decode-via-prefill k.seq_len below the batch",
        c.k.seq_len,
        batch,
    )?;
    ensure(
        c.v.seq_len >= batch,
        "hd512 decode-via-prefill v.seq_len below the batch",
        c.v.seq_len,
        batch,
    )?;
    c.k.checked_extent("decode_via_prefill_hd512 k")?;
    c.v.checked_extent("decode_via_prefill_hd512 v")?;
    ensure(c.plan.head_dim == 512, "plan built for another head_dim", c.plan.head_dim, 512)?;
    ensure(
        c.plan.num_kv_heads == c.layout.num_kv_heads,
        "plan built for another num_kv_heads",
        c.plan.num_kv_heads,
        c.layout.num_kv_heads,
    )?;
    ensure(
        c.plan.num_qo_heads == c.num_qo_heads,
        "plan built for another num_qo_heads",
        c.plan.num_qo_heads,
        c.num_qo_heads,
    )?;
    ensure(
        c.plan.total_tokens == batch,
        "decode-via-prefill plan shape mismatch",
        c.plan.total_tokens,
        batch,
    )?;
    ensure_that(
        c.kernel_cta_tile_q == c.plan.cta_tile_q,
        "hd512 decode-via-prefill overridden plans are not supported at hd512",
    )?;
    let scatter: ScatterDecodeKvLaunch = scatter_decode_kv_into_paged(
        &ScatterDecodeKv {
            op_name: "batch hd512 decode via prefill",
            kv_pool_len: c.kv_pool_len,
            layout: c.layout,
            layer: c.layer,
            batch_size: batch,
        },
    )?;
    let geometry: PagedGeometry = checked_paged_geometry(
        "batch hd512 decode via prefill",
        &c.layout,
        c.kv_pool_len,
        c.layer,
        c.layout.head_dim,
        c.layout.num_kv_heads,
        false,
    )?;
    Ok(PagedDecodeViaPrefillHd512Launch {
        geometry,
        scatter,
        num_qo_heads: c.num_qo_heads as i32,
        num_kv_heads: c.layout.num_kv_heads as i32,
        head_dim: c.layout.head_dim as i32,
        page_size: c.layout.page_size as i32,
        total_tokens: c.plan.total_tokens as i32,
        batch_size: c.plan.batch_size,
        num_tiles: c.plan.num_tiles,
    })
}

impl PagedDecodeViaPrefillHd512 {
    /// The scatter that precedes the attention.
    pub open spec fn scatter_call(self) -> ScatterDecodeKv {
        ScatterDecodeKv {
            op_name: "batch hd512 decode via prefill",
            kv_pool_len: self.kv_pool_len,
            layout: self.layout,
            layer: self.layer,
            batch_size: self.plan.batch_size as usize,
        }
    }
}

/// What [`batch_prefill_paged_hd512_into`] takes.
#[derive(Clone, Copy, Debug)]
pub struct BatchPrefillPagedHd512 {
    pub q: HiddenStates,
    pub output: HiddenStates,
    /// Two-byte slots of the pool.
    pub kv_pool_len: usize,
    pub layout: PagedKvLayout,
    pub layer: usize,
    pub plan: PrefillPagedPlan,
    pub num_qo_heads: usize,
    /// The softmax scale, as its bit pattern.
    pub sm_scale_bits: u32,
    /// The tile that the kernel derives: the answer to [`auto_tile_query`].
    pub kernel_cta_tile_q: i32,
}

/// The C arguments that [`batch_prefill_paged_hd512_into`] derives.
#[derive(Clone, Copy, Debug, PartialEq, Eq)]
pub struct BatchPrefillPagedHd512Launch {
    pub geometry: PagedGeometry,
    pub num_qo_heads: i32,
    pub num_kv_heads: i32,
    pub head_dim: i32,
    pub page_size: i32,
    pub total_tokens: i32,
    pub batch_size: i32,
    pub num_tiles: i32,
}

impl BatchPrefillPagedHd512 {
    /// Why the kernel cannot run, if it cannot.
    pub open spec fn fault(self) -> Option<KernelError> {
        KernelError::unless(
            crate::float_bits::finite(self.sm_scale_bits),
            "batch_prefill_paged_hd512 sm_scale must be finite",
        )
            .or_fault(KernelError::unless_sized(
                self.layout.head_dim == 512,
                "hd512 expects head_dim 512",
                self.layout.head_dim as int,
                512,
            ))
            .or_fault(KernelError::unless_fit(
                self.q.hidden_dim == self.num_qo_heads * 512,
                "hd512 prefill q.hidden_dim must be 512 per query head",
                self.q.hidden_dim as int,
                self.num_qo_heads as int,
            ))
            .or_fault(KernelError::unless_fit(
                self.output.hidden_dim == self.num_qo_heads * 512,
                "hd512 prefill output.hidden_dim must be 512 per query head",
                self.output.hidden_dim as int,
                self.num_qo_heads as int,
            ))
            .or_fault(KernelError::unless_sized(
                self.q.seq_len >= self.plan.total_tokens,
                "hd512 prefill q.seq_len below the plan",
                self.q.seq_len as int,
                self.plan.total_tokens as int,
            ))
            .or_fault(KernelError::unless_sized(
                self.output.seq_len >= self.plan.total_tokens,
                "hd512 prefill output.seq_len below the plan",
                self.output.seq_len as int,
                self.plan.total_tokens as int,
            ))
            .or_fault(KernelError::unless_below(
                self.layer < self.layout.num_layers,
                "hd512 prefill layer is not below num_layers",
                self.layer as int,
                self.layout.num_layers as int,
            ))
            .or_fault(self.q.extent_fault("batch_prefill_paged_hd512 q"))
            .or_fault(self.output.extent_fault("batch_prefill_paged_hd512 output"))
            .or_fault(KernelError::unless_sized(
                self.plan.head_dim == 512,
                "plan built for another head_dim",
                self.plan.head_dim as int,
                512,
            ))
            .or_fault(KernelError::unless_sized(
                self.plan.num_kv_heads == self.layout.num_kv_heads,
                "plan built for another num_kv_heads",
                self.plan.num_kv_heads as int,
                self.layout.num_kv_heads as int,
            ))
            .or_fault(KernelError::unless_sized(
                self.plan.num_qo_heads == self.num_qo_heads,
                "plan built for another num_qo_heads",
                self.plan.num_qo_heads as int,
                self.num_qo_heads as int,
            ))
            .or_fault(KernelError::unless(
                self.kernel_cta_tile_q == self.plan.cta_tile_q,
                "hd512 prefill overridden plans are not supported at hd512",
            ))
            .or_fault(super::geometry::geometry_fault(
                "hd512 prefill",
                self.layout,
                self.kv_pool_len,
                self.layer,
                self.layout.head_dim,
                self.layout.num_kv_heads,
                false,
            ))
    }

    /// The launch of a call without a fault.
    pub open spec fn launch(self) -> BatchPrefillPagedHd512Launch {
        let geometry = super::geometry::geometry_of(self.layout, self.kv_pool_len, self.layer);
        BatchPrefillPagedHd512Launch {
            geometry,
            num_qo_heads: self.num_qo_heads as i32,
            num_kv_heads: self.layout.num_kv_heads as i32,
            head_dim: self.layout.head_dim as i32,
            page_size: self.layout.page_size as i32,
            total_tokens: self.plan.total_tokens as i32,
            batch_size: self.plan.batch_size,
            num_tiles: self.plan.num_tiles,
        }
    }
}

/// Paged prefill attention at head_dim 512 over pages that the prep has
/// written. The kernel derives its query tile by itself, so a plan laid out
/// for another tile is refused.
pub fn batch_prefill_paged_hd512_into(c: &BatchPrefillPagedHd512) -> (r: Result<
    BatchPrefillPagedHd512Launch,
    KernelError,
>)
    ensures
        r == KernelError::outcome(c.fault(), c.launch()),
{
    ensure_that(
        float_bits::is_finite(c.sm_scale_bits),
        "batch_prefill_paged_hd512 sm_scale must be finite",
    )?;
    ensure(c.layout.head_dim == 512, "hd512 expects head_dim 512", c.layout.head_dim, 512)?;
    ensure_fit(
        is_product(c.q.hidden_dim, c.num_qo_heads, 512),
        "hd512 prefill q.hidden_dim must be 512 per query head",
        c.q.hidden_dim,
        c.num_qo_heads,
    )?;
    ensure_fit(
        is_product(c.output.hidden_dim, c.num_qo_heads, 512),
        "hd512 prefill output.hidden_dim must be 512 per query head",
        c.output.hidden_dim,
        c.num_qo_heads,
    )?;
    ensure(
        c.q.seq_len >= c.plan.total_tokens,
        "hd512 prefill q.seq_len below the plan",
        c.q.seq_len,
        c.plan.total_tokens,
    )?;
    ensure(
        c.output.seq_len >= c.plan.total_tokens,
        "hd512 prefill output.seq_len below the plan",
        c.output.seq_len,
        c.plan.total_tokens,
    )?;
    ensure_below(
        c.layer < c.layout.num_layers,
        "hd512 prefill layer is not below num_layers",
        c.layer,
        c.layout.num_layers,
    )?;
    c.q.checked_extent("batch_prefill_paged_hd512 q")?;
    c.output.checked_extent("batch_prefill_paged_hd512 output")?;
    ensure(c.plan.head_dim == 512, "plan built for another head_dim", c.plan.head_dim, 512)?;
    ensure(
        c.plan.num_kv_heads == c.layout.num_kv_heads,
        "plan built for another num_kv_heads",
        c.plan.num_kv_heads,
        c.layout.num_kv_heads,
    )?;
    ensure(
        c.plan.num_qo_heads == c.num_qo_heads,
        "plan built for another num_qo_heads",
        c.plan.num_qo_heads,
        c.num_qo_heads,
    )?;
    ensure_that(
        c.kernel_cta_tile_q == c.plan.cta_tile_q,
        "hd512 prefill overridden plans are not supported at hd512",
    )?;
    let geometry: PagedGeometry = checked_paged_geometry(
        "hd512 prefill",
        &c.layout,
        c.kv_pool_len,
        c.layer,
        c.layout.head_dim,
        c.layout.num_kv_heads,
        false,
    )?;
    Ok(BatchPrefillPagedHd512Launch {
        geometry,
        num_qo_heads: c.num_qo_heads as i32,
        num_kv_heads: c.layout.num_kv_heads as i32,
        head_dim: c.layout.head_dim as i32,
        page_size: c.layout.page_size as i32,
        total_tokens: c.plan.total_tokens as i32,
        batch_size: c.plan.batch_size,
        num_tiles: c.plan.num_tiles,
    })
}

/// What [`batch_prefill_paged_window_hd256_into`] takes.
#[derive(Clone, Copy, Debug)]
pub struct BatchPrefillPagedWindowHd256 {
    pub q: HiddenStates,
    pub output: HiddenStates,
    /// Two-byte slots of the pool.
    pub kv_pool_len: usize,
    pub layout: PagedKvLayout,
    pub layer: usize,
    pub plan: PrefillPagedPlan,
    pub num_qo_heads: usize,
    /// The softmax scale, as its bit pattern.
    pub sm_scale_bits: u32,
    pub window_left: i32,
    /// The tile that the kernel derives: the answer to [`auto_tile_query`].
    pub kernel_cta_tile_q: i32,
    /// Whether this build carries the fp8 kernel.
    pub fp8_built: bool,
}

/// The C arguments that [`batch_prefill_paged_window_hd256_into`] derives.
#[derive(Clone, Copy, Debug, PartialEq, Eq)]
pub struct BatchPrefillPagedWindowHd256Launch {
    pub geometry: PagedGeometry,
    pub num_qo_heads: i32,
    pub num_kv_heads: i32,
    pub total_tokens: i32,
    pub batch_size: i32,
    pub num_tiles: i32,
    pub window_left: i32,
    pub fp8: bool,
}

impl BatchPrefillPagedWindowHd256 {
    /// Why the kernel cannot run, if it cannot.
    pub open spec fn fault(self) -> Option<KernelError> {
        let geometry = super::geometry::geometry_of(self.layout, self.kv_pool_len, self.layer);
        let qo_dim = self.num_qo_heads * 256;
        let q_extent = self.q.extent();
        let output_extent = self.output.extent();
        KernelError::unless(
            crate::float_bits::finite(self.sm_scale_bits),
            "batch_prefill_paged_window_hd256 sm_scale must be finite",
        )
            .or_fault(KernelError::unless(
                self.window_left >= -1,
                "batch_prefill_paged_window_hd256 window_left must be >= -1",
            ))
            .or_fault(super::geometry::geometry_fault(
                "hd256 window prefill",
                self.layout,
                self.kv_pool_len,
                self.layer,
                256,
                self.layout.num_kv_heads,
                true,
            ))
            .or_fault(KernelError::unless(
                self.plan.max_page_index < geometry.num_pages,
                "hd256 window prefill plan references a page past the pool",
            ))
            .or_fault(KernelError::unless(
                self.plan.max_last_page_len <= geometry.page_size,
                "hd256 window prefill plan last-page length exceeds page_size",
            ))
            .or_fault(KernelError::overflow(qo_dim, "hd256 window prefill num_qo_heads"))
            .or_fault(KernelError::unless_sized(
                self.q.hidden_dim == qo_dim,
                "hd256 window prefill q.hidden_dim",
                self.q.hidden_dim as int,
                qo_dim,
            ))
            .or_fault(KernelError::unless_sized(
                self.output.hidden_dim == qo_dim,
                "hd256 window prefill output.hidden_dim",
                self.output.hidden_dim as int,
                qo_dim,
            ))
            .or_fault(KernelError::unless_sized(
                self.q.seq_len >= self.plan.total_tokens,
                "hd256 window prefill q.seq_len below the plan",
                self.q.seq_len as int,
                self.plan.total_tokens as int,
            ))
            .or_fault(KernelError::unless_sized(
                self.output.seq_len >= self.plan.total_tokens,
                "hd256 window prefill output.seq_len below the plan",
                self.output.seq_len as int,
                self.plan.total_tokens as int,
            ))
            .or_fault(self.q.extent_fault("batch_prefill_paged_window_hd256 q"))
            .or_fault(self.output.extent_fault("batch_prefill_paged_window_hd256 output"))
            .or_fault(KernelError::too_wide(q_extent, "hd256 window prefill q extent"))
            .or_fault(KernelError::too_wide(output_extent, "hd256 window prefill output extent"))
            .or_fault(KernelError::unless_sized(
                self.plan.head_dim == 256,
                "plan built for another head_dim",
                self.plan.head_dim as int,
                256,
            ))
            .or_fault(KernelError::unless_sized(
                self.plan.num_kv_heads == self.layout.num_kv_heads,
                "plan built for another num_kv_heads",
                self.plan.num_kv_heads as int,
                self.layout.num_kv_heads as int,
            ))
            .or_fault(KernelError::unless_sized(
                self.plan.num_qo_heads == self.num_qo_heads,
                "plan built for another num_qo_heads",
                self.plan.num_qo_heads as int,
                self.num_qo_heads as int,
            ))
            .or_fault(KernelError::too_wide(
                self.num_qo_heads as int,
                "hd256 window prefill num_qo_heads",
            ))
            .or_fault(KernelError::too_wide(
                self.layout.num_kv_heads as int,
                "hd256 window prefill num_kv_heads",
            ))
            .or_fault(KernelError::too_wide(
                self.plan.total_tokens as int,
                "hd256 window prefill total_tokens",
            ))
            .or_fault(KernelError::unless(
                self.kernel_cta_tile_q == self.plan.cta_tile_q,
                "hd256 window prefill overridden plans are not supported",
            ))
            .or_fault(KernelError::unless(
                self.layout.storage == KvStorage::Bf16 || self.fp8_built,
                "hd256 windowed batch prefill: fp8 KV is not in this build",
            ))
    }

    /// The launch of a call without a fault.
    pub open spec fn launch(self) -> BatchPrefillPagedWindowHd256Launch {
        let geometry = super::geometry::geometry_of(self.layout, self.kv_pool_len, self.layer);
        let num_qo_heads = self.num_qo_heads as i32;
        let num_kv_heads = self.layout.num_kv_heads as i32;
        let total_tokens = self.plan.total_tokens as i32;
        BatchPrefillPagedWindowHd256Launch {
            geometry,
            num_qo_heads,
            num_kv_heads,
            total_tokens,
            batch_size: self.plan.batch_size,
            num_tiles: self.plan.num_tiles,
            window_left: self.window_left,
            fp8: self.layout.storage == KvStorage::E4m3,
        }
    }
}

/// Windowed paged prefill attention at head_dim 256 over pages that the prep
/// has written. `window_left` is an inclusive distance: a window of N tokens
/// passes N - 1, and -1 means full attention. The kernel computes addresses
/// from page ids without a bounds check, so the plan is held against the pool.
pub fn batch_prefill_paged_window_hd256_into(c: &BatchPrefillPagedWindowHd256) -> (r: Result<
    BatchPrefillPagedWindowHd256Launch,
    KernelError,
>)
    ensures
        r == KernelError::outcome(c.fault(), c.launch()),
{
    ensure_that(
        float_bits::is_finite(c.sm_scale_bits),
        "batch_prefill_paged_window_hd256 sm_scale must be finite",
    )?;
    ensure_that(c.window_left >= -1, "batch_prefill_paged_window_hd256 window_left must be >= -1")?;
    let geometry: PagedGeometry = checked_paged_geometry(
        "hd256 window prefill",
        &c.layout,
        c.kv_pool_len,
        c.layer,
        256,
        c.layout.num_kv_heads,
        true,
    )?;
    ensure_that(
        c.plan.max_page_index < geometry.num_pages,
        "hd256 window prefill plan references a page past the pool",
    )?;
    ensure_that(
        c.plan.max_last_page_len <= geometry.page_size,
        "hd256 window prefill plan last-page length exceeds page_size",
    )?;
    let qo_dim: usize = checked_product(c.num_qo_heads, 256, "hd256 window prefill num_qo_heads")?;
    ensure(c.q.hidden_dim == qo_dim, "hd256 window prefill q.hidden_dim", c.q.hidden_dim, qo_dim)?;
    ensure(
        c.output.hidden_dim == qo_dim,
        "hd256 window prefill output.hidden_dim",
        c.output.hidden_dim,
        qo_dim,
    )?;
    ensure(
        c.q.seq_len >= c.plan.total_tokens,
        "hd256 window prefill q.seq_len below the plan",
        c.q.seq_len,
        c.plan.total_tokens,
    )?;
    ensure(
        c.output.seq_len >= c.plan.total_tokens,
        "hd256 window prefill output.seq_len below the plan",
        c.output.seq_len,
        c.plan.total_tokens,
    )?;
    let q_extent: usize = c.q.checked_extent("batch_prefill_paged_window_hd256 q")?;
    let output_extent: usize = c.output.checked_extent("batch_prefill_paged_window_hd256 output")?;
    checked_i32(q_extent, "hd256 window prefill q extent")?;
    checked_i32(output_extent, "hd256 window prefill output extent")?;
    ensure(c.plan.head_dim == 256, "plan built for another head_dim", c.plan.head_dim, 256)?;
    ensure(
        c.plan.num_kv_heads == c.layout.num_kv_heads,
        "plan built for another num_kv_heads",
        c.plan.num_kv_heads,
        c.layout.num_kv_heads,
    )?;
    ensure(
        c.plan.num_qo_heads == c.num_qo_heads,
        "plan built for another num_qo_heads",
        c.plan.num_qo_heads,
        c.num_qo_heads,
    )?;
    let num_qo_heads: i32 = checked_i32(c.num_qo_heads, "hd256 window prefill num_qo_heads")?;
    let num_kv_heads: i32 = checked_i32(
        c.layout.num_kv_heads,
        "hd256 window prefill num_kv_heads",
    )?;
    let total_tokens: i32 = checked_i32(c.plan.total_tokens, "hd256 window prefill total_tokens")?;
    ensure_that(
        c.kernel_cta_tile_q == c.plan.cta_tile_q,
        "hd256 window prefill overridden plans are not supported",
    )?;
    ensure_that(
        c.layout.storage == KvStorage::Bf16 || c.fp8_built,
        "hd256 windowed batch prefill: fp8 KV is not in this build",
    )?;
    Ok(BatchPrefillPagedWindowHd256Launch {
        geometry,
        num_qo_heads,
        num_kv_heads,
        total_tokens,
        batch_size: c.plan.batch_size,
        num_tiles: c.plan.num_tiles,
        window_left: c.window_left,
        fp8: c.layout.storage == KvStorage::E4m3,
    })
}

} // verus!
