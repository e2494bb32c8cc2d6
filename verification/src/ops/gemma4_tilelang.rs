//! The generated Gemma 4 attention bodies: prefill and split decode of the
//! global family, windowed prefill and decode of the sliding family.

use vstd::prelude::*;

use super::attention::paged::Hd512DecodeMetadata;
use crate::error::checked_i32;
use crate::error::ensure;
use crate::error::ensure_below;
use crate::error::ensure_fit;
use crate::error::ensure_that;
use crate::error::FaultList;
use crate::error::holds_product;
use crate::error::is_product;
use crate::error::KernelError;
use crate::float_bits;
use crate::paged_kv::KvStorage;
use crate::shape::HiddenStates;

verus! {

/// Where a layer's rows stand in the pool, as the generated bodies address it:
/// rows of one width across the pool.
#[derive(Clone, Copy, Debug, PartialEq, Eq)]
pub struct KvRowGeometry {
    pub rows_per_page: usize,
    pub layer_row: usize,
    pub pool_rows: usize,
}

/// The pool that a generated body reads.
#[derive(Clone, Copy, Debug)]
pub struct KvRows {
    pub storage: KvStorage,
    pub head_dim: usize,
    pub num_kv_heads: usize,
    pub page_size: usize,
    /// Whether a row holds a key or a value, and not both folded into one.
    pub split_rows: bool,
    /// Rotated columns that a folded row keeps; zero for split rows.
    pub fold_rotary: usize,
    /// What the layout answered for this pool and layer.
    pub rows: Result<KvRowGeometry, KernelError>,
}

impl KvRows {
    /// The layout's refusal, if it refused.
    pub open spec fn fault(self) -> Option<KernelError> {
        match self.rows {
            Ok(_) => None,
            Err(e) => Some(e),
        }
    }
}

/// Rows that a prefill plan packed: its last query boundary.
pub fn packed_rows(q_indptr_host: &[i32]) -> (r: usize)
    ensures
        r == (if q_indptr_host@.len() > 0 {
            q_indptr_host@.last() as usize
        } else {
            0
        }),
{
    let n: usize = q_indptr_host.len();
    if n > 0 {
        q_indptr_host[n - 1] as usize
    } else {
        0
    }
}

/// What [`gemma4_hd512_prefill_varlen_into`] takes.
#[derive(Clone, Copy, Debug)]
pub struct Gemma4PrefillCall {
    pub q: HiddenStates,
    pub kv: KvRows,
    /// Rows that the plan packed: see [`packed_rows`].
    pub packed_rows: usize,
    /// Segments of the plan.
    pub batch: i32,
    pub output: HiddenStates,
    pub num_qo_heads: usize,
    /// The softmax scale, as its bit pattern.
    pub sm_scale_bits: u32,
}

/// The C arguments that [`gemma4_hd512_prefill_varlen_into`] derives.
#[derive(Clone, Copy, Debug, PartialEq, Eq)]
pub struct Gemma4PrefillLaunch {
    pub batch: i32,
    pub q_rows: i32,
    pub pool_rows: i32,
    pub rows_per_page: i32,
    pub layer_row: i32,
    pub page_size: i32,
    pub fold_rotary: i32,
    pub num_qo_heads: i32,
    pub num_kv_heads: i32,
}

impl Gemma4PrefillCall {
    /// Why the kernel cannot run, if it cannot.
    pub open spec fn fault(self) -> Option<KernelError> {
        let rows = self.kv.rows->Ok_0;
        KernelError::unless(
            crate::float_bits::finite(self.sm_scale_bits),
            "gemma4 hd512 prefill sm_scale must be finite",
        )
            .or_fault(KernelError::unless(
                self.kv.storage == KvStorage::Bf16,
                "gemma4 hd512 prefill loads two-byte rows",
            ))
            .or_fault(KernelError::unless_fit(
                self.q.hidden_dim == self.num_qo_heads * self.kv.head_dim,
                "gemma4 hd512 prefill q.hidden_dim must be head_dim per query head",
                self.q.hidden_dim as int,
                self.num_qo_heads as int,
            ))
            .or_fault(KernelError::unless_sized(
                self.output.hidden_dim == self.q.hidden_dim,
                "gemma4 hd512 prefill output.hidden_dim",
                self.output.hidden_dim as int,
                self.q.hidden_dim as int,
            ))
            .or_fault(KernelError::unless(
                self.q.seq_len >= self.packed_rows && self.output.seq_len >= self.packed_rows,
                "gemma4 hd512 prefill rows below the plan's",
            ))
            .or_fault(self.q.extent_fault("gemma4 hd512 prefill q"))
            .or_fault(self.output.extent_fault("gemma4 hd512 prefill output"))
            .or_fault(self.kv.fault())
            .or_fault(KernelError::too_wide(
                self.kv.fold_rotary as int,
                "gemma4 hd512 prefill fold_rotary",
            ))
            .or_fault(KernelError::too_wide(
                rows.rows_per_page as int,
                "gemma4 hd512 prefill rows_per_page",
            ))
            .or_fault(KernelError::too_wide(
                rows.layer_row as int,
                "gemma4 hd512 prefill layer_row",
            ))
            .or_fault(KernelError::too_wide(
                rows.pool_rows as int,
                "gemma4 hd512 prefill pool_rows",
            ))
            .or_fault(KernelError::too_wide(self.q.seq_len as int, "gemma4 hd512 prefill q_rows"))
            .or_fault(KernelError::too_wide(
                self.kv.page_size as int,
                "gemma4 hd512 prefill page_size",
            ))
            .or_fault(KernelError::too_wide(
                self.num_qo_heads as int,
                "gemma4 hd512 prefill num_qo_heads",
            ))
            .or_fault(KernelError::too_wide(
                self.kv.num_kv_heads as int,
                "gemma4 hd512 prefill num_kv_heads",
            ))
    }

    /// The launch of a call without a fault.
    pub open spec fn launch(self) -> Gemma4PrefillLaunch {
        let rows = self.kv.rows->Ok_0;
        let fold_rotary = self.kv.fold_rotary as i32;
        let rows_per_page = rows.rows_per_page as i32;
        let layer_row = rows.layer_row as i32;
        let pool_rows = rows.pool_rows as i32;
        let q_rows = self.q.seq_len as i32;
        let page_size = self.kv.page_size as i32;
        let num_qo_heads = self.num_qo_heads as i32;
        let num_kv_heads = self.kv.num_kv_heads as i32;
        Gemma4PrefillLaunch {
            batch: self.batch,
            q_rows,
            pool_rows,
            rows_per_page,
            layer_row,
            page_size,
            fold_rotary,
            num_qo_heads,
            num_kv_heads,
        }
    }
}

/// Causal prefill over the global family's pool, ragged across the segments of
/// the step.
pub fn gemma4_hd512_prefill_varlen_into(c: &Gemma4PrefillCall) -> (r: Result<
    Gemma4PrefillLaunch,
    KernelError,
>)
    ensures
        r == KernelError::outcome(c.fault(), c.launch()),
{
    ensure_that(
        float_bits::is_finite(c.sm_scale_bits),
        "gemma4 hd512 prefill sm_scale must be finite",
    )?;
    ensure_that(c.kv.storage == KvStorage::Bf16, "gemma4 hd512 prefill loads two-byte rows")?;
    ensure_fit(
        is_product(c.q.hidden_dim, c.num_qo_heads, c.kv.head_dim),
        "gemma4 hd512 prefill q.hidden_dim must be head_dim per query head",
        c.q.hidden_dim,
        c.num_qo_heads,
    )?;
    ensure(
        c.output.hidden_dim == c.q.hidden_dim,
        "gemma4 hd512 prefill output.hidden_dim",
        c.output.hidden_dim,
        c.q.hidden_dim,
    )?;
    ensure_that(
        c.q.seq_len >= c.packed_rows && c.output.seq_len >= c.packed_rows,
        "gemma4 hd512 prefill rows below the plan's",
    )?;
    c.q.checked_extent("gemma4 hd512 prefill q")?;
    c.output.checked_extent("gemma4 hd512 prefill output")?;
    let rows: KvRowGeometry = c.kv.rows?;
    let fold_rotary: i32 = checked_i32(c.kv.fold_rotary, "gemma4 hd512 prefill fold_rotary")?;
    let rows_per_page: i32 = checked_i32(rows.rows_per_page, "gemma4 hd512 prefill rows_per_page")?;
    let layer_row: i32 = checked_i32(rows.layer_row, "gemma4 hd512 prefill layer_row")?;
    let pool_rows: i32 = checked_i32(rows.pool_rows, "gemma4 hd512 prefill pool_rows")?;
    let q_rows: i32 = checked_i32(c.q.seq_len, "gemma4 hd512 prefill q_rows")?;
    let page_size: i32 = checked_i32(c.kv.page_size, "gemma4 hd512 prefill page_size")?;
    let num_qo_heads: i32 = checked_i32(c.num_qo_heads, "gemma4 hd512 prefill num_qo_heads")?;
    let num_kv_heads: i32 = checked_i32(c.kv.num_kv_heads, "gemma4 hd512 prefill num_kv_heads")?;
    Ok(Gemma4PrefillLaunch {
        batch: c.batch,
        q_rows,
        pool_rows,
        rows_per_page,
        layer_row,
        page_size,
        fold_rotary,
        num_qo_heads,
        num_kv_heads,
    })
}

/// What [`gemma4_hd256_prefill_window_into`] takes.
#[derive(Clone, Copy, Debug)]
pub struct Gemma4WindowPrefillCall {
    pub q: HiddenStates,
    pub kv: KvRows,
    /// Rows that the plan packed: see [`packed_rows`].
    pub packed_rows: usize,
    /// Segments of the plan.
    pub batch: i32,
    pub output: HiddenStates,
    pub num_qo_heads: usize,
    /// The softmax scale, as its bit pattern.
    pub sm_scale_bits: u32,
    pub window_left: usize,
}

/// The C arguments that [`gemma4_hd256_prefill_window_into`] derives.
#[derive(Clone, Copy, Debug, PartialEq, Eq)]
pub struct Gemma4WindowPrefillLaunch {
    pub batch: i32,
    pub q_rows: i32,
    pub pool_rows: i32,
    pub rows_per_page: i32,
    pub layer_row: i32,
    pub page_size: i32,
    pub window_left: i32,
    pub num_qo_heads: i32,
    pub num_kv_heads: i32,
}

impl Gemma4WindowPrefillCall {
    /// Why the kernel cannot run, if it cannot.
    pub open spec fn fault(self) -> Option<KernelError> {
        let rows = self.kv.rows->Ok_0;
        KernelError::unless(self.kv.split_rows, "gemma4 hd256 window prefill reads split rows")
            .or_fault(KernelError::unless(
                self.kv.storage == KvStorage::Bf16,
                "gemma4 hd256 window prefill loads two-byte rows",
            ))
            .or_fault(KernelError::unless(
                crate::float_bits::finite(self.sm_scale_bits),
                "gemma4 hd256 window prefill sm_scale must be finite",
            ))
            .or_fault(KernelError::unless_fit(
                self.q.hidden_dim == self.num_qo_heads * self.kv.head_dim,
                "gemma4 hd256 window prefill q.hidden_dim must be head_dim per query head",
                self.q.hidden_dim as int,
                self.num_qo_heads as int,
            ))
            .or_fault(KernelError::unless_sized(
                self.output.hidden_dim == self.q.hidden_dim,
                "gemma4 hd256 window prefill output.hidden_dim",
                self.output.hidden_dim as int,
                self.q.hidden_dim as int,
            ))
            .or_fault(KernelError::unless(
                self.q.seq_len >= self.packed_rows && self.output.seq_len >= self.packed_rows,
                "gemma4 hd256 window prefill rows below the plan's",
            ))
            .or_fault(self.q.extent_fault("gemma4 hd256 window prefill"))
            .or_fault(self.output.extent_fault("gemma4 hd256 window prefill"))
            .or_fault(self.kv.fault())
            .or_fault(KernelError::too_wide(
                rows.rows_per_page as int,
                "gemma4 hd256 window prefill",
            ))
            .or_fault(KernelError::too_wide(rows.layer_row as int, "gemma4 hd256 window prefill"))
            .or_fault(KernelError::too_wide(rows.pool_rows as int, "gemma4 hd256 window prefill"))
            .or_fault(KernelError::too_wide(self.q.seq_len as int, "gemma4 hd256 window prefill"))
            .or_fault(KernelError::too_wide(
                self.kv.page_size as int,
                "gemma4 hd256 window prefill",
            ))
            .or_fault(KernelError::too_wide(self.window_left as int, "gemma4 hd256 window prefill"))
            .or_fault(KernelError::too_wide(
                self.num_qo_heads as int,
                "gemma4 hd256 window prefill",
            ))
            .or_fault(KernelError::too_wide(
                self.kv.num_kv_heads as int,
                "gemma4 hd256 window prefill",
            ))
    }

    /// The launch of a call without a fault.
    pub open spec fn launch(self) -> Gemma4WindowPrefillLaunch {
        let rows = self.kv.rows->Ok_0;
        let rows_per_page = rows.rows_per_page as i32;
        let layer_row = rows.layer_row as i32;
        let pool_rows = rows.pool_rows as i32;
        let q_rows = self.q.seq_len as i32;
        let page_size = self.kv.page_size as i32;
        let window_left = self.window_left as i32;
        let num_qo_heads = self.num_qo_heads as i32;
        let num_kv_heads = self.kv.num_kv_heads as i32;
        Gemma4WindowPrefillLaunch {
            batch: self.batch,
            q_rows,
            pool_rows,
            rows_per_page,
            layer_row,
            page_size,
            window_left,
            num_qo_heads,
            num_kv_heads,
        }
    }
}

/// Windowed prefill over the sliding family's pool. `window_left` is the
/// inclusive key distance that a query attends to.
pub fn gemma4_hd256_prefill_window_into(c: &Gemma4WindowPrefillCall) -> (r: Result<
    Gemma4WindowPrefillLaunch,
    KernelError,
>)
    ensures
        r == KernelError::outcome(c.fault(), c.launch()),
{
    ensure_that(c.kv.split_rows, "gemma4 hd256 window prefill reads split rows")?;
    ensure_that(
        c.kv.storage == KvStorage::Bf16,
        "gemma4 hd256 window prefill loads two-byte rows",
    )?;
    ensure_that(
        float_bits::is_finite(c.sm_scale_bits),
        "gemma4 hd256 window prefill sm_scale must be finite",
    )?;
    ensure_fit(
        is_product(c.q.hidden_dim, c.num_qo_heads, c.kv.head_dim),
        "gemma4 hd256 window prefill q.hidden_dim must be head_dim per query head",
        c.q.hidden_dim,
        c.num_qo_heads,
    )?;
    ensure(
        c.output.hidden_dim == c.q.hidden_dim,
        "gemma4 hd256 window prefill output.hidden_dim",
        c.output.hidden_dim,
        c.q.hidden_dim,
    )?;
    ensure_that(
        c.q.seq_len >= c.packed_rows && c.output.seq_len >= c.packed_rows,
        "gemma4 hd256 window prefill rows below the plan's",
    )?;
    c.q.checked_extent("gemma4 hd256 window prefill")?;
    c.output.checked_extent("gemma4 hd256 window prefill")?;
    let rows: KvRowGeometry = c.kv.rows?;
    let rows_per_page: i32 = checked_i32(rows.rows_per_page, "gemma4 hd256 window prefill")?;
    let layer_row: i32 = checked_i32(rows.layer_row, "gemma4 hd256 window prefill")?;
    let pool_rows: i32 = checked_i32(rows.pool_rows, "gemma4 hd256 window prefill")?;
    let q_rows: i32 = checked_i32(c.q.seq_len, "gemma4 hd256 window prefill")?;
    let page_size: i32 = checked_i32(c.kv.page_size, "gemma4 hd256 window prefill")?;
    let window_left: i32 = checked_i32(c.window_left, "gemma4 hd256 window prefill")?;
    let num_qo_heads: i32 = checked_i32(c.num_qo_heads, "gemma4 hd256 window prefill")?;
    let num_kv_heads: i32 = checked_i32(c.kv.num_kv_heads, "gemma4 hd256 window prefill")?;
    Ok(Gemma4WindowPrefillLaunch {
        batch: c.batch,
        q_rows,
        pool_rows,
        rows_per_page,
        layer_row,
        page_size,
        window_left,
        num_qo_heads,
        num_kv_heads,
    })
}

/// What a split decode read takes.
#[derive(Clone, Copy, Debug)]
pub struct SplitDecodeCall {
    pub q: HiddenStates,
    pub row_offset: usize,
    pub kv: KvRows,
    pub meta: Hd512DecodeMetadata,
    /// Keys of a chunk.
    pub chunk_tokens: usize,
    pub split_o_indptr_len: usize,
    pub split_valid_mask_len: usize,
    pub split_tmp_v_len: usize,
    pub split_tmp_s_len: usize,
    pub split_padded_slots: usize,
    pub output: HiddenStates,
    pub num_qo_heads: usize,
    /// The softmax scale, as its bit pattern.
    pub sm_scale_bits: u32,
}

/// The family whose pool a split decode reads.
#[derive(Clone, Copy, Debug, PartialEq, Eq)]
pub enum SplitFamily {
    Global,
    Sliding,
}

/// What a split decode is refused with: every text names its kernel.
#[derive(Clone, Copy, Debug)]
pub struct SplitDecodeTexts {
    pub storage: &'static str,
    pub sm_scale: &'static str,
    pub no_rows: &'static str,
    pub output_rows: &'static str,
    pub hidden_dim: &'static str,
    pub slots_below_batch: &'static str,
    pub plan_arrays: &'static str,
    pub o_indptr: &'static str,
    pub workspace: &'static str,
    pub whole_pages: &'static str,
    pub q: &'static str,
    pub output: &'static str,
    pub batch: &'static str,
    pub padded_slots: &'static str,
    pub row_offset: &'static str,
    pub q_rows: &'static str,
    pub pool_rows: &'static str,
    pub rows_per_page: &'static str,
    pub layer_row: &'static str,
    pub page_size: &'static str,
    pub chunk: &'static str,
    pub num_qo_heads: &'static str,
    pub num_kv_heads: &'static str,
}

impl SplitFamily {
    /// The texts of the family's kernel.
    pub open spec fn spec_texts(self) -> SplitDecodeTexts {
        match self {
            SplitFamily::Global => SplitDecodeTexts {
                storage: "gemma4 hd512 decode loads two-byte rows",
                sm_scale: "gemma4 hd512 decode sm_scale must be finite",
                no_rows: "gemma4 hd512 decode row_offset leaves no rows",
                output_rows: "gemma4 hd512 decode output.seq_len",
                hidden_dim: "gemma4 hd512 decode q/out hidden_dim must be head_dim per query head",
                slots_below_batch: "gemma4 hd512 decode padded_slots below the batch",
                plan_arrays: "gemma4 hd512 decode plan arrays shorter than padded_slots",
                o_indptr: "gemma4 hd512 decode o_indptr must hold one entry more than the batch",
                workspace: "gemma4 hd512 decode workspace shorter than padded_slots",
                whole_pages: "gemma4 hd512 decode chunk must be whole pages",
                q: "gemma4 hd512 decode q",
                output: "gemma4 hd512 decode output",
                batch: "gemma4 hd512 decode batch",
                padded_slots: "gemma4 hd512 decode padded slots",
                row_offset: "gemma4 hd512 decode row_offset",
                q_rows: "gemma4 hd512 decode q_rows",
                pool_rows: "gemma4 hd512 decode pool_rows",
                rows_per_page: "gemma4 hd512 decode rows_per_page",
                layer_row: "gemma4 hd512 decode layer_row",
                page_size: "gemma4 hd512 decode page_size",
                chunk: "gemma4 hd512 decode chunk",
                num_qo_heads: "gemma4 hd512 decode num_qo_heads",
                num_kv_heads: "gemma4 hd512 decode num_kv_heads",
            },
            SplitFamily::Sliding => SplitDecodeTexts {
                storage: "gemma4 hd256 window decode loads two-byte rows",
                sm_scale: "gemma4 hd256 window decode sm_scale must be finite",
                no_rows: "gemma4 hd256 window decode row_offset leaves no rows",
                output_rows: "gemma4 hd256 window decode output.seq_len",
                hidden_dim: "gemma4 hd256 window decode q/out hidden_dim must be head_dim per query head",
                slots_below_batch: "gemma4 hd256 window decode padded_slots below the batch",
                plan_arrays: "gemma4 hd256 window decode plan arrays shorter than padded_slots",
                o_indptr: "gemma4 hd256 window decode o_indptr must hold one entry more than the batch",
                workspace: "gemma4 hd256 window decode workspace shorter than padded_slots",
                whole_pages: "gemma4 hd256 window decode chunk must be whole pages",
                q: "gemma4 hd256 window decode q",
                output: "gemma4 hd256 window decode output",
                batch: "gemma4 hd256 window decode batch",
                padded_slots: "gemma4 hd256 window decode padded slots",
                row_offset: "gemma4 hd256 window decode row_offset",
                q_rows: "gemma4 hd256 window decode q_rows",
                pool_rows: "gemma4 hd256 window decode pool_rows",
                rows_per_page: "gemma4 hd256 window decode rows_per_page",
                layer_row: "gemma4 hd256 window decode layer_row",
                page_size: "gemma4 hd256 window decode page_size",
                chunk: "gemma4 hd256 window decode chunk",
                num_qo_heads: "gemma4 hd256 window decode num_qo_heads",
                num_kv_heads: "gemma4 hd256 window decode num_kv_heads",
            },
        }
    }

    /// The texts of the family's kernel.
    pub fn texts(self) -> (r: SplitDecodeTexts)
        ensures
            r == self.spec_texts(),
    {
        match self {
            SplitFamily::Global => SplitDecodeTexts {
                storage: "gemma4 hd512 decode loads two-byte rows",
                sm_scale: "gemma4 hd512 decode sm_scale must be finite",
                no_rows: "gemma4 hd512 decode row_offset leaves no rows",
                output_rows: "gemma4 hd512 decode output.seq_len",
                hidden_dim: "gemma4 hd512 decode q/out hidden_dim must be head_dim per query head",
                slots_below_batch: "gemma4 hd512 decode padded_slots below the batch",
                plan_arrays: "gemma4 hd512 decode plan arrays shorter than padded_slots",
                o_indptr: "gemma4 hd512 decode o_indptr must hold one entry more than the batch",
                workspace: "gemma4 hd512 decode workspace shorter than padded_slots",
                whole_pages: "gemma4 hd512 decode chunk must be whole pages",
                q: "gemma4 hd512 decode q",
                output: "gemma4 hd512 decode output",
                batch: "gemma4 hd512 decode batch",
                padded_slots: "gemma4 hd512 decode padded slots",
                row_offset: "gemma4 hd512 decode row_offset",
                q_rows: "gemma4 hd512 decode q_rows",
                pool_rows: "gemma4 hd512 decode pool_rows",
                rows_per_page: "gemma4 hd512 decode rows_per_page",
                layer_row: "gemma4 hd512 decode layer_row",
                page_size: "gemma4 hd512 decode page_size",
                chunk: "gemma4 hd512 decode chunk",
                num_qo_heads: "gemma4 hd512 decode num_qo_heads",
                num_kv_heads: "gemma4 hd512 decode num_kv_heads",
            },
            SplitFamily::Sliding => SplitDecodeTexts {
                storage: "gemma4 hd256 window decode loads two-byte rows",
                sm_scale: "gemma4 hd256 window decode sm_scale must be finite",
                no_rows: "gemma4 hd256 window decode row_offset leaves no rows",
                output_rows: "gemma4 hd256 window decode output.seq_len",
                hidden_dim: "gemma4 hd256 window decode q/out hidden_dim must be head_dim per query head",
                slots_below_batch: "gemma4 hd256 window decode padded_slots below the batch",
                plan_arrays: "gemma4 hd256 window decode plan arrays shorter than padded_slots",
                o_indptr: "gemma4 hd256 window decode o_indptr must hold one entry more than the batch",
                workspace: "gemma4 hd256 window decode workspace shorter than padded_slots",
                whole_pages: "gemma4 hd256 window decode chunk must be whole pages",
                q: "gemma4 hd256 window decode q",
                output: "gemma4 hd256 window decode output",
                batch: "gemma4 hd256 window decode batch",
                padded_slots: "gemma4 hd256 window decode padded slots",
                row_offset: "gemma4 hd256 window decode row_offset",
                q_rows: "gemma4 hd256 window decode q_rows",
                pool_rows: "gemma4 hd256 window decode pool_rows",
                rows_per_page: "gemma4 hd256 window decode rows_per_page",
                layer_row: "gemma4 hd256 window decode layer_row",
                page_size: "gemma4 hd256 window decode page_size",
                chunk: "gemma4 hd256 window decode chunk",
                num_qo_heads: "gemma4 hd256 window decode num_qo_heads",
                num_kv_heads: "gemma4 hd256 window decode num_kv_heads",
            },
        }
    }
}

/// What a split decode launch takes as C integers.
#[derive(Clone, Copy, Debug, PartialEq, Eq)]
pub struct SplitDecodeArgs {
    pub batch: i32,
    pub padded_slots: i32,
    pub row_offset: i32,
    pub q_rows: i32,
    pub pool_rows: i32,
    pub rows_per_page: i32,
    pub layer_row: i32,
    pub page_size: i32,
    pub chunk_tokens: i32,
    pub num_qo_heads: i32,
    pub num_kv_heads: i32,
}

impl SplitDecodeCall {
    /// Why the kernel cannot run, if it cannot.
    pub open spec fn fault(self, family: SplitFamily) -> Option<KernelError> {
        let texts = family.spec_texts();
        let batch = self.q.seq_len - self.row_offset;
        let rows = self.kv.rows->Ok_0;
        KernelError::unless(
            self.kv.storage == KvStorage::Bf16,
            texts.storage,
        )
            .or_fault(KernelError::unless(
                crate::float_bits::finite(self.sm_scale_bits),
                texts.sm_scale,
            ))
            .or_fault(KernelError::unless_below(
                self.row_offset < self.q.seq_len,
                texts.no_rows,
                self.row_offset as int,
                self.q.seq_len as int,
            ))
            .or_fault(self.meta.fault(batch as usize))
            .or_fault(KernelError::unless_sized(
                self.output.seq_len == self.q.seq_len,
                texts.output_rows,
                self.output.seq_len as int,
                self.q.seq_len as int,
            ))
            .or_fault(KernelError::unless(
                self.q.hidden_dim == self.num_qo_heads * self.kv.head_dim
                    && self.output.hidden_dim == self.q.hidden_dim,
                texts.hidden_dim,
            ))
            .or_fault(KernelError::unless_sized(
                self.split_padded_slots >= batch,
                texts.slots_below_batch,
                self.split_padded_slots as int,
                batch,
            ))
            .or_fault(KernelError::unless(
                self.meta.request_indices >= self.split_padded_slots
                    && self.meta.kv_tile_indices >= self.split_padded_slots
                    && self.split_valid_mask_len >= self.split_padded_slots,
                texts.plan_arrays,
            ))
            .or_fault(KernelError::unless_fit(
                self.split_o_indptr_len > batch,
                texts.o_indptr,
                self.split_o_indptr_len as int,
                batch,
            ))
            .or_fault(KernelError::unless(
                self.split_tmp_v_len >= self.split_padded_slots * self.q.hidden_dim
                    && self.split_tmp_s_len >= self.split_padded_slots * self.num_qo_heads,
                texts.workspace,
            ))
            .or_fault(KernelError::unless_fit(
                super::is_multiple(self.chunk_tokens, self.kv.page_size),
                texts.whole_pages,
                self.chunk_tokens as int,
                self.kv.page_size as int,
            ))
            .or_fault(self.kv.fault())
            .or_fault(self.q.row_fault(self.row_offset, batch as usize, texts.q))
            .or_fault(self.output.row_fault(
                self.row_offset,
                batch as usize,
                texts.output,
            ))
            .or_fault(KernelError::too_wide(batch, texts.batch))
            .or_fault(KernelError::too_wide(
                self.split_padded_slots as int,
                texts.padded_slots,
            ))
            .or_fault(KernelError::too_wide(
                self.row_offset as int,
                texts.row_offset,
            ))
            .or_fault(KernelError::too_wide(self.q.seq_len as int, texts.q_rows))
            .or_fault(KernelError::too_wide(rows.pool_rows as int, texts.pool_rows))
            .or_fault(KernelError::too_wide(
                rows.rows_per_page as int,
                texts.rows_per_page,
            ))
            .or_fault(KernelError::too_wide(rows.layer_row as int, texts.layer_row))
            .or_fault(KernelError::too_wide(
                self.kv.page_size as int,
                texts.page_size,
            ))
            .or_fault(KernelError::too_wide(
                self.chunk_tokens as int,
                texts.chunk,
            ))
            .or_fault(KernelError::too_wide(
                self.num_qo_heads as int,
                texts.num_qo_heads,
            ))
            .or_fault(KernelError::too_wide(
                self.kv.num_kv_heads as int,
                texts.num_kv_heads,
            ))
    }

    /// The launch of a call without a fault.
    pub open spec fn launch(self) -> SplitDecodeArgs {
        let batch = self.q.seq_len - self.row_offset;
        let rows = self.kv.rows->Ok_0;
        let batch_i32 = batch as i32;
        let padded_slots = self.split_padded_slots as i32;
        let row_offset = self.row_offset as i32;
        let q_rows = self.q.seq_len as i32;
        let pool_rows = rows.pool_rows as i32;
        let rows_per_page = rows.rows_per_page as i32;
        let layer_row = rows.layer_row as i32;
        let page_size = self.kv.page_size as i32;
        let chunk_tokens = self.chunk_tokens as i32;
        let num_qo_heads = self.num_qo_heads as i32;
        let num_kv_heads = self.kv.num_kv_heads as i32;
        SplitDecodeArgs {
            batch: batch_i32,
            padded_slots,
            row_offset,
            q_rows,
            pool_rows,
            rows_per_page,
            layer_row,
            page_size,
            chunk_tokens,
            num_qo_heads,
            num_kv_heads,
        }
    }
}

/// The checks that both families' split decode reads share: the rows and slots
/// against the buffers that they index, the chunk against the page, and the
/// pool's rows from the layout.
pub fn split_decode_args(c: &SplitDecodeCall, family: SplitFamily) -> (r: Result<
    SplitDecodeArgs,
    KernelError,
>)
    ensures
        r == KernelError::outcome(c.fault(family), c.launch()),
{
    let texts: SplitDecodeTexts = family.texts();
    ensure_that(c.kv.storage == KvStorage::Bf16, texts.storage)?;
    ensure_that(
        float_bits::is_finite(c.sm_scale_bits),
        texts.sm_scale,
    )?;
    ensure_below(
        c.row_offset < c.q.seq_len,
        texts.no_rows,
        c.row_offset,
        c.q.seq_len,
    )?;
    let batch: usize = c.q.seq_len - c.row_offset;
    c.meta.validate(batch)?;
    ensure(
        c.output.seq_len == c.q.seq_len,
        texts.output_rows,
        c.output.seq_len,
        c.q.seq_len,
    )?;
    ensure_that(
        is_product(c.q.hidden_dim, c.num_qo_heads, c.kv.head_dim)
            && c.output.hidden_dim == c.q.hidden_dim,
        texts.hidden_dim,
    )?;
    ensure(
        c.split_padded_slots >= batch,
        texts.slots_below_batch,
        c.split_padded_slots,
        batch,
    )?;
    ensure_that(
        c.meta.request_indices >= c.split_padded_slots
            && c.meta.kv_tile_indices >= c.split_padded_slots
            && c.split_valid_mask_len >= c.split_padded_slots,
        texts.plan_arrays,
    )?;
    ensure_fit(
        c.split_o_indptr_len > batch,
        texts.o_indptr,
        c.split_o_indptr_len,
        batch,
    )?;
    ensure_that(
        holds_product(c.split_tmp_v_len, c.split_padded_slots, c.q.hidden_dim)
            && holds_product(c.split_tmp_s_len, c.split_padded_slots, c.num_qo_heads),
        texts.workspace,
    )?;
    ensure_fit(
        c.chunk_tokens.is_multiple_of(c.kv.page_size),
        texts.whole_pages,
        c.chunk_tokens,
        c.kv.page_size,
    )?;
    let rows: KvRowGeometry = c.kv.rows?;
    c.q.checked_row_offset(c.row_offset, batch, texts.q)?;
    c.output.checked_row_offset(c.row_offset, batch, texts.output)?;
    let batch_i32: i32 = checked_i32(batch, texts.batch)?;
    let padded_slots: i32 = checked_i32(c.split_padded_slots, texts.padded_slots)?;
    let row_offset: i32 = checked_i32(c.row_offset, texts.row_offset)?;
    let q_rows: i32 = checked_i32(c.q.seq_len, texts.q_rows)?;
    let pool_rows: i32 = checked_i32(rows.pool_rows, texts.pool_rows)?;
    let rows_per_page: i32 = checked_i32(rows.rows_per_page, texts.rows_per_page)?;
    let layer_row: i32 = checked_i32(rows.layer_row, texts.layer_row)?;
    let page_size: i32 = checked_i32(c.kv.page_size, texts.page_size)?;
    let chunk_tokens: i32 = checked_i32(c.chunk_tokens, texts.chunk)?;
    let num_qo_heads: i32 = checked_i32(c.num_qo_heads, texts.num_qo_heads)?;
    let num_kv_heads: i32 = checked_i32(c.kv.num_kv_heads, texts.num_kv_heads)?;
    Ok(SplitDecodeArgs {
        batch: batch_i32,
        padded_slots,
        row_offset,
        q_rows,
        pool_rows,
        rows_per_page,
        layer_row,
        page_size,
        chunk_tokens,
        num_qo_heads,
        num_kv_heads,
    })
}

/// What [`gemma4_hd512_decode_split_kv_into`] takes.
#[derive(Clone, Copy, Debug)]
pub struct Gemma4DecodeCall {
    pub read: SplitDecodeCall,
}

/// The C arguments that [`gemma4_hd512_decode_split_kv_into`] derives.
#[derive(Clone, Copy, Debug, PartialEq, Eq)]
pub struct Gemma4DecodeLaunch {
    pub args: SplitDecodeArgs,
    pub fold_rotary: i32,
}

impl Gemma4DecodeCall {
    /// Why the kernel cannot run, if it cannot.
    pub open spec fn fault(self) -> Option<KernelError> {
        self.read.fault(SplitFamily::Global)
            .or_fault(KernelError::too_wide(
                self.read.kv.fold_rotary as int,
                "gemma4 hd512 decode fold_rotary",
            ))
    }

    /// The launch of a call without a fault.
    pub open spec fn launch(self) -> Gemma4DecodeLaunch {
        let args = self.read.launch();
        let fold_rotary = self.read.kv.fold_rotary as i32;
        Gemma4DecodeLaunch {
            args,
            fold_rotary,
        }
    }
}

/// Split decode over the global family's pool, for the decode rows of the step.
pub fn gemma4_hd512_decode_split_kv_into(c: &Gemma4DecodeCall) -> (r: Result<
    Gemma4DecodeLaunch,
    KernelError,
>)
    ensures
        r == KernelError::outcome(c.fault(), c.launch()),
{
    let args: SplitDecodeArgs = split_decode_args(&c.read, SplitFamily::Global)?;
    let fold_rotary: i32 = checked_i32(c.read.kv.fold_rotary, "gemma4 hd512 decode fold_rotary")?;
    Ok(Gemma4DecodeLaunch {
        args,
        fold_rotary,
    })
}

/// What [`gemma4_hd256_decode_window_into`] takes.
#[derive(Clone, Copy, Debug)]
pub struct Gemma4WindowDecodeCall {
    pub read: SplitDecodeCall,
    pub window_left: usize,
}

/// The C arguments that [`gemma4_hd256_decode_window_into`] derives.
#[derive(Clone, Copy, Debug, PartialEq, Eq)]
pub struct Gemma4WindowDecodeLaunch {
    pub args: SplitDecodeArgs,
    pub window_left: i32,
}

impl Gemma4WindowDecodeCall {
    /// Why the kernel cannot run, if it cannot.
    pub open spec fn fault(self) -> Option<KernelError> {
        KernelError::unless(self.read.kv.split_rows, "gemma4 hd256 window decode reads split rows")
            .or_fault(KernelError::unless(
                self.read.kv.storage == KvStorage::Bf16,
                "gemma4 hd256 window decode loads two-byte rows",
            ))
            .or_fault(self.read.fault(SplitFamily::Sliding))
            .or_fault(KernelError::too_wide(
                self.window_left as int,
                "gemma4 hd256 window decode window",
            ))
    }

    /// The launch of a call without a fault.
    pub open spec fn launch(self) -> Gemma4WindowDecodeLaunch {
        let args = self.read.launch();
        let window_left = self.window_left as i32;
        Gemma4WindowDecodeLaunch {
            args,
            window_left,
        }
    }
}

/// Windowed split decode over the sliding family's pool. The resident pages hold
/// up to a page more than the window, and the kernel masks those keys.
pub fn gemma4_hd256_decode_window_into(c: &Gemma4WindowDecodeCall) -> (r: Result<
    Gemma4WindowDecodeLaunch,
    KernelError,
>)
    ensures
        r == KernelError::outcome(c.fault(), c.launch()),
{
    ensure_that(c.read.kv.split_rows, "gemma4 hd256 window decode reads split rows")?;
    ensure_that(
        c.read.kv.storage == KvStorage::Bf16,
        "gemma4 hd256 window decode loads two-byte rows",
    )?;
    let args: SplitDecodeArgs = split_decode_args(&c.read, SplitFamily::Sliding)?;
    let window_left: i32 = checked_i32(c.window_left, "gemma4 hd256 window decode window")?;
    Ok(Gemma4WindowDecodeLaunch {
        args,
        window_left,
    })
}

/// The status of a build without the generated bodies.
pub const NOT_SUPPORTED: i32 = 801;

/// What a launch that returned `rc` amounts to, for the kernel that `what`
/// names.
pub open spec fn launch_outcome(rc: i32, what: &'static str) -> Result<(), KernelError> {
    if rc == 0 {
        Ok(())
    } else if rc == NOT_SUPPORTED {
        Err(KernelError::NotInBuild { what })
    } else {
        Err(KernelError::CudaError { what, code: rc })
    }
}

/// Accept a zero status. A build without the kernel that `what` names is told
/// apart from a call that its bodies refused and from a launch that failed.
pub fn checked_launch(rc: i32, what: &'static str) -> (r: Result<(), KernelError>)
    ensures
        r == launch_outcome(rc, what),
{
    if rc == 0 {
        Ok(())
    } else if rc == NOT_SUPPORTED {
        Err(KernelError::NotInBuild { what })
    } else {
        Err(KernelError::CudaError { what, code: rc })
    }
}

/// A launch is accepted exactly where its status is zero. The text of any other
/// status starts with the kernel's name, and goes on to say that the kernel is
/// not in this build, or which status it failed with.
pub proof fn law_launch_errors_name_their_kernel(rc: i32, what: &'static str)
    ensures
        launch_outcome(rc, what) is Ok <==> rc == 0,
        rc == NOT_SUPPORTED ==> (what@ + " is not in this build"@).is_prefix_of(
            launch_outcome(rc, what)->Err_0.text(),
        ),
        rc != 0 && rc != NOT_SUPPORTED ==> (what@ + " failed: cudaError="@
            + crate::text::signed_decimal(rc as int)).is_prefix_of(
            launch_outcome(rc, what)->Err_0.text(),
        ),
{
}

/// Where a split decode is accepted, every padded slot has its partial state
/// in the workspace, and a slot's chunk starts on a page boundary.
pub proof fn law_split_slots_are_backed(
    call: SplitDecodeCall,
    family: SplitFamily,
    slot: int,
    chunk: int,
)
    requires
        call.fault(family) is None,
        0 <= slot < call.split_padded_slots,
        call.kv.page_size > 0,
        0 <= chunk,
    ensures
        slot < call.meta.request_indices,
        slot < call.meta.kv_tile_indices,
        slot < call.split_valid_mask_len,
        (slot + 1) * call.q.hidden_dim <= call.split_tmp_v_len,
        (slot + 1) * call.num_qo_heads <= call.split_tmp_s_len,
        (chunk * call.chunk_tokens) % call.kv.page_size as int == 0,
{
    assert((slot + 1) * call.q.hidden_dim <= call.split_padded_slots * call.q.hidden_dim)
        by (nonlinear_arith)
        requires
            slot + 1 <= call.split_padded_slots,
    ;
    assert((slot + 1) * call.num_qo_heads <= call.split_padded_slots * call.num_qo_heads)
        by (nonlinear_arith)
        requires
            slot + 1 <= call.split_padded_slots,
    ;
    let page = call.kv.page_size as int;
    let pages = call.chunk_tokens as int / page;
    assert(call.chunk_tokens == page * pages) by {
        vstd::arithmetic::div_mod::lemma_fundamental_div_mod(call.chunk_tokens as int, page);
    }
    assert(chunk * call.chunk_tokens == page * (chunk * pages)) by (nonlinear_arith)
        requires
            call.chunk_tokens == page * pages,
    ;
    vstd::arithmetic::div_mod::lemma_mod_multiples_basic(chunk * pages, page);
    assert(page * (chunk * pages) == (chunk * pages) * page) by (nonlinear_arith);
}

/// The read of a split decode is accepted exactly when its own operands hold
/// what it reads and writes.
pub proof fn law_split_decode_is_accepted_when_it_fits(c: SplitDecodeCall, family: SplitFamily)
    ensures
        c.fault(family) is None <==> {
            &&& c.kv.storage == KvStorage::Bf16
            &&& crate::float_bits::finite(c.sm_scale_bits)
            &&& c.row_offset < c.q.seq_len
            &&& c.meta.fault((c.q.seq_len - c.row_offset) as usize) is None
            &&& c.output.seq_len == c.q.seq_len
            &&& c.q.hidden_dim == c.num_qo_heads * c.kv.head_dim
            &&& c.output.hidden_dim == c.q.hidden_dim
            &&& c.split_padded_slots >= c.q.seq_len - c.row_offset
            &&& c.meta.request_indices >= c.split_padded_slots
            &&& c.meta.kv_tile_indices >= c.split_padded_slots
            &&& c.split_valid_mask_len >= c.split_padded_slots
            &&& c.split_o_indptr_len > c.q.seq_len - c.row_offset
            &&& c.split_tmp_v_len >= c.split_padded_slots * c.q.hidden_dim
            &&& c.split_tmp_s_len >= c.split_padded_slots * c.num_qo_heads
            &&& super::is_multiple(c.chunk_tokens, c.kv.page_size)
            &&& c.kv.fault() is None
            &&& c.q.hidden_dim * c.q.seq_len <= c.q.data_len
            &&& c.row_offset * c.q.hidden_dim * 2 <= usize::MAX
            &&& c.output.hidden_dim * c.output.seq_len <= c.output.data_len
            &&& c.row_offset * c.output.hidden_dim * 2 <= usize::MAX
            &&& c.q.seq_len - c.row_offset <= i32::MAX
            &&& c.split_padded_slots <= i32::MAX
            &&& c.row_offset <= i32::MAX
            &&& c.q.seq_len <= i32::MAX
            &&& (c.kv.rows->Ok_0).pool_rows <= i32::MAX
            &&& (c.kv.rows->Ok_0).rows_per_page <= i32::MAX
            &&& (c.kv.rows->Ok_0).layer_row <= i32::MAX
            &&& c.kv.page_size <= i32::MAX
            &&& c.chunk_tokens <= i32::MAX
            &&& c.num_qo_heads <= i32::MAX
            &&& c.kv.num_kv_heads <= i32::MAX
        },
{
    assert(c.q.hidden_dim * c.q.seq_len >= 0) by (nonlinear_arith);
    assert(c.row_offset * c.q.hidden_dim >= 0) by (nonlinear_arith);
    assert(c.output.hidden_dim * c.output.seq_len >= 0) by (nonlinear_arith);
    assert(c.row_offset * c.output.hidden_dim >= 0) by (nonlinear_arith);
}

/// The read of a split decode is launched with its own numbers, each where it
/// belongs.
pub proof fn law_split_decode_launches_its_own_numbers(c: SplitDecodeCall, family: SplitFamily)
    requires
        c.fault(family) is None,
    ensures
        c.launch().batch == c.q.seq_len - c.row_offset,
        c.launch().padded_slots == c.split_padded_slots,
        c.launch().row_offset == c.row_offset,
        c.launch().q_rows == c.q.seq_len,
        c.launch().pool_rows == (c.kv.rows->Ok_0).pool_rows,
        c.launch().rows_per_page == (c.kv.rows->Ok_0).rows_per_page,
        c.launch().layer_row == (c.kv.rows->Ok_0).layer_row,
        c.launch().page_size == c.kv.page_size,
        c.launch().chunk_tokens == c.chunk_tokens,
        c.launch().num_qo_heads == c.num_qo_heads,
        c.launch().num_kv_heads == c.kv.num_kv_heads,
{
}

/// A global prefill is accepted exactly when its own operands hold what it
/// reads and writes.
pub proof fn law_gemma4_prefill_is_accepted_when_it_fits(c: Gemma4PrefillCall)
    ensures
        c.fault() is None <==> {
            &&& crate::float_bits::finite(c.sm_scale_bits)
            &&& c.kv.storage == KvStorage::Bf16
            &&& c.q.hidden_dim == c.num_qo_heads * c.kv.head_dim
            &&& c.output.hidden_dim == c.q.hidden_dim
            &&& c.q.seq_len >= c.packed_rows
            &&& c.output.seq_len >= c.packed_rows
            &&& c.q.hidden_dim * c.q.seq_len <= c.q.data_len
            &&& c.output.hidden_dim * c.output.seq_len <= c.output.data_len
            &&& c.kv.fault() is None
            &&& c.kv.fold_rotary <= i32::MAX
            &&& (c.kv.rows->Ok_0).rows_per_page <= i32::MAX
            &&& (c.kv.rows->Ok_0).layer_row <= i32::MAX
            &&& (c.kv.rows->Ok_0).pool_rows <= i32::MAX
            &&& c.q.seq_len <= i32::MAX
            &&& c.kv.page_size <= i32::MAX
            &&& c.num_qo_heads <= i32::MAX
            &&& c.kv.num_kv_heads <= i32::MAX
        },
{
    assert(c.q.hidden_dim * c.q.seq_len >= 0) by (nonlinear_arith);
    assert(c.output.hidden_dim * c.output.seq_len >= 0) by (nonlinear_arith);
}

/// A global prefill is launched with its own numbers, each where it belongs.
pub proof fn law_gemma4_prefill_launches_its_own_numbers(c: Gemma4PrefillCall)
    requires
        c.fault() is None,
    ensures
        c.launch().batch == c.batch,
        c.launch().q_rows == c.q.seq_len,
        c.launch().pool_rows == (c.kv.rows->Ok_0).pool_rows,
        c.launch().rows_per_page == (c.kv.rows->Ok_0).rows_per_page,
        c.launch().layer_row == (c.kv.rows->Ok_0).layer_row,
        c.launch().page_size == c.kv.page_size,
        c.launch().fold_rotary == c.kv.fold_rotary,
        c.launch().num_qo_heads == c.num_qo_heads,
        c.launch().num_kv_heads == c.kv.num_kv_heads,
{
}

/// A windowed prefill is accepted exactly when its own operands hold what it
/// reads and writes.
pub proof fn law_gemma4_window_prefill_is_accepted_when_it_fits(c: Gemma4WindowPrefillCall)
    ensures
        c.fault() is None <==> {
            &&& c.kv.split_rows
            &&& c.kv.storage == KvStorage::Bf16
            &&& crate::float_bits::finite(c.sm_scale_bits)
            &&& c.q.hidden_dim == c.num_qo_heads * c.kv.head_dim
            &&& c.output.hidden_dim == c.q.hidden_dim
            &&& c.q.seq_len >= c.packed_rows
            &&& c.output.seq_len >= c.packed_rows
            &&& c.q.hidden_dim * c.q.seq_len <= c.q.data_len
            &&& c.output.hidden_dim * c.output.seq_len <= c.output.data_len
            &&& c.kv.fault() is None
            &&& (c.kv.rows->Ok_0).rows_per_page <= i32::MAX
            &&& (c.kv.rows->Ok_0).layer_row <= i32::MAX
            &&& (c.kv.rows->Ok_0).pool_rows <= i32::MAX
            &&& c.q.seq_len <= i32::MAX
            &&& c.kv.page_size <= i32::MAX
            &&& c.window_left <= i32::MAX
            &&& c.num_qo_heads <= i32::MAX
            &&& c.kv.num_kv_heads <= i32::MAX
        },
{
    assert(c.q.hidden_dim * c.q.seq_len >= 0) by (nonlinear_arith);
    assert(c.output.hidden_dim * c.output.seq_len >= 0) by (nonlinear_arith);
}

/// A windowed prefill is launched with its own numbers, each where it
/// belongs.
pub proof fn law_gemma4_window_prefill_launches_its_own_numbers(c: Gemma4WindowPrefillCall)
    requires
        c.fault() is None,
    ensures
        c.launch().batch == c.batch,
        c.launch().q_rows == c.q.seq_len,
        c.launch().pool_rows == (c.kv.rows->Ok_0).pool_rows,
        c.launch().rows_per_page == (c.kv.rows->Ok_0).rows_per_page,
        c.launch().layer_row == (c.kv.rows->Ok_0).layer_row,
        c.launch().page_size == c.kv.page_size,
        c.launch().window_left == c.window_left,
        c.launch().num_qo_heads == c.num_qo_heads,
        c.launch().num_kv_heads == c.kv.num_kv_heads,
{
}

/// A global split decode is accepted exactly when its own operands hold what
/// it reads and writes.
pub proof fn law_gemma4_decode_is_accepted_when_it_fits(c: Gemma4DecodeCall)
    ensures
        c.fault() is None <==> {
            &&& c.read.fault(SplitFamily::Global) is None
            &&& c.read.kv.fold_rotary <= i32::MAX
        },
{
}

/// A global split decode is launched with its own numbers, each where it
/// belongs.
pub proof fn law_gemma4_decode_launches_its_own_numbers(c: Gemma4DecodeCall)
    requires
        c.fault() is None,
    ensures
        c.launch().args == c.read.launch(),
        c.launch().fold_rotary == c.read.kv.fold_rotary,
{
}

/// A windowed split decode is accepted exactly when its own operands hold
/// what it reads and writes.
pub proof fn law_gemma4_window_decode_is_accepted_when_it_fits(c: Gemma4WindowDecodeCall)
    ensures
        c.fault() is None <==> {
            &&& c.read.kv.split_rows
            &&& c.read.kv.storage == KvStorage::Bf16
            &&& c.read.fault(SplitFamily::Sliding) is None
            &&& c.window_left <= i32::MAX
        },
{
}

/// A windowed split decode is launched with its own numbers, each where it
/// belongs.
pub proof fn law_gemma4_window_decode_launches_its_own_numbers(c: Gemma4WindowDecodeCall)
    requires
        c.fault() is None,
    ensures
        c.launch().args == c.read.launch(),
        c.launch().window_left == c.window_left,
{
}

/// A view of the pool's rows is faulty exactly where its rows could not be
/// worked out, and for that reason; and a launch code other than zero is an
/// error, code 801 that of a kernel that the build lacks.
pub proof fn law_rows_and_launches_report_their_fault(kv: KvRows, rc: i32, what: &'static str)
    ensures
        kv.fault() is None <==> kv.rows is Ok,
        kv.rows matches Err(e) ==> kv.fault() == Some(e),
        rc == 0 ==> launch_outcome(rc, what) == Ok::<(), KernelError>(()),
        rc == 801 ==> launch_outcome(rc, what) == Err::<(), KernelError>(
            KernelError::NotInBuild { what },
        ),
        rc != 0 && rc != 801 ==> launch_outcome(rc, what) == Err::<(), KernelError>(
            KernelError::CudaError { what, code: rc },
        ),
{
}

/// The read of a split decode that is accepted, and then gets one buffer that
/// does not fit, is refused over that buffer: the answer names the check and
/// shows what it compared.
pub proof fn law_split_decode_is_refused_over_the_buffer_at_fault(
    c: SplitDecodeCall,
    family: SplitFamily,
    n: usize,
)
    requires
        c.fault(family) is None,
    ensures
        n <= c.q.seq_len - c.row_offset ==> (SplitDecodeCall { split_o_indptr_len: n,
            ..c }).fault(family) == Some(
            KernelError::Unfit {
                what: family.spec_texts().o_indptr,
                left: n,
                right: (c.q.seq_len - c.row_offset) as usize,
            },
        ),
        n < c.split_padded_slots ==> (SplitDecodeCall { split_valid_mask_len: n,
            ..c }).fault(family) == Some(
            KernelError::Invalid { what: family.spec_texts().plan_arrays },
        ),
        n < c.split_padded_slots * c.q.hidden_dim ==> (SplitDecodeCall { split_tmp_v_len: n,
            ..c }).fault(family) == Some(
            KernelError::Invalid { what: family.spec_texts().workspace },
        ),
        n < c.split_padded_slots * c.num_qo_heads ==> (SplitDecodeCall { split_tmp_s_len: n,
            ..c }).fault(family) == Some(
            KernelError::Invalid { what: family.spec_texts().workspace },
        ),
{
}

/// A global prefill that is accepted, and then gets one tensor with fewer
/// elements than its shape claims, is refused over that tensor: the answer
/// names it and shows both lengths.
pub proof fn law_gemma4_prefill_is_refused_over_the_tensor_at_fault(c: Gemma4PrefillCall, n: usize)
    requires
        c.fault() is None,
    ensures
        n < c.q.hidden_dim * c.q.seq_len ==> (Gemma4PrefillCall {
            q: HiddenStates { data_len: n, ..c.q },
            ..c
        }).fault() == Some(
            KernelError::Backing {
                what: "gemma4 hd512 prefill q",
                len: n,
                need: (c.q.hidden_dim * c.q.seq_len) as usize,
            },
        ),
        n < c.output.hidden_dim * c.output.seq_len ==> (Gemma4PrefillCall {
            output: HiddenStates { data_len: n, ..c.output },
            ..c
        }).fault() == Some(
            KernelError::Backing {
                what: "gemma4 hd512 prefill output",
                len: n,
                need: (c.output.hidden_dim * c.output.seq_len) as usize,
            },
        ),
{
    assert(c.q.hidden_dim * c.q.seq_len >= 0) by (nonlinear_arith);
    assert(c.output.hidden_dim * c.output.seq_len >= 0) by (nonlinear_arith);
}

/// A windowed prefill that is accepted, and then gets one tensor with fewer
/// elements than its shape claims, is refused over that tensor: the answer
/// names it and shows both lengths.
pub proof fn law_gemma4_window_prefill_is_refused_over_the_tensor_at_fault(
    c: Gemma4WindowPrefillCall,
    n: usize,
)
    requires
        c.fault() is None,
    ensures
        n < c.q.hidden_dim * c.q.seq_len ==> (Gemma4WindowPrefillCall {
            q: HiddenStates { data_len: n, ..c.q },
            ..c
        }).fault() == Some(
            KernelError::Backing {
                what: "gemma4 hd256 window prefill",
                len: n,
                need: (c.q.hidden_dim * c.q.seq_len) as usize,
            },
        ),
        n < c.output.hidden_dim * c.output.seq_len ==> (Gemma4WindowPrefillCall {
            output: HiddenStates { data_len: n, ..c.output },
            ..c
        }).fault() == Some(
            KernelError::Backing {
                what: "gemma4 hd256 window prefill",
                len: n,
                need: (c.output.hidden_dim * c.output.seq_len) as usize,
            },
        ),
{
    assert(c.q.hidden_dim * c.q.seq_len >= 0) by (nonlinear_arith);
    assert(c.output.hidden_dim * c.output.seq_len >= 0) by (nonlinear_arith);
}

/// The read of a split decode that is accepted, and then gets one tensor with
/// fewer elements than its shape claims, is refused over that tensor: the
/// answer names it and shows both lengths.
pub proof fn law_split_decode_is_refused_over_the_tensor_at_fault(
    c: SplitDecodeCall,
    family: SplitFamily,
    n: usize,
)
    requires
        c.fault(family) is None,
    ensures
        n < c.q.hidden_dim * c.q.seq_len ==> (SplitDecodeCall {
            q: HiddenStates { data_len: n, ..c.q },
            ..c
        }).fault(family) == Some(
            KernelError::Backing {
                what: family.spec_texts().q,
                len: n,
                need: (c.q.hidden_dim * c.q.seq_len) as usize,
            },
        ),
        n < c.output.hidden_dim * c.output.seq_len ==> (SplitDecodeCall {
            output: HiddenStates { data_len: n, ..c.output },
            ..c
        }).fault(family) == Some(
            KernelError::Backing {
                what: family.spec_texts().output,
                len: n,
                need: (c.output.hidden_dim * c.output.seq_len) as usize,
            },
        ),
{
    assert(c.q.hidden_dim * c.q.seq_len >= 0) by (nonlinear_arith);
    assert(c.output.hidden_dim * c.output.seq_len >= 0) by (nonlinear_arith);
}

} // verus!
