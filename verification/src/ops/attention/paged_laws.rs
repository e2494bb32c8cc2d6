//! When attention over the paged pool runs, and with what.

use vstd::prelude::*;

use super::paged::BatchPrefillPagedHd512;
use super::paged::BatchPrefillPagedWindowHd256;
use super::paged::Hd512DecodeMetadata;
use super::paged::PagedBatchDecode;
use super::paged::PagedBatchDecodeHd256;
use super::paged::PagedBatchDecodeSplitKv;
use super::paged::PagedDecodeViaPrefillHd256;
use super::paged::PagedDecodeViaPrefillHd512;
use super::paged::PagedSplitDecodeHd512;
use super::paged::PrefillAttentionPaged;
use super::paged::ScatterDecodeKv;
use crate::error::KernelError;
use crate::paged_kv::KvStorage;
use crate::shape::HiddenStates;

verus! {

/// One layer of paged prefill is accepted exactly when its own operands hold
/// what it reads and writes.
pub proof fn law_prefill_attention_paged_is_accepted_when_it_fits(c: PrefillAttentionPaged)
    ensures
        c.fault() is None <==> {
            &&& super::geometry::pool_holds(c.layout, c.kv_pool_len, c.layer, false)
            &&& c.layout.head_dim == c.head_dim
            &&& c.layout.num_kv_heads == c.num_kv_heads
        },
{
    super::geometry::law_geometry_addresses_the_layer(
        "paged prefill",
        c.layout,
        c.kv_pool_len,
        c.layer,
        c.head_dim,
        c.num_kv_heads,
        false,
    );
}

/// One layer of paged prefill is launched with its own numbers, each where it
/// belongs.
pub proof fn law_prefill_attention_paged_launches_its_own_numbers(c: PrefillAttentionPaged)
    requires
        c.fault() is None,
    ensures
        super::geometry::addresses_layer(c.launch().geometry, c.layout, c.kv_pool_len, c.layer),
        c.num_q_heads <= i32::MAX ==> c.launch().num_q_heads == c.num_q_heads,
        c.num_kv_heads <= i32::MAX ==> c.launch().num_kv_heads == c.num_kv_heads,
        c.head_dim <= i32::MAX ==> c.launch().head_dim == c.head_dim,
        c.launch().page_size == c.layout.page_size,
        c.plan.total_tokens <= i32::MAX ==> c.launch().total_tokens == c.plan.total_tokens,
        c.cos_cache.data_len / c.head_dim <= i32::MAX ==> c.launch().cos_max_pos
            == c.cos_cache.data_len / c.head_dim,
        c.launch().src_stride_n == c.num_kv_heads * c.head_dim,
        c.launch().src_stride_h == c.head_dim,
        c.launch().batch_size == c.plan.batch_size,
        c.launch().num_tiles == c.plan.num_tiles,
        c.launch().cta_tile_q == c.plan.cta_tile_q,
{
    super::geometry::law_geometry_addresses_the_layer(
        "paged prefill",
        c.layout,
        c.kv_pool_len,
        c.layer,
        c.head_dim,
        c.num_kv_heads,
        false,
    );
}

/// A batched paged decode is accepted exactly when its own operands hold what
/// it reads and writes.
pub proof fn law_paged_batch_decode_is_accepted_when_it_fits(c: PagedBatchDecode)
    ensures
        c.fault() is None <==> {
            &&& super::geometry::pool_holds(c.layout, c.kv_pool_len, c.layer, false)
        },
{
    super::geometry::law_geometry_addresses_the_layer(
        "batch decode",
        c.layout,
        c.kv_pool_len,
        c.layer,
        c.layout.head_dim,
        c.layout.num_kv_heads,
        false,
    );
}

/// A batched paged decode is launched with its own numbers, each where it
/// belongs.
pub proof fn law_paged_batch_decode_launches_its_own_numbers(c: PagedBatchDecode)
    requires
        c.fault() is None,
    ensures
        super::geometry::addresses_layer(c.launch().geometry, c.layout, c.kv_pool_len, c.layer),
        c.num_qo_heads <= i32::MAX ==> c.launch().num_qo_heads == c.num_qo_heads,
        c.layout.num_kv_heads <= i32::MAX ==> c.launch().num_kv_heads == c.layout.num_kv_heads,
        c.layout.head_dim <= i32::MAX ==> c.launch().head_dim == c.layout.head_dim,
        c.launch().page_size == c.layout.page_size,
        c.batch_size <= i32::MAX ==> c.launch().batch_size == c.batch_size,
        c.launch().src_stride_n == c.layout.num_kv_heads * c.layout.head_dim,
        c.launch().src_stride_h == c.layout.head_dim,
{
    super::geometry::law_geometry_addresses_the_layer(
        "batch decode",
        c.layout,
        c.kv_pool_len,
        c.layer,
        c.layout.head_dim,
        c.layout.num_kv_heads,
        false,
    );
}

/// A batched paged decode that splits the KV is accepted exactly when its own
/// operands hold what it reads and writes.
pub proof fn law_paged_batch_decode_split_kv_is_accepted_when_it_fits(c: PagedBatchDecodeSplitKv)
    ensures
        c.fault() is None <==> {
            &&& c.row_offset + c.batch_size <= c.q.seq_len
            &&& c.q.hidden_dim * c.q.seq_len <= c.q.data_len
            &&& c.row_offset * c.q.hidden_dim * 2 <= usize::MAX
            &&& c.row_offset + c.batch_size <= c.k.seq_len
            &&& c.k.hidden_dim * c.k.seq_len <= c.k.data_len
            &&& c.row_offset * c.k.hidden_dim * 2 <= usize::MAX
            &&& c.row_offset + c.batch_size <= c.v.seq_len
            &&& c.v.hidden_dim * c.v.seq_len <= c.v.data_len
            &&& c.row_offset * c.v.hidden_dim * 2 <= usize::MAX
            &&& c.row_offset + c.batch_size <= c.output.seq_len
            &&& c.output.hidden_dim * c.output.seq_len <= c.output.data_len
            &&& c.row_offset * c.output.hidden_dim * 2 <= usize::MAX
            &&& super::geometry::pool_holds(c.layout, c.kv_pool_len, c.layer, false)
        },
{
    super::geometry::law_geometry_addresses_the_layer(
        "batch split-K decode",
        c.layout,
        c.kv_pool_len,
        c.layer,
        c.layout.head_dim,
        c.layout.num_kv_heads,
        false,
    );
    assert(c.q.hidden_dim * c.q.seq_len >= 0) by (nonlinear_arith);
    assert(c.row_offset * c.q.hidden_dim >= 0) by (nonlinear_arith);
    assert(c.k.hidden_dim * c.k.seq_len >= 0) by (nonlinear_arith);
    assert(c.row_offset * c.k.hidden_dim >= 0) by (nonlinear_arith);
    assert(c.v.hidden_dim * c.v.seq_len >= 0) by (nonlinear_arith);
    assert(c.row_offset * c.v.hidden_dim >= 0) by (nonlinear_arith);
    assert(c.output.hidden_dim * c.output.seq_len >= 0) by (nonlinear_arith);
    assert(c.row_offset * c.output.hidden_dim >= 0) by (nonlinear_arith);
}

/// A batched paged decode that splits the KV is launched with its own
/// numbers, each where it belongs.
pub proof fn law_paged_batch_decode_split_kv_launches_its_own_numbers(c: PagedBatchDecodeSplitKv)
    requires
        c.fault() is None,
    ensures
        super::geometry::addresses_layer(c.launch().geometry, c.layout, c.kv_pool_len, c.layer),
        c.launch().q_row_bytes == c.row_offset * c.q.hidden_dim * 2,
        c.launch().k_row_bytes == c.row_offset * c.k.hidden_dim * 2,
        c.launch().v_row_bytes == c.row_offset * c.v.hidden_dim * 2,
        c.launch().output_row_bytes == c.row_offset * c.output.hidden_dim * 2,
        c.num_qo_heads <= i32::MAX ==> c.launch().num_qo_heads == c.num_qo_heads,
        c.layout.num_kv_heads <= i32::MAX ==> c.launch().num_kv_heads == c.layout.num_kv_heads,
        c.layout.head_dim <= i32::MAX ==> c.launch().head_dim == c.layout.head_dim,
        c.launch().page_size == c.layout.page_size,
        c.batch_size <= i32::MAX ==> c.launch().batch_size == c.batch_size,
        c.split_padded_slots <= i32::MAX ==> c.launch().padded_slots == c.split_padded_slots,
        c.launch().src_stride_n == c.layout.num_kv_heads * c.layout.head_dim,
        c.launch().src_stride_h == c.layout.head_dim,
{
    super::geometry::law_geometry_addresses_the_layer(
        "batch split-K decode",
        c.layout,
        c.kv_pool_len,
        c.layer,
        c.layout.head_dim,
        c.layout.num_kv_heads,
        false,
    );
}

/// The scatter of one decode step's K and V is accepted exactly when its own
/// operands hold what it reads and writes.
pub proof fn law_scatter_decode_kv_is_accepted_when_it_fits(c: ScatterDecodeKv)
    ensures
        c.fault() is None <==> {
            &&& super::geometry::pool_holds(c.layout, c.kv_pool_len, c.layer, false)
        },
{
    super::geometry::law_geometry_addresses_the_layer(
        c.op_name,
        c.layout,
        c.kv_pool_len,
        c.layer,
        c.layout.head_dim,
        c.layout.num_kv_heads,
        false,
    );
}

/// The scatter of one decode step's K and V is launched with its own numbers,
/// each where it belongs.
pub proof fn law_scatter_decode_kv_launches_its_own_numbers(c: ScatterDecodeKv)
    requires
        c.fault() is None,
    ensures
        super::geometry::addresses_layer(c.launch().geometry, c.layout, c.kv_pool_len, c.layer),
        c.layout.num_kv_heads <= i32::MAX ==> c.launch().num_kv_heads == c.layout.num_kv_heads,
        c.layout.head_dim <= i32::MAX ==> c.launch().head_dim == c.layout.head_dim,
        c.launch().page_size == c.layout.page_size,
        c.batch_size <= i32::MAX ==> c.launch().batch_size == c.batch_size,
        c.launch().src_stride_n == c.layout.num_kv_heads * c.layout.head_dim,
        c.launch().src_stride_h == c.layout.head_dim,
{
    super::geometry::law_geometry_addresses_the_layer(
        c.op_name,
        c.layout,
        c.kv_pool_len,
        c.layer,
        c.layout.head_dim,
        c.layout.num_kv_heads,
        false,
    );
}

/// A batched paged decode over 256-wide heads is accepted exactly when its
/// own operands hold what it reads and writes.
pub proof fn law_paged_batch_decode_hd256_is_accepted_when_it_fits(c: PagedBatchDecodeHd256)
    ensures
        c.fault() is None <==> {
            &&& super::geometry::pool_holds(c.layout, c.kv_pool_len, c.layer, false)
        },
{
    super::geometry::law_geometry_addresses_the_layer(
        "batch hd256 decode",
        c.layout,
        c.kv_pool_len,
        c.layer,
        c.layout.head_dim,
        c.layout.num_kv_heads,
        false,
    );
    super::geometry::law_geometry_addresses_the_layer(
        c.scatter_call().op_name,
        c.layout,
        c.kv_pool_len,
        c.layer,
        c.layout.head_dim,
        c.layout.num_kv_heads,
        false,
    );
}

/// A batched paged decode over 256-wide heads is launched with its own
/// numbers, each where it belongs.
pub proof fn law_paged_batch_decode_hd256_launches_its_own_numbers(c: PagedBatchDecodeHd256)
    requires
        c.fault() is None,
    ensures
        super::geometry::addresses_layer(c.launch().geometry, c.layout, c.kv_pool_len, c.layer),
        c.num_qo_heads <= i32::MAX ==> c.launch().num_qo_heads == c.num_qo_heads,
        c.layout.num_kv_heads <= i32::MAX ==> c.launch().num_kv_heads == c.layout.num_kv_heads,
        c.layout.head_dim <= i32::MAX ==> c.launch().head_dim == c.layout.head_dim,
        c.launch().page_size == c.layout.page_size,
        c.batch_size <= i32::MAX ==> c.launch().batch_size == c.batch_size,
        super::geometry::addresses_layer(
            c.launch().scatter.geometry,
            c.layout,
            c.kv_pool_len,
            c.layer,
        ),
        c.layout.num_kv_heads <= i32::MAX ==> c.launch().scatter.num_kv_heads
            == c.layout.num_kv_heads,
        c.layout.head_dim <= i32::MAX ==> c.launch().scatter.head_dim == c.layout.head_dim,
        c.launch().scatter.page_size == c.layout.page_size,
        c.batch_size <= i32::MAX ==> c.launch().scatter.batch_size == c.batch_size,
        c.launch().scatter.src_stride_n == c.layout.num_kv_heads * c.layout.head_dim,
        c.launch().scatter.src_stride_h == c.layout.head_dim,
{
    super::geometry::law_geometry_addresses_the_layer(
        "batch hd256 decode",
        c.layout,
        c.kv_pool_len,
        c.layer,
        c.layout.head_dim,
        c.layout.num_kv_heads,
        false,
    );
    super::geometry::law_geometry_addresses_the_layer(
        c.scatter_call().op_name,
        c.layout,
        c.kv_pool_len,
        c.layer,
        c.layout.head_dim,
        c.layout.num_kv_heads,
        false,
    );
}

/// A decode over 256-wide heads that goes through a prefill plan is accepted
/// exactly when its own operands hold what it reads and writes.
pub proof fn law_paged_decode_via_prefill_hd256_is_accepted_when_it_fits(
    c: PagedDecodeViaPrefillHd256,
)
    ensures
        c.fault() is None <==> {
            &&& c.batch_size == c.plan.total_tokens
            &&& c.batch_size == c.plan.batch_size as usize
            &&& super::geometry::pool_holds(c.layout, c.kv_pool_len, c.layer, false)
        },
{
    super::geometry::law_geometry_addresses_the_layer(
        "batch hd256 decode via prefill",
        c.layout,
        c.kv_pool_len,
        c.layer,
        c.layout.head_dim,
        c.layout.num_kv_heads,
        false,
    );
    super::geometry::law_geometry_addresses_the_layer(
        c.scatter_call().op_name,
        c.layout,
        c.kv_pool_len,
        c.layer,
        c.layout.head_dim,
        c.layout.num_kv_heads,
        false,
    );
}

/// A decode over 256-wide heads that goes through a prefill plan is launched
/// with its own numbers, each where it belongs.
pub proof fn law_paged_decode_via_prefill_hd256_launches_its_own_numbers(
    c: PagedDecodeViaPrefillHd256,
)
    requires
        c.fault() is None,
    ensures
        super::geometry::addresses_layer(c.launch().geometry, c.layout, c.kv_pool_len, c.layer),
        c.num_qo_heads <= i32::MAX ==> c.launch().num_qo_heads == c.num_qo_heads,
        c.layout.num_kv_heads <= i32::MAX ==> c.launch().num_kv_heads == c.layout.num_kv_heads,
        c.layout.head_dim <= i32::MAX ==> c.launch().head_dim == c.layout.head_dim,
        c.launch().page_size == c.layout.page_size,
        c.batch_size <= i32::MAX ==> c.launch().batch_size == c.batch_size,
        c.launch().plan_batch_size == c.plan.batch_size,
        c.launch().num_tiles == c.plan.num_tiles,
        super::geometry::addresses_layer(
            c.launch().scatter.geometry,
            c.layout,
            c.kv_pool_len,
            c.layer,
        ),
        c.layout.num_kv_heads <= i32::MAX ==> c.launch().scatter.num_kv_heads
            == c.layout.num_kv_heads,
        c.layout.head_dim <= i32::MAX ==> c.launch().scatter.head_dim == c.layout.head_dim,
        c.launch().scatter.page_size == c.layout.page_size,
        c.batch_size <= i32::MAX ==> c.launch().scatter.batch_size == c.batch_size,
        c.launch().scatter.src_stride_n == c.layout.num_kv_heads * c.layout.head_dim,
        c.launch().scatter.src_stride_h == c.layout.head_dim,
{
    super::geometry::law_geometry_addresses_the_layer(
        "batch hd256 decode via prefill",
        c.layout,
        c.kv_pool_len,
        c.layer,
        c.layout.head_dim,
        c.layout.num_kv_heads,
        false,
    );
    super::geometry::law_geometry_addresses_the_layer(
        c.scatter_call().op_name,
        c.layout,
        c.kv_pool_len,
        c.layer,
        c.layout.head_dim,
        c.layout.num_kv_heads,
        false,
    );
}

/// A split decode over 512-wide heads is accepted exactly when its own
/// operands hold what it reads and writes.
pub proof fn law_paged_split_decode_hd512_is_accepted_when_it_fits(c: PagedSplitDecodeHd512)
    ensures
        c.fault() is None <==> {
            &&& crate::float_bits::finite(c.sm_scale_bits)
            &&& super::geometry::pool_holds(c.layout, c.kv_pool_len, c.layer, false)
            &&& c.layout.head_dim == 512
            &&& c.row_offset < c.q.seq_len
            &&& c.meta.fault((c.q.seq_len - c.row_offset) as usize) is None
            &&& c.output.seq_len == c.q.seq_len
            &&& c.q.hidden_dim == c.num_qo_heads * 512
            &&& c.output.hidden_dim == c.num_qo_heads * 512
            &&& c.split_padded_slots >= c.q.seq_len - c.row_offset
            &&& c.meta.request_indices >= c.split_padded_slots
            &&& c.meta.kv_tile_indices >= c.split_padded_slots
            &&& c.split_valid_mask_len >= c.split_padded_slots
            &&& c.split_o_indptr_len > c.q.seq_len - c.row_offset
            &&& c.split_tmp_v_len >= (c.split_padded_slots * (c.num_qo_heads * 512))
            &&& c.split_tmp_s_len >= c.split_padded_slots * c.num_qo_heads
            &&& c.q.hidden_dim * c.q.seq_len <= c.q.data_len
            &&& c.output.hidden_dim * c.output.seq_len <= c.output.data_len
            &&& c.q.hidden_dim * c.q.seq_len <= i32::MAX
            &&& c.output.hidden_dim * c.output.seq_len <= i32::MAX
            &&& c.q.seq_len - c.row_offset <= i32::MAX
            &&& c.split_padded_slots <= i32::MAX
            &&& c.num_qo_heads <= i32::MAX
            &&& c.layout.num_kv_heads <= i32::MAX
            &&& c.row_offset * c.q.hidden_dim * 2 <= usize::MAX
            &&& c.row_offset * c.output.hidden_dim * 2 <= usize::MAX
        },
{
    super::geometry::law_geometry_addresses_the_layer(
        "hd512 split decode",
        c.layout,
        c.kv_pool_len,
        c.layer,
        512,
        c.layout.num_kv_heads,
        false,
    );
    assert((c.num_qo_heads * 512) >= 0) by (nonlinear_arith);
    assert((c.split_padded_slots * (c.num_qo_heads * 512)) >= 0) by (nonlinear_arith);
    assert((c.split_padded_slots * c.num_qo_heads) >= 0) by (nonlinear_arith);
    assert(c.q.hidden_dim * c.q.seq_len >= 0) by (nonlinear_arith);
    assert(c.output.hidden_dim * c.output.seq_len >= 0) by (nonlinear_arith);
    assert(c.row_offset * c.q.hidden_dim >= 0) by (nonlinear_arith);
    assert(c.row_offset * c.output.hidden_dim >= 0) by (nonlinear_arith);
}

/// A split decode over 512-wide heads is launched with its own numbers, each
/// where it belongs.
pub proof fn law_paged_split_decode_hd512_launches_its_own_numbers(c: PagedSplitDecodeHd512)
    requires
        c.fault() is None,
    ensures
        super::geometry::addresses_layer(c.launch().geometry, c.layout, c.kv_pool_len, c.layer),
        c.launch().q_row_bytes == c.row_offset * c.q.hidden_dim * 2,
        c.launch().output_row_bytes == c.row_offset * c.output.hidden_dim * 2,
        c.launch().num_qo_heads == c.num_qo_heads,
        c.launch().num_kv_heads == c.layout.num_kv_heads,
        c.launch().batch_size == c.q.seq_len - c.row_offset,
        c.launch().padded_slots == c.split_padded_slots,
{
    super::geometry::law_geometry_addresses_the_layer(
        "hd512 split decode",
        c.layout,
        c.kv_pool_len,
        c.layer,
        512,
        c.layout.num_kv_heads,
        false,
    );
}

/// A decode over 512-wide heads that goes through a prefill plan is accepted
/// exactly when its own operands hold what it reads and writes.
pub proof fn law_paged_decode_via_prefill_hd512_is_accepted_when_it_fits(
    c: PagedDecodeViaPrefillHd512,
)
    ensures
        c.fault() is None <==> {
            &&& crate::float_bits::finite(c.sm_scale_bits)
            &&& c.layout.head_dim == 512
            &&& c.q.hidden_dim == c.num_qo_heads * 512
            &&& c.output.hidden_dim == c.num_qo_heads * 512
            &&& c.q.seq_len >= c.plan.total_tokens
            &&& c.output.seq_len >= c.plan.total_tokens
            &&& c.layer < c.layout.num_layers
            &&& c.q.hidden_dim * c.q.seq_len <= c.q.data_len
            &&& c.output.hidden_dim * c.output.seq_len <= c.output.data_len
            &&& c.positions_len >= c.plan.batch_size as usize
            &&& c.k.hidden_dim == c.layout.num_kv_heads * 512
            &&& c.v.hidden_dim == c.layout.num_kv_heads * 512
            &&& c.k.seq_len >= c.plan.batch_size as usize
            &&& c.v.seq_len >= c.plan.batch_size as usize
            &&& c.k.hidden_dim * c.k.seq_len <= c.k.data_len
            &&& c.v.hidden_dim * c.v.seq_len <= c.v.data_len
            &&& c.plan.head_dim == 512
            &&& c.plan.num_kv_heads == c.layout.num_kv_heads
            &&& c.plan.num_qo_heads == c.num_qo_heads
            &&& c.plan.total_tokens == c.plan.batch_size as usize
            &&& c.kernel_cta_tile_q == c.plan.cta_tile_q
            &&& super::geometry::pool_holds(c.layout, c.kv_pool_len, c.layer, false)
        },
{
    super::geometry::law_geometry_addresses_the_layer(
        "batch hd512 decode via prefill",
        c.layout,
        c.kv_pool_len,
        c.layer,
        c.layout.head_dim,
        c.layout.num_kv_heads,
        false,
    );
    assert(c.q.hidden_dim * c.q.seq_len >= 0) by (nonlinear_arith);
    assert(c.output.hidden_dim * c.output.seq_len >= 0) by (nonlinear_arith);
    assert(c.k.hidden_dim * c.k.seq_len >= 0) by (nonlinear_arith);
    assert(c.v.hidden_dim * c.v.seq_len >= 0) by (nonlinear_arith);
    super::geometry::law_geometry_addresses_the_layer(
        c.scatter_call().op_name,
        c.layout,
        c.kv_pool_len,
        c.layer,
        c.layout.head_dim,
        c.layout.num_kv_heads,
        false,
    );
}

/// A decode over 512-wide heads that goes through a prefill plan is launched
/// with its own numbers, each where it belongs.
pub proof fn law_paged_decode_via_prefill_hd512_launches_its_own_numbers(
    c: PagedDecodeViaPrefillHd512,
)
    requires
        c.fault() is None,
    ensures
        super::geometry::addresses_layer(c.launch().geometry, c.layout, c.kv_pool_len, c.layer),
        c.num_qo_heads <= i32::MAX ==> c.launch().num_qo_heads == c.num_qo_heads,
        c.layout.num_kv_heads <= i32::MAX ==> c.launch().num_kv_heads == c.layout.num_kv_heads,
        c.launch().head_dim == c.layout.head_dim,
        c.launch().page_size == c.layout.page_size,
        c.plan.total_tokens <= i32::MAX ==> c.launch().total_tokens == c.plan.total_tokens,
        c.launch().batch_size == c.plan.batch_size,
        c.launch().num_tiles == c.plan.num_tiles,
        super::geometry::addresses_layer(
            c.launch().scatter.geometry,
            c.layout,
            c.kv_pool_len,
            c.layer,
        ),
        c.layout.num_kv_heads <= i32::MAX ==> c.launch().scatter.num_kv_heads
            == c.layout.num_kv_heads,
        c.layout.head_dim <= i32::MAX ==> c.launch().scatter.head_dim == c.layout.head_dim,
        c.launch().scatter.page_size == c.layout.page_size,
        0 <= c.plan.batch_size ==> c.launch().scatter.batch_size == c.plan.batch_size,
        c.launch().scatter.src_stride_n == c.layout.num_kv_heads * c.layout.head_dim,
        c.launch().scatter.src_stride_h == c.layout.head_dim,
{
    super::geometry::law_geometry_addresses_the_layer(
        "batch hd512 decode via prefill",
        c.layout,
        c.kv_pool_len,
        c.layer,
        c.layout.head_dim,
        c.layout.num_kv_heads,
        false,
    );
    super::geometry::law_geometry_addresses_the_layer(
        c.scatter_call().op_name,
        c.layout,
        c.kv_pool_len,
        c.layer,
        c.layout.head_dim,
        c.layout.num_kv_heads,
        false,
    );
}

/// A paged prefill over 512-wide heads is accepted exactly when its own
/// operands hold what it reads and writes.
pub proof fn law_batch_prefill_paged_hd512_is_accepted_when_it_fits(c: BatchPrefillPagedHd512)
    ensures
        c.fault() is None <==> {
            &&& crate::float_bits::finite(c.sm_scale_bits)
            &&& c.layout.head_dim == 512
            &&& c.q.hidden_dim == c.num_qo_heads * 512
            &&& c.output.hidden_dim == c.num_qo_heads * 512
            &&& c.q.seq_len >= c.plan.total_tokens
            &&& c.output.seq_len >= c.plan.total_tokens
            &&& c.layer < c.layout.num_layers
            &&& c.q.hidden_dim * c.q.seq_len <= c.q.data_len
            &&& c.output.hidden_dim * c.output.seq_len <= c.output.data_len
            &&& c.plan.head_dim == 512
            &&& c.plan.num_kv_heads == c.layout.num_kv_heads
            &&& c.plan.num_qo_heads == c.num_qo_heads
            &&& c.kernel_cta_tile_q == c.plan.cta_tile_q
            &&& super::geometry::pool_holds(c.layout, c.kv_pool_len, c.layer, false)
        },
{
    super::geometry::law_geometry_addresses_the_layer(
        "hd512 prefill",
        c.layout,
        c.kv_pool_len,
        c.layer,
        c.layout.head_dim,
        c.layout.num_kv_heads,
        false,
    );
    assert(c.q.hidden_dim * c.q.seq_len >= 0) by (nonlinear_arith);
    assert(c.output.hidden_dim * c.output.seq_len >= 0) by (nonlinear_arith);
}

/// A paged prefill over 512-wide heads is launched with its own numbers, each
/// where it belongs.
pub proof fn law_batch_prefill_paged_hd512_launches_its_own_numbers(c: BatchPrefillPagedHd512)
    requires
        c.fault() is None,
    ensures
        super::geometry::addresses_layer(c.launch().geometry, c.layout, c.kv_pool_len, c.layer),
        c.num_qo_heads <= i32::MAX ==> c.launch().num_qo_heads == c.num_qo_heads,
        c.layout.num_kv_heads <= i32::MAX ==> c.launch().num_kv_heads == c.layout.num_kv_heads,
        c.launch().head_dim == c.layout.head_dim,
        c.launch().page_size == c.layout.page_size,
        c.plan.total_tokens <= i32::MAX ==> c.launch().total_tokens == c.plan.total_tokens,
        c.launch().batch_size == c.plan.batch_size,
        c.launch().num_tiles == c.plan.num_tiles,
{
    super::geometry::law_geometry_addresses_the_layer(
        "hd512 prefill",
        c.layout,
        c.kv_pool_len,
        c.layer,
        c.layout.head_dim,
        c.layout.num_kv_heads,
        false,
    );
}

/// A windowed paged prefill over 256-wide heads is accepted exactly when its
/// own operands hold what it reads and writes.
pub proof fn law_batch_prefill_paged_window_hd256_is_accepted_when_it_fits(
    c: BatchPrefillPagedWindowHd256,
)
    ensures
        c.fault() is None <==> {
            &&& crate::float_bits::finite(c.sm_scale_bits)
            &&& c.window_left >= -1
            &&& super::geometry::pool_holds(c.layout, c.kv_pool_len, c.layer, true)
            &&& c.layout.head_dim == 256
            &&& c.plan.max_page_index
                    < (super::geometry::geometry_of(c.layout, c.kv_pool_len, c.layer)).num_pages
            &&& c.plan.max_last_page_len
                    <= (super::geometry::geometry_of(c.layout, c.kv_pool_len, c.layer)).page_size
            &&& c.q.hidden_dim == c.num_qo_heads * 256
            &&& c.output.hidden_dim == c.num_qo_heads * 256
            &&& c.q.seq_len >= c.plan.total_tokens
            &&& c.output.seq_len >= c.plan.total_tokens
            &&& c.q.hidden_dim * c.q.seq_len <= c.q.data_len
            &&& c.output.hidden_dim * c.output.seq_len <= c.output.data_len
            &&& c.q.hidden_dim * c.q.seq_len <= i32::MAX
            &&& c.output.hidden_dim * c.output.seq_len <= i32::MAX
            &&& c.plan.head_dim == 256
            &&& c.plan.num_kv_heads == c.layout.num_kv_heads
            &&& c.plan.num_qo_heads == c.num_qo_heads
            &&& c.num_qo_heads <= i32::MAX
            &&& c.layout.num_kv_heads <= i32::MAX
            &&& c.plan.total_tokens <= i32::MAX
            &&& c.kernel_cta_tile_q == c.plan.cta_tile_q
            &&& c.layout.storage == KvStorage::Bf16 || c.fp8_built
        },
{
    super::geometry::law_geometry_addresses_the_layer(
        "hd256 window prefill",
        c.layout,
        c.kv_pool_len,
        c.layer,
        256,
        c.layout.num_kv_heads,
        true,
    );
    assert((c.num_qo_heads * 256) >= 0) by (nonlinear_arith);
    assert(c.q.hidden_dim * c.q.seq_len >= 0) by (nonlinear_arith);
    assert(c.output.hidden_dim * c.output.seq_len >= 0) by (nonlinear_arith);
}

/// A windowed paged prefill over 256-wide heads is launched with its own
/// numbers, each where it belongs.
pub proof fn law_batch_prefill_paged_window_hd256_launches_its_own_numbers(
    c: BatchPrefillPagedWindowHd256,
)
    requires
        c.fault() is None,
    ensures
        super::geometry::addresses_layer(c.launch().geometry, c.layout, c.kv_pool_len, c.layer),
        c.launch().num_qo_heads == c.num_qo_heads,
        c.launch().num_kv_heads == c.layout.num_kv_heads,
        c.launch().total_tokens == c.plan.total_tokens,
        c.launch().batch_size == c.plan.batch_size,
        c.launch().num_tiles == c.plan.num_tiles,
        c.launch().window_left == c.window_left,
        c.launch().fp8 == (c.layout.storage == KvStorage::E4m3),
{
    super::geometry::law_geometry_addresses_the_layer(
        "hd256 window prefill",
        c.layout,
        c.kv_pool_len,
        c.layer,
        256,
        c.layout.num_kv_heads,
        true,
    );
}

/// Metadata covers a batch exactly when it has pages, one boundary more than
/// requests, and an entry of every other kind for each request.
pub proof fn law_hd512_decode_metadata_covers_its_batch(
    meta: Hd512DecodeMetadata,
    batch_size: usize,
)
    ensures
        meta.fault(batch_size) is None <==> {
            &&& meta.page_indices > 0
            &&& meta.page_indptr >= batch_size + 1
            &&& meta.last_page_len >= batch_size
            &&& meta.request_indices >= batch_size
            &&& meta.kv_tile_indices >= batch_size
            &&& meta.kv_chunk_size > 0
        },
{
}

/// A launch of paged prefill reads K and V rows as wide as its own KV heads
/// make them, one head after another.
pub proof fn law_prefill_attention_paged_reads_whole_rows(c: PrefillAttentionPaged)
    requires
        c.fault() is None,
        c.num_q_heads <= i32::MAX,
        c.num_kv_heads <= i32::MAX,
        c.head_dim <= i32::MAX,
    ensures
        c.launch().num_q_heads == c.num_q_heads,
        c.launch().num_kv_heads == c.layout.num_kv_heads,
        c.launch().head_dim == c.layout.head_dim,
        c.launch().num_kv_heads * c.launch().head_dim == c.launch().src_stride_n,
        c.launch().src_stride_h == c.launch().head_dim,
        c.launch().geometry.page_size * c.launch().src_stride_n
            == c.launch().geometry.v_offset_elems - c.launch().geometry.k_offset_elems,
{
    law_prefill_attention_paged_is_accepted_when_it_fits(c);
    law_prefill_attention_paged_launches_its_own_numbers(c);
    let l = c.layout;
    assert(l.page_size * (l.num_kv_heads * l.head_dim) == l.page_size * l.num_kv_heads * l.head_dim)
        by (nonlinear_arith);
}

/// A windowed prefill over the plan of a batch stays in the pool: every page
/// of every request is one of the pool's pages, and no request claims more
/// tokens in its last page than a page has.
pub proof fn law_planned_pages_lie_in_the_pool(
    c: BatchPrefillPagedWindowHd256,
    requests: super::plan::BatchRequests,
    host: super::plan::BatchPlanHost,
    capacity: super::prefill_plan::PlanCapacity,
    num_q_heads: usize,
    num_kv_heads: usize,
    head_dim: usize,
    cta_tile_q: i32,
    i: int,
    p: int,
)
    requires
        requests.wf(),
        super::prefill_plan::PrefillPagedPlan::batch_fault(
            requests,
            num_q_heads,
            num_kv_heads,
            head_dim,
            cta_tile_q,
        ) is None,
        host@ == requests.model(num_q_heads, num_kv_heads, cta_tile_q),
        c.plan == super::prefill_plan::plan_over(
            capacity,
            host@,
            num_q_heads,
            num_kv_heads,
            head_dim,
        ),
        c.fault() is None,
        0 <= i < requests.page_indices@.len(),
        0 <= p < requests.page_indices@[i]@.len(),
    ensures
        0 <= requests.page_indices@[i]@[p] < c.launch().geometry.num_pages,
        1 <= requests.last_page_lens@[i] <= c.layout.page_size,
        c.launch().total_tokens == host.total_tokens,
        c.launch().batch_size == requests.page_indices@.len(),
        c.launch().num_tiles == host.num_tiles,
        c.launch().num_qo_heads == num_q_heads,
        c.launch().num_kv_heads == num_kv_heads,
{
    law_batch_prefill_paged_window_hd256_is_accepted_when_it_fits(c);
    law_batch_prefill_paged_window_hd256_launches_its_own_numbers(c);
    super::plan_laws::law_plan_describes_its_step(
        requests,
        host,
        capacity,
        num_q_heads,
        num_kv_heads,
        head_dim,
        cta_tile_q,
    );
    assert(0 <= requests.page_indices@[i]@[p] <= c.plan.max_page_index);
    assert(1 <= requests.last_page_lens@[i] <= c.plan.max_last_page_len);
}

/// Metadata of a decode that is accepted, and then gets one buffer that does
/// not fit, is refused over that buffer: the answer names the check and shows
/// what it compared.
pub proof fn law_hd512_decode_metadata_is_refused_over_the_buffer_at_fault(
    c: Hd512DecodeMetadata,
    batch_size: usize,
    n: usize,
)
    requires
        c.fault(batch_size) is None,
    ensures
        n < batch_size ==> (Hd512DecodeMetadata { last_page_len: n, ..c }).fault(batch_size)
            == Some(
            KernelError::Rejected {
                what: "Hd512DecodeMetadata: last_page_len must hold batch_size",
                got: n,
                want: batch_size,
            },
        ),
{
}

/// A split decode over 512-wide heads that is accepted, and then gets one
/// buffer that does not fit, is refused over that buffer: the answer names
/// the check and shows what it compared.
pub proof fn law_paged_split_decode_hd512_is_refused_over_the_buffer_at_fault(
    c: PagedSplitDecodeHd512,
    n: usize,
)
    requires
        c.fault() is None,
    ensures
        n <= c.q.seq_len - c.row_offset ==> (PagedSplitDecodeHd512 { split_o_indptr_len: n,
            ..c }).fault() == Some(
            KernelError::Unfit {
                what: "hd512 split decode o_indptr must hold one entry more than the batch",
                left: n,
                right: (c.q.seq_len - c.row_offset) as usize,
            },
        ),
        n < c.split_padded_slots ==> (PagedSplitDecodeHd512 { split_valid_mask_len: n,
            ..c }).fault() == Some(
            KernelError::Invalid {
                what: "hd512 split decode plan arrays shorter than padded_slots",
            },
        ),
        n < c.split_padded_slots * (c.num_qo_heads
            * 512) ==> (PagedSplitDecodeHd512 { split_tmp_v_len: n, ..c }).fault() == Some(
            KernelError::Invalid { what: "hd512 split decode workspace shorter than padded_slots" },
        ),
        n < c.split_padded_slots * c.num_qo_heads ==> (PagedSplitDecodeHd512 { split_tmp_s_len: n,
            ..c }).fault() == Some(
            KernelError::Invalid { what: "hd512 split decode workspace shorter than padded_slots" },
        ),
{
}

/// A decode over 512-wide heads that goes through a prefill plan that is
/// accepted, and then gets one buffer that does not fit, is refused over that
/// buffer: the answer names the check and shows what it compared.
pub proof fn law_paged_decode_via_prefill_hd512_is_refused_over_the_buffer_at_fault(
    c: PagedDecodeViaPrefillHd512,
    n: usize,
)
    requires
        c.fault() is None,
    ensures
        n < c.plan.batch_size as usize ==> (PagedDecodeViaPrefillHd512 { positions_len: n,
            ..c }).fault() == Some(
            KernelError::Rejected {
                what: "hd512 decode-via-prefill positions_d below the batch",
                got: n,
                want: ((c.plan.batch_size as usize) as int) as usize,
            },
        ),
{
}

/// A batched paged decode that splits the KV that is accepted, and then gets
/// one tensor with fewer elements than its shape claims, is refused over that
/// tensor: the answer names it and shows both lengths.
pub proof fn law_paged_batch_decode_split_kv_is_refused_over_the_tensor_at_fault(
    c: PagedBatchDecodeSplitKv,
    n: usize,
)
    requires
        c.fault() is None,
    ensures
        n < c.q.hidden_dim * c.q.seq_len ==> (PagedBatchDecodeSplitKv {
            q: HiddenStates { data_len: n, ..c.q },
            ..c
        }).fault() == Some(
            KernelError::Backing {
                what: "paged_attention_batch_decode_split_kv q",
                len: n,
                need: (c.q.hidden_dim * c.q.seq_len) as usize,
            },
        ),
        n < c.k.hidden_dim * c.k.seq_len ==> (PagedBatchDecodeSplitKv {
            k: HiddenStates { data_len: n, ..c.k },
            ..c
        }).fault() == Some(
            KernelError::Backing {
                what: "paged_attention_batch_decode_split_kv k",
                len: n,
                need: (c.k.hidden_dim * c.k.seq_len) as usize,
            },
        ),
        n < c.v.hidden_dim * c.v.seq_len ==> (PagedBatchDecodeSplitKv {
            v: HiddenStates { data_len: n, ..c.v },
            ..c
        }).fault() == Some(
            KernelError::Backing {
                what: "paged_attention_batch_decode_split_kv v",
                len: n,
                need: (c.v.hidden_dim * c.v.seq_len) as usize,
            },
        ),
        n < c.output.hidden_dim * c.output.seq_len ==> (PagedBatchDecodeSplitKv {
            output: HiddenStates { data_len: n, ..c.output },
            ..c
        }).fault() == Some(
            KernelError::Backing {
                what: "paged_attention_batch_decode_split_kv output",
                len: n,
                need: (c.output.hidden_dim * c.output.seq_len) as usize,
            },
        ),
{
    assert(c.q.hidden_dim * c.q.seq_len >= 0) by (nonlinear_arith);
    assert(c.k.hidden_dim * c.k.seq_len >= 0) by (nonlinear_arith);
    assert(c.v.hidden_dim * c.v.seq_len >= 0) by (nonlinear_arith);
    assert(c.output.hidden_dim * c.output.seq_len >= 0) by (nonlinear_arith);
}

/// A split decode over 512-wide heads that is accepted, and then gets one
/// tensor with fewer elements than its shape claims, is refused over that
/// tensor: the answer names it and shows both lengths.
pub proof fn law_paged_split_decode_hd512_is_refused_over_the_tensor_at_fault(
    c: PagedSplitDecodeHd512,
    n: usize,
)
    requires
        c.fault() is None,
    ensures
        n < c.q.hidden_dim * c.q.seq_len ==> (PagedSplitDecodeHd512 {
            q: HiddenStates { data_len: n, ..c.q },
            ..c
        }).fault() == Some(
            KernelError::Backing {
                what: "batch_decode_hd512 q",
                len: n,
                need: (c.q.hidden_dim * c.q.seq_len) as usize,
            },
        ),
        n < c.output.hidden_dim * c.output.seq_len ==> (PagedSplitDecodeHd512 {
            output: HiddenStates { data_len: n, ..c.output },
            ..c
        }).fault() == Some(
            KernelError::Backing {
                what: "batch_decode_hd512 output",
                len: n,
                need: (c.output.hidden_dim * c.output.seq_len) as usize,
            },
        ),
{
    assert(c.q.hidden_dim * c.q.seq_len >= 0) by (nonlinear_arith);
    assert(c.output.hidden_dim * c.output.seq_len >= 0) by (nonlinear_arith);
}

/// A decode over 512-wide heads that goes through a prefill plan that is
/// accepted, and then gets one tensor with fewer elements than its shape
/// claims, is refused over that tensor: the answer names it and shows both
/// lengths.
pub proof fn law_paged_decode_via_prefill_hd512_is_refused_over_the_tensor_at_fault(
    c: PagedDecodeViaPrefillHd512,
    n: usize,
)
    requires
        c.fault() is None,
    ensures
        n < c.q.hidden_dim * c.q.seq_len ==> (PagedDecodeViaPrefillHd512 {
            q: HiddenStates { data_len: n, ..c.q },
            ..c
        }).fault() == Some(
            KernelError::Backing {
                what: "decode_via_prefill_hd512 q",
                len: n,
                need: (c.q.hidden_dim * c.q.seq_len) as usize,
            },
        ),
        n < c.k.hidden_dim * c.k.seq_len ==> (PagedDecodeViaPrefillHd512 {
            k: HiddenStates { data_len: n, ..c.k },
            ..c
        }).fault() == Some(
            KernelError::Backing {
                what: "decode_via_prefill_hd512 k",
                len: n,
                need: (c.k.hidden_dim * c.k.seq_len) as usize,
            },
        ),
        n < c.v.hidden_dim * c.v.seq_len ==> (PagedDecodeViaPrefillHd512 {
            v: HiddenStates { data_len: n, ..c.v },
            ..c
        }).fault() == Some(
            KernelError::Backing {
                what: "decode_via_prefill_hd512 v",
                len: n,
                need: (c.v.hidden_dim * c.v.seq_len) as usize,
            },
        ),
        n < c.output.hidden_dim * c.output.seq_len ==> (PagedDecodeViaPrefillHd512 {
            output: HiddenStates { data_len: n, ..c.output },
            ..c
        }).fault() == Some(
            KernelError::Backing {
                what: "decode_via_prefill_hd512 output",
                len: n,
                need: (c.output.hidden_dim * c.output.seq_len) as usize,
            },
        ),
{
    assert(c.q.hidden_dim * c.q.seq_len >= 0) by (nonlinear_arith);
    assert(c.k.hidden_dim * c.k.seq_len >= 0) by (nonlinear_arith);
    assert(c.v.hidden_dim * c.v.seq_len >= 0) by (nonlinear_arith);
    assert(c.output.hidden_dim * c.output.seq_len >= 0) by (nonlinear_arith);
}

/// A paged prefill over 512-wide heads that is accepted, and then gets one
/// tensor with fewer elements than its shape claims, is refused over that
/// tensor: the answer names it and shows both lengths.
pub proof fn law_batch_prefill_paged_hd512_is_refused_over_the_tensor_at_fault(
    c: BatchPrefillPagedHd512,
    n: usize,
)
    requires
        c.fault() is None,
    ensures
        n < c.q.hidden_dim * c.q.seq_len ==> (BatchPrefillPagedHd512 {
            q: HiddenStates { data_len: n, ..c.q },
            ..c
        }).fault() == Some(
            KernelError::Backing {
                what: "batch_prefill_paged_hd512 q",
                len: n,
                need: (c.q.hidden_dim * c.q.seq_len) as usize,
            },
        ),
        n < c.output.hidden_dim * c.output.seq_len ==> (BatchPrefillPagedHd512 {
            output: HiddenStates { data_len: n, ..c.output },
            ..c
        }).fault() == Some(
            KernelError::Backing {
                what: "batch_prefill_paged_hd512 output",
                len: n,
                need: (c.output.hidden_dim * c.output.seq_len) as usize,
            },
        ),
{
    assert(c.q.hidden_dim * c.q.seq_len >= 0) by (nonlinear_arith);
    assert(c.output.hidden_dim * c.output.seq_len >= 0) by (nonlinear_arith);
}

/// A windowed paged prefill over 256-wide heads that is accepted, and then
/// gets one tensor with fewer elements than its shape claims, is refused over
/// that tensor: the answer names it and shows both lengths.
pub proof fn law_batch_prefill_paged_window_hd256_is_refused_over_the_tensor_at_fault(
    c: BatchPrefillPagedWindowHd256,
    n: usize,
)
    requires
        c.fault() is None,
    ensures
        n < c.q.hidden_dim * c.q.seq_len ==> (BatchPrefillPagedWindowHd256 {
            q: HiddenStates { data_len: n, ..c.q },
            ..c
        }).fault() == Some(
            KernelError::Backing {
                what: "batch_prefill_paged_window_hd256 q",
                len: n,
                need: (c.q.hidden_dim * c.q.seq_len) as usize,
            },
        ),
        n < c.output.hidden_dim * c.output.seq_len ==> (BatchPrefillPagedWindowHd256 {
            output: HiddenStates { data_len: n, ..c.output },
            ..c
        }).fault() == Some(
            KernelError::Backing {
                what: "batch_prefill_paged_window_hd256 output",
                len: n,
                need: (c.output.hidden_dim * c.output.seq_len) as usize,
            },
        ),
{
    assert(c.q.hidden_dim * c.q.seq_len >= 0) by (nonlinear_arith);
    assert(c.output.hidden_dim * c.output.seq_len >= 0) by (nonlinear_arith);
}

} // verus!
