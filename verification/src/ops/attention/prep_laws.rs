//! What an accepted prep reads and writes.

use vstd::prelude::*;

use super::prep::DflashQkNormRope;
use super::prep::Eagle3Rope;
use super::prep::QkBatchedDecodeHd256;
use super::prep::QkBatchedDecodeHd512;
use super::prep::QkNormRopeBatchDecode;
use super::prep::QkPagedDecodeHd512;
use super::prep::QkPagedPrefillHd512;
use super::prep::QkPrepHd256;
use super::prep::QkvPagedDecodeHd256;
use super::prep::QkvPagedPrefillHd256;
use crate::error::KernelError;
use crate::paged_kv::KvStorage;
use crate::shape::DeviceVec;
use crate::shape::HiddenStates;

verus! {

/// The place of rotary element `d` of a position in the rope tables.
pub open spec fn rope_index(position: int, rotary_dim: usize, d: int) -> int {
    position * rotary_dim + d
}

proof fn lemma_rope_index(position: int, end: int, rotary_dim: usize, d: int)
    requires
        0 <= position < end,
        0 <= d < rotary_dim,
    ensures
        0 <= rope_index(position, rotary_dim, d) < end * rotary_dim,
{
    assert(position * rotary_dim + d < end * rotary_dim) by (nonlinear_arith)
        requires
            0 <= position < end,
            0 <= d < rotary_dim,
    ;
    assert(position * rotary_dim >= 0) by (nonlinear_arith)
        requires
            position >= 0,
    ;
}

proof fn lemma_page_in_window(position: int, page_size: int, origin: int, window: int)
    requires
        page_size > 0,
        origin * page_size <= position,
        position < origin * page_size + window * page_size,
    ensures
        origin <= position / page_size < origin + window,
{
    let page = position / page_size;
    let rest = position % page_size;
    vstd::arithmetic::div_mod::lemma_fundamental_div_mod(position, page_size);
    assert(position == page_size * page + rest && 0 <= rest < page_size);
    assert(origin <= page < origin + window) by (nonlinear_arith)
        requires
            position == page_size * page + rest,
            0 <= rest < page_size,
            origin * page_size <= position,
            position < origin * page_size + window * page_size,
    ;
}

proof fn lemma_row_is_backed(row: int, rows: int, width: int, len: int)
    requires
        0 <= row < rows,
        width >= 0,
        width * rows <= len,
    ensures
        0 <= row * width,
        (row + 1) * width <= len,
{
    assert(0 <= row * width && (row + 1) * width <= width * rows) by (nonlinear_arith)
        requires
            0 <= row < rows,
            width >= 0,
    ;
}

/// An accepted contiguous prep rotates every token by an entry of the rope
/// tables, and reads and writes rows of its buffers.
pub proof fn law_contiguous_prep_is_in_range(call: QkPrepHd256, i: int, d: int)
    requires
        call.fault() is None,
        0 <= i < call.q.seq_len,
        0 <= d < call.rotary_dim,
    ensures
        0 <= rope_index(call.start_pos + i, call.rotary_dim, d) < call.cos_cache.data_len,
        rope_index(call.start_pos + i, call.rotary_dim, d) < call.sin_cache.data_len,
        (i + 1) * call.q.hidden_dim <= call.q.data_len,
        (i + 1) * call.q.hidden_dim <= call.q_out.data_len,
        (i + 1) * call.k.hidden_dim <= call.k.data_len,
        (i + 1) * call.k.hidden_dim <= call.k_out.data_len,
{
    lemma_rope_index(call.start_pos + i, call.cos_max_pos as int, call.rotary_dim, d);
    let n = call.q.seq_len as int;
    lemma_row_is_backed(i, n, call.q.hidden_dim as int, call.q.data_len as int);
    lemma_row_is_backed(i, n, call.q.hidden_dim as int, call.q_out.data_len as int);
    lemma_row_is_backed(i, n, call.k.hidden_dim as int, call.k.data_len as int);
    lemma_row_is_backed(i, n, call.k.hidden_dim as int, call.k_out.data_len as int);
}

/// An accepted paged prep stores every token through an entry of the table
/// window that it was given, whatever page its positions start in, and rotates
/// it by an entry of the rope tables.
pub proof fn law_paged_prep_hd256_is_in_range(call: QkvPagedPrefillHd256, i: int, d: int)
    requires
        call.fault() is None,
        0 <= i < call.q.seq_len - call.row_offset,
        0 <= d < call.rotary_dim,
    ensures
        0 <= (call.start_pos + i) / (call.layout.page_size as int) - call.page_origin,
        call.pages_offset + (call.start_pos + i) / (call.layout.page_size as int) - call.page_origin
            < call.page_indices_len,
        0 <= rope_index(call.start_pos + i, call.rotary_dim, d) < call.cos_cache.data_len,
        rope_index(call.start_pos + i, call.rotary_dim, d) < call.sin_cache.data_len,
        (call.row_offset + i + 1) * call.q.hidden_dim <= call.q.data_len,
        (call.row_offset + i + 1) * call.q.hidden_dim <= call.q_out.data_len,
        (call.row_offset + i + 1) * call.k.hidden_dim <= call.k.data_len,
        (call.row_offset + i + 1) * call.k.hidden_dim <= call.v.data_len,
{
    lemma_rope_index(call.start_pos + i, call.cos_max_pos as int, call.rotary_dim, d);
    lemma_page_in_window(
        call.start_pos + i,
        call.layout.page_size as int,
        call.page_origin as int,
        call.page_indices_len - call.pages_offset,
    );
    let n = call.q.seq_len as int;
    let row = call.row_offset + i;
    lemma_row_is_backed(row, n, call.q.hidden_dim as int, call.q.data_len as int);
    lemma_row_is_backed(row, n, call.q.hidden_dim as int, call.q_out.data_len as int);
    lemma_row_is_backed(row, n, call.k.hidden_dim as int, call.k.data_len as int);
    lemma_row_is_backed(row, n, call.k.hidden_dim as int, call.v.data_len as int);
}

/// The same of the global family's paged prep, whose table window starts at the
/// sequence's first page.
pub proof fn law_paged_prep_hd512_is_in_range(call: QkPagedPrefillHd512, i: int, d: int)
    requires
        call.fault() is None,
        0 <= i < call.q.seq_len - call.row_offset,
        0 <= d < call.rotary_dim,
    ensures
        call.pages_offset + (call.start_pos + i) / (call.layout.page_size as int)
            < call.page_indices_len,
        0 <= rope_index(call.start_pos + i, call.rotary_dim, d) < call.cos_cache.data_len,
        rope_index(call.start_pos + i, call.rotary_dim, d) < call.sin_cache.data_len,
        (call.row_offset + i + 1) * call.q.hidden_dim <= call.q.data_len,
        (call.row_offset + i + 1) * call.q.hidden_dim <= call.q_out.data_len,
        (call.row_offset + i + 1) * call.k.hidden_dim <= call.k.data_len,
{
    lemma_rope_index(call.start_pos + i, call.cos_max_pos as int, call.rotary_dim, d);
    lemma_page_in_window(
        call.start_pos + i,
        call.layout.page_size as int,
        0,
        call.page_indices_len - call.pages_offset,
    );
    let n = call.q.seq_len as int;
    let row = call.row_offset + i;
    lemma_row_is_backed(row, n, call.q.hidden_dim as int, call.q.data_len as int);
    lemma_row_is_backed(row, n, call.q.hidden_dim as int, call.q_out.data_len as int);
    lemma_row_is_backed(row, n, call.k.hidden_dim as int, call.k.data_len as int);
}

/// The launch of an accepted paged prep keeps absolute positions: row `i` of
/// the segment sits at the call's start position plus `i`, is rotated by the
/// table row of that position and goes to the page slot of that position,
/// counted from the page that the call's table window starts at.
pub proof fn law_paged_prep_hd256_keeps_absolute_positions(
    call: QkvPagedPrefillHd256,
    i: int,
    d: int,
)
    requires
        call.fault() is None,
        0 <= i < call.launch().seq_len,
        0 <= d < call.launch().rotary_dim,
    ensures
        ({
            let l = call.launch();
            let position = l.start_pos + i;
            let window_page = position / (l.geometry.page_size as int) - l.page_origin;
            &&& position == call.start_pos + i
            &&& 0 <= position * l.rotary_dim + d < call.cos_cache.data_len
            &&& position * l.rotary_dim + d < call.sin_cache.data_len
            &&& 0 <= window_page < l.page_indices_len
            &&& l.pages_offset_bytes + (window_page + 1) * 4 <= call.page_indices_len * 4
            &&& l.page_origin * l.geometry.page_size <= position
            &&& l.q_row_bytes + (i + 1) * call.q.hidden_dim * 2 <= call.q.data_len * 2
            &&& l.k_row_bytes + (i + 1) * call.k.hidden_dim * 2 <= call.k.data_len * 2
            &&& l.v_row_bytes + (i + 1) * call.v.hidden_dim * 2 <= call.v.data_len * 2
            &&& l.q_out_row_bytes + (i + 1) * call.q_out.hidden_dim * 2 <= call.q_out.data_len * 2
        }),
{
    law_qkv_paged_prefill_hd256_launches_its_own_numbers(call);
    law_paged_prep_hd256_is_in_range(call, i, d);
    lemma_bytes_behind_the_rows(call.row_offset as int, i, call.q.hidden_dim as int);
    lemma_bytes_behind_the_rows(call.row_offset as int, i, call.k.hidden_dim as int);
    lemma_bytes_behind_the_rows(call.row_offset as int, i, call.v.hidden_dim as int);
    lemma_bytes_behind_the_rows(call.row_offset as int, i, call.q_out.hidden_dim as int);
}

proof fn lemma_bytes_behind_the_rows(offset: int, i: int, width: int)
    ensures
        offset * width * 2 + (i + 1) * width * 2 == (offset + i + 1) * width * 2,
{
    assert(offset * width * 2 + (i + 1) * width * 2 == (offset + i + 1) * width * 2)
        by (nonlinear_arith);
}

/// The same of the global family's paged prep, whose pages are counted from
/// the sequence's first.
pub proof fn law_paged_prep_hd512_keeps_absolute_positions(
    call: QkPagedPrefillHd512,
    i: int,
    d: int,
)
    requires
        call.fault() is None,
        0 <= i < call.launch().seq_len,
        0 <= d < call.launch().rotary_dim,
    ensures
        ({
            let l = call.launch();
            let position = l.start_pos + i;
            let page = position / (l.geometry.page_size as int);
            &&& position == call.start_pos + i
            &&& 0 <= position * l.rotary_dim + d < call.cos_cache.data_len
            &&& position * l.rotary_dim + d < call.sin_cache.data_len
            &&& 0 <= page < l.page_indices_len
            &&& l.pages_offset_bytes + (page + 1) * 4 <= call.page_indices_len * 4
            &&& l.q_row_bytes + (i + 1) * call.q.hidden_dim * 2 <= call.q.data_len * 2
            &&& l.k_row_bytes + (i + 1) * call.k.hidden_dim * 2 <= call.k.data_len * 2
            &&& l.q_out_row_bytes + (i + 1) * call.q_out.hidden_dim * 2 <= call.q_out.data_len * 2
        }),
{
    law_qk_paged_prefill_hd512_launches_its_own_numbers(call);
    law_paged_prep_hd512_is_in_range(call, i, d);
    let position = call.start_pos + i;
    assert(position / (call.layout.page_size as int) >= 0) by (nonlinear_arith)
        requires
            position >= 0,
            call.layout.page_size > 0,
    ;
    lemma_bytes_behind_the_rows(call.row_offset as int, i, call.q.hidden_dim as int);
    lemma_bytes_behind_the_rows(call.row_offset as int, i, call.k.hidden_dim as int);
    lemma_bytes_behind_the_rows(call.row_offset as int, i, call.q_out.hidden_dim as int);
}

/// A contiguous prep of 256-wide heads is accepted exactly when its own
/// operands hold what it reads and writes.
pub proof fn law_qk_prep_hd256_is_accepted_when_it_fits(c: QkPrepHd256)
    ensures
        c.fault() is None <==> {
            &&& c.q.hidden_dim == c.num_q_heads * 256
            &&& c.k.hidden_dim == c.num_kv_heads * 256
            &&& c.q_out.hidden_dim == c.q.hidden_dim
            &&& c.k_out.hidden_dim == c.k.hidden_dim
            &&& c.k.seq_len == c.q.seq_len
            &&& c.q_out.seq_len == c.q.seq_len
            &&& c.k_out.seq_len == c.q.seq_len
            &&& c.q_norm_weight.len == 256
            &&& c.k_norm_weight.len == 256
            &&& c.start_pos + c.q.seq_len <= c.cos_max_pos
            &&& c.cos_cache.len >= c.cos_max_pos * c.rotary_dim
            &&& c.sin_cache.len >= c.cos_max_pos * c.rotary_dim
            &&& c.q_norm_weight.len <= c.q_norm_weight.data_len
            &&& c.k_norm_weight.len <= c.k_norm_weight.data_len
            &&& c.cos_cache.len <= c.cos_cache.data_len
            &&& c.sin_cache.len <= c.sin_cache.data_len
            &&& c.q.hidden_dim * c.q.seq_len <= c.q.data_len
            &&& c.k.hidden_dim * c.k.seq_len <= c.k.data_len
            &&& c.q_out.hidden_dim * c.q_out.seq_len <= c.q_out.data_len
            &&& c.k_out.hidden_dim * c.k_out.seq_len <= c.k_out.data_len
            &&& c.q.hidden_dim * c.q.seq_len <= i32::MAX
            &&& c.k.hidden_dim * c.k.seq_len <= i32::MAX
            &&& c.cos_max_pos * c.rotary_dim <= i32::MAX
            &&& c.num_q_heads <= i32::MAX
            &&& c.num_kv_heads <= i32::MAX
            &&& c.q.seq_len <= i32::MAX
            &&& c.start_pos <= i32::MAX
            &&& c.cos_max_pos <= i32::MAX
            &&& c.rotary_dim <= i32::MAX
        },
{
    assert((c.num_q_heads * 256) >= 0) by (nonlinear_arith);
    assert((c.num_kv_heads * 256) >= 0) by (nonlinear_arith);
    assert((c.cos_max_pos * c.rotary_dim) >= 0) by (nonlinear_arith);
    assert(c.q.hidden_dim * c.q.seq_len >= 0) by (nonlinear_arith);
    assert(c.k.hidden_dim * c.k.seq_len >= 0) by (nonlinear_arith);
    assert(c.q_out.hidden_dim * c.q_out.seq_len >= 0) by (nonlinear_arith);
    assert(c.k_out.hidden_dim * c.k_out.seq_len >= 0) by (nonlinear_arith);
}

/// A contiguous prep of 256-wide heads is launched with its own numbers, each
/// where it belongs.
pub proof fn law_qk_prep_hd256_launches_its_own_numbers(c: QkPrepHd256)
    requires
        c.fault() is None,
    ensures
        c.launch().num_q_heads == c.num_q_heads,
        c.launch().num_kv_heads == c.num_kv_heads,
        c.launch().seq_len == c.q.seq_len,
        c.launch().start_pos == c.start_pos,
        c.launch().cos_max_pos == c.cos_max_pos,
        c.launch().rotary_dim == c.rotary_dim,
{
}

/// A paged prefill prep of 256-wide heads is accepted exactly when its own
/// operands hold what it reads and writes.
pub proof fn law_qkv_paged_prefill_hd256_is_accepted_when_it_fits(c: QkvPagedPrefillHd256)
    ensures
        c.fault() is None <==> {
            &&& c.row_offset < c.q.seq_len
            &&& c.pages_offset < c.page_indices_len
            &&& c.q.hidden_dim == c.num_q_heads * 256
            &&& c.q_out.hidden_dim == c.q.hidden_dim
            &&& c.q_out.seq_len == c.q.seq_len
            &&& c.k.hidden_dim == c.num_kv_heads * 256
            &&& c.v.hidden_dim == c.k.hidden_dim
            &&& c.k.seq_len == c.q.seq_len
            &&& c.v.seq_len == c.q.seq_len
            &&& super::geometry::pool_holds(c.layout, c.kv_pool_len, c.layer, true)
            &&& c.layout.head_dim == 256
            &&& c.layout.num_kv_heads == c.num_kv_heads
            &&& c.q_norm_weight.len <= c.q_norm_weight.data_len
            &&& c.k_norm_weight.len <= c.k_norm_weight.data_len
            &&& c.cos_cache.len <= c.cos_cache.data_len
            &&& c.sin_cache.len <= c.sin_cache.data_len
            &&& c.q_norm_weight.len == 256
            &&& c.k_norm_weight.len == 256
            &&& ((c.page_indices_len - c.pages_offset) * c.layout.page_size) <= usize::MAX
            &&& ((c.page_origin * c.layout.page_size) + ((c.page_indices_len - c.pages_offset)
                    * c.layout.page_size)) <= usize::MAX
            &&& c.page_origin * c.layout.page_size <= c.start_pos
            &&& ((c.page_origin * c.layout.page_size) + ((c.page_indices_len - c.pages_offset)
                    * c.layout.page_size)) >= (c.start_pos + (c.q.seq_len - c.row_offset))
            &&& (c.start_pos + (c.q.seq_len - c.row_offset)) <= c.cos_max_pos
            &&& c.cos_cache.len >= c.cos_max_pos * c.rotary_dim
            &&& c.sin_cache.len >= c.cos_max_pos * c.rotary_dim
            &&& c.q.hidden_dim * c.q.seq_len <= c.q.data_len
            &&& c.q_out.hidden_dim * c.q_out.seq_len <= c.q_out.data_len
            &&& c.k.hidden_dim * c.k.seq_len <= c.k.data_len
            &&& c.v.hidden_dim * c.v.seq_len <= c.v.data_len
            &&& c.q.hidden_dim * c.q.seq_len <= i32::MAX
            &&& c.k.hidden_dim * c.k.seq_len <= i32::MAX
            &&& c.cos_max_pos * c.rotary_dim <= i32::MAX
            &&& c.page_origin <= i32::MAX
            &&& c.num_q_heads <= i32::MAX
            &&& c.num_kv_heads <= i32::MAX
            &&& c.q.seq_len - c.row_offset <= i32::MAX
            &&& c.start_pos <= i32::MAX
            &&& c.cos_max_pos <= i32::MAX
            &&& c.rotary_dim <= i32::MAX
            &&& c.page_indices_len - c.pages_offset <= i32::MAX
            &&& c.row_offset * c.q.hidden_dim * 2 <= usize::MAX
            &&& c.row_offset * c.k.hidden_dim * 2 <= usize::MAX
            &&& c.row_offset * c.v.hidden_dim * 2 <= usize::MAX
            &&& c.row_offset * c.q_out.hidden_dim * 2 <= usize::MAX
        },
{
    super::geometry::law_geometry_addresses_the_layer(
        "hd256 paged prep",
        c.layout,
        c.kv_pool_len,
        c.layer,
        256,
        c.num_kv_heads,
        true,
    );
    assert((c.num_q_heads * 256) >= 0) by (nonlinear_arith);
    assert((c.num_kv_heads * 256) >= 0) by (nonlinear_arith);
    assert((c.page_origin * c.layout.page_size) >= 0) by (nonlinear_arith);
    assert((c.cos_max_pos * c.rotary_dim) >= 0) by (nonlinear_arith);
    assert(c.q.hidden_dim * c.q.seq_len >= 0) by (nonlinear_arith);
    assert(c.q_out.hidden_dim * c.q_out.seq_len >= 0) by (nonlinear_arith);
    assert(c.k.hidden_dim * c.k.seq_len >= 0) by (nonlinear_arith);
    assert(c.v.hidden_dim * c.v.seq_len >= 0) by (nonlinear_arith);
    assert(c.row_offset * c.q.hidden_dim >= 0) by (nonlinear_arith);
    assert(c.row_offset * c.k.hidden_dim >= 0) by (nonlinear_arith);
    assert(c.row_offset * c.v.hidden_dim >= 0) by (nonlinear_arith);
    assert(c.row_offset * c.q_out.hidden_dim >= 0) by (nonlinear_arith);
    if c.pages_offset < c.page_indices_len {
        assert((c.page_indices_len - c.pages_offset) * c.layout.page_size >= 0) by (nonlinear_arith)
            requires
                c.pages_offset < c.page_indices_len,
        ;
    }
}

/// A paged prefill prep of 256-wide heads is launched with its own numbers,
/// each where it belongs.
pub proof fn law_qkv_paged_prefill_hd256_launches_its_own_numbers(c: QkvPagedPrefillHd256)
    requires
        c.fault() is None,
    ensures
        super::geometry::addresses_layer(c.launch().geometry, c.layout, c.kv_pool_len, c.layer),
        c.launch().page_indices_len == c.page_indices_len - c.pages_offset,
        c.launch().page_origin == c.page_origin,
        c.launch().num_q_heads == c.num_q_heads,
        c.launch().num_kv_heads == c.num_kv_heads,
        c.launch().seq_len == c.q.seq_len - c.row_offset,
        c.launch().start_pos == c.start_pos,
        c.launch().cos_max_pos == c.cos_max_pos,
        c.launch().rotary_dim == c.rotary_dim,
        c.launch().q_row_bytes == c.row_offset * c.q.hidden_dim * 2,
        c.launch().k_row_bytes == c.row_offset * c.k.hidden_dim * 2,
        c.launch().v_row_bytes == c.row_offset * c.v.hidden_dim * 2,
        c.launch().q_out_row_bytes == c.row_offset * c.q_out.hidden_dim * 2,
        c.pages_offset * 4 <= u64::MAX ==> c.launch().pages_offset_bytes == c.pages_offset * 4,
        c.launch().fp8 == (c.layout.storage == KvStorage::E4m3),
{
    super::geometry::law_geometry_addresses_the_layer(
        "hd256 paged prep",
        c.layout,
        c.kv_pool_len,
        c.layer,
        256,
        c.num_kv_heads,
        true,
    );
}

/// A paged prefill prep of 512-wide heads is accepted exactly when its own
/// operands hold what it reads and writes.
pub proof fn law_qk_paged_prefill_hd512_is_accepted_when_it_fits(c: QkPagedPrefillHd512)
    ensures
        c.fault() is None <==> {
            &&& c.row_offset < c.q.seq_len
            &&& c.pages_offset < c.page_indices_len
            &&& c.q.hidden_dim == c.num_q_heads * 512
            &&& c.q_out.hidden_dim == c.q.hidden_dim
            &&& c.q_out.seq_len == c.q.seq_len
            &&& c.k.hidden_dim == c.num_kv_heads * 512
            &&& c.k.seq_len == c.q.seq_len
            &&& super::geometry::pool_holds(c.layout, c.kv_pool_len, c.layer, false)
            &&& c.layout.head_dim == 512
            &&& c.layout.num_kv_heads == c.num_kv_heads
            &&& c.q_norm_weight.len == 512
            &&& c.k_norm_weight.len == 512
            &&& ((c.page_indices_len - c.pages_offset) * c.layout.page_size) <= usize::MAX
            &&& ((c.page_indices_len - c.pages_offset) * c.layout.page_size) >= (c.start_pos
                    + (c.q.seq_len - c.row_offset))
            &&& (c.start_pos + (c.q.seq_len - c.row_offset)) <= c.cos_max_pos
            &&& c.cos_cache.len >= c.cos_max_pos * c.rotary_dim
            &&& c.sin_cache.len >= c.cos_max_pos * c.rotary_dim
            &&& c.q.hidden_dim * c.q.seq_len <= c.q.data_len
            &&& c.q_out.hidden_dim * c.q_out.seq_len <= c.q_out.data_len
            &&& c.k.hidden_dim * c.k.seq_len <= c.k.data_len
            &&& c.q.hidden_dim * c.q.seq_len <= i32::MAX
            &&& c.k.hidden_dim * c.k.seq_len <= i32::MAX
            &&& c.cos_max_pos * c.rotary_dim <= i32::MAX
            &&& c.q_norm_weight.len <= c.q_norm_weight.data_len
            &&& c.k_norm_weight.len <= c.k_norm_weight.data_len
            &&& c.cos_cache.len <= c.cos_cache.data_len
            &&& c.sin_cache.len <= c.sin_cache.data_len
            &&& c.num_q_heads <= i32::MAX
            &&& c.num_kv_heads <= i32::MAX
            &&& c.q.seq_len - c.row_offset <= i32::MAX
            &&& c.start_pos <= i32::MAX
            &&& c.cos_max_pos <= i32::MAX
            &&& c.rotary_dim <= i32::MAX
            &&& c.page_indices_len - c.pages_offset <= i32::MAX
            &&& c.row_offset * c.q.hidden_dim * 2 <= usize::MAX
            &&& c.row_offset * c.k.hidden_dim * 2 <= usize::MAX
            &&& c.row_offset * c.q_out.hidden_dim * 2 <= usize::MAX
        },
{
    super::geometry::law_geometry_addresses_the_layer(
        "hd512 prefill prep",
        c.layout,
        c.kv_pool_len,
        c.layer,
        512,
        c.num_kv_heads,
        false,
    );
    assert((c.num_q_heads * 512) >= 0) by (nonlinear_arith);
    assert((c.num_kv_heads * 512) >= 0) by (nonlinear_arith);
    assert((c.cos_max_pos * c.rotary_dim) >= 0) by (nonlinear_arith);
    assert(c.q.hidden_dim * c.q.seq_len >= 0) by (nonlinear_arith);
    assert(c.q_out.hidden_dim * c.q_out.seq_len >= 0) by (nonlinear_arith);
    assert(c.k.hidden_dim * c.k.seq_len >= 0) by (nonlinear_arith);
    assert(c.row_offset * c.q.hidden_dim >= 0) by (nonlinear_arith);
    assert(c.row_offset * c.k.hidden_dim >= 0) by (nonlinear_arith);
    assert(c.row_offset * c.q_out.hidden_dim >= 0) by (nonlinear_arith);
    if c.pages_offset < c.page_indices_len {
        assert((c.page_indices_len - c.pages_offset) * c.layout.page_size >= 0) by (nonlinear_arith)
            requires
                c.pages_offset < c.page_indices_len,
        ;
    }
}

/// A paged prefill prep of 512-wide heads is launched with its own numbers,
/// each where it belongs.
pub proof fn law_qk_paged_prefill_hd512_launches_its_own_numbers(c: QkPagedPrefillHd512)
    requires
        c.fault() is None,
    ensures
        super::geometry::addresses_layer(c.launch().geometry, c.layout, c.kv_pool_len, c.layer),
        c.launch().page_indices_len == c.page_indices_len - c.pages_offset,
        c.launch().num_q_heads == c.num_q_heads,
        c.launch().num_kv_heads == c.num_kv_heads,
        c.launch().seq_len == c.q.seq_len - c.row_offset,
        c.launch().start_pos == c.start_pos,
        c.launch().cos_max_pos == c.cos_max_pos,
        c.launch().rotary_dim == c.rotary_dim,
        c.launch().q_row_bytes == c.row_offset * c.q.hidden_dim * 2,
        c.launch().k_row_bytes == c.row_offset * c.k.hidden_dim * 2,
        c.launch().q_out_row_bytes == c.row_offset * c.q_out.hidden_dim * 2,
        c.pages_offset * 4 <= u64::MAX ==> c.launch().pages_offset_bytes == c.pages_offset * 4,
{
    super::geometry::law_geometry_addresses_the_layer(
        "hd512 prefill prep",
        c.layout,
        c.kv_pool_len,
        c.layer,
        512,
        c.num_kv_heads,
        false,
    );
}

/// A paged decode prep of 256-wide heads is accepted exactly when its own
/// operands hold what it reads and writes.
pub proof fn law_qkv_paged_decode_hd256_is_accepted_when_it_fits(c: QkvPagedDecodeHd256)
    ensures
        c.fault() is None <==> {
            &&& c.row_offset < c.q.seq_len
            &&& c.q.hidden_dim == c.num_q_heads * 256
            &&& c.q_out.hidden_dim == c.q.hidden_dim
            &&& c.q_out.seq_len == c.q.seq_len
            &&& c.k.hidden_dim == c.num_kv_heads * 256
            &&& c.k.seq_len == c.q.seq_len
            &&& c.v.hidden_dim == c.k.hidden_dim
            &&& c.v.seq_len == c.q.seq_len
            &&& super::geometry::pool_holds(c.layout, c.kv_pool_len, c.layer, true)
            &&& c.layout.head_dim == 256
            &&& c.layout.num_kv_heads == c.num_kv_heads
            &&& c.q_norm_weight.len <= c.q_norm_weight.data_len
            &&& c.k_norm_weight.len <= c.k_norm_weight.data_len
            &&& c.cos_cache.len <= c.cos_cache.data_len
            &&& c.sin_cache.len <= c.sin_cache.data_len
            &&& c.q_norm_weight.len == 256
            &&& c.k_norm_weight.len == 256
            &&& c.cos_max_pos * c.rotary_dim <= i32::MAX
            &&& c.cos_cache.len >= c.cos_max_pos * c.rotary_dim
            &&& c.sin_cache.len >= c.cos_max_pos * c.rotary_dim
            &&& c.positions_len >= c.q.seq_len - c.row_offset
            &&& c.page_origins_len >= c.q.seq_len - c.row_offset
            &&& c.page_indptr_len > c.q.seq_len - c.row_offset
            &&& c.page_indices_len <= i32::MAX
            &&& c.q.hidden_dim * c.q.seq_len <= c.q.data_len
            &&& c.q_out.hidden_dim * c.q_out.seq_len <= c.q_out.data_len
            &&& c.k.hidden_dim * c.k.seq_len <= c.k.data_len
            &&& c.v.hidden_dim * c.v.seq_len <= c.v.data_len
            &&& c.q.hidden_dim * c.q.seq_len <= i32::MAX
            &&& c.k.hidden_dim * c.k.seq_len <= i32::MAX
            &&& c.num_q_heads <= i32::MAX
            &&& c.num_kv_heads <= i32::MAX
            &&& c.q.seq_len - c.row_offset <= i32::MAX
            &&& c.cos_max_pos <= i32::MAX
            &&& c.rotary_dim <= i32::MAX
            &&& c.row_offset * c.q.hidden_dim * 2 <= usize::MAX
            &&& c.row_offset * c.k.hidden_dim * 2 <= usize::MAX
            &&& c.row_offset * c.v.hidden_dim * 2 <= usize::MAX
            &&& c.row_offset * c.q_out.hidden_dim * 2 <= usize::MAX
        },
{
    super::geometry::law_geometry_addresses_the_layer(
        "hd256 paged decode prep",
        c.layout,
        c.kv_pool_len,
        c.layer,
        256,
        c.num_kv_heads,
        true,
    );
    assert((c.cos_max_pos * c.rotary_dim) >= 0) by (nonlinear_arith);
    assert(c.q.hidden_dim * c.q.seq_len >= 0) by (nonlinear_arith);
    assert(c.q_out.hidden_dim * c.q_out.seq_len >= 0) by (nonlinear_arith);
    assert(c.k.hidden_dim * c.k.seq_len >= 0) by (nonlinear_arith);
    assert(c.v.hidden_dim * c.v.seq_len >= 0) by (nonlinear_arith);
    assert(c.row_offset * c.q.hidden_dim >= 0) by (nonlinear_arith);
    assert(c.row_offset * c.k.hidden_dim >= 0) by (nonlinear_arith);
    assert(c.row_offset * c.v.hidden_dim >= 0) by (nonlinear_arith);
    assert(c.row_offset * c.q_out.hidden_dim >= 0) by (nonlinear_arith);
}

/// A paged decode prep of 256-wide heads is launched with its own numbers,
/// each where it belongs.
pub proof fn law_qkv_paged_decode_hd256_launches_its_own_numbers(c: QkvPagedDecodeHd256)
    requires
        c.fault() is None,
    ensures
        super::geometry::addresses_layer(c.launch().geometry, c.layout, c.kv_pool_len, c.layer),
        c.launch().page_indices_len == c.page_indices_len,
        c.launch().num_q_heads == c.num_q_heads,
        c.launch().num_kv_heads == c.num_kv_heads,
        c.launch().batch == c.q.seq_len - c.row_offset,
        c.launch().cos_max_pos == c.cos_max_pos,
        c.launch().rotary_dim == c.rotary_dim,
        c.launch().q_row_bytes == c.row_offset * c.q.hidden_dim * 2,
        c.launch().k_row_bytes == c.row_offset * c.k.hidden_dim * 2,
        c.launch().v_row_bytes == c.row_offset * c.v.hidden_dim * 2,
        c.launch().q_out_row_bytes == c.row_offset * c.q_out.hidden_dim * 2,
        c.launch().fp8 == (c.layout.storage == KvStorage::E4m3),
{
    super::geometry::law_geometry_addresses_the_layer(
        "hd256 paged decode prep",
        c.layout,
        c.kv_pool_len,
        c.layer,
        256,
        c.num_kv_heads,
        true,
    );
}

/// A paged decode prep of 512-wide heads is accepted exactly when its own
/// operands hold what it reads and writes.
pub proof fn law_qk_paged_decode_hd512_is_accepted_when_it_fits(c: QkPagedDecodeHd512)
    ensures
        c.fault() is None <==> {
            &&& c.row_offset < c.q.seq_len
            &&& c.q.hidden_dim == c.num_q_heads * 512
            &&& c.q_out.hidden_dim == c.q.hidden_dim
            &&& c.q_out.seq_len == c.q.seq_len
            &&& c.k.hidden_dim == c.num_kv_heads * 512
            &&& c.k.seq_len == c.q.seq_len
            &&& super::geometry::pool_holds(c.layout, c.kv_pool_len, c.layer, false)
            &&& c.layout.head_dim == 512
            &&& c.layout.num_kv_heads == c.num_kv_heads
            &&& c.q_norm_weight.len <= c.q_norm_weight.data_len
            &&& c.k_norm_weight.len <= c.k_norm_weight.data_len
            &&& c.cos_cache.len <= c.cos_cache.data_len
            &&& c.sin_cache.len <= c.sin_cache.data_len
            &&& c.q_norm_weight.len == 512
            &&& c.k_norm_weight.len == 512
            &&& c.cos_max_pos * c.rotary_dim <= i32::MAX
            &&& c.cos_cache.len >= c.cos_max_pos * c.rotary_dim
            &&& c.sin_cache.len >= c.cos_max_pos * c.rotary_dim
            &&& c.positions_len >= c.q.seq_len - c.row_offset
            &&& c.page_origins_len >= c.q.seq_len - c.row_offset
            &&& c.page_indptr_len > c.q.seq_len - c.row_offset
            &&& c.page_indices_len <= i32::MAX
            &&& c.q.hidden_dim * c.q.seq_len <= c.q.data_len
            &&& c.q_out.hidden_dim * c.q_out.seq_len <= c.q_out.data_len
            &&& c.k.hidden_dim * c.k.seq_len <= c.k.data_len
            &&& c.q.hidden_dim * c.q.seq_len <= i32::MAX
            &&& c.k.hidden_dim * c.k.seq_len <= i32::MAX
            &&& c.num_q_heads <= i32::MAX
            &&& c.num_kv_heads <= i32::MAX
            &&& c.q.seq_len - c.row_offset <= i32::MAX
            &&& c.cos_max_pos <= i32::MAX
            &&& c.rotary_dim <= i32::MAX
            &&& c.row_offset * c.q.hidden_dim * 2 <= usize::MAX
            &&& c.row_offset * c.k.hidden_dim * 2 <= usize::MAX
            &&& c.row_offset * c.q_out.hidden_dim * 2 <= usize::MAX
        },
{
    super::geometry::law_geometry_addresses_the_layer(
        "hd512 paged decode prep",
        c.layout,
        c.kv_pool_len,
        c.layer,
        512,
        c.num_kv_heads,
        false,
    );
    assert((c.cos_max_pos * c.rotary_dim) >= 0) by (nonlinear_arith);
    assert(c.q.hidden_dim * c.q.seq_len >= 0) by (nonlinear_arith);
    assert(c.q_out.hidden_dim * c.q_out.seq_len >= 0) by (nonlinear_arith);
    assert(c.k.hidden_dim * c.k.seq_len >= 0) by (nonlinear_arith);
    assert(c.row_offset * c.q.hidden_dim >= 0) by (nonlinear_arith);
    assert(c.row_offset * c.k.hidden_dim >= 0) by (nonlinear_arith);
    assert(c.row_offset * c.q_out.hidden_dim >= 0) by (nonlinear_arith);
}

/// A paged decode prep of 512-wide heads is launched with its own numbers,
/// each where it belongs.
pub proof fn law_qk_paged_decode_hd512_launches_its_own_numbers(c: QkPagedDecodeHd512)
    requires
        c.fault() is None,
    ensures
        super::geometry::addresses_layer(c.launch().geometry, c.layout, c.kv_pool_len, c.layer),
        c.launch().page_indices_len == c.page_indices_len,
        c.launch().num_q_heads == c.num_q_heads,
        c.launch().num_kv_heads == c.num_kv_heads,
        c.launch().batch == c.q.seq_len - c.row_offset,
        c.launch().cos_max_pos == c.cos_max_pos,
        c.launch().rotary_dim == c.rotary_dim,
        c.launch().q_row_bytes == c.row_offset * c.q.hidden_dim * 2,
        c.launch().k_row_bytes == c.row_offset * c.k.hidden_dim * 2,
        c.launch().q_out_row_bytes == c.row_offset * c.q_out.hidden_dim * 2,
{
    super::geometry::law_geometry_addresses_the_layer(
        "hd512 paged decode prep",
        c.layout,
        c.kv_pool_len,
        c.layer,
        512,
        c.num_kv_heads,
        false,
    );
}

/// A batched decode prep of 512-wide heads is accepted exactly when its own
/// operands hold what it reads and writes.
pub proof fn law_qk_batched_decode_hd512_is_accepted_when_it_fits(c: QkBatchedDecodeHd512)
    ensures
        c.fault() is None <==> {
            &&& c.q.hidden_dim == c.num_q_heads * 512
            &&& c.q_out.hidden_dim == c.q.hidden_dim
            &&& c.q_out.seq_len == c.q.seq_len
            &&& c.k.hidden_dim == c.num_kv_heads * 512
            &&& c.k.seq_len == c.q.seq_len
            &&& c.q_norm_weight.len == 512
            &&& c.k_norm_weight.len == 512
            &&& c.positions_len == c.q.seq_len
            &&& c.cos_cache.len >= c.cos_max_pos * c.rotary_dim
            &&& c.sin_cache.len >= c.cos_max_pos * c.rotary_dim
            &&& c.q.hidden_dim * c.q.seq_len <= c.q.data_len
            &&& c.q_out.hidden_dim * c.q_out.seq_len <= c.q_out.data_len
            &&& c.k.hidden_dim * c.k.seq_len <= c.k.data_len
            &&& c.q_norm_weight.len <= c.q_norm_weight.data_len
            &&& c.k_norm_weight.len <= c.k_norm_weight.data_len
            &&& c.cos_cache.len <= c.cos_cache.data_len
            &&& c.sin_cache.len <= c.sin_cache.data_len
        },
{
    assert(c.q.hidden_dim * c.q.seq_len >= 0) by (nonlinear_arith);
    assert(c.q_out.hidden_dim * c.q_out.seq_len >= 0) by (nonlinear_arith);
    assert(c.k.hidden_dim * c.k.seq_len >= 0) by (nonlinear_arith);
}

/// A batched decode prep of 512-wide heads is launched with its own numbers,
/// each where it belongs.
pub proof fn law_qk_batched_decode_hd512_launches_its_own_numbers(c: QkBatchedDecodeHd512)
    requires
        c.fault() is None,
    ensures
        c.cos_max_pos <= i32::MAX ==> c.launch().cos_max_pos == c.cos_max_pos,
        c.num_q_heads <= i32::MAX ==> c.launch().num_q_heads == c.num_q_heads,
        c.num_kv_heads <= i32::MAX ==> c.launch().num_kv_heads == c.num_kv_heads,
        c.q.seq_len <= i32::MAX ==> c.launch().batch_size == c.q.seq_len,
        c.rotary_dim <= i32::MAX ==> c.launch().rotary_dim == c.rotary_dim,
{
}

/// A batched decode prep of 256-wide heads is launched with its own numbers,
/// each where it belongs.
pub proof fn law_qk_batched_decode_hd256_launches_its_own_numbers(c: QkBatchedDecodeHd256)
    ensures
        c.num_q_heads <= i32::MAX ==> c.launch().num_q_heads == c.num_q_heads,
        c.num_kv_heads <= i32::MAX ==> c.launch().num_kv_heads == c.num_kv_heads,
        c.q.seq_len <= i32::MAX ==> c.launch().batch_size == c.q.seq_len,
        c.rotary_dim <= i32::MAX ==> c.launch().rotary_dim == c.rotary_dim,
{
}

/// A batched decode norm and rotation is accepted exactly when its own
/// operands hold what it reads and writes.
pub proof fn law_qk_norm_rope_batch_decode_is_accepted_when_it_fits(c: QkNormRopeBatchDecode)
    ensures
        c.fault() is None <==> {
            &&& c.row_offset + c.num_rows <= c.q.seq_len
            &&& c.q.hidden_dim * c.q.seq_len <= c.q.data_len
            &&& c.row_offset * c.q.hidden_dim * 2 <= usize::MAX
            &&& c.row_offset + c.num_rows <= c.k.seq_len
            &&& c.k.hidden_dim * c.k.seq_len <= c.k.data_len
            &&& c.row_offset * c.k.hidden_dim * 2 <= usize::MAX
        },
{
    assert(c.q.hidden_dim * c.q.seq_len >= 0) by (nonlinear_arith);
    assert(c.row_offset * c.q.hidden_dim >= 0) by (nonlinear_arith);
    assert(c.k.hidden_dim * c.k.seq_len >= 0) by (nonlinear_arith);
    assert(c.row_offset * c.k.hidden_dim >= 0) by (nonlinear_arith);
}

/// A batched decode norm and rotation is launched with its own numbers, each
/// where it belongs.
pub proof fn law_qk_norm_rope_batch_decode_launches_its_own_numbers(c: QkNormRopeBatchDecode)
    requires
        c.fault() is None,
        c.head_dim > 0,
    ensures
        c.launch().q_row_bytes == c.row_offset * c.q.hidden_dim * 2,
        c.launch().k_row_bytes == c.row_offset * c.k.hidden_dim * 2,
        c.num_q_heads <= i32::MAX ==> c.launch().num_q_heads == c.num_q_heads,
        c.num_kv_heads <= i32::MAX ==> c.launch().num_kv_heads == c.num_kv_heads,
        c.head_dim <= i32::MAX ==> c.launch().head_dim == c.head_dim,
        c.num_rows <= i32::MAX ==> c.launch().num_rows == c.num_rows,
        c.cos_cache.data_len / c.head_dim <= i32::MAX ==> c.launch().cos_max_pos
            == c.cos_cache.data_len / c.head_dim,
{
}

/// The draft head's rotation is accepted exactly when its own operands hold
/// what it reads and writes.
pub proof fn law_eagle3_rope_is_accepted_when_it_fits(c: Eagle3Rope)
    ensures
        c.fault() is None <==> {
            &&& c.q_row_offset + c.q_seq_len <= c.q.seq_len
            &&& c.q.hidden_dim * c.q.seq_len <= c.q.data_len
            &&& c.q_row_offset * c.q.hidden_dim * 2 <= usize::MAX
            &&& c.k.hidden_dim * c.k.seq_len <= c.k.data_len
        },
{
    assert(c.q.hidden_dim * c.q.seq_len >= 0) by (nonlinear_arith);
    assert(c.q_row_offset * c.q.hidden_dim >= 0) by (nonlinear_arith);
    assert(c.k.hidden_dim * c.k.seq_len >= 0) by (nonlinear_arith);
}

/// The draft head's rotation is launched with its own numbers, each where it
/// belongs.
pub proof fn law_eagle3_rope_launches_its_own_numbers(c: Eagle3Rope)
    requires
        c.fault() is None,
        c.head_dim > 0,
    ensures
        c.launch().q_row_bytes == c.q_row_offset * c.q.hidden_dim * 2,
        c.num_q_heads <= i32::MAX ==> c.launch().num_q_heads == c.num_q_heads,
        c.num_kv_heads <= i32::MAX ==> c.launch().num_kv_heads == c.num_kv_heads,
        c.head_dim <= i32::MAX ==> c.launch().head_dim == c.head_dim,
        c.q_seq_len <= i32::MAX ==> c.launch().q_seq_len == c.q_seq_len,
        c.k.seq_len <= i32::MAX ==> c.launch().k_seq_len == c.k.seq_len,
        c.q_start_pos <= i32::MAX ==> c.launch().q_start_pos == c.q_start_pos,
        c.k_start_pos <= i32::MAX ==> c.launch().k_start_pos == c.k_start_pos,
        c.cos_cache.data_len / c.head_dim <= i32::MAX ==> c.launch().cos_max_pos
            == c.cos_cache.data_len / c.head_dim,
{
}

/// The block draft's norm and rotation is launched with its own numbers, each
/// where it belongs.
pub proof fn law_dflash_qk_norm_rope_launches_its_own_numbers(c: DflashQkNormRope)
    requires
        c.head_dim > 0,
    ensures
        c.q_row_offset * c.q.hidden_dim * 2 <= u64::MAX ==> c.launch().q_row_bytes
            == c.q_row_offset * c.q.hidden_dim * 2,
        c.num_q_heads <= i32::MAX ==> c.launch().num_q_heads == c.num_q_heads,
        c.num_kv_heads <= i32::MAX ==> c.launch().num_kv_heads == c.num_kv_heads,
        c.head_dim <= i32::MAX ==> c.launch().head_dim == c.head_dim,
        c.q_seq_len <= i32::MAX ==> c.launch().q_seq_len == c.q_seq_len,
        c.k.seq_len <= i32::MAX ==> c.launch().k_seq_len == c.k.seq_len,
        c.q_start_pos <= i32::MAX ==> c.launch().q_start_pos == c.q_start_pos,
        c.k_start_pos <= i32::MAX ==> c.launch().k_start_pos == c.k_start_pos,
        c.cos_cache.data_len / c.head_dim <= i32::MAX ==> c.launch().cos_max_pos
            == c.cos_cache.data_len / c.head_dim,
{
}

/// A paged decode prep of 256-wide heads that is accepted, and then gets one
/// buffer that does not fit, is refused over that buffer: the answer names
/// the check and shows what it compared.
pub proof fn law_qkv_paged_decode_hd256_is_refused_over_the_buffer_at_fault(
    c: QkvPagedDecodeHd256,
    n: usize,
)
    requires
        c.fault() is None,
    ensures
        n <= c.q.seq_len - c.row_offset ==> (QkvPagedDecodeHd256 { page_indptr_len: n,
            ..c }).fault() == Some(
            KernelError::Invalid {
                what: "hd256 paged decode prep metadata does not cover the batch",
            },
        ),
        n < c.q.seq_len - c.row_offset ==> (QkvPagedDecodeHd256 { page_origins_len: n,
            ..c }).fault() == Some(
            KernelError::Invalid {
                what: "hd256 paged decode prep metadata does not cover the batch",
            },
        ),
        n < c.q.seq_len - c.row_offset ==> (QkvPagedDecodeHd256 { positions_len: n,
            ..c }).fault() == Some(
            KernelError::Invalid {
                what: "hd256 paged decode prep metadata does not cover the batch",
            },
        ),
{
}

/// A paged decode prep of 512-wide heads that is accepted, and then gets one
/// buffer that does not fit, is refused over that buffer: the answer names
/// the check and shows what it compared.
pub proof fn law_qk_paged_decode_hd512_is_refused_over_the_buffer_at_fault(
    c: QkPagedDecodeHd512,
    n: usize,
)
    requires
        c.fault() is None,
    ensures
        n <= c.q.seq_len - c.row_offset ==> (QkPagedDecodeHd512 { page_indptr_len: n,
            ..c }).fault() == Some(
            KernelError::Invalid {
                what: "hd512 paged decode prep metadata does not cover the batch",
            },
        ),
        n < c.q.seq_len - c.row_offset ==> (QkPagedDecodeHd512 { page_origins_len: n,
            ..c }).fault() == Some(
            KernelError::Invalid {
                what: "hd512 paged decode prep metadata does not cover the batch",
            },
        ),
        n < c.q.seq_len - c.row_offset ==> (QkPagedDecodeHd512 { positions_len: n,
            ..c }).fault() == Some(
            KernelError::Invalid {
                what: "hd512 paged decode prep metadata does not cover the batch",
            },
        ),
{
}

/// A batched decode prep of 512-wide heads that is accepted, and then gets
/// one buffer that does not fit, is refused over that buffer: the answer
/// names the check and shows what it compared.
pub proof fn law_qk_batched_decode_hd512_is_refused_over_the_buffer_at_fault(
    c: QkBatchedDecodeHd512,
    n: usize,
)
    requires
        c.fault() is None,
    ensures
        n != c.q.seq_len ==> (QkBatchedDecodeHd512 { positions_len: n, ..c }).fault() == Some(
            KernelError::Rejected {
                what: "hd512 decode prep positions len",
                got: n,
                want: c.q.seq_len,
            },
        ),
{
}

/// A contiguous prep of 256-wide heads that is accepted, and then gets one
/// tensor with fewer elements than its shape claims, is refused over that
/// tensor: the answer names it and shows both lengths.
pub proof fn law_qk_prep_hd256_is_refused_over_the_tensor_at_fault(c: QkPrepHd256, n: usize)
    requires
        c.fault() is None,
    ensures
        n < c.q.hidden_dim * c.q.seq_len ==> (QkPrepHd256 {
            q: HiddenStates { data_len: n, ..c.q },
            ..c
        }).fault() == Some(
            KernelError::Backing {
                what: "hd256 plain prep q",
                len: n,
                need: (c.q.hidden_dim * c.q.seq_len) as usize,
            },
        ),
        n < c.k.hidden_dim * c.k.seq_len ==> (QkPrepHd256 {
            k: HiddenStates { data_len: n, ..c.k },
            ..c
        }).fault() == Some(
            KernelError::Backing {
                what: "hd256 plain prep k",
                len: n,
                need: (c.k.hidden_dim * c.k.seq_len) as usize,
            },
        ),
        n < c.q_out.hidden_dim * c.q_out.seq_len ==> (QkPrepHd256 {
            q_out: HiddenStates { data_len: n, ..c.q_out },
            ..c
        }).fault() == Some(
            KernelError::Backing {
                what: "hd256 plain prep q_out",
                len: n,
                need: (c.q_out.hidden_dim * c.q_out.seq_len) as usize,
            },
        ),
        n < c.k_out.hidden_dim * c.k_out.seq_len ==> (QkPrepHd256 {
            k_out: HiddenStates { data_len: n, ..c.k_out },
            ..c
        }).fault() == Some(
            KernelError::Backing {
                what: "hd256 plain prep k_out",
                len: n,
                need: (c.k_out.hidden_dim * c.k_out.seq_len) as usize,
            },
        ),
        n < c.q_norm_weight.len ==> (QkPrepHd256 {
            q_norm_weight: DeviceVec { data_len: n, ..c.q_norm_weight },
            ..c
        }).fault() == Some(
            KernelError::Backing {
                what: "hd256 plain prep q_norm_weight",
                len: n,
                need: c.q_norm_weight.len,
            },
        ),
        n < c.k_norm_weight.len ==> (QkPrepHd256 {
            k_norm_weight: DeviceVec { data_len: n, ..c.k_norm_weight },
            ..c
        }).fault() == Some(
            KernelError::Backing {
                what: "hd256 plain prep k_norm_weight",
                len: n,
                need: c.k_norm_weight.len,
            },
        ),
        n < c.cos_cache.len ==> (QkPrepHd256 {
            cos_cache: DeviceVec { data_len: n, ..c.cos_cache },
            ..c
        }).fault() == Some(
            KernelError::Backing {
                what: "hd256 plain prep cos_cache",
                len: n,
                need: c.cos_cache.len,
            },
        ),
        n < c.sin_cache.len ==> (QkPrepHd256 {
            sin_cache: DeviceVec { data_len: n, ..c.sin_cache },
            ..c
        }).fault() == Some(
            KernelError::Backing {
                what: "hd256 plain prep sin_cache",
                len: n,
                need: c.sin_cache.len,
            },
        ),
{
    assert(c.q.hidden_dim * c.q.seq_len >= 0) by (nonlinear_arith);
    assert(c.k.hidden_dim * c.k.seq_len >= 0) by (nonlinear_arith);
    assert(c.q_out.hidden_dim * c.q_out.seq_len >= 0) by (nonlinear_arith);
    assert(c.k_out.hidden_dim * c.k_out.seq_len >= 0) by (nonlinear_arith);
}

/// A paged prefill prep of 256-wide heads that is accepted, and then gets one
/// tensor with fewer elements than its shape claims, is refused over that
/// tensor: the answer names it and shows both lengths.
pub proof fn law_qkv_paged_prefill_hd256_is_refused_over_the_tensor_at_fault(
    c: QkvPagedPrefillHd256,
    n: usize,
)
    requires
        c.fault() is None,
    ensures
        n < c.q.hidden_dim * c.q.seq_len ==> (QkvPagedPrefillHd256 {
            q: HiddenStates { data_len: n, ..c.q },
            ..c
        }).fault() == Some(
            KernelError::Backing {
                what: "hd256 paged prep q",
                len: n,
                need: (c.q.hidden_dim * c.q.seq_len) as usize,
            },
        ),
        n < c.k.hidden_dim * c.k.seq_len ==> (QkvPagedPrefillHd256 {
            k: HiddenStates { data_len: n, ..c.k },
            ..c
        }).fault() == Some(
            KernelError::Backing {
                what: "hd256 paged prep k",
                len: n,
                need: (c.k.hidden_dim * c.k.seq_len) as usize,
            },
        ),
        n < c.v.hidden_dim * c.v.seq_len ==> (QkvPagedPrefillHd256 {
            v: HiddenStates { data_len: n, ..c.v },
            ..c
        }).fault() == Some(
            KernelError::Backing {
                what: "hd256 paged prep v",
                len: n,
                need: (c.v.hidden_dim * c.v.seq_len) as usize,
            },
        ),
        n < c.q_out.hidden_dim * c.q_out.seq_len ==> (QkvPagedPrefillHd256 {
            q_out: HiddenStates { data_len: n, ..c.q_out },
            ..c
        }).fault() == Some(
            KernelError::Backing {
                what: "hd256 paged prep q_out",
                len: n,
                need: (c.q_out.hidden_dim * c.q_out.seq_len) as usize,
            },
        ),
        n < c.q_norm_weight.len ==> (QkvPagedPrefillHd256 {
            q_norm_weight: DeviceVec { data_len: n, ..c.q_norm_weight },
            ..c
        }).fault() == Some(
            KernelError::Backing {
                what: "hd256 paged prep q_norm_weight",
                len: n,
                need: c.q_norm_weight.len,
            },
        ),
        n < c.k_norm_weight.len ==> (QkvPagedPrefillHd256 {
            k_norm_weight: DeviceVec { data_len: n, ..c.k_norm_weight },
            ..c
        }).fault() == Some(
            KernelError::Backing {
                what: "hd256 paged prep k_norm_weight",
                len: n,
                need: c.k_norm_weight.len,
            },
        ),
        n < c.cos_cache.len ==> (QkvPagedPrefillHd256 {
            cos_cache: DeviceVec { data_len: n, ..c.cos_cache },
            ..c
        }).fault() == Some(
            KernelError::Backing {
                what: "hd256 paged prep cos_cache",
                len: n,
                need: c.cos_cache.len,
            },
        ),
        n < c.sin_cache.len ==> (QkvPagedPrefillHd256 {
            sin_cache: DeviceVec { data_len: n, ..c.sin_cache },
            ..c
        }).fault() == Some(
            KernelError::Backing {
                what: "hd256 paged prep sin_cache",
                len: n,
                need: c.sin_cache.len,
            },
        ),
{
    assert(c.q.hidden_dim * c.q.seq_len >= 0) by (nonlinear_arith);
    assert(c.k.hidden_dim * c.k.seq_len >= 0) by (nonlinear_arith);
    assert(c.v.hidden_dim * c.v.seq_len >= 0) by (nonlinear_arith);
    assert(c.q_out.hidden_dim * c.q_out.seq_len >= 0) by (nonlinear_arith);
}

/// A paged prefill prep of 512-wide heads that is accepted, and then gets one
/// tensor with fewer elements than its shape claims, is refused over that
/// tensor: the answer names it and shows both lengths.
pub proof fn law_qk_paged_prefill_hd512_is_refused_over_the_tensor_at_fault(
    c: QkPagedPrefillHd512,
    n: usize,
)
    requires
        c.fault() is None,
    ensures
        n < c.q.hidden_dim * c.q.seq_len ==> (QkPagedPrefillHd512 {
            q: HiddenStates { data_len: n, ..c.q },
            ..c
        }).fault() == Some(
            KernelError::Backing {
                what: "hd512 prefill prep q",
                len: n,
                need: (c.q.hidden_dim * c.q.seq_len) as usize,
            },
        ),
        n < c.k.hidden_dim * c.k.seq_len ==> (QkPagedPrefillHd512 {
            k: HiddenStates { data_len: n, ..c.k },
            ..c
        }).fault() == Some(
            KernelError::Backing {
                what: "hd512 prefill prep k",
                len: n,
                need: (c.k.hidden_dim * c.k.seq_len) as usize,
            },
        ),
        n < c.q_out.hidden_dim * c.q_out.seq_len ==> (QkPagedPrefillHd512 {
            q_out: HiddenStates { data_len: n, ..c.q_out },
            ..c
        }).fault() == Some(
            KernelError::Backing {
                what: "hd512 prefill prep q_out",
                len: n,
                need: (c.q_out.hidden_dim * c.q_out.seq_len) as usize,
            },
        ),
        n < c.q_norm_weight.len ==> (QkPagedPrefillHd512 {
            q_norm_weight: DeviceVec { data_len: n, ..c.q_norm_weight },
            ..c
        }).fault() == Some(
            KernelError::Backing {
                what: "hd512 prefill prep q_norm_weight",
                len: n,
                need: c.q_norm_weight.len,
            },
        ),
        n < c.k_norm_weight.len ==> (QkPagedPrefillHd512 {
            k_norm_weight: DeviceVec { data_len: n, ..c.k_norm_weight },
            ..c
        }).fault() == Some(
            KernelError::Backing {
                what: "hd512 prefill prep k_norm_weight",
                len: n,
                need: c.k_norm_weight.len,
            },
        ),
        n < c.cos_cache.len ==> (QkPagedPrefillHd512 {
            cos_cache: DeviceVec { data_len: n, ..c.cos_cache },
            ..c
        }).fault() == Some(
            KernelError::Backing {
                what: "hd512 prefill prep cos_cache",
                len: n,
                need: c.cos_cache.len,
            },
        ),
        n < c.sin_cache.len ==> (QkPagedPrefillHd512 {
            sin_cache: DeviceVec { data_len: n, ..c.sin_cache },
            ..c
        }).fault() == Some(
            KernelError::Backing {
                what: "hd512 prefill prep sin_cache",
                len: n,
                need: c.sin_cache.len,
            },
        ),
{
    assert(c.q.hidden_dim * c.q.seq_len >= 0) by (nonlinear_arith);
    assert(c.k.hidden_dim * c.k.seq_len >= 0) by (nonlinear_arith);
    assert(c.q_out.hidden_dim * c.q_out.seq_len >= 0) by (nonlinear_arith);
}

/// A paged decode prep of 256-wide heads that is accepted, and then gets one
/// tensor with fewer elements than its shape claims, is refused over that
/// tensor: the answer names it and shows both lengths.
pub proof fn law_qkv_paged_decode_hd256_is_refused_over_the_tensor_at_fault(
    c: QkvPagedDecodeHd256,
    n: usize,
)
    requires
        c.fault() is None,
    ensures
        n < c.q.hidden_dim * c.q.seq_len ==> (QkvPagedDecodeHd256 {
            q: HiddenStates { data_len: n, ..c.q },
            ..c
        }).fault() == Some(
            KernelError::Backing {
                what: "hd256 paged decode prep q",
                len: n,
                need: (c.q.hidden_dim * c.q.seq_len) as usize,
            },
        ),
        n < c.k.hidden_dim * c.k.seq_len ==> (QkvPagedDecodeHd256 {
            k: HiddenStates { data_len: n, ..c.k },
            ..c
        }).fault() == Some(
            KernelError::Backing {
                what: "hd256 paged decode prep k",
                len: n,
                need: (c.k.hidden_dim * c.k.seq_len) as usize,
            },
        ),
        n < c.v.hidden_dim * c.v.seq_len ==> (QkvPagedDecodeHd256 {
            v: HiddenStates { data_len: n, ..c.v },
            ..c
        }).fault() == Some(
            KernelError::Backing {
                what: "hd256 paged decode prep v",
                len: n,
                need: (c.v.hidden_dim * c.v.seq_len) as usize,
            },
        ),
        n < c.q_out.hidden_dim * c.q_out.seq_len ==> (QkvPagedDecodeHd256 {
            q_out: HiddenStates { data_len: n, ..c.q_out },
            ..c
        }).fault() == Some(
            KernelError::Backing {
                what: "hd256 paged decode prep q_out",
                len: n,
                need: (c.q_out.hidden_dim * c.q_out.seq_len) as usize,
            },
        ),
        n < c.q_norm_weight.len ==> (QkvPagedDecodeHd256 {
            q_norm_weight: DeviceVec { data_len: n, ..c.q_norm_weight },
            ..c
        }).fault() == Some(
            KernelError::Backing {
                what: "hd256 paged decode prep q_norm_weight",
                len: n,
                need: c.q_norm_weight.len,
            },
        ),
        n < c.k_norm_weight.len ==> (QkvPagedDecodeHd256 {
            k_norm_weight: DeviceVec { data_len: n, ..c.k_norm_weight },
            ..c
        }).fault() == Some(
            KernelError::Backing {
                what: "hd256 paged decode prep k_norm_weight",
                len: n,
                need: c.k_norm_weight.len,
            },
        ),
        n < c.cos_cache.len ==> (QkvPagedDecodeHd256 {
            cos_cache: DeviceVec { data_len: n, ..c.cos_cache },
            ..c
        }).fault() == Some(
            KernelError::Backing {
                what: "hd256 paged decode prep cos_cache",
                len: n,
                need: c.cos_cache.len,
            },
        ),
        n < c.sin_cache.len ==> (QkvPagedDecodeHd256 {
            sin_cache: DeviceVec { data_len: n, ..c.sin_cache },
            ..c
        }).fault() == Some(
            KernelError::Backing {
                what: "hd256 paged decode prep sin_cache",
                len: n,
                need: c.sin_cache.len,
            },
        ),
{
    assert(c.q.hidden_dim * c.q.seq_len >= 0) by (nonlinear_arith);
    assert(c.k.hidden_dim * c.k.seq_len >= 0) by (nonlinear_arith);
    assert(c.v.hidden_dim * c.v.seq_len >= 0) by (nonlinear_arith);
    assert(c.q_out.hidden_dim * c.q_out.seq_len >= 0) by (nonlinear_arith);
}

/// A paged decode prep of 512-wide heads that is accepted, and then gets one
/// tensor with fewer elements than its shape claims, is refused over that
/// tensor: the answer names it and shows both lengths.
pub proof fn law_qk_paged_decode_hd512_is_refused_over_the_tensor_at_fault(
    c: QkPagedDecodeHd512,
    n: usize,
)
    requires
        c.fault() is None,
    ensures
        n < c.q.hidden_dim * c.q.seq_len ==> (QkPagedDecodeHd512 {
            q: HiddenStates { data_len: n, ..c.q },
            ..c
        }).fault() == Some(
            KernelError::Backing {
                what: "hd512 paged decode prep q",
                len: n,
                need: (c.q.hidden_dim * c.q.seq_len) as usize,
            },
        ),
        n < c.k.hidden_dim * c.k.seq_len ==> (QkPagedDecodeHd512 {
            k: HiddenStates { data_len: n, ..c.k },
            ..c
        }).fault() == Some(
            KernelError::Backing {
                what: "hd512 paged decode prep k",
                len: n,
                need: (c.k.hidden_dim * c.k.seq_len) as usize,
            },
        ),
        n < c.q_out.hidden_dim * c.q_out.seq_len ==> (QkPagedDecodeHd512 {
            q_out: HiddenStates { data_len: n, ..c.q_out },
            ..c
        }).fault() == Some(
            KernelError::Backing {
                what: "hd512 paged decode prep q_out",
                len: n,
                need: (c.q_out.hidden_dim * c.q_out.seq_len) as usize,
            },
        ),
        n < c.q_norm_weight.len ==> (QkPagedDecodeHd512 {
            q_norm_weight: DeviceVec { data_len: n, ..c.q_norm_weight },
            ..c
        }).fault() == Some(
            KernelError::Backing {
                what: "hd512 paged decode prep q_norm_weight",
                len: n,
                need: c.q_norm_weight.len,
            },
        ),
        n < c.k_norm_weight.len ==> (QkPagedDecodeHd512 {
            k_norm_weight: DeviceVec { data_len: n, ..c.k_norm_weight },
            ..c
        }).fault() == Some(
            KernelError::Backing {
                what: "hd512 paged decode prep k_norm_weight",
                len: n,
                need: c.k_norm_weight.len,
            },
        ),
        n < c.cos_cache.len ==> (QkPagedDecodeHd512 {
            cos_cache: DeviceVec { data_len: n, ..c.cos_cache },
            ..c
        }).fault() == Some(
            KernelError::Backing {
                what: "hd512 paged decode prep cos_cache",
                len: n,
                need: c.cos_cache.len,
            },
        ),
        n < c.sin_cache.len ==> (QkPagedDecodeHd512 {
            sin_cache: DeviceVec { data_len: n, ..c.sin_cache },
            ..c
        }).fault() == Some(
            KernelError::Backing {
                what: "hd512 paged decode prep sin_cache",
                len: n,
                need: c.sin_cache.len,
            },
        ),
{
    assert(c.q.hidden_dim * c.q.seq_len >= 0) by (nonlinear_arith);
    assert(c.k.hidden_dim * c.k.seq_len >= 0) by (nonlinear_arith);
    assert(c.q_out.hidden_dim * c.q_out.seq_len >= 0) by (nonlinear_arith);
}

/// A batched decode prep of 512-wide heads that is accepted, and then gets
/// one tensor with fewer elements than its shape claims, is refused over that
/// tensor: the answer names it and shows both lengths.
pub proof fn law_qk_batched_decode_hd512_is_refused_over_the_tensor_at_fault(
    c: QkBatchedDecodeHd512,
    n: usize,
)
    requires
        c.fault() is None,
    ensures
        n < c.q.hidden_dim * c.q.seq_len ==> (QkBatchedDecodeHd512 {
            q: HiddenStates { data_len: n, ..c.q },
            ..c
        }).fault() == Some(
            KernelError::Backing {
                what: "hd512 decode prep q",
                len: n,
                need: (c.q.hidden_dim * c.q.seq_len) as usize,
            },
        ),
        n < c.q_out.hidden_dim * c.q_out.seq_len ==> (QkBatchedDecodeHd512 {
            q_out: HiddenStates { data_len: n, ..c.q_out },
            ..c
        }).fault() == Some(
            KernelError::Backing {
                what: "hd512 decode prep q_out",
                len: n,
                need: (c.q_out.hidden_dim * c.q_out.seq_len) as usize,
            },
        ),
        n < c.k.hidden_dim * c.k.seq_len ==> (QkBatchedDecodeHd512 {
            k: HiddenStates { data_len: n, ..c.k },
            ..c
        }).fault() == Some(
            KernelError::Backing {
                what: "hd512 decode prep k",
                len: n,
                need: (c.k.hidden_dim * c.k.seq_len) as usize,
            },
        ),
        n < c.q_norm_weight.len ==> (QkBatchedDecodeHd512 {
            q_norm_weight: DeviceVec { data_len: n, ..c.q_norm_weight },
            ..c
        }).fault() == Some(
            KernelError::Backing {
                what: "hd512 decode prep q_norm_weight",
                len: n,
                need: c.q_norm_weight.len,
            },
        ),
        n < c.k_norm_weight.len ==> (QkBatchedDecodeHd512 {
            k_norm_weight: DeviceVec { data_len: n, ..c.k_norm_weight },
            ..c
        }).fault() == Some(
            KernelError::Backing {
                what: "hd512 decode prep k_norm_weight",
                len: n,
                need: c.k_norm_weight.len,
            },
        ),
        n < c.cos_cache.len ==> (QkBatchedDecodeHd512 {
            cos_cache: DeviceVec { data_len: n, ..c.cos_cache },
            ..c
        }).fault() == Some(
            KernelError::Backing {
                what: "hd512 decode prep cos_cache",
                len: n,
                need: c.cos_cache.len,
            },
        ),
        n < c.sin_cache.len ==> (QkBatchedDecodeHd512 {
            sin_cache: DeviceVec { data_len: n, ..c.sin_cache },
            ..c
        }).fault() == Some(
            KernelError::Backing {
                what: "hd512 decode prep sin_cache",
                len: n,
                need: c.sin_cache.len,
            },
        ),
{
    assert(c.q.hidden_dim * c.q.seq_len >= 0) by (nonlinear_arith);
    assert(c.q_out.hidden_dim * c.q_out.seq_len >= 0) by (nonlinear_arith);
    assert(c.k.hidden_dim * c.k.seq_len >= 0) by (nonlinear_arith);
}

/// A batched decode norm and rotation that is accepted, and then gets one
/// tensor with fewer elements than its shape claims, is refused over that
/// tensor: the answer names it and shows both lengths.
pub proof fn law_qk_norm_rope_batch_decode_is_refused_over_the_tensor_at_fault(
    c: QkNormRopeBatchDecode,
    n: usize,
)
    requires
        c.fault() is None,
    ensures
        n < c.q.hidden_dim * c.q.seq_len ==> (QkNormRopeBatchDecode {
            q: HiddenStates { data_len: n, ..c.q },
            ..c
        }).fault() == Some(
            KernelError::Backing {
                what: "qk_norm_rope_batch_decode q",
                len: n,
                need: (c.q.hidden_dim * c.q.seq_len) as usize,
            },
        ),
        n < c.k.hidden_dim * c.k.seq_len ==> (QkNormRopeBatchDecode {
            k: HiddenStates { data_len: n, ..c.k },
            ..c
        }).fault() == Some(
            KernelError::Backing {
                what: "qk_norm_rope_batch_decode k",
                len: n,
                need: (c.k.hidden_dim * c.k.seq_len) as usize,
            },
        ),
{
    assert(c.q.hidden_dim * c.q.seq_len >= 0) by (nonlinear_arith);
    assert(c.k.hidden_dim * c.k.seq_len >= 0) by (nonlinear_arith);
}

/// The draft head's rotation that is accepted, and then gets one tensor with
/// fewer elements than its shape claims, is refused over that tensor: the
/// answer names it and shows both lengths.
pub proof fn law_eagle3_rope_is_refused_over_the_tensor_at_fault(c: Eagle3Rope, n: usize)
    requires
        c.fault() is None,
    ensures
        n < c.q.hidden_dim * c.q.seq_len ==> (Eagle3Rope {
            q: HiddenStates { data_len: n, ..c.q },
            ..c
        }).fault() == Some(
            KernelError::Backing {
                what: "eagle3_rope q",
                len: n,
                need: (c.q.hidden_dim * c.q.seq_len) as usize,
            },
        ),
        n < c.k.hidden_dim * c.k.seq_len ==> (Eagle3Rope {
            k: HiddenStates { data_len: n, ..c.k },
            ..c
        }).fault() == Some(
            KernelError::Backing {
                what: "eagle3_rope k",
                len: n,
                need: (c.k.hidden_dim * c.k.seq_len) as usize,
            },
        ),
{
    assert(c.q.hidden_dim * c.q.seq_len >= 0) by (nonlinear_arith);
    assert(c.k.hidden_dim * c.k.seq_len >= 0) by (nonlinear_arith);
}

/// A paged prep with the operands of an accepted one and another start is
/// refused with the positions that clash: those before the table window, those
/// behind the window's pages, and those behind the rope tables.
pub proof fn law_paged_prep_hd256_is_refused_outside_its_tables(
    c: QkvPagedPrefillHd256,
    start: usize,
)
    requires
        c.fault() is None,
        start + (c.q.seq_len - c.row_offset) <= usize::MAX,
    ensures
        ({
            let moved = (QkvPagedPrefillHd256 { start_pos: start, ..c });
            let end = start + (c.q.seq_len - c.row_offset);
            let first = c.page_origin * c.layout.page_size;
            let last = first + (c.page_indices_len - c.pages_offset) * c.layout.page_size;
            &&& start < first ==> moved.fault() == Some(
                KernelError::Exceeds {
                    what: "hd256 paged prep page_origin starts after start_pos",
                    got: first as usize,
                    max: start,
                },
            )
            &&& first <= start && last < end ==> moved.fault() == Some(
                KernelError::Rejected {
                    what: "hd256 paged prep page row ends before the segment",
                    got: last as usize,
                    want: end as usize,
                },
            )
            &&& first <= start && c.cos_max_pos < end <= last ==> moved.fault() == Some(
                KernelError::Exceeds {
                    what: "hd256 paged prep start_pos + seq_len exceeds cos_max_pos",
                    got: end as usize,
                    max: c.cos_max_pos,
                },
            )
        }),
{
}

} // verus!
