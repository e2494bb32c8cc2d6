//! Element-wise kernels, row copies and the split of a packed projection.

use vstd::prelude::*;

use crate::error::checked_i32;
use crate::error::checked_product;
use crate::error::ensure;
use crate::error::ensure_below;
use crate::error::ensure_that;
use crate::error::FaultList;
use crate::error::KernelError;
use crate::float_bits;
use crate::shape::DeviceVec;
use crate::shape::HiddenStates;

verus! {

fn element_count(a: &HiddenStates) -> (r: i32)
    requires
        a.extent() <= usize::MAX,
    ensures
        r == a.extent() as i32,
{
    proof {
        assert(a.hidden_dim * a.seq_len >= 0) by (nonlinear_arith);
    }
    (a.hidden_dim * a.seq_len) as i32
}

/// Element-wise `out = a + b`: the element count.
pub fn add_batch_into(a: &HiddenStates, b: &HiddenStates, out: &HiddenStates) -> (r: i32)
    requires
        a.shaped_like(*b),
        out.shaped_like(*a),
        a.extent() <= usize::MAX,
    ensures
        r == a.extent() as i32,
{
    element_count(a)
}

/// Element-wise `a + b` into a fresh batch: its shape and the element count.
pub fn add_batch(a: &HiddenStates, b: &HiddenStates) -> (r: (HiddenStates, i32))
    requires
        a.shaped_like(*b),
        a.extent() <= usize::MAX,
    ensures
        r == (
            HiddenStates {
                data_len: a.extent() as usize,
                hidden_dim: a.hidden_dim,
                seq_len: a.seq_len,
            },
            a.extent() as i32,
        ),
{
    (HiddenStates::zeros(a.hidden_dim, a.seq_len), element_count(a))
}

fn narrow_product(a: usize, b: usize, what: &'static str) -> (r: Result<usize, KernelError>)
    ensures
        r == KernelError::outcome(KernelError::unless(a * b <= i32::MAX, what), (a * b) as usize),
{
    proof {
        assert(a * b >= 0) by (nonlinear_arith);
    }
    match a.checked_mul(b) {
        Some(n) => {
            ensure_that(n <= 0x7fff_ffff, what)?;
            Ok(n)
        },
        None => Err(KernelError::Invalid { what }),
    }
}

/// Advance the per-row decode tables after a graph replay: the rows and the
/// pseudo rows per row.
pub fn advance_decode_metadata(
    positions_len: usize,
    local_last_len: usize,
    pseudo_last_len: usize,
    kv_chunk_len: usize,
    rows: usize,
    factor: usize,
) -> (r: Result<(i32, i32), KernelError>)
    ensures
        r == ({
            let pseudo_rows = rows * factor;
            KernelError::outcome(
                KernelError::unless(rows > 0, "advance_decode_metadata: rows must be positive")
                    .or_fault(KernelError::unless(
                        factor > 0,
                        "advance_decode_metadata: factor must be positive",
                    ))
                    .or_fault(KernelError::unless(
                        pseudo_rows <= i32::MAX,
                        "advance_decode_metadata: rows x factor exceeds i32",
                    ))
                    .or_fault(KernelError::unless(
                        positions_len >= rows && local_last_len >= rows && kv_chunk_len >= rows
                            && pseudo_last_len >= pseudo_rows,
                        "advance_decode_metadata: the rows exceed a table",
                    ))
                    .or_fault(KernelError::too_wide(rows as int, "advance decode metadata rows"))
                    .or_fault(KernelError::too_wide(
                        factor as int,
                        "advance decode metadata factor",
                    )),
                (rows as i32, factor as i32),
            )
        }),
{
    ensure_that(rows > 0, "advance_decode_metadata: rows must be positive")?;
    ensure_that(factor > 0, "advance_decode_metadata: factor must be positive")?;
    let pseudo_rows: usize = narrow_product(
        rows,
        factor,
        "advance_decode_metadata: rows x factor exceeds i32",
    )?;
    ensure_that(
        positions_len >= rows && local_last_len >= rows && kv_chunk_len >= rows
            && pseudo_last_len >= pseudo_rows,
        "advance_decode_metadata: the rows exceed a table",
    )?;
    let rows_i32: i32 = checked_i32(rows, "advance decode metadata rows")?;
    let factor_i32: i32 = checked_i32(factor, "advance decode metadata factor")?;
    Ok((rows_i32, factor_i32))
}

/// `out = a + b` over `n` elements of raw buffers.
pub fn add_into(
    a_len: usize,
    b_len: usize,
    n: usize,
    out_len: usize,
) -> (r: Result<i32, KernelError>)
    ensures
        r == KernelError::outcome(
            KernelError::unless(
                a_len >= n && b_len >= n && out_len >= n,
                "add_into buffers too small",
            ),
            n as i32,
        ),
{
    ensure_that(a_len >= n && b_len >= n && out_len >= n, "add_into buffers too small")?;
    Ok(n as i32)
}

/// `out = shared + scale * routed` over `n` elements of raw buffers; the scaled
/// term is rounded before the addition.
pub fn add_scaled_bf16_into(
    routed_len: usize,
    scale_bits: u32,
    shared_len: usize,
    n: usize,
    out_len: usize,
) -> (r: Result<i32, KernelError>)
    ensures
        r == KernelError::outcome(
            KernelError::unless(
                crate::float_bits::finite(scale_bits),
                "add_scaled_bf16_into scale must be finite",
            )
                .or_fault(KernelError::unless(
                    routed_len >= n && shared_len >= n && out_len >= n,
                    "add_scaled_bf16_into buffers too small",
                )),
            n as i32,
        ),
{
    ensure_that(float_bits::is_finite(scale_bits), "add_scaled_bf16_into scale must be finite")?;
    ensure_that(
        routed_len >= n && shared_len >= n && out_len >= n,
        "add_scaled_bf16_into buffers too small",
    )?;
    Ok(n as i32)
}

/// A scaled add into a row range of the hidden dimension.
#[derive(Clone, Copy, Debug, PartialEq, Eq)]
pub struct RowAddLaunch {
    /// Bytes before the first token written.
    pub out_bytes: u64,
    pub out_dim: i32,
    pub row_offset: i32,
    pub rows: i32,
    pub tokens: i32,
}

/// `out[row_offset..] += scale * delta` for every token.
pub fn scaled_add_rows_into(
    delta: &HiddenStates,
    scale_bits: u32,
    out: &HiddenStates,
    row_offset: usize,
) -> (r: RowAddLaunch)
    requires
        crate::float_bits::finite(scale_bits),
        delta.seq_len == out.seq_len,
        row_offset + delta.hidden_dim <= out.hidden_dim,
    ensures
        r == (RowAddLaunch {
            out_bytes: 0,
            out_dim: out.hidden_dim as i32,
            row_offset: row_offset as i32,
            rows: delta.hidden_dim as i32,
            tokens: delta.seq_len as i32,
        }),
{
    RowAddLaunch {
        out_bytes: 0,
        out_dim: out.hidden_dim as i32,
        row_offset: row_offset as i32,
        rows: delta.hidden_dim as i32,
        tokens: delta.seq_len as i32,
    }
}

/// `out[row_offset..] += scale * delta` for the tokens from `token_offset` on.
pub fn scaled_add_rows_token_range_into(
    delta: &HiddenStates,
    scale_bits: u32,
    out: &HiddenStates,
    row_offset: usize,
    token_offset: usize,
) -> (r: RowAddLaunch)
    requires
        crate::float_bits::finite(scale_bits),
        row_offset + delta.hidden_dim <= out.hidden_dim,
        token_offset + delta.seq_len <= out.seq_len,
        token_offset * out.hidden_dim * 2 <= usize::MAX,
    ensures
        r == ({
            let out_bytes = (token_offset * out.hidden_dim * 2) as u64;
            (RowAddLaunch {
                out_bytes,
                out_dim: out.hidden_dim as i32,
                row_offset: row_offset as i32,
                rows: delta.hidden_dim as i32,
                tokens: delta.seq_len as i32,
            })
        }),
{
    proof {
        assert(token_offset * out.hidden_dim >= 0) by (nonlinear_arith);
    }
    let out_bytes: u64 = (token_offset * out.hidden_dim * 2) as u64;
    RowAddLaunch {
        out_bytes,
        out_dim: out.hidden_dim as i32,
        row_offset: row_offset as i32,
        rows: delta.hidden_dim as i32,
        tokens: delta.seq_len as i32,
    }
}

/// `out += scale * delta` for batches of one shape.
pub fn scaled_add_batch_into(
    delta: &HiddenStates,
    scale_bits: u32,
    out: &HiddenStates,
) -> (r: RowAddLaunch)
    requires
        crate::float_bits::finite(scale_bits),
        delta.shaped_like(*out),
    ensures
        r == (RowAddLaunch {
            out_bytes: 0,
            out_dim: out.hidden_dim as i32,
            row_offset: 0,
            rows: delta.hidden_dim as i32,
            tokens: delta.seq_len as i32,
        }),
{
    scaled_add_rows_into(delta, scale_bits, out, 0)
}

/// A scaled add into a row range of gathered tokens.
#[derive(Clone, Copy, Debug, PartialEq, Eq)]
pub struct IndexedRowAddLaunch {
    pub out_dim: i32,
    pub row_offset: i32,
    pub rows: i32,
    pub tokens: i32,
    pub out_tokens: i32,
}

/// `out[row_offset..] += scale * delta` for the tokens that the index array
/// names.
pub fn scaled_add_rows_indexed_into(
    delta: &HiddenStates,
    scale_bits: u32,
    token_indices_len: usize,
    token_count: usize,
    out: &HiddenStates,
    row_offset: usize,
) -> (r: IndexedRowAddLaunch)
    requires
        crate::float_bits::finite(scale_bits),
        delta.seq_len == token_count,
        token_count <= token_indices_len,
        row_offset + delta.hidden_dim <= out.hidden_dim,
    ensures
        r == (IndexedRowAddLaunch {
            out_dim: out.hidden_dim as i32,
            row_offset: row_offset as i32,
            rows: delta.hidden_dim as i32,
            tokens: token_count as i32,
            out_tokens: out.seq_len as i32,
        }),
{
    IndexedRowAddLaunch {
        out_dim: out.hidden_dim as i32,
        row_offset: row_offset as i32,
        rows: delta.hidden_dim as i32,
        tokens: token_count as i32,
        out_tokens: out.seq_len as i32,
    }
}

/// Gather tokens by index: the hidden size, the tokens gathered and the tokens
/// to gather from.
pub fn gather_hidden_tokens_into(
    input: &HiddenStates,
    token_indices_len: usize,
    token_count: usize,
    out: &HiddenStates,
) -> (r: (i32, i32, i32))
    requires
        out.hidden_dim == input.hidden_dim,
        out.seq_len == token_count,
        token_count <= token_indices_len,
    ensures
        r == (input.hidden_dim as i32, token_count as i32, input.seq_len as i32),
{
    (input.hidden_dim as i32, token_count as i32, input.seq_len as i32)
}

/// A copy of a column window between rows of two widths.
#[derive(Clone, Copy, Debug, PartialEq, Eq)]
pub struct RowCopyLaunch {
    pub src_dim: i32,
    pub dst_dim: i32,
    /// The window's first column in the wider row.
    pub offset: i32,
    /// The window's width.
    pub width: i32,
    pub tokens: i32,
}

/// Copy every token's `src_dim` features to column `row_offset` of its
/// `dst_dim`-wide row.
pub fn copy_hidden_rows_raw_into(
    src_len: usize,
    src_dim: usize,
    dst_len: usize,
    dst_dim: usize,
    row_offset: usize,
    tokens: usize,
) -> (r: RowCopyLaunch)
    requires
        row_offset + src_dim <= dst_dim,
        tokens * src_dim <= src_len,
        tokens * dst_dim <= dst_len,
    ensures
        r == (RowCopyLaunch {
            src_dim: src_dim as i32,
            dst_dim: dst_dim as i32,
            offset: row_offset as i32,
            width: src_dim as i32,
            tokens: tokens as i32,
        }),
{
    RowCopyLaunch {
        src_dim: src_dim as i32,
        dst_dim: dst_dim as i32,
        offset: row_offset as i32,
        width: src_dim as i32,
        tokens: tokens as i32,
    }
}

/// The inverse of [`copy_hidden_rows_raw_into`]: copy the column window from
/// `col_offset` of every token's `src_dim`-wide row to a compact row.
pub fn extract_hidden_rows_raw_into(
    src_len: usize,
    src_dim: usize,
    dst_len: usize,
    dst_dim: usize,
    col_offset: usize,
    tokens: usize,
) -> (r: RowCopyLaunch)
    requires
        col_offset + dst_dim <= src_dim,
        tokens * src_dim <= src_len,
        tokens * dst_dim <= dst_len,
    ensures
        r == (RowCopyLaunch {
            src_dim: src_dim as i32,
            dst_dim: dst_dim as i32,
            offset: col_offset as i32,
            width: dst_dim as i32,
            tokens: tokens as i32,
        }),
{
    RowCopyLaunch {
        src_dim: src_dim as i32,
        dst_dim: dst_dim as i32,
        offset: col_offset as i32,
        width: dst_dim as i32,
        tokens: tokens as i32,
    }
}

/// Copy the features of `src` to column `row_offset` of `dst`, token by token.
pub fn copy_hidden_rows_into(
    src: &HiddenStates,
    dst: &HiddenStates,
    row_offset: usize,
) -> (r: RowCopyLaunch)
    requires
        src.seq_len == dst.seq_len,
        row_offset + src.hidden_dim <= dst.hidden_dim,
        src.seq_len * src.hidden_dim <= src.data_len,
        src.seq_len * dst.hidden_dim <= dst.data_len,
    ensures
        r == (RowCopyLaunch {
            src_dim: src.hidden_dim as i32,
            dst_dim: dst.hidden_dim as i32,
            offset: row_offset as i32,
            width: src.hidden_dim as i32,
            tokens: src.seq_len as i32,
        }),
{
    copy_hidden_rows_raw_into(
        src.data_len,
        src.hidden_dim,
        dst.data_len,
        dst.hidden_dim,
        row_offset,
        src.seq_len,
    )
}

/// Copy rows, with zeros where a row's position is zero: the width and the
/// rows.
pub fn mask_position_zero_rows_into(
    src_len: usize,
    positions_len: usize,
    hidden_dim: usize,
    rows: usize,
    dst_len: usize,
) -> (r: (i32, i32))
    requires
        rows * hidden_dim <= src_len,
        rows * hidden_dim <= dst_len,
        rows <= positions_len,
    ensures
        r == (hidden_dim as i32, rows as i32),
{
    (hidden_dim as i32, rows as i32)
}

/// A copy of a token range between two batches.
#[derive(Clone, Copy, Debug, PartialEq, Eq)]
pub struct TokenRangeLaunch {
    pub hidden_dim: i32,
    pub src_token_offset: i32,
    pub dst_token_offset: i32,
    pub token_count: i32,
    pub src_tokens: i32,
    pub dst_tokens: i32,
}

/// Copy `token_count` tokens between batches of one width.
pub fn copy_hidden_token_range_into(
    src: &HiddenStates,
    src_token_offset: usize,
    dst: &HiddenStates,
    dst_token_offset: usize,
    token_count: usize,
) -> (r: TokenRangeLaunch)
    requires
        src.hidden_dim == dst.hidden_dim,
        src_token_offset + token_count <= src.seq_len,
        dst_token_offset + token_count <= dst.seq_len,
    ensures
        r == (TokenRangeLaunch {
            hidden_dim: src.hidden_dim as i32,
            src_token_offset: src_token_offset as i32,
            dst_token_offset: dst_token_offset as i32,
            token_count: token_count as i32,
            src_tokens: src.seq_len as i32,
            dst_tokens: dst.seq_len as i32,
        }),
{
    TokenRangeLaunch {
        hidden_dim: src.hidden_dim as i32,
        src_token_offset: src_token_offset as i32,
        dst_token_offset: dst_token_offset as i32,
        token_count: token_count as i32,
        src_tokens: src.seq_len as i32,
        dst_tokens: dst.seq_len as i32,
    }
}

/// Widen every element of a batch's allocation: the element count.
pub fn bf16_hidden_to_f32_into(input: &HiddenStates, output_len: usize) -> (r: i32)
    requires
        output_len >= input.data_len,
    ensures
        r == input.data_len as i32,
{
    input.data_len as i32
}

/// Widen bf16 values given as raw bytes: the element count.
pub fn bf16_bytes_to_f32_into(
    input_bytes: usize,
    output_len: usize,
) -> (r: Result<i32, KernelError>)
    ensures
        r == ({
            let n = input_bytes / 2;
            KernelError::outcome(
                KernelError::unless_sized(
                    output_len >= n,
                    "f32 output shorter than the bf16 input",
                    output_len as int,
                    n as int,
                ),
                n as i32,
            )
        }),
{
    let n: usize = input_bytes / 2;
    ensure(output_len >= n, "f32 output shorter than the bf16 input", output_len, n)?;
    Ok(n as i32)
}

/// Narrow into every element of a batch's allocation: the element count.
pub fn f32_to_bf16_hidden_into(input_len: usize, output: &HiddenStates) -> (r: i32)
    requires
        input_len >= output.data_len,
    ensures
        r == output.data_len as i32,
{
    output.data_len as i32
}

/// Scale the first `len` values in place: the element count.
pub fn scale_f32_in_place(values_len: usize, len: usize) -> (r: i32)
    requires
        len <= values_len,
    ensures
        r == len as i32,
{
    len as i32
}

/// Add one scaled token to row `token_idx` of an f32 batch: the hidden size, the
/// row and the rows.
pub fn accumulate_bf16_token_scaled_to_f32_into(
    token: &HiddenStates,
    scale_bits: u32,
    token_idx: usize,
    seq_len: usize,
    out_len: usize,
) -> (r: (i32, i32, i32))
    requires
        crate::float_bits::finite(scale_bits),
        token.seq_len == 1,
        token_idx < seq_len,
        out_len >= token.hidden_dim * seq_len,
    ensures
        r == (token.hidden_dim as i32, token_idx as i32, seq_len as i32),
{
    (token.hidden_dim as i32, token_idx as i32, seq_len as i32)
}

/// Repeat a local buffer once per rank: the local elements and the ranks.
pub fn repeat_f32_for_reduce_scatter_into(
    local_len: usize,
    repeated_len: usize,
    local_elems: usize,
    world_size: usize,
) -> (r: (i32, i32))
    requires
        local_elems <= local_len,
        repeated_len >= local_elems * world_size,
    ensures
        r == (local_elems as i32, world_size as i32),
{
    (local_elems as i32, world_size as i32)
}

/// `out = silu(gate) * up`: the element count.
pub fn silu_mul_batch_into(gate: &HiddenStates, up: &HiddenStates, out: &HiddenStates) -> (r: i32)
    requires
        gate.shaped_like(*up),
        out.shaped_like(*gate),
        gate.extent() <= usize::MAX,
    ensures
        r == gate.extent() as i32,
{
    element_count(gate)
}

/// `silu(gate) * up` into a fresh batch: its shape and the element count.
pub fn silu_mul_batch(gate: &HiddenStates, up: &HiddenStates) -> (r: (HiddenStates, i32))
    requires
        gate.shaped_like(*up),
        gate.extent() <= usize::MAX,
    ensures
        r == (
            HiddenStates {
                data_len: gate.extent() as usize,
                hidden_dim: gate.hidden_dim,
                seq_len: gate.seq_len,
            },
            gate.extent() as i32,
        ),
{
    (HiddenStates::zeros(gate.hidden_dim, gate.seq_len), element_count(gate))
}

/// `out = silu(gate) * up` from one buffer that holds each token's gate and up
/// rows: the intermediate size and the tokens.
pub fn silu_mul_fused_batch_into(gate_up: &HiddenStates, out: &HiddenStates) -> (r: (i32, i32))
    requires
        gate_up.hidden_dim == 2 * out.hidden_dim,
        out.seq_len == gate_up.seq_len,
    ensures
        r == (out.hidden_dim as i32, gate_up.seq_len as i32),
{
    (out.hidden_dim as i32, gate_up.seq_len as i32)
}

/// Split each token's `[Q; K; V]` row into three compact tensors, bit for bit:
/// the query width, the key width and the tokens. The shapes are checked here
/// because a wrong width would corrupt the buffers that follow.
pub fn split_qkv_into(
    qkv: &HiddenStates,
    q: &HiddenStates,
    k: &HiddenStates,
    v: &HiddenStates,
) -> (r: Result<(i32, i32, i32), KernelError>)
    requires
        q.hidden_dim > 0 && k.hidden_dim > 0 && qkv.seq_len > 0 && k.hidden_dim == v.hidden_dim
            ==> q.hidden_dim + k.hidden_dim + v.hidden_dim <= usize::MAX,
    ensures
        r == ({
            let elements = qkv.hidden_dim * qkv.seq_len;
            KernelError::outcome(
                KernelError::unless(
                    q.hidden_dim > 0 && k.hidden_dim > 0 && qkv.seq_len > 0,
                    "split_qkv requires non-empty Q, KV, and token dimensions",
                )
                    .or_fault(KernelError::unless_sized(
                        k.hidden_dim == v.hidden_dim,
                        "K/V dimensions must match",
                        k.hidden_dim as int,
                        v.hidden_dim as int,
                    ))
                    .or_fault(KernelError::unless_sized(
                        qkv.hidden_dim == q.hidden_dim + k.hidden_dim + v.hidden_dim,
                        "QKV input dimension must equal Q + K + V",
                        qkv.hidden_dim as int,
                        q.hidden_dim + k.hidden_dim + v.hidden_dim,
                    ))
                    .or_fault(KernelError::unless_sized(
                        qkv.seq_len == q.seq_len,
                        "QKV/Q token count mismatch",
                        qkv.seq_len as int,
                        q.seq_len as int,
                    ))
                    .or_fault(KernelError::unless_sized(
                        qkv.seq_len == k.seq_len,
                        "QKV/K token count mismatch",
                        qkv.seq_len as int,
                        k.seq_len as int,
                    ))
                    .or_fault(KernelError::unless_sized(
                        qkv.seq_len == v.seq_len,
                        "QKV/V token count mismatch",
                        qkv.seq_len as int,
                        v.seq_len as int,
                    ))
                    .or_fault(KernelError::too_wide(q.hidden_dim as int, "Q dimension"))
                    .or_fault(KernelError::too_wide(k.hidden_dim as int, "KV dimension"))
                    .or_fault(KernelError::too_wide(qkv.seq_len as int, "QKV token count"))
                    .or_fault(KernelError::too_wide(qkv.hidden_dim as int, "QKV dimension"))
                    .or_fault(KernelError::overflow(elements, "QKV element count"))
                    .or_fault(KernelError::too_wide(elements, "QKV element count")),
                (q.hidden_dim as i32, k.hidden_dim as i32, qkv.seq_len as i32),
            )
        }),
{
    ensure_that(
        q.hidden_dim > 0 && k.hidden_dim > 0 && qkv.seq_len > 0,
        "split_qkv requires non-empty Q, KV, and token dimensions",
    )?;
    ensure(k.hidden_dim == v.hidden_dim, "K/V dimensions must match", k.hidden_dim, v.hidden_dim)?;
    ensure(
        qkv.hidden_dim == q.hidden_dim + k.hidden_dim + v.hidden_dim,
        "QKV input dimension must equal Q + K + V",
        qkv.hidden_dim,
        q.hidden_dim + k.hidden_dim + v.hidden_dim,
    )?;
    ensure(qkv.seq_len == q.seq_len, "QKV/Q token count mismatch", qkv.seq_len, q.seq_len)?;
    ensure(qkv.seq_len == k.seq_len, "QKV/K token count mismatch", qkv.seq_len, k.seq_len)?;
    ensure(qkv.seq_len == v.seq_len, "QKV/V token count mismatch", qkv.seq_len, v.seq_len)?;
    let q_dim: i32 = checked_i32(q.hidden_dim, "Q dimension")?;
    let kv_dim: i32 = checked_i32(k.hidden_dim, "KV dimension")?;
    let tokens: i32 = checked_i32(qkv.seq_len, "QKV token count")?;
    checked_i32(qkv.hidden_dim, "QKV dimension")?;
    let elements: usize = checked_product(qkv.hidden_dim, qkv.seq_len, "QKV element count")?;
    checked_i32(elements, "QKV element count")?;
    Ok((q_dim, kv_dim, tokens))
}

/// A copy of one token between a batch and a vector.
#[derive(Clone, Copy, Debug, PartialEq, Eq)]
pub struct TokenCopy {
    /// Elements before the token in the batch.
    pub offset: usize,
    pub len: usize,
}

/// Copy token `token_idx` of a batch into a vector.
pub fn extract_vec_ref_into(
    batch: &HiddenStates,
    token_idx: usize,
    out: &DeviceVec,
) -> (r: Result<TokenCopy, KernelError>)
    requires
        out.len == batch.hidden_dim && token_idx < batch.seq_len
            ==> (token_idx + 1) * batch.hidden_dim <= batch.data_len,
        out.len == batch.hidden_dim && token_idx < batch.seq_len ==> out.data_len
            >= batch.hidden_dim,
    ensures
        r == KernelError::outcome(
            KernelError::unless(out.len == batch.hidden_dim, "extract_vec_into len mismatch")
                .or_fault(KernelError::unless_below(
                    token_idx < batch.seq_len,
                    "extract_vec_into token index out of bounds",
                    token_idx as int,
                    batch.seq_len as int,
                )),
            (TokenCopy {
                offset: (token_idx * batch.hidden_dim) as usize,
                len: batch.hidden_dim,
            }),
        ),
{
    ensure_that(out.len == batch.hidden_dim, "extract_vec_into len mismatch")?;
    ensure_below(
        token_idx < batch.seq_len,
        "extract_vec_into token index out of bounds",
        token_idx,
        batch.seq_len,
    )?;
    proof {
        assert((token_idx + 1) * batch.hidden_dim == token_idx * batch.hidden_dim
            + batch.hidden_dim) by (nonlinear_arith);
        assert(token_idx * batch.hidden_dim >= 0) by (nonlinear_arith);
    }
    let offset: usize = token_idx * batch.hidden_dim;
    Ok(TokenCopy { offset, len: batch.hidden_dim })
}

/// Copy token `token_idx` of a batch into a fresh vector: its shape and the
/// copy.
pub fn extract_vec_ref(
    batch: &HiddenStates,
    token_idx: usize,
) -> (r: Result<(DeviceVec, TokenCopy), KernelError>)
    requires
        token_idx < batch.seq_len ==> (token_idx + 1) * batch.hidden_dim <= batch.data_len,
    ensures
        r == KernelError::outcome(
            KernelError::unless_below(
                token_idx < batch.seq_len,
                "extract_vec_into token index out of bounds",
                token_idx as int,
                batch.seq_len as int,
            ),
            (
                DeviceVec { data_len: batch.hidden_dim, len: batch.hidden_dim },
                TokenCopy {
                    offset: (token_idx * batch.hidden_dim) as usize,
                    len: batch.hidden_dim,
                },
            ),
        ),
{
    let out: DeviceVec = DeviceVec::zeros(batch.hidden_dim);
    let copy: TokenCopy = extract_vec_ref_into(batch, token_idx, &out)?;
    Ok((out, copy))
}

/// [`extract_vec_ref_into`] on a batch that is owned.
pub fn extract_vec_into(batch: &HiddenStates, token_idx: usize, out: &DeviceVec) -> (r: Result<
    TokenCopy,
    KernelError,
>)
    requires
        out.len == batch.hidden_dim && token_idx < batch.seq_len ==> (token_idx + 1)
            * batch.hidden_dim <= batch.data_len,
        out.len == batch.hidden_dim && token_idx < batch.seq_len ==> out.data_len
            >= batch.hidden_dim,
    ensures
        r == KernelError::outcome(
            KernelError::unless(out.len == batch.hidden_dim, "extract_vec_into len mismatch")
                .or_fault(KernelError::unless_below(
                    token_idx < batch.seq_len,
                    "extract_vec_into token index out of bounds",
                    token_idx as int,
                    batch.seq_len as int,
                )),
            (TokenCopy {
                offset: (token_idx * batch.hidden_dim) as usize,
                len: batch.hidden_dim,
            }),
        ),
{
    extract_vec_ref_into(batch, token_idx, out)
}

/// [`extract_vec_ref`] on a batch that is owned.
pub fn extract_vec(batch: &HiddenStates, token_idx: usize) -> (r: Result<
    (DeviceVec, TokenCopy),
    KernelError,
>)
    requires
        token_idx < batch.seq_len ==> (token_idx + 1) * batch.hidden_dim <= batch.data_len,
    ensures
        r == KernelError::outcome(
            KernelError::unless_below(
                token_idx < batch.seq_len,
                "extract_vec_into token index out of bounds",
                token_idx as int,
                batch.seq_len as int,
            ),
            (
                DeviceVec { data_len: batch.hidden_dim, len: batch.hidden_dim },
                TokenCopy {
                    offset: (token_idx * batch.hidden_dim) as usize,
                    len: batch.hidden_dim,
                },
            ),
        ),
{
    extract_vec_ref(batch, token_idx)
}

/// Copy a vector into token `token_idx` of a batch.
pub fn write_vec_into(
    src: &DeviceVec,
    batch: &HiddenStates,
    token_idx: usize,
) -> (r: Result<TokenCopy, KernelError>)
    requires
        src.len == batch.hidden_dim ==> (token_idx + 1) * batch.hidden_dim <= batch.data_len,
        src.len == batch.hidden_dim ==> src.data_len <= src.len,
    ensures
        r == KernelError::outcome(
            KernelError::unless(src.len == batch.hidden_dim, "write_vec_into len mismatch"),
            (TokenCopy { offset: (token_idx * batch.hidden_dim) as usize, len: src.len }),
        ),
{
    ensure_that(src.len == batch.hidden_dim, "write_vec_into len mismatch")?;
    proof {
        assert((token_idx + 1) * batch.hidden_dim == token_idx * batch.hidden_dim
            + batch.hidden_dim) by (nonlinear_arith);
        assert(token_idx * batch.hidden_dim >= 0) by (nonlinear_arith);
    }
    let offset: usize = token_idx * batch.hidden_dim;
    Ok(TokenCopy { offset, len: src.len })
}

/// `out = gelu_tanh(gate) * up`: the element count.
pub fn gelu_tanh_mul_batch_into(
    gate: &HiddenStates,
    up: &HiddenStates,
    out: &HiddenStates,
) -> (r: Result<i32, KernelError>)
    ensures
        r == ({
            let extent = gate.extent();
            KernelError::outcome(
                KernelError::unless(
                    gate.hidden_dim == up.hidden_dim && gate.seq_len == up.seq_len,
                    "gelu_tanh_mul gate must be shaped like up",
                )
                    .or_fault(KernelError::unless(
                        out.hidden_dim == gate.hidden_dim && out.seq_len == gate.seq_len,
                        "gelu_tanh_mul out must be shaped like gate",
                    ))
                    .or_fault(gate.extent_fault("gelu_tanh_mul gate"))
                    .or_fault(up.extent_fault("gelu_tanh_mul up"))
                    .or_fault(out.extent_fault("gelu_tanh_mul out"))
                    .or_fault(KernelError::too_wide(extent, "gelu_tanh_mul extent")),
                gate.extent() as i32,
            )
        }),
{
    ensure_that(
        gate.hidden_dim == up.hidden_dim && gate.seq_len == up.seq_len,
        "gelu_tanh_mul gate must be shaped like up",
    )?;
    ensure_that(
        out.hidden_dim == gate.hidden_dim && out.seq_len == gate.seq_len,
        "gelu_tanh_mul out must be shaped like gate",
    )?;
    let extent: usize = gate.checked_extent("gelu_tanh_mul gate")?;
    up.checked_extent("gelu_tanh_mul up")?;
    out.checked_extent("gelu_tanh_mul out")?;
    let n: i32 = checked_i32(extent, "gelu_tanh_mul extent")?;
    Ok(n)
}

/// `x = cap * tanh(x / cap)` in place: the element count.
pub fn softcap_bf16_in_place(buf: &HiddenStates, cap_bits: u32) -> (r: Result<i32, KernelError>)
    ensures
        r == ({
            let extent = buf.extent();
            KernelError::outcome(
                KernelError::unless(
                    crate::float_bits::finite(cap_bits) && crate::float_bits::positive(cap_bits),
                    "softcap_bf16_in_place cap must be positive and finite",
                )
                    .or_fault(buf.extent_fault("softcap_bf16 buf"))
                    .or_fault(KernelError::too_wide(extent, "softcap_bf16 extent")),
                buf.extent() as i32,
            )
        }),
{
    ensure_that(
        float_bits::is_finite(cap_bits) && float_bits::is_positive(cap_bits),
        "softcap_bf16_in_place cap must be positive and finite",
    )?;
    let extent: usize = buf.checked_extent("softcap_bf16 buf")?;
    let n: i32 = checked_i32(extent, "softcap_bf16 extent")?;
    Ok(n)
}

/// `x = scale * x` in place: the element count.
pub fn scale_bf16_in_place(buf: &HiddenStates, scale_bits: u32) -> (r: Result<i32, KernelError>)
    ensures
        r == ({
            let extent = buf.extent();
            KernelError::outcome(
                KernelError::unless(
                    crate::float_bits::finite(scale_bits),
                    "scale_bf16_in_place scale must be finite",
                )
                    .or_fault(buf.extent_fault("scale_bf16 buf"))
                    .or_fault(KernelError::too_wide(extent, "scale_bf16 extent")),
                buf.extent() as i32,
            )
        }),
{
    ensure_that(float_bits::is_finite(scale_bits), "scale_bf16_in_place scale must be finite")?;
    let extent: usize = buf.checked_extent("scale_bf16 buf")?;
    let n: i32 = checked_i32(extent, "scale_bf16 extent")?;
    Ok(n)
}

/// Suppression ids that were held against a head's width. The kernel indexes
/// the logits by these ids unchecked, so the bound is part of the type.
#[derive(Debug)]
pub struct SuppressIds {
    ids: Vec<u32>,
    vocab: usize,
}

impl SuppressIds {
    #[verifier::type_invariant]
    closed spec fn inv(self) -> bool {
        forall|i: int| 0 <= i < self.ids@.len() ==> (#[trigger] self.ids@[i]) < self.vocab
    }

    /// The ids.
    pub closed spec fn spec_ids(self) -> Seq<u32> {
        self.ids@
    }

    /// The width that the ids were held against.
    pub closed spec fn spec_vocab(self) -> usize {
        self.vocab
    }

    /// Take ids for a head of `vocab` columns, refusing the first id that the
    /// head does not contain.
    pub fn upload(ids: &[u32], vocab: usize) -> (r: Result<Self, KernelError>)
        ensures
            match r {
                Ok(s) => {
                    &&& s.spec_ids() == ids@
                    &&& s.spec_vocab() == vocab
                    &&& forall|i: int| 0 <= i < ids@.len() ==> (#[trigger] ids@[i]) < vocab
                },
                Err(e) => exists|i: int| #[trigger]
                    is_first_outside(ids@, vocab, i) && e == (KernelError::NotBelow {
                        what: "suppression id is outside the columns the head spans",
                        got: ids@[i] as usize,
                        bound: vocab,
                    }),
            },
    {
        let mut out: Vec<u32> = Vec::new();
        let mut i: usize = 0;
        while i < ids.len()
            invariant
                i <= ids@.len(),
                out@ == ids@.take(i as int),
                forall|k: int| 0 <= k < i ==> (#[trigger] ids@[k]) < vocab,
            decreases ids@.len() - i,
        {
            let id: u32 = ids[i];
            if id as usize >= vocab {
                assert(is_first_outside(ids@, vocab, i as int));
                return Err(
                    KernelError::NotBelow {
                        what: "suppression id is outside the columns the head spans",
                        got: id as usize,
                        bound: vocab,
                    },
                );
            }
            out.push(id);
            i += 1;
            assert(out@ =~= ids@.take(i as int));
        }
        assert(ids@.take(ids@.len() as int) =~= ids@);
        Ok(SuppressIds { ids: out, vocab })
    }

    /// The ids to upload.
    pub fn ids(&self) -> (r: &Vec<u32>)
        ensures
            r@ == self.spec_ids(),
            forall|i: int| 0 <= i < r@.len() ==> (#[trigger] r@[i]) < self.spec_vocab(),
    {
        proof {
            use_type_invariant(self);
        }
        &self.ids
    }

    pub fn is_empty(&self) -> (r: bool)
        ensures
            r == (self.spec_ids().len() == 0),
    {
        self.ids.len() == 0
    }
}

/// `i` is the first id that a head of `vocab` columns does not contain.
pub open spec fn is_first_outside(ids: Seq<u32>, vocab: usize, i: int) -> bool {
    &&& 0 <= i < ids.len()
    &&& ids[i] >= vocab
    &&& forall|k: int| 0 <= k < i ==> (#[trigger] ids[k]) < vocab
}

/// A suppression launch.
#[derive(Clone, Copy, Debug, PartialEq, Eq)]
pub struct SuppressLaunch {
    pub vocab: i32,
    pub rows: i32,
    pub id_count: i32,
}

/// Write negative infinity to every `(row, id)` slot of the logits. Without
/// ids there is nothing to launch.
pub fn suppress_logits_bf16_in_place(logits: &HiddenStates, ids: &SuppressIds) -> (r: Result<
    Option<SuppressLaunch>,
    KernelError,
>)
    ensures
        ids.spec_ids().len() == 0 ==> r == Ok::<Option<SuppressLaunch>, KernelError>(None),
        ids.spec_ids().len() > 0 ==> r == KernelError::outcome(
            KernelError::unless_sized(
                logits.hidden_dim == ids.spec_vocab(),
                "suppression ids were checked against another width",
                ids.spec_vocab() as int,
                logits.hidden_dim as int,
            )
                .or_fault(logits.extent_fault("suppress_logits_bf16 logits"))
                .or_fault(KernelError::too_wide(logits.hidden_dim as int, "suppression vocabulary"))
                .or_fault(KernelError::too_wide(logits.seq_len as int, "suppression rows"))
                .or_fault(KernelError::too_wide(
                    ids.spec_ids().len() as int,
                    "suppression id count",
                )),
            Some(SuppressLaunch {
                vocab: logits.hidden_dim as i32,
                rows: logits.seq_len as i32,
                id_count: ids.spec_ids().len() as i32,
            }),
        ),
        r matches Ok(Some(launch)) ==> forall|i: int|
            0 <= i < ids.spec_ids().len() ==> (#[trigger] ids.spec_ids()[i]) < launch.vocab,
{
    if ids.is_empty() {
        return Ok(None);
    }
    proof {
        use_type_invariant(ids);
    }
    ensure(
        logits.hidden_dim == ids.vocab,
        "suppression ids were checked against another width",
        ids.vocab,
        logits.hidden_dim,
    )?;
    logits.checked_extent("suppress_logits_bf16 logits")?;
    let vocab: i32 = checked_i32(logits.hidden_dim, "suppression vocabulary")?;
    let rows: i32 = checked_i32(logits.seq_len, "suppression rows")?;
    let id_count: i32 = checked_i32(ids.ids.len(), "suppression id count")?;
    Ok(Some(SuppressLaunch { vocab, rows, id_count }))
}

/// The place of element `j` of token `t` in a buffer of `dim`-wide rows, for a
/// window that starts at column `offset`.
pub open spec fn window_index(dim: usize, offset: usize, t: int, j: int) -> int {
    t * dim + offset + j
}

/// A row copy that meets its conditions stays inside both buffers, and the
/// extraction of the same window reads exactly the elements that the copy
/// wrote: each token's features go to the places that they come back from.
pub proof fn law_extract_undoes_copy(
    narrow_len: usize,
    narrow_dim: usize,
    wide_len: usize,
    wide_dim: usize,
    offset: usize,
    tokens: usize,
    t: int,
    j: int,
)
    requires
        offset + narrow_dim <= wide_dim,
        tokens * narrow_dim <= narrow_len,
        tokens * wide_dim <= wide_len,
        0 <= t < tokens,
        0 <= j < narrow_dim,
    ensures
        0 <= window_index(narrow_dim, 0, t, j) < narrow_len,
        0 <= window_index(wide_dim, offset, t, j) < wide_len,
        forall|t2: int, j2: int|
            0 <= t2 < tokens && 0 <= j2 < narrow_dim && #[trigger] window_index(
                wide_dim,
                offset,
                t2,
                j2,
            ) == window_index(wide_dim, offset, t, j) ==> t2 == t && j2 == j,
{
    assert(t * narrow_dim + j < tokens * narrow_dim) by (nonlinear_arith)
        requires
            0 <= t < tokens,
            0 <= j < narrow_dim,
    ;
    assert(t * wide_dim + offset + j < tokens * wide_dim) by (nonlinear_arith)
        requires
            0 <= t < tokens,
            0 <= offset + j < wide_dim,
    ;
    assert(t * narrow_dim >= 0 && t * wide_dim >= 0) by (nonlinear_arith)
        requires
            t >= 0,
            narrow_dim >= 0,
            wide_dim >= 0,
    ;
    assert forall|t2: int, j2: int|
        0 <= t2 < tokens && 0 <= j2 < narrow_dim && #[trigger] window_index(
            wide_dim,
            offset,
            t2,
            j2,
        ) == window_index(wide_dim, offset, t, j) implies t2 == t && j2 == j by {
        assert(t2 == t) by (nonlinear_arith)
            requires
                t2 * wide_dim + offset + j2 == t * wide_dim + offset + j,
                0 <= offset + j < wide_dim,
                0 <= offset + j2 < wide_dim,
                offset >= 0,
                0 <= j,
                0 <= j2,
                j < wide_dim,
                j2 < wide_dim,
        ;
    }
}

/// The three parts of a packed projection row.
#[derive(Clone, Copy, Debug, PartialEq, Eq)]
pub enum QkvPart {
    Q,
    K,
    V,
}

impl QkvPart {
    /// The part's width.
    pub open spec fn width(self, q_dim: int, kv_dim: int) -> int {
        match self {
            QkvPart::Q => q_dim,
            QkvPart::K => kv_dim,
            QkvPart::V => kv_dim,
        }
    }

    /// The part's first column in the packed row.
    pub open spec fn base(self, q_dim: int, kv_dim: int) -> int {
        match self {
            QkvPart::Q => 0,
            QkvPart::K => q_dim,
            QkvPart::V => q_dim + kv_dim,
        }
    }
}

/// Where the split accepts its shapes, every column of the packed row belongs
/// to exactly one part, at exactly one column of it.
pub proof fn law_split_partitions_the_row(
    qkv: HiddenStates,
    q: HiddenStates,
    k: HiddenStates,
    v: HiddenStates,
    column: int,
)
    requires
        k.hidden_dim == v.hidden_dim,
        qkv.hidden_dim == q.hidden_dim + k.hidden_dim + v.hidden_dim,
        0 <= column < qkv.hidden_dim,
    ensures
        exists|part: QkvPart| #[trigger]
            part.base(q.hidden_dim as int, k.hidden_dim as int) <= column < part.base(
                q.hidden_dim as int,
                k.hidden_dim as int,
            ) + part.width(q.hidden_dim as int, k.hidden_dim as int),
        forall|a: QkvPart, b: QkvPart|
            #![trigger a.base(q.hidden_dim as int, k.hidden_dim as int), b.base(q.hidden_dim as int, k.hidden_dim as int)]
            a.base(q.hidden_dim as int, k.hidden_dim as int) <= column < a.base(
                q.hidden_dim as int,
                k.hidden_dim as int,
            ) + a.width(q.hidden_dim as int, k.hidden_dim as int) && b.base(
                q.hidden_dim as int,
                k.hidden_dim as int,
            ) <= column < b.base(q.hidden_dim as int, k.hidden_dim as int) + b.width(
                q.hidden_dim as int,
                k.hidden_dim as int,
            ) ==> a == b,
{
    let q_dim = q.hidden_dim as int;
    let kv_dim = k.hidden_dim as int;
    assert(QkvPart::Q.base(q_dim, kv_dim) == 0);
    assert(QkvPart::K.base(q_dim, kv_dim) == q_dim);
    assert(QkvPart::V.base(q_dim, kv_dim) == q_dim + kv_dim);
}

/// The id that an upload reports is outside the columns, and every id before it
/// is inside; there is no other such id.
pub proof fn law_the_first_id_outside_is_reported(ids: Seq<u32>, vocab: usize, i: int, k: int)
    requires
        is_first_outside(ids, vocab, i),
        0 <= k < ids.len(),
    ensures
        0 <= i < ids.len(),
        ids[i] >= vocab,
        k < i ==> ids[k] < vocab,
        is_first_outside(ids, vocab, k) ==> k == i,
{
}

} // verus!
