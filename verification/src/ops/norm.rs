//! Norms of vectors and batches.

use vstd::prelude::*;

use crate::error::checked_i32;
use crate::error::ensure;
use crate::error::ensure_that;
use crate::error::FaultList;
use crate::error::KernelError;
use crate::float_bits;
use crate::shape::DeviceVec;
use crate::shape::HiddenStates;

verus! {

/// Root-mean-square norm of one vector: the element count.
pub fn rms_norm_into(x: &DeviceVec, out: &DeviceVec) -> (r: i32)
    requires
        x.len == out.len,
    ensures
        r == x.len as i32,
{
    x.len as i32
}

/// Root-mean-square norm of one vector into a fresh one: its shape and the
/// element count.
pub fn rms_norm(x: &DeviceVec) -> (r: (DeviceVec, i32))
    ensures
        r == (DeviceVec { data_len: x.len, len: x.len }, x.len as i32),
{
    (DeviceVec::zeros(x.len), x.len as i32)
}

/// Root-mean-square norm of one vector with weights stored less one: the
/// element count.
pub fn rms_norm_offset_into(x: &DeviceVec, out: &DeviceVec) -> (r: i32)
    requires
        x.len == out.len,
    ensures
        r == x.len as i32,
{
    x.len as i32
}

/// A norm over the rows of a batch.
#[derive(Clone, Copy, Debug, PartialEq, Eq)]
pub struct NormLaunch {
    /// Features of a row.
    pub dim: i32,
    pub rows: i32,
}

/// Root-mean-square norm of `rows` rows of a raw buffer.
pub fn rms_norm_rows_into(
    x_len: usize,
    weight: &DeviceVec,
    dim: usize,
    rows: usize,
    out_len: usize,
) -> (r: Result<NormLaunch, KernelError>)
    requires
        rows > 0 && dim > 0 ==> rows * dim <= usize::MAX,
    ensures
        r == ({
            let n = rows * dim;
            KernelError::outcome(
                KernelError::unless(rows > 0 && dim > 0, "rms_norm_rows needs positive rows/dim")
                    .or_fault(KernelError::unless(
                        x_len >= n && out_len >= n,
                        "rms_norm_rows buffers too small",
                    ))
                    .or_fault(KernelError::unless_sized(
                        weight.len == dim,
                        "rms_norm_rows weight len must be the row width",
                        weight.len as int,
                        dim as int,
                    )),
                (NormLaunch { dim: dim as i32, rows: rows as i32 }),
            )
        }),
{
    ensure_that(rows > 0 && dim > 0, "rms_norm_rows needs positive rows/dim")?;
    proof {
        assert(rows * dim >= 0) by (nonlinear_arith);
    }
    let n: usize = rows * dim;
    ensure_that(x_len >= n && out_len >= n, "rms_norm_rows buffers too small")?;
    ensure(weight.len == dim, "rms_norm_rows weight len must be the row width", weight.len, dim)?;
    Ok(NormLaunch { dim: dim as i32, rows: rows as i32 })
}

/// Layer norm of `rows` rows of a raw buffer.
pub fn layer_norm_into(
    x_len: usize,
    gamma_len: usize,
    beta_len: usize,
    dim: usize,
    rows: usize,
    out_len: usize,
) -> (r: Result<NormLaunch, KernelError>)
    requires
        rows > 0 && dim > 0 ==> rows * dim <= usize::MAX,
    ensures
        r == ({
            let n = rows * dim;
            KernelError::outcome(
                KernelError::unless(rows > 0 && dim > 0, "layer_norm needs positive rows/dim")
                    .or_fault(KernelError::unless(
                        x_len >= n && out_len >= n,
                        "layer_norm x/out too small",
                    ))
                    .or_fault(KernelError::unless(gamma_len >= dim, "layer_norm gamma too small"))
                    .or_fault(KernelError::unless(beta_len >= dim, "layer_norm beta too small")),
                (NormLaunch { dim: dim as i32, rows: rows as i32 }),
            )
        }),
{
    ensure_that(rows > 0 && dim > 0, "layer_norm needs positive rows/dim")?;
    proof {
        assert(rows * dim >= 0) by (nonlinear_arith);
    }
    let n: usize = rows * dim;
    ensure_that(x_len >= n && out_len >= n, "layer_norm x/out too small")?;
    ensure_that(gamma_len >= dim, "layer_norm gamma too small")?;
    ensure_that(beta_len >= dim, "layer_norm beta too small")?;
    Ok(NormLaunch { dim: dim as i32, rows: rows as i32 })
}

/// `hidden += residual`, then the norm of the sum: the element count.
pub fn fused_add_rms_norm_into(
    hidden: &DeviceVec,
    residual: &DeviceVec,
    out: &DeviceVec,
) -> (r: i32)
    requires
        hidden.len == residual.len,
        hidden.len == out.len,
    ensures
        r == hidden.len as i32,
{
    hidden.len as i32
}

/// Two norms of one batch, under two weights; the first is scaled as well.
pub fn rms_norm_batch_dual_into(
    x: &HiddenStates,
    weight_a: &DeviceVec,
    weight_b: &DeviceVec,
    scale_a_bits: u32,
    out_a: &HiddenStates,
    out_b: &HiddenStates,
) -> (r: Result<NormLaunch, KernelError>)
    ensures
        r == KernelError::outcome(
            KernelError::unless(
                x.hidden_dim > 0 && x.seq_len > 0,
                "rms_norm_batch_dual_into dimensions must be non-zero",
            )
                .or_fault(KernelError::unless(
                    weight_a.len == x.hidden_dim,
                    "rms_norm_batch_dual_into weight_a len mismatch",
                ))
                .or_fault(KernelError::unless(
                    weight_b.len == x.hidden_dim,
                    "rms_norm_batch_dual_into weight_b len mismatch",
                ))
                .or_fault(KernelError::unless(
                    weight_a.data_len >= x.hidden_dim,
                    "rms_norm_batch_dual_into weight_a backing too small",
                ))
                .or_fault(KernelError::unless(
                    weight_b.data_len >= x.hidden_dim,
                    "rms_norm_batch_dual_into weight_b backing too small",
                ))
                .or_fault(KernelError::unless(
                    out_a.hidden_dim == x.hidden_dim && out_a.seq_len == x.seq_len,
                    "rms_norm_batch_dual_into out_a shape mismatch",
                ))
                .or_fault(KernelError::unless(
                    out_b.hidden_dim == x.hidden_dim && out_b.seq_len == x.seq_len,
                    "rms_norm_batch_dual_into out_b shape mismatch",
                ))
                .or_fault(KernelError::unless(
                    crate::float_bits::finite(scale_a_bits),
                    "rms_norm_batch_dual_into scale_a must be finite",
                ))
                .or_fault(x.extent_fault("rms_norm_batch_dual_into x"))
                .or_fault(out_a.extent_fault("rms_norm_batch_dual_into out_a"))
                .or_fault(out_b.extent_fault("rms_norm_batch_dual_into out_b"))
                .or_fault(KernelError::too_wide(
                    x.hidden_dim as int,
                    "rms_norm_batch_dual_into hidden_dim",
                ))
                .or_fault(KernelError::too_wide(
                    x.seq_len as int,
                    "rms_norm_batch_dual_into seq_len",
                )),
            (NormLaunch { dim: x.hidden_dim as i32, rows: x.seq_len as i32 }),
        ),
{
    ensure_that(
        x.hidden_dim > 0 && x.seq_len > 0,
        "rms_norm_batch_dual_into dimensions must be non-zero",
    )?;
    ensure_that(weight_a.len == x.hidden_dim, "rms_norm_batch_dual_into weight_a len mismatch")?;
    ensure_that(weight_b.len == x.hidden_dim, "rms_norm_batch_dual_into weight_b len mismatch")?;
    ensure_that(
        weight_a.data_len >= x.hidden_dim,
        "rms_norm_batch_dual_into weight_a backing too small",
    )?;
    ensure_that(
        weight_b.data_len >= x.hidden_dim,
        "rms_norm_batch_dual_into weight_b backing too small",
    )?;
    ensure_that(
        out_a.hidden_dim == x.hidden_dim && out_a.seq_len == x.seq_len,
        "rms_norm_batch_dual_into out_a shape mismatch",
    )?;
    ensure_that(
        out_b.hidden_dim == x.hidden_dim && out_b.seq_len == x.seq_len,
        "rms_norm_batch_dual_into out_b shape mismatch",
    )?;
    ensure_that(
        float_bits::is_finite(scale_a_bits),
        "rms_norm_batch_dual_into scale_a must be finite",
    )?;
    x.checked_extent("rms_norm_batch_dual_into x")?;
    out_a.checked_extent("rms_norm_batch_dual_into out_a")?;
    out_b.checked_extent("rms_norm_batch_dual_into out_b")?;
    let hidden_dim: i32 = checked_i32(x.hidden_dim, "rms_norm_batch_dual_into hidden_dim")?;
    let seq_len: i32 = checked_i32(x.seq_len, "rms_norm_batch_dual_into seq_len")?;
    Ok(NormLaunch { dim: hidden_dim, rows: seq_len })
}

/// The sum of the norms of two batches.
pub fn dual_rms_norm_add_batch_into(
    a: &HiddenStates,
    weight_a: &DeviceVec,
    b: &HiddenStates,
    weight_b: &DeviceVec,
    out: &HiddenStates,
) -> (r: Result<NormLaunch, KernelError>)
    ensures
        r == KernelError::outcome(
            KernelError::unless(
                a.hidden_dim > 0 && a.seq_len > 0,
                "dual_rms_norm_add_batch_into dimensions must be non-zero",
            )
                .or_fault(KernelError::unless(
                    weight_a.len == a.hidden_dim,
                    "dual_rms_norm_add_batch_into weight_a len mismatch",
                ))
                .or_fault(KernelError::unless(
                    weight_b.len == a.hidden_dim,
                    "dual_rms_norm_add_batch_into weight_b len mismatch",
                ))
                .or_fault(KernelError::unless(
                    weight_a.data_len >= a.hidden_dim,
                    "dual_rms_norm_add_batch_into weight_a backing too small",
                ))
                .or_fault(KernelError::unless(
                    weight_b.data_len >= a.hidden_dim,
                    "dual_rms_norm_add_batch_into weight_b backing too small",
                ))
                .or_fault(KernelError::unless(
                    b.hidden_dim == a.hidden_dim && b.seq_len == a.seq_len,
                    "dual_rms_norm_add_batch_into b shape mismatch",
                ))
                .or_fault(KernelError::unless(
                    out.hidden_dim == a.hidden_dim && out.seq_len == a.seq_len,
                    "dual_rms_norm_add_batch_into out shape mismatch",
                ))
                .or_fault(a.extent_fault("dual_rms_norm_add_batch_into a"))
                .or_fault(b.extent_fault("dual_rms_norm_add_batch_into b"))
                .or_fault(out.extent_fault("dual_rms_norm_add_batch_into out"))
                .or_fault(KernelError::too_wide(
                    a.hidden_dim as int,
                    "dual_rms_norm_add_batch_into hidden_dim",
                ))
                .or_fault(KernelError::too_wide(
                    a.seq_len as int,
                    "dual_rms_norm_add_batch_into seq_len",
                )),
            (NormLaunch { dim: a.hidden_dim as i32, rows: a.seq_len as i32 }),
        ),
{
    ensure_that(
        a.hidden_dim > 0 && a.seq_len > 0,
        "dual_rms_norm_add_batch_into dimensions must be non-zero",
    )?;
    ensure_that(
        weight_a.len == a.hidden_dim,
        "dual_rms_norm_add_batch_into weight_a len mismatch",
    )?;
    ensure_that(
        weight_b.len == a.hidden_dim,
        "dual_rms_norm_add_batch_into weight_b len mismatch",
    )?;
    ensure_that(
        weight_a.data_len >= a.hidden_dim,
        "dual_rms_norm_add_batch_into weight_a backing too small",
    )?;
    ensure_that(
        weight_b.data_len >= a.hidden_dim,
        "dual_rms_norm_add_batch_into weight_b backing too small",
    )?;
    ensure_that(
        b.hidden_dim == a.hidden_dim && b.seq_len == a.seq_len,
        "dual_rms_norm_add_batch_into b shape mismatch",
    )?;
    ensure_that(
        out.hidden_dim == a.hidden_dim && out.seq_len == a.seq_len,
        "dual_rms_norm_add_batch_into out shape mismatch",
    )?;
    a.checked_extent("dual_rms_norm_add_batch_into a")?;
    b.checked_extent("dual_rms_norm_add_batch_into b")?;
    out.checked_extent("dual_rms_norm_add_batch_into out")?;
    let hidden_dim: i32 = checked_i32(a.hidden_dim, "dual_rms_norm_add_batch_into hidden_dim")?;
    let seq_len: i32 = checked_i32(a.seq_len, "dual_rms_norm_add_batch_into seq_len")?;
    Ok(NormLaunch { dim: hidden_dim, rows: seq_len })
}

/// Norm, add to the residual, norm again. The sum is rounded before the second
/// norm reads it.
pub fn rms_norm_add_rms_norm_round_batch_into(
    x: &HiddenStates,
    weight_post: &DeviceVec,
    res_in: &HiddenStates,
    weight_pre: &DeviceVec,
    residual_out: &HiddenStates,
    out: &HiddenStates,
) -> (r: Result<NormLaunch, KernelError>)
    ensures
        r == KernelError::outcome(
            KernelError::unless(
                x.hidden_dim > 0 && x.seq_len > 0,
                "rms_norm_add_rms_norm_round_batch_into dimensions must be non-zero",
            )
                .or_fault(KernelError::unless(
                    weight_post.len == x.hidden_dim,
                    "rms_norm_add_rms_norm_round_batch_into weight_post len mismatch",
                ))
                .or_fault(KernelError::unless(
                    weight_pre.len == x.hidden_dim,
                    "rms_norm_add_rms_norm_round_batch_into weight_pre len mismatch",
                ))
                .or_fault(KernelError::unless(
                    weight_post.data_len >= x.hidden_dim,
                    "rms_norm_add_rms_norm_round_batch_into weight_post backing too small",
                ))
                .or_fault(KernelError::unless(
                    weight_pre.data_len >= x.hidden_dim,
                    "rms_norm_add_rms_norm_round_batch_into weight_pre backing too small",
                ))
                .or_fault(KernelError::unless(
                    res_in.hidden_dim == x.hidden_dim && res_in.seq_len == x.seq_len,
                    "rms_norm_add_rms_norm_round_batch_into res_in shape mismatch",
                ))
                .or_fault(KernelError::unless(
                    residual_out.hidden_dim == x.hidden_dim && residual_out.seq_len == x.seq_len,
                    "rms_norm_add_rms_norm_round_batch_into residual_out shape mismatch",
                ))
                .or_fault(KernelError::unless(
                    out.hidden_dim == x.hidden_dim && out.seq_len == x.seq_len,
                    "rms_norm_add_rms_norm_round_batch_into out shape mismatch",
                ))
                .or_fault(x.extent_fault("rms_norm_add_rms_norm_round_batch_into x"))
                .or_fault(res_in.extent_fault("rms_norm_add_rms_norm_round_batch_into res_in"))
                .or_fault(residual_out.extent_fault(
                    "rms_norm_add_rms_norm_round_batch_into residual_out",
                ))
                .or_fault(out.extent_fault("rms_norm_add_rms_norm_round_batch_into out"))
                .or_fault(KernelError::too_wide(
                    x.hidden_dim as int,
                    "rms_norm_add_rms_norm_round_batch_into hidden_dim",
                ))
                .or_fault(KernelError::too_wide(
                    x.seq_len as int,
                    "rms_norm_add_rms_norm_round_batch_into seq_len",
                )),
            (NormLaunch { dim: x.hidden_dim as i32, rows: x.seq_len as i32 }),
        ),
{
    ensure_that(
        x.hidden_dim > 0 && x.seq_len > 0,
        "rms_norm_add_rms_norm_round_batch_into dimensions must be non-zero",
    )?;
    ensure_that(
        weight_post.len == x.hidden_dim,
        "rms_norm_add_rms_norm_round_batch_into weight_post len mismatch",
    )?;
    ensure_that(
        weight_pre.len == x.hidden_dim,
        "rms_norm_add_rms_norm_round_batch_into weight_pre len mismatch",
    )?;
    ensure_that(
        weight_post.data_len >= x.hidden_dim,
        "rms_norm_add_rms_norm_round_batch_into weight_post backing too small",
    )?;
    ensure_that(
        weight_pre.data_len >= x.hidden_dim,
        "rms_norm_add_rms_norm_round_batch_into weight_pre backing too small",
    )?;
    ensure_that(
        res_in.hidden_dim == x.hidden_dim && res_in.seq_len == x.seq_len,
        "rms_norm_add_rms_norm_round_batch_into res_in shape mismatch",
    )?;
    ensure_that(
        residual_out.hidden_dim == x.hidden_dim && residual_out.seq_len == x.seq_len,
        "rms_norm_add_rms_norm_round_batch_into residual_out shape mismatch",
    )?;
    ensure_that(
        out.hidden_dim == x.hidden_dim && out.seq_len == x.seq_len,
        "rms_norm_add_rms_norm_round_batch_into out shape mismatch",
    )?;
    x.checked_extent("rms_norm_add_rms_norm_round_batch_into x")?;
    res_in.checked_extent("rms_norm_add_rms_norm_round_batch_into res_in")?;
    residual_out.checked_extent("rms_norm_add_rms_norm_round_batch_into residual_out")?;
    out.checked_extent("rms_norm_add_rms_norm_round_batch_into out")?;
    let hidden_dim: i32 = checked_i32(
        x.hidden_dim,
        "rms_norm_add_rms_norm_round_batch_into hidden_dim",
    )?;
    let seq_len: i32 = checked_i32(x.seq_len, "rms_norm_add_rms_norm_round_batch_into seq_len")?;
    Ok(NormLaunch { dim: hidden_dim, rows: seq_len })
}

/// Norm, add the residual, scale.
pub fn rms_norm_add_scale_batch_into(
    x: &HiddenStates,
    weight: &DeviceVec,
    residual: &HiddenStates,
    scale_bits: u32,
    out: &HiddenStates,
) -> (r: Result<NormLaunch, KernelError>)
    ensures
        r == KernelError::outcome(
            KernelError::unless(
                x.hidden_dim > 0 && x.seq_len > 0,
                "rms_norm_add_scale_batch_into dimensions must be non-zero",
            )
                .or_fault(KernelError::unless(
                    weight.len == x.hidden_dim,
                    "rms_norm_add_scale_batch_into weight len mismatch",
                ))
                .or_fault(KernelError::unless(
                    weight.data_len >= x.hidden_dim,
                    "rms_norm_add_scale_batch_into weight backing too small",
                ))
                .or_fault(KernelError::unless(
                    residual.hidden_dim == x.hidden_dim && residual.seq_len == x.seq_len,
                    "rms_norm_add_scale_batch_into residual shape mismatch",
                ))
                .or_fault(KernelError::unless(
                    out.hidden_dim == x.hidden_dim && out.seq_len == x.seq_len,
                    "rms_norm_add_scale_batch_into out shape mismatch",
                ))
                .or_fault(KernelError::unless(
                    crate::float_bits::finite(scale_bits),
                    "rms_norm_add_scale_batch_into scale must be finite",
                ))
                .or_fault(x.extent_fault("rms_norm_add_scale_batch_into x"))
                .or_fault(residual.extent_fault("rms_norm_add_scale_batch_into residual"))
                .or_fault(out.extent_fault("rms_norm_add_scale_batch_into out"))
                .or_fault(KernelError::too_wide(
                    x.hidden_dim as int,
                    "rms_norm_add_scale_batch_into hidden_dim",
                ))
                .or_fault(KernelError::too_wide(
                    x.seq_len as int,
                    "rms_norm_add_scale_batch_into seq_len",
                )),
            (NormLaunch { dim: x.hidden_dim as i32, rows: x.seq_len as i32 }),
        ),
{
    ensure_that(
        x.hidden_dim > 0 && x.seq_len > 0,
        "rms_norm_add_scale_batch_into dimensions must be non-zero",
    )?;
    ensure_that(weight.len == x.hidden_dim, "rms_norm_add_scale_batch_into weight len mismatch")?;
    ensure_that(
        weight.data_len >= x.hidden_dim,
        "rms_norm_add_scale_batch_into weight backing too small",
    )?;
    ensure_that(
        residual.hidden_dim == x.hidden_dim && residual.seq_len == x.seq_len,
        "rms_norm_add_scale_batch_into residual shape mismatch",
    )?;
    ensure_that(
        out.hidden_dim == x.hidden_dim && out.seq_len == x.seq_len,
        "rms_norm_add_scale_batch_into out shape mismatch",
    )?;
    ensure_that(
        float_bits::is_finite(scale_bits),
        "rms_norm_add_scale_batch_into scale must be finite",
    )?;
    x.checked_extent("rms_norm_add_scale_batch_into x")?;
    residual.checked_extent("rms_norm_add_scale_batch_into residual")?;
    out.checked_extent("rms_norm_add_scale_batch_into out")?;
    let hidden_dim: i32 = checked_i32(x.hidden_dim, "rms_norm_add_scale_batch_into hidden_dim")?;
    let seq_len: i32 = checked_i32(x.seq_len, "rms_norm_add_scale_batch_into seq_len")?;
    Ok(NormLaunch { dim: hidden_dim, rows: seq_len })
}

/// `hidden += residual`, then the norm of the sum, row by row.
pub fn fused_add_rms_norm_batch_into(
    hidden: &HiddenStates,
    residual: &HiddenStates,
    weight: &DeviceVec,
    out: &HiddenStates,
) -> (r: NormLaunch)
    requires
        residual.shaped_like(*hidden),
        out.shaped_like(*hidden),
        weight.len == hidden.hidden_dim,
    ensures
        r == (NormLaunch { dim: hidden.hidden_dim as i32, rows: hidden.seq_len as i32 }),
{
    NormLaunch { dim: hidden.hidden_dim as i32, rows: hidden.seq_len as i32 }
}

/// [`fused_add_rms_norm_batch_into`], with the sum rounded before the norm
/// reads it.
pub fn fused_add_rms_norm_round_batch_into(
    hidden: &HiddenStates,
    residual: &HiddenStates,
    weight: &DeviceVec,
    out: &HiddenStates,
) -> (r: NormLaunch)
    requires
        residual.shaped_like(*hidden),
        out.shaped_like(*hidden),
        weight.len == hidden.hidden_dim,
    ensures
        r == (NormLaunch { dim: hidden.hidden_dim as i32, rows: hidden.seq_len as i32 }),
{
    NormLaunch { dim: hidden.hidden_dim as i32, rows: hidden.seq_len as i32 }
}

/// [`fused_add_rms_norm_round_batch_into`] on raw buffers.
pub fn fused_add_rms_norm_round_into(
    hidden_len: usize,
    residual_len: usize,
    weight: &DeviceVec,
    hidden_dim: usize,
    seq_len: usize,
    out_len: usize,
) -> (r: Result<NormLaunch, KernelError>)
    requires
        hidden_dim * seq_len <= usize::MAX,
    ensures
        r == ({
            let n = hidden_dim * seq_len;
            KernelError::outcome(
                KernelError::unless(
                    hidden_len >= n && residual_len >= n && out_len >= n,
                    "fused_add_rms_norm_round_into buffers too small",
                )
                    .or_fault(KernelError::unless_sized(
                        weight.len == hidden_dim,
                        "fused_add_rms_norm_round_into weight len must be hidden_dim",
                        weight.len as int,
                        hidden_dim as int,
                    )),
                (NormLaunch { dim: hidden_dim as i32, rows: seq_len as i32 }),
            )
        }),
{
    proof {
        assert(hidden_dim * seq_len >= 0) by (nonlinear_arith);
    }
    let n: usize = hidden_dim * seq_len;
    ensure_that(
        hidden_len >= n && residual_len >= n && out_len >= n,
        "fused_add_rms_norm_round_into buffers too small",
    )?;
    ensure(
        weight.len == hidden_dim,
        "fused_add_rms_norm_round_into weight len must be hidden_dim",
        weight.len,
        hidden_dim,
    )?;
    Ok(NormLaunch { dim: hidden_dim as i32, rows: seq_len as i32 })
}

/// Root-mean-square norm, row by row.
pub fn rms_norm_batch_into(
    x: &HiddenStates,
    weight: &DeviceVec,
    out: &HiddenStates,
) -> (r: NormLaunch)
    requires
        weight.len == x.hidden_dim,
        out.shaped_like(*x),
    ensures
        r == (NormLaunch { dim: x.hidden_dim as i32, rows: x.seq_len as i32 }),
{
    NormLaunch { dim: x.hidden_dim as i32, rows: x.seq_len as i32 }
}

/// [`rms_norm_batch_into`] with weights stored less one.
pub fn rms_norm_batch_offset_into(
    x: &HiddenStates,
    weight: &DeviceVec,
    out: &HiddenStates,
) -> (r: NormLaunch)
    requires
        weight.len == x.hidden_dim,
        out.shaped_like(*x),
    ensures
        r == (NormLaunch { dim: x.hidden_dim as i32, rows: x.seq_len as i32 }),
{
    NormLaunch { dim: x.hidden_dim as i32, rows: x.seq_len as i32 }
}

/// Per-head norm, gated: one row of the launch is one head of one token.
pub fn rms_norm_gated_batch_into(
    x: &HiddenStates,
    gate: &HiddenStates,
    out: &HiddenStates,
    num_heads: usize,
    head_dim: usize,
) -> (r: NormLaunch)
    requires
        x.hidden_dim == num_heads * head_dim,
        gate.shaped_like(*x),
        out.shaped_like(*x),
        x.seq_len * num_heads <= usize::MAX,
    ensures
        r == ({
            let total_heads = x.seq_len * num_heads;
            (NormLaunch { dim: head_dim as i32, rows: total_heads as i32 })
        }),
{
    proof {
        assert(x.seq_len * num_heads >= 0) by (nonlinear_arith);
    }
    let total_heads: usize = x.seq_len * num_heads;
    NormLaunch { dim: head_dim as i32, rows: total_heads as i32 }
}

} // verus!
