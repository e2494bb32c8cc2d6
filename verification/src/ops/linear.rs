//! Projection GEMMs: shapes, numeric policy and the choice of the kernel.

use vstd::prelude::*;

use crate::error::checked_product;
use crate::error::ensure;
use crate::error::ensure_that;
use crate::error::FaultList;
use crate::error::holds_product;
use crate::error::KernelError;
use crate::shape::DeviceMatrix;
use crate::shape::DeviceVec;
use crate::shape::HiddenStates;
use crate::tensor::has_prefill_stream_override;
use crate::tensor::has_stream_override;
use crate::tensor::StreamOverride;

verus! {

/// What [`gemm_strided_batched_bf16`] takes.
#[derive(Clone, Copy, Debug)]
pub struct StridedGemmBf16 {
    pub transpose_a: bool,
    pub transpose_b: bool,
    pub m: usize,
    pub n: usize,
    pub k: usize,
    pub a_len: usize,
    pub lda: usize,
    pub stride_a: usize,
    pub b_len: usize,
    pub ldb: usize,
    pub stride_b: usize,
    pub c_len: usize,
    pub ldc: usize,
    pub stride_c: usize,
    pub batch: usize,
}

/// The C arguments that [`gemm_strided_batched_bf16`] derives.
#[derive(Clone, Copy, Debug, PartialEq, Eq)]
pub struct StridedGemmBf16Launch {
    pub transpose_a: i32,
    pub transpose_b: i32,
    pub m: i32,
    pub n: i32,
    pub k: i32,
    pub lda: i32,
    pub ldb: i32,
    pub ldc: i32,
    pub batch: i32,
    pub stride_a: i64,
    pub stride_b: i64,
    pub stride_c: i64,
}

impl StridedGemmBf16 {
    /// Why the kernel cannot run, if it cannot.
    pub open spec fn fault(self) -> Option<KernelError> {
        let a_need = self.stride_a * self.batch;
        let b_need = self.stride_b * self.batch;
        let c_need = self.stride_c * self.batch;
        KernelError::unless(
            self.m > 0 && self.n > 0 && self.k > 0 && self.batch > 0,
            "gemm_strided_batched_bf16 empty dims",
        )
            .or_fault(KernelError::overflow(a_need, "gemm_strided_batched_bf16 A extent"))
            .or_fault(KernelError::unless_sized(
                self.a_len >= a_need,
                "gemm_strided_batched_bf16 A too small",
                self.a_len as int,
                a_need,
            ))
            .or_fault(KernelError::overflow(b_need, "gemm_strided_batched_bf16 B extent"))
            .or_fault(KernelError::unless_sized(
                self.b_len >= b_need,
                "gemm_strided_batched_bf16 B too small",
                self.b_len as int,
                b_need,
            ))
            .or_fault(KernelError::overflow(c_need, "gemm_strided_batched_bf16 C extent"))
            .or_fault(KernelError::unless_sized(
                self.c_len >= c_need,
                "gemm_strided_batched_bf16 C too small",
                self.c_len as int,
                c_need,
            ))
    }

    /// The launch of a call without a fault.
    pub open spec fn launch(self) -> StridedGemmBf16Launch {
        StridedGemmBf16Launch {
            transpose_a: if self.transpose_a { 1 } else { 0 },
            transpose_b: if self.transpose_b { 1 } else { 0 },
            m: self.m as i32,
            n: self.n as i32,
            k: self.k as i32,
            lda: self.lda as i32,
            ldb: self.ldb as i32,
            ldc: self.ldc as i32,
            batch: self.batch as i32,
            stride_a: self.stride_a as i64,
            stride_b: self.stride_b as i64,
            stride_c: self.stride_c as i64,
        }
    }
}

/// Strided-batched bf16 GEMM. Leading dimensions are column-major and strides
/// count elements per batch entry; each buffer holds `stride * batch` elements.
pub fn gemm_strided_batched_bf16(c: &StridedGemmBf16) -> (r: Result<
    StridedGemmBf16Launch,
    KernelError,
>)
    ensures
        r == KernelError::outcome(c.fault(), c.launch()),
        r matches Ok(l) ==> {
            &&& c.m <= i32::MAX ==> l.m == c.m
            &&& c.n <= i32::MAX ==> l.n == c.n
            &&& c.k <= i32::MAX ==> l.k == c.k
        },
{
    ensure_that(
        c.m > 0 && c.n > 0 && c.k > 0 && c.batch > 0,
        "gemm_strided_batched_bf16 empty dims",
    )?;
    let a_need: usize = checked_product(
        c.stride_a,
        c.batch,
        "gemm_strided_batched_bf16 A extent",
    )?;
    ensure(c.a_len >= a_need, "gemm_strided_batched_bf16 A too small", c.a_len, a_need)?;
    let b_need: usize = checked_product(
        c.stride_b,
        c.batch,
        "gemm_strided_batched_bf16 B extent",
    )?;
    ensure(c.b_len >= b_need, "gemm_strided_batched_bf16 B too small", c.b_len, b_need)?;
    let c_need: usize = checked_product(
        c.stride_c,
        c.batch,
        "gemm_strided_batched_bf16 C extent",
    )?;
    ensure(c.c_len >= c_need, "gemm_strided_batched_bf16 C too small", c.c_len, c_need)?;
    Ok(StridedGemmBf16Launch {
        transpose_a: if c.transpose_a { 1 } else { 0 },
        transpose_b: if c.transpose_b { 1 } else { 0 },
        m: c.m as i32,
        n: c.n as i32,
        k: c.k as i32,
        lda: c.lda as i32,
        ldb: c.ldb as i32,
        ldc: c.ldc as i32,
        batch: c.batch as i32,
        stride_a: c.stride_a as i64,
        stride_b: c.stride_b as i64,
        stride_c: c.stride_c as i64,
    })
}

/// What [`gemm_strided_batched_f32`] takes.
#[derive(Clone, Copy, Debug)]
pub struct StridedGemmF32 {
    pub transpose_a: bool,
    pub transpose_b: bool,
    pub m: usize,
    pub n: usize,
    pub k: usize,
    pub a_len: usize,
    pub lda: usize,
    pub stride_a: usize,
    pub b_len: usize,
    pub ldb: usize,
    pub stride_b: usize,
    /// Add to C instead of overwriting it.
    pub accumulate: bool,
    pub c_len: usize,
    pub ldc: usize,
    pub stride_c: usize,
    pub batch: usize,
}

/// The C arguments that [`gemm_strided_batched_f32`] derives.
#[derive(Clone, Copy, Debug, PartialEq, Eq)]
pub struct StridedGemmF32Launch {
    pub transpose_a: i32,
    pub transpose_b: i32,
    pub m: i32,
    pub n: i32,
    pub k: i32,
    pub lda: i32,
    pub ldb: i32,
    pub ldc: i32,
    pub batch: i32,
    pub stride_a: i64,
    pub stride_b: i64,
    pub stride_c: i64,
    pub accumulate: bool,
}

impl StridedGemmF32 {
    /// Why the kernel cannot run, if it cannot.
    pub open spec fn fault(self) -> Option<KernelError> {
        let a_need = self.stride_a * self.batch;
        let b_need = self.stride_b * self.batch;
        let c_need = self.stride_c * self.batch;
        KernelError::unless(
            self.m > 0 && self.n > 0 && self.k > 0 && self.batch > 0,
            "gemm_strided_batched_f32 empty dims",
        )
            .or_fault(KernelError::overflow(a_need, "gemm_strided_batched_f32 A extent"))
            .or_fault(KernelError::unless_sized(
                self.a_len >= a_need,
                "gemm_strided_batched_f32 A too small",
                self.a_len as int,
                a_need,
            ))
            .or_fault(KernelError::overflow(b_need, "gemm_strided_batched_f32 B extent"))
            .or_fault(KernelError::unless_sized(
                self.b_len >= b_need,
                "gemm_strided_batched_f32 B too small",
                self.b_len as int,
                b_need,
            ))
            .or_fault(KernelError::overflow(c_need, "gemm_strided_batched_f32 C extent"))
            .or_fault(KernelError::unless_sized(
                self.c_len >= c_need,
                "gemm_strided_batched_f32 C too small",
                self.c_len as int,
                c_need,
            ))
    }

    /// The launch of a call without a fault.
    pub open spec fn launch(self) -> StridedGemmF32Launch {
        StridedGemmF32Launch {
            transpose_a: if self.transpose_a { 1 } else { 0 },
            transpose_b: if self.transpose_b { 1 } else { 0 },
            m: self.m as i32,
            n: self.n as i32,
            k: self.k as i32,
            lda: self.lda as i32,
            ldb: self.ldb as i32,
            ldc: self.ldc as i32,
            batch: self.batch as i32,
            stride_a: self.stride_a as i64,
            stride_b: self.stride_b as i64,
            stride_c: self.stride_c as i64,
            accumulate: self.accumulate,
        }
    }
}

/// Strided-batched f32 GEMM. Leading dimensions are column-major and strides
/// count elements per batch entry; each buffer holds `stride * batch` elements.
/// With `accumulate` the product is added to C.
pub fn gemm_strided_batched_f32(c: &StridedGemmF32) -> (r: Result<
    StridedGemmF32Launch,
    KernelError,
>)
    ensures
        r == KernelError::outcome(c.fault(), c.launch()),
        r matches Ok(l) ==> {
            &&& c.m <= i32::MAX ==> l.m == c.m
            &&& c.n <= i32::MAX ==> l.n == c.n
            &&& c.k <= i32::MAX ==> l.k == c.k
        },
{
    ensure_that(
        c.m > 0 && c.n > 0 && c.k > 0 && c.batch > 0,
        "gemm_strided_batched_f32 empty dims",
    )?;
    let a_need: usize = checked_product(
        c.stride_a,
        c.batch,
        "gemm_strided_batched_f32 A extent",
    )?;
    ensure(c.a_len >= a_need, "gemm_strided_batched_f32 A too small", c.a_len, a_need)?;
    let b_need: usize = checked_product(
        c.stride_b,
        c.batch,
        "gemm_strided_batched_f32 B extent",
    )?;
    ensure(c.b_len >= b_need, "gemm_strided_batched_f32 B too small", c.b_len, b_need)?;
    let c_need: usize = checked_product(
        c.stride_c,
        c.batch,
        "gemm_strided_batched_f32 C extent",
    )?;
    ensure(c.c_len >= c_need, "gemm_strided_batched_f32 C too small", c.c_len, c_need)?;
    Ok(StridedGemmF32Launch {
        transpose_a: if c.transpose_a { 1 } else { 0 },
        transpose_b: if c.transpose_b { 1 } else { 0 },
        m: c.m as i32,
        n: c.n as i32,
        k: c.k as i32,
        lda: c.lda as i32,
        ldb: c.ldb as i32,
        ldc: c.ldc as i32,
        batch: c.batch as i32,
        stride_a: c.stride_a as i64,
        stride_b: c.stride_b as i64,
        stride_c: c.stride_c as i64,
        accumulate: c.accumulate,
    })
}

/// What [`gemm_bf16_f32`] takes.
#[derive(Clone, Copy, Debug)]
pub struct GemmBf16F32 {
    pub transpose_a: bool,
    pub transpose_b: bool,
    pub m: usize,
    pub n: usize,
    pub k: usize,
    pub a_len: usize,
    pub lda: usize,
    pub b_len: usize,
    pub ldb: usize,
    pub c_len: usize,
    pub ldc: usize,
}

/// The C arguments that [`gemm_bf16_f32`] derives.
#[derive(Clone, Copy, Debug, PartialEq, Eq)]
pub struct GemmBf16F32Launch {
    pub transpose_a: i32,
    pub transpose_b: i32,
    pub m: i32,
    pub n: i32,
    pub k: i32,
    pub lda: i32,
    pub ldb: i32,
    pub ldc: i32,
}

impl GemmBf16F32 {
    /// Why the kernel cannot run, if it cannot.
    pub open spec fn fault(self) -> Option<KernelError> {
        KernelError::unless(
            self.m > 0 && self.n > 0 && self.k > 0 && self.a_len >= self.m * self.k
                && self.b_len >= self.n * self.k && self.c_len >= self.m * self.n,
            "gemm_bf16_f32 buffers do not fit",
        )
    }

    /// The launch of a call without a fault.
    pub open spec fn launch(self) -> GemmBf16F32Launch {
        GemmBf16F32Launch {
            transpose_a: if self.transpose_a { 1 } else { 0 },
            transpose_b: if self.transpose_b { 1 } else { 0 },
            m: self.m as i32,
            n: self.n as i32,
            k: self.k as i32,
            lda: self.lda as i32,
            ldb: self.ldb as i32,
            ldc: self.ldc as i32,
        }
    }
}

/// GEMM of bf16 operands into an f32 result.
pub fn gemm_bf16_f32(c: &GemmBf16F32) -> (r: Result<GemmBf16F32Launch, KernelError>)
    ensures
        r == KernelError::outcome(c.fault(), c.launch()),
{
    ensure_that(
        c.m > 0 && c.n > 0 && c.k > 0 && holds_product(c.a_len, c.m, c.k)
            && holds_product(c.b_len, c.n, c.k) && holds_product(c.c_len, c.m, c.n),
        "gemm_bf16_f32 buffers do not fit",
    )?;
    Ok(GemmBf16F32Launch {
        transpose_a: if c.transpose_a { 1 } else { 0 },
        transpose_b: if c.transpose_b { 1 } else { 0 },
        m: c.m as i32,
        n: c.n as i32,
        k: c.k as i32,
        lda: c.lda as i32,
        ldb: c.ldb as i32,
        ldc: c.ldc as i32,
    })
}

/// GEMMs of at most this many columns consult the tuned plan cache.
pub const GEMM_LT_MAX_N: usize = 32;

/// Status of a shape that was never tuned.
pub const GEMM_LT_UNTUNED: i32 = -1;

/// Status of a shape that was never pinned.
pub const GEMM_LT_PIN_UNTUNED: i32 = -1;

/// Status of a column count that the pinned algorithm cannot serve.
pub const GEMM_LT_PIN_UNSUPPORTED: i32 = -2;

/// Status of a pinned algorithm whose reduction is not known to be ordered.
pub const GEMM_LT_PIN_NONDET: i32 = -3;

/// Statuses from here on carry a cuBLAS status.
pub const CUBLAS_STATUS_BASE: i32 = 100_000;

/// The column count at which every pin is resolved: one algorithm for all
/// column counts, independent of the order of calls.
pub const PIN_REP_N: usize = 32;

/// The error of a non-zero status: a cuBLAS status above the base, a CUDA
/// status otherwise.
pub open spec fn gemm_status_error(cublas: &'static str, cuda: &'static str, status: i32) -> KernelError {
    if status >= CUBLAS_STATUS_BASE {
        KernelError::Status { what: cublas, code: (status - CUBLAS_STATUS_BASE) as i32 }
    } else {
        KernelError::Status { what: cuda, code: status }
    }
}

fn gemm_status(cublas: &'static str, cuda: &'static str, status: i32) -> (r: KernelError)
    ensures
        r == gemm_status_error(cublas, cuda, status),
{
    if status >= CUBLAS_STATUS_BASE {
        KernelError::Status { what: cublas, code: status - CUBLAS_STATUS_BASE }
    } else {
        KernelError::Status { what: cuda, code: status }
    }
}

/// What a tuning run times: the byte offset of each weight sample and the
/// shape of the GEMM.
#[derive(Clone, Debug)]
pub struct GemmTune {
    pub sample_bytes: Vec<u64>,
    pub samples: i32,
    pub m: i32,
    pub n: i32,
    pub k: i32,
}

/// A weight and the first row of the slice that is timed.
#[derive(Clone, Copy, Debug)]
pub struct TuneSample {
    pub weight: DeviceMatrix,
    pub row_offset: usize,
}

/// Time the algorithms of a `(num_rows, n, cols)` GEMM over several equally
/// shaped weight slices, so that the weights stream from memory as they do in
/// decode.
pub fn gemm_lt_tune(samples: &[TuneSample], num_rows: usize, n: usize) -> (r: Result<
    GemmTune,
    KernelError,
>)
    requires
        forall|i: int|
            0 <= i < samples@.len() ==> {
                &&& (#[trigger] samples@[i]).weight.cols == samples@[0].weight.cols
                &&& samples@[i].row_offset + num_rows <= samples@[i].weight.rows
                &&& samples@[i].row_offset * samples@[0].weight.cols * 2 <= usize::MAX
            },
    ensures
        match r {
            Ok(t) => {
                &&& samples@.len() > 0
                &&& t.sample_bytes@.len() == samples@.len()
                &&& forall|i: int|
                    0 <= i < samples@.len() ==> #[trigger] t.sample_bytes@[i]
                        == samples@[i].row_offset * samples@[0].weight.cols * 2
                &&& t.samples == samples@.len() as i32
                &&& t.m == num_rows as i32
                &&& t.n == n as i32
                &&& t.k == samples@[0].weight.cols as i32
            },
            Err(e) => {
                &&& samples@.len() == 0
                &&& e == (KernelError::Invalid {
                    what: "gemm_lt_tune requires at least one weight sample",
                })
            },
        },
{
    ensure_that(samples.len() > 0, "gemm_lt_tune requires at least one weight sample")?;
    let cols: usize = samples[0].weight.cols;
    let mut sample_bytes: Vec<u64> = Vec::new();
    let mut i: usize = 0;
    while i < samples.len()
        invariant
            i <= samples@.len(),
            samples@.len() > 0,
            cols == samples@[0].weight.cols,
            forall|k: int|
                0 <= k < samples@.len() ==> {
                    &&& (#[trigger] samples@[k]).weight.cols == samples@[0].weight.cols
                    &&& samples@[k].row_offset + num_rows <= samples@[k].weight.rows
                    &&& samples@[k].row_offset * samples@[0].weight.cols * 2 <= usize::MAX
                },
            sample_bytes@.len() == i,
            forall|k: int|
                0 <= k < i ==> #[trigger] sample_bytes@[k] == samples@[k].row_offset
                    * samples@[0].weight.cols * 2,
        decreases samples@.len() - i,
    {
        let row_offset: usize = samples[i].row_offset;
        proof {
            assert(row_offset * cols >= 0) by (nonlinear_arith);
        }
        sample_bytes.push((row_offset * cols * 2) as u64);
        i += 1;
    }
    Ok(
        GemmTune {
            sample_bytes,
            samples: samples.len() as i32,
            m: num_rows as i32,
            n: n as i32,
            k: cols as i32,
        },
    )
}

/// The algorithm that a shape is pinned to.
#[derive(Clone, Copy, Debug, PartialEq, Eq)]
pub struct PinAlgoConfig {
    pub splitk: i32,
    pub reduction_scheme: i32,
}

impl PinAlgoConfig {
    /// The name of the reduction scheme.
    pub open spec fn scheme_name(self) -> &'static str {
        if self.reduction_scheme == 0 {
            "none"
        } else if self.reduction_scheme == 1 {
            "inplace"
        } else if self.reduction_scheme == 2 {
            "compute_type"
        } else if self.reduction_scheme == 4 {
            "output_type"
        } else {
            "unknown"
        }
    }

    /// The name of the reduction scheme.
    pub fn reduction_scheme_name(self) -> (r: &'static str)
        ensures
            r == self.scheme_name(),
    {
        match self.reduction_scheme {
            0 => "none",
            1 => "inplace",
            2 => "compute_type",
            4 => "output_type",
            _ => "unknown",
        }
    }
}

/// What a pin is resolved with.
#[derive(Clone, Copy, Debug, PartialEq, Eq)]
pub struct PinTuneQuery {
    pub m: i32,
    pub rep_n: i32,
    pub k: i32,
}

/// Pin one algorithm for `(num_rows, cols)`, selected at `rep_n` by shape
/// alone and reused for every column count.
pub fn gemm_lt_pin_tune(num_rows: usize, rep_n: usize, cols: usize) -> (r: PinTuneQuery)
    ensures
        r == (PinTuneQuery { m: num_rows as i32, rep_n: rep_n as i32, k: cols as i32 }),
{
    PinTuneQuery { m: num_rows as i32, rep_n: rep_n as i32, k: cols as i32 }
}

/// Pin `(num_rows, cols)` at the one representative column count.
pub fn gemm_lt_pin_warmup(num_rows: usize, cols: usize) -> (r: PinTuneQuery)
    ensures
        r == (PinTuneQuery { m: num_rows as i32, rep_n: 32, k: cols as i32 }),
{
    gemm_lt_pin_tune(num_rows, PIN_REP_N, cols)
}

/// What the pin resolution answered: the configuration, or why there is none.
pub fn gemm_lt_pin_tuned(status: i32, splitk: i32, reduction_scheme: i32) -> (r: Result<
    PinAlgoConfig,
    KernelError,
>)
    ensures
        r == (if status == 0 {
            Ok(PinAlgoConfig { splitk, reduction_scheme })
        } else if status == GEMM_LT_PIN_NONDET {
            Err(
                KernelError::UnmetSigned {
                    what: "cublasLt pin tuning selected an unknown reduction scheme",
                    number: reduction_scheme,
                },
            )
        } else {
            Err(KernelError::Status { what: "cublasLt pin tuning", code: status })
        }),
{
    if status == 0 {
        Ok(PinAlgoConfig { splitk, reduction_scheme })
    } else if status == GEMM_LT_PIN_NONDET {
        Err(
            KernelError::UnmetSigned {
                what: "cublasLt pin tuning selected an unknown reduction scheme",
                number: reduction_scheme,
            },
        )
    } else {
        Err(KernelError::Status { what: "cublasLt pin tuning", code: status })
    }
}

/// What the host-side check of a pin is asked with: the rows, the column count
/// and the columns of the weight.
pub fn gemm_lt_pin_check_query(rows: usize, n: usize, cols: usize) -> (r: (i32, i32, i32))
    ensures
        r == (rows as i32, n as i32, cols as i32),
{
    (rows as i32, n as i32, cols as i32)
}

/// Whether the pinned algorithm serves a column count, from the status of the
/// host-side check that [`gemm_lt_pin_check_query`] asks. A shape that was never
/// pinned is an error.
pub fn gemm_lt_pin_check(status: i32) -> (r: Result<bool, KernelError>)
    ensures
        r == (if status == 0 {
            Ok(true)
        } else if status == GEMM_LT_PIN_UNSUPPORTED {
            Ok(false)
        } else if status == GEMM_LT_PIN_UNTUNED {
            Err(KernelError::Invalid { what: "gemm_lt_pin_check: the shape was never pinned" })
        } else {
            Err(
                KernelError::Status {
                    what: "gemm_lt_pin_check: cublas layout",
                    code: status,
                },
            )
        }),
{
    if status == 0 {
        Ok(true)
    } else if status == GEMM_LT_PIN_UNSUPPORTED {
        Ok(false)
    } else if status == GEMM_LT_PIN_UNTUNED {
        Err(KernelError::Invalid { what: "gemm_lt_pin_check: the shape was never pinned" })
    } else {
        Err(KernelError::Status { what: "gemm_lt_pin_check: cublas layout", code: status })
    }
}

/// Whether the pinned algorithm served a GEMM, from the status of the launch.
/// A shape that was never pinned is an error.
pub fn gemm_lt_pin_served(status: i32) -> (r: Result<bool, KernelError>)
    ensures
        r == (if status == 0 {
            Ok(true)
        } else if status == GEMM_LT_PIN_UNSUPPORTED {
            Ok(false)
        } else if status == GEMM_LT_PIN_UNTUNED {
            Err(
                KernelError::Invalid {
                    what: "gemm_lt_pin_into_checked: the shape was never pinned",
                },
            )
        } else {
            Err(
                gemm_status_error(
                    "cublasLt pin GEMM (cuBLAS)",
                    "cublasLt pin GEMM launch (CUDA)",
                    status,
                ),
            )
        }),
{
    if status == 0 {
        Ok(true)
    } else if status == GEMM_LT_PIN_UNSUPPORTED {
        Ok(false)
    } else if status == GEMM_LT_PIN_UNTUNED {
        Err(KernelError::Invalid { what: "gemm_lt_pin_into_checked: the shape was never pinned" })
    } else {
        Err(gemm_status("cublasLt pin GEMM (cuBLAS)", "cublasLt pin GEMM launch (CUDA)", status))
    }
}

/// A projection GEMM: the offsets of the weight and the tokens in their
/// buffers, and the shape.
#[derive(Clone, Copy, Debug, PartialEq, Eq)]
pub struct GemmLaunch {
    pub w_bytes: u64,
    pub x_bytes: u64,
    pub m: usize,
    pub n: usize,
    pub k: usize,
    /// Whether the caller asks for the handle without a workspace.
    pub graphsafe: bool,
}

/// `weight` applies to the tokens of `x`, and `out` holds the results.
pub open spec fn projects(weight: DeviceMatrix, x: HiddenStates, out: HiddenStates) -> bool {
    &&& weight.cols == x.hidden_dim
    &&& out.hidden_dim == weight.rows
    &&& out.seq_len == x.seq_len
}

/// GEMM over a row range of the weight:
/// `Y = W[row_offset..row_offset + num_rows] X`.
pub fn gemm_rows_into_checked(
    weight: &DeviceMatrix,
    row_offset: usize,
    num_rows: usize,
    x: &HiddenStates,
    out: &HiddenStates,
) -> (r: GemmLaunch)
    requires
        row_offset + num_rows <= weight.rows,
        weight.cols == x.hidden_dim,
        out.hidden_dim == num_rows,
        out.seq_len == x.seq_len,
        row_offset * weight.cols * 2 <= usize::MAX,
    ensures
        r == (GemmLaunch {
            w_bytes: (row_offset * weight.cols * 2) as u64,
            x_bytes: 0,
            m: num_rows,
            n: x.seq_len,
            k: weight.cols,
            graphsafe: x.seq_len == 1,
        }),
{
    proof {
        assert(row_offset * weight.cols >= 0) by (nonlinear_arith);
    }
    GemmLaunch {
        w_bytes: (row_offset * weight.cols * 2) as u64,
        x_bytes: 0,
        m: num_rows,
        n: x.seq_len,
        k: weight.cols,
        graphsafe: x.seq_len == 1,
    }
}

/// [`gemm_rows_into_checked`] for callers to whom a failed launch is fatal.
pub fn gemm_rows_into(
    weight: &DeviceMatrix,
    row_offset: usize,
    num_rows: usize,
    x: &HiddenStates,
    out: &HiddenStates,
) -> (r: GemmLaunch)
    requires
        row_offset + num_rows <= weight.rows,
        weight.cols == x.hidden_dim,
        out.hidden_dim == num_rows,
        out.seq_len == x.seq_len,
        row_offset * weight.cols * 2 <= usize::MAX,
    ensures
        r == (GemmLaunch {
            w_bytes: (row_offset * weight.cols * 2) as u64,
            x_bytes: 0,
            m: num_rows,
            n: x.seq_len,
            k: weight.cols,
            graphsafe: x.seq_len == 1,
        }),
{
    gemm_rows_into_checked(weight, row_offset, num_rows, x, out)
}

/// GEMM over a row range of the weight and a token span of `x`:
/// `Y = W[row_offset..row_offset + num_rows] X[x_row0..x_row0 + out.seq_len]`.
pub fn gemm_rows_span_into_checked(
    weight: &DeviceMatrix,
    row_offset: usize,
    num_rows: usize,
    x: &HiddenStates,
    x_row0: usize,
    out: &HiddenStates,
) -> (r: GemmLaunch)
    requires
        row_offset + num_rows <= weight.rows,
        weight.cols == x.hidden_dim,
        out.hidden_dim == num_rows,
        x_row0 + out.seq_len <= x.seq_len,
        row_offset * weight.cols * 2 <= usize::MAX,
        x_row0 * x.hidden_dim * 2 <= usize::MAX,
    ensures
        r == (GemmLaunch {
            w_bytes: (row_offset * weight.cols * 2) as u64,
            x_bytes: (x_row0 * x.hidden_dim * 2) as u64,
            m: num_rows,
            n: out.seq_len,
            k: weight.cols,
            graphsafe: out.seq_len == 1,
        }),
{
    proof {
        assert(row_offset * weight.cols >= 0) by (nonlinear_arith);
        assert(x_row0 * x.hidden_dim >= 0) by (nonlinear_arith);
    }
    GemmLaunch {
        w_bytes: (row_offset * weight.cols * 2) as u64,
        x_bytes: (x_row0 * x.hidden_dim * 2) as u64,
        m: num_rows,
        n: out.seq_len,
        k: weight.cols,
        graphsafe: out.seq_len == 1,
    }
}

/// Matrix-vector product `y = A x`, a GEMM of one column.
pub fn gemv(a: &DeviceMatrix, x: &DeviceVec, y: &DeviceVec) -> (r: GemmLaunch)
    requires
        a.cols == x.len,
        a.rows == y.len,
    ensures
        r == (GemmLaunch {
            w_bytes: 0,
            x_bytes: 0,
            m: a.rows,
            n: 1,
            k: a.cols,
            graphsafe: true,
        }),
{
    GemmLaunch { w_bytes: 0, x_bytes: 0, m: a.rows, n: 1, k: a.cols, graphsafe: true }
}

/// Linear layer into a fresh vector: its shape and the launch.
pub fn linear(x: &DeviceVec, weight: &DeviceMatrix) -> (r: (DeviceVec, GemmLaunch))
    requires
        weight.cols == x.len,
    ensures
        r.0 == (DeviceVec { data_len: weight.rows, len: weight.rows }),
        r.1 == (GemmLaunch {
            w_bytes: 0,
            x_bytes: 0,
            m: weight.rows,
            n: 1,
            k: weight.cols,
            graphsafe: true,
        }),
{
    let y: DeviceVec = DeviceVec::zeros(weight.rows);
    (y, gemv(weight, x, &y))
}

/// Batched projection into a fresh buffer: its shape and the launch.
pub fn gemm(weight: &DeviceMatrix, x: &HiddenStates) -> (r: (HiddenStates, GemmLaunch))
    requires
        weight.cols == x.hidden_dim,
        weight.rows * x.seq_len <= usize::MAX,
    ensures
        r.0 == (HiddenStates {
            data_len: (weight.rows * x.seq_len) as usize,
            hidden_dim: weight.rows,
            seq_len: x.seq_len,
        }),
        r.1 == gemm_launch(*weight, *x, x.seq_len == 1),
{
    let out: HiddenStates = HiddenStates::zeros(weight.rows, x.seq_len);
    (out, gemm_into_checked(weight, x, &out))
}

/// Projection token by token into a fresh buffer: its shape and the launch.
pub fn gemm_per_token(weight: &DeviceMatrix, x: &HiddenStates) -> (r: (HiddenStates, GemmLaunch))
    requires
        weight.cols == x.hidden_dim,
        weight.rows * x.seq_len <= usize::MAX,
    ensures
        r.0 == (HiddenStates {
            data_len: (weight.rows * x.seq_len) as usize,
            hidden_dim: weight.rows,
            seq_len: x.seq_len,
        }),
        r.1 == gemm_launch(*weight, *x, true),
{
    let out: HiddenStates = HiddenStates::zeros(weight.rows, x.seq_len);
    (out, gemm_ref_into_with_policy(weight, x, &out, true))
}

/// Projection on the pinned algorithm; [`gemm_lt_pin_served`] reads the
/// status of the launch.
pub fn gemm_lt_pin_into_checked(
    weight: &DeviceMatrix,
    x: &HiddenStates,
    out: &HiddenStates,
) -> (r: GemmLaunch)
    requires
        projects(*weight, *x, *out),
    ensures
        r == gemm_launch(*weight, *x, true),
{
    gemm_ref_into_with_policy(weight, x, out, true)
}

/// The result of a per-token projection, from the status of its launch.
pub fn gemm_per_token_status(status: i32) -> (r: Result<(), KernelError>)
    ensures
        r == (if status == 0 {
            Ok(())
        } else {
            Err(
                gemm_status_error(
                    "per-token GEMM (cuBLAS)",
                    "per-token GEMM launch (CUDA)",
                    status,
                ),
            )
        }),
{
    if status == 0 {
        Ok(())
    } else {
        Err(gemm_status("per-token GEMM (cuBLAS)", "per-token GEMM launch (CUDA)", status))
    }
}

/// The launch of a whole projection.
pub open spec fn gemm_launch(weight: DeviceMatrix, x: HiddenStates, graphsafe: bool) -> GemmLaunch {
    GemmLaunch {
        w_bytes: 0,
        x_bytes: 0,
        m: weight.rows,
        n: x.seq_len,
        k: weight.cols,
        graphsafe,
    }
}

/// Projection with the default policy: the handle without a workspace for a
/// single token, the workspace-backed one otherwise.
pub fn gemm_into_checked(weight: &DeviceMatrix, x: &HiddenStates, out: &HiddenStates) -> (r:
    GemmLaunch)
    requires
        projects(*weight, *x, *out),
    ensures
        r == gemm_launch(*weight, *x, x.seq_len == 1),
{
    gemm_ref_into_with_policy(weight, x, out, x.seq_len == 1)
}

/// [`gemm_into_checked`] for callers to whom a failed launch is fatal.
pub fn gemm_into(weight: &DeviceMatrix, x: &HiddenStates, out: &HiddenStates) -> (r: GemmLaunch)
    requires
        projects(*weight, *x, *out),
    ensures
        r == gemm_launch(*weight, *x, x.seq_len == 1),
{
    gemm_into_checked(weight, x, out)
}

/// Projection of a contiguous token range into a compact output.
pub fn gemm_token_range_into_checked(
    weight: &DeviceMatrix,
    x: &HiddenStates,
    token_offset: usize,
    out: &HiddenStates,
) -> (r: GemmLaunch)
    requires
        weight.cols == x.hidden_dim,
        out.hidden_dim == weight.rows,
        token_offset + out.seq_len <= x.seq_len,
        token_offset * x.hidden_dim * 2 <= usize::MAX,
    ensures
        r == (GemmLaunch {
            w_bytes: 0,
            x_bytes: (token_offset * x.hidden_dim * 2) as u64,
            m: weight.rows,
            n: out.seq_len,
            k: weight.cols,
            graphsafe: out.seq_len == 1,
        }),
{
    proof {
        assert(token_offset * x.hidden_dim >= 0) by (nonlinear_arith);
    }
    GemmLaunch {
        w_bytes: 0,
        x_bytes: (token_offset * x.hidden_dim * 2) as u64,
        m: weight.rows,
        n: out.seq_len,
        k: weight.cols,
        graphsafe: out.seq_len == 1,
    }
}

/// Projection that always asks for the handle without a workspace.
pub fn gemm_graphsafe_into_checked(
    weight: &DeviceMatrix,
    x: &HiddenStates,
    out: &HiddenStates,
) -> (r: GemmLaunch)
    requires
        projects(*weight, *x, *out),
    ensures
        r == gemm_launch(*weight, *x, true),
{
    gemm_ref_into_with_policy(weight, x, out, true)
}

/// [`gemm_graphsafe_into_checked`] on a batch that is not owned.
pub fn gemm_graphsafe_ref_into_checked(
    weight: &DeviceMatrix,
    x: &HiddenStates,
    out: &HiddenStates,
) -> (r: GemmLaunch)
    requires
        projects(*weight, *x, *out),
    ensures
        r == gemm_launch(*weight, *x, true),
{
    gemm_ref_into_with_policy(weight, x, out, true)
}

fn gemm_ref_into_with_policy(
    weight: &DeviceMatrix,
    x: &HiddenStates,
    out: &HiddenStates,
    graphsafe: bool,
) -> (r: GemmLaunch)
    requires
        projects(*weight, *x, *out),
    ensures
        r == gemm_launch(*weight, *x, graphsafe),
{
    GemmLaunch {
        w_bytes: 0,
        x_bytes: 0,
        m: weight.rows,
        n: x.seq_len,
        k: weight.cols,
        graphsafe,
    }
}

// ---------------------------------------------------------------------------
// Numeric policy
// ---------------------------------------------------------------------------

/// How projection GEMMs are computed: `Tuned` is the production path, `Pin`
/// one algorithm per shape whatever the batch, `PerToken` one column at a
/// time.
#[derive(Clone, Copy, PartialEq, Eq, Debug, Structural)]
pub enum NumericPolicy {
    Tuned,
    Pin,
    PerToken,
}

impl NumericPolicy {
    /// The code under which the policy is stored.
    pub open spec fn spec_code(self) -> u8 {
        match self {
            NumericPolicy::Tuned => 0,
            NumericPolicy::Pin => 1,
            NumericPolicy::PerToken => 2,
        }
    }

    /// The policy of a stored code.
    pub open spec fn of_code(code: u8) -> NumericPolicy {
        if code == 1 {
            NumericPolicy::Pin
        } else if code == 2 {
            NumericPolicy::PerToken
        } else {
            NumericPolicy::Tuned
        }
    }

    /// The code under which the policy is stored.
    pub fn code(self) -> (r: u8)
        ensures
            r == self.spec_code(),
    {
        match self {
            NumericPolicy::Tuned => 0,
            NumericPolicy::Pin => 1,
            NumericPolicy::PerToken => 2,
        }
    }
}

/// The process-wide policy and the counts of the GEMMs served under it.
#[derive(Clone, Copy, Debug, PartialEq, Eq)]
pub struct NumericPolicyState {
    pub policy_code: u8,
    pub pin_served: u64,
    pub per_token_served: u64,
}

impl NumericPolicyState {
    /// The state of a fresh process.
    pub fn initial() -> (r: Self)
        ensures
            r == (NumericPolicyState { policy_code: 0, pin_served: 0, per_token_served: 0 }),
    {
        NumericPolicyState { policy_code: 0, pin_served: 0, per_token_served: 0 }
    }

    /// The policy in force.
    pub open spec fn policy(self) -> NumericPolicy {
        NumericPolicy::of_code(self.policy_code)
    }
}

/// Set the policy; the counts stay.
pub fn set_numeric_policy(state: &mut NumericPolicyState, p: NumericPolicy)
    ensures
        *final(state) == (NumericPolicyState { policy_code: p.spec_code(), ..*old(state) }),
        final(state).policy() == p,
{
    state.policy_code = p.code();
}

/// The policy in force. An unknown code is the production policy.
pub fn numeric_policy(state: &NumericPolicyState) -> (r: NumericPolicy)
    ensures
        r == state.policy(),
{
    match state.policy_code {
        1 => NumericPolicy::Pin,
        2 => NumericPolicy::PerToken,
        _ => NumericPolicy::Tuned,
    }
}

/// The fault of a policy other than the production one.
pub open spec fn tuned_fault(state: NumericPolicyState) -> Option<KernelError> {
    KernelError::unless(
        state.policy() == NumericPolicy::Tuned,
        "typed GEMM is not covered by the batch-invariant pin",
    )
}

/// Refuse a GEMM that the other policies do not cover.
pub fn ensure_tuned_policy(state: &NumericPolicyState) -> (r: Result<(), KernelError>)
    ensures
        r == KernelError::outcome(tuned_fault(*state), ()),
{
    ensure_that(
        numeric_policy(state) == NumericPolicy::Tuned,
        "typed GEMM is not covered by the batch-invariant pin",
    )
}

/// GEMMs served by a pinned algorithm.
pub fn pin_served(state: &NumericPolicyState) -> (r: u64)
    ensures
        r == state.pin_served,
{
    state.pin_served
}

/// GEMMs served token by token.
pub fn per_token_served(state: &NumericPolicyState) -> (r: u64)
    ensures
        r == state.per_token_served,
{
    state.per_token_served
}

/// Reset both counts; the policy stays.
pub fn reset_numeric_policy_counters(state: &mut NumericPolicyState)
    ensures
        *final(state) == (NumericPolicyState {
            pin_served: 0,
            per_token_served: 0,
            ..*old(state)
        }),
{
    state.pin_served = 0;
    state.per_token_served = 0;
}

// ---------------------------------------------------------------------------
// The choice of the kernel
// ---------------------------------------------------------------------------

/// The kernels that a projection may run on.
#[derive(Clone, Copy, Debug, PartialEq, Eq, Structural)]
pub enum GemmPath {
    /// The algorithm tuned for the shape.
    Lt,
    /// The handle without a workspace.
    GraphSafe,
    /// The workspace-backed handle.
    Workspace,
    /// The pinned algorithm.
    Pin,
    /// One column at a time.
    PerToken,
}

/// What a projection does next.
#[derive(Clone, Copy, Debug, PartialEq, Eq)]
pub enum GemmStep {
    /// Launch on this path and hand the status to [`gemm_launched`].
    Launch(GemmPath),
    /// The projection is served.
    Served,
    /// The projection fails.
    Failed(KernelError),
}

/// The path of a projection that no tuned algorithm serves. Prefill that
/// shares the device keeps its own handle even for one token.
pub open spec fn plain_path(overrides: StreamOverride, graphsafe: bool) -> GemmPath {
    if graphsafe && !overrides.prefill {
        GemmPath::GraphSafe
    } else {
        GemmPath::Workspace
    }
}

fn plain_gemm_path(overrides: &StreamOverride, graphsafe: bool) -> (r: GemmPath)
    ensures
        r == plain_path(*overrides, graphsafe),
{
    if graphsafe && !has_prefill_stream_override(overrides) {
        GemmPath::GraphSafe
    } else {
        GemmPath::Workspace
    }
}

/// The first step of a projection of `n` columns.
pub open spec fn first_gemm_step(
    state: NumericPolicyState,
    overrides: StreamOverride,
    n: usize,
    graphsafe: bool,
) -> GemmStep {
    match state.policy() {
        NumericPolicy::Pin => if overrides.stream is Some {
            GemmStep::Failed(
                KernelError::Invalid {
                    what: "batch-invariant Pin GEMM cannot run under a stream override",
                },
            )
        } else {
            GemmStep::Launch(GemmPath::Pin)
        },
        NumericPolicy::PerToken => GemmStep::Launch(GemmPath::PerToken),
        NumericPolicy::Tuned => if n <= GEMM_LT_MAX_N && overrides.stream is None {
            GemmStep::Launch(GemmPath::Lt)
        } else {
            GemmStep::Launch(plain_path(overrides, graphsafe))
        },
    }
}

/// Start a projection of `n` columns. The other policies route every column
/// count; the production policy tries the tuned algorithm for few columns,
/// unless a stream override is active.
pub fn launch_gemm(
    state: &NumericPolicyState,
    overrides: &StreamOverride,
    n: usize,
    graphsafe: bool,
) -> (r: GemmStep)
    ensures
        r == first_gemm_step(*state, *overrides, n, graphsafe),
{
    match numeric_policy(state) {
        NumericPolicy::Pin => if has_stream_override(overrides) {
            GemmStep::Failed(
                KernelError::Invalid {
                    what: "batch-invariant Pin GEMM cannot run under a stream override",
                },
            )
        } else {
            GemmStep::Launch(GemmPath::Pin)
        },
        NumericPolicy::PerToken => GemmStep::Launch(GemmPath::PerToken),
        NumericPolicy::Tuned => if n <= GEMM_LT_MAX_N && !has_stream_override(overrides) {
            GemmStep::Launch(GemmPath::Lt)
        } else {
            GemmStep::Launch(plain_gemm_path(overrides, graphsafe))
        },
    }
}

/// The step after a launch on `path` returned `status`.
pub open spec fn next_gemm_step(
    overrides: StreamOverride,
    graphsafe: bool,
    path: GemmPath,
    status: i32,
) -> GemmStep {
    if status == 0 {
        GemmStep::Served
    } else {
        match path {
            GemmPath::Lt => if status == GEMM_LT_UNTUNED {
                GemmStep::Launch(plain_path(overrides, graphsafe))
            } else {
                GemmStep::Failed(gemm_status_error("GEMM (cuBLAS)", "GEMM launch (CUDA)", status))
            },
            GemmPath::GraphSafe | GemmPath::Workspace => GemmStep::Failed(
                gemm_status_error("GEMM (cuBLAS)", "GEMM launch (CUDA)", status),
            ),
            GemmPath::Pin => if status == GEMM_LT_PIN_UNSUPPORTED || status
                == GEMM_LT_PIN_UNTUNED {
                GemmStep::Failed(
                    KernelError::Status {
                        what: "batch-invariant Pin GEMM cannot serve this shape",
                        code: status,
                    },
                )
            } else {
                GemmStep::Failed(
                    gemm_status_error("pin GEMM (cuBLAS)", "pin GEMM launch (CUDA)", status),
                )
            },
            GemmPath::PerToken => GemmStep::Failed(
                gemm_status_error(
                    "per-token GEMM (cuBLAS)",
                    "per-token GEMM launch (CUDA)",
                    status,
                ),
            ),
        }
    }
}

/// The counts after a launch on `path` returned `status`: a pinned or
/// per-token GEMM counts once it is served. The counts wrap.
pub open spec fn counted(state: NumericPolicyState, path: GemmPath, status: i32) -> NumericPolicyState {
    if status == 0 && path == GemmPath::Pin {
        NumericPolicyState { pin_served: wrapping_successor(state.pin_served), ..state }
    } else if status == 0 && path == GemmPath::PerToken {
        NumericPolicyState { per_token_served: wrapping_successor(state.per_token_served), ..state }
    } else {
        state
    }
}

/// `n + 1`, or zero past the last value.
pub open spec fn wrapping_successor(n: u64) -> u64 {
    if n == u64::MAX {
        0
    } else {
        (n + 1) as u64
    }
}

fn successor(n: u64) -> (r: u64)
    ensures
        r == wrapping_successor(n),
{
    if n == u64::MAX {
        0
    } else {
        n + 1
    }
}

/// Go on after a launch on `path` returned `status`. A shape that was never
/// tuned falls back to the plain path; nothing else falls back.
pub fn gemm_launched(
    state: &mut NumericPolicyState,
    overrides: &StreamOverride,
    graphsafe: bool,
    path: GemmPath,
    status: i32,
) -> (r: GemmStep)
    ensures
        r == next_gemm_step(*overrides, graphsafe, path, status),
        *final(state) == counted(*old(state), path, status),
{
    if status == 0 {
        if path == GemmPath::Pin {
            state.pin_served = successor(state.pin_served);
        } else if path == GemmPath::PerToken {
            state.per_token_served = successor(state.per_token_served);
        }
        return GemmStep::Served;
    }
    match path {
        GemmPath::Lt => if status == GEMM_LT_UNTUNED {
            GemmStep::Launch(plain_gemm_path(overrides, graphsafe))
        } else {
            GemmStep::Failed(gemm_status("GEMM (cuBLAS)", "GEMM launch (CUDA)", status))
        },
        GemmPath::GraphSafe | GemmPath::Workspace => GemmStep::Failed(
            gemm_status("GEMM (cuBLAS)", "GEMM launch (CUDA)", status),
        ),
        GemmPath::Pin => if status == GEMM_LT_PIN_UNSUPPORTED || status == GEMM_LT_PIN_UNTUNED {
            GemmStep::Failed(
                KernelError::Status {
                    what: "batch-invariant Pin GEMM cannot serve this shape",
                    code: status,
                },
            )
        } else {
            GemmStep::Failed(gemm_status("pin GEMM (cuBLAS)", "pin GEMM launch (CUDA)", status))
        },
        GemmPath::PerToken => GemmStep::Failed(
            gemm_status("per-token GEMM (cuBLAS)", "per-token GEMM launch (CUDA)", status),
        ),
    }
}

/// The policy that was set is the one in force, and setting it loses no count.
pub proof fn law_policy_round_trip(state: NumericPolicyState, p: NumericPolicy)
    ensures
        (NumericPolicyState { policy_code: p.spec_code(), ..state }).policy() == p,
        (NumericPolicyState { policy_code: p.spec_code(), ..state }).pin_served
            == state.pin_served,
        (NumericPolicyState { policy_code: p.spec_code(), ..state }).per_token_served
            == state.per_token_served,
{
}

/// Under the pinned policy no projection runs on another path, whatever the
/// statuses: it is served by the pin and counted, or it fails.
pub proof fn law_pin_has_no_fallback(
    state: NumericPolicyState,
    overrides: StreamOverride,
    n: usize,
    graphsafe: bool,
    status: i32,
)
    requires
        state.policy() == NumericPolicy::Pin,
    ensures
        match first_gemm_step(state, overrides, n, graphsafe) {
            GemmStep::Launch(path) => {
                &&& path == GemmPath::Pin
                &&& match next_gemm_step(overrides, graphsafe, path, status) {
                    GemmStep::Served => counted(state, path, status).pin_served
                        == wrapping_successor(state.pin_served),
                    GemmStep::Failed(_) => counted(state, path, status) == state,
                    GemmStep::Launch(_) => false,
                }
            },
            GemmStep::Served => false,
            GemmStep::Failed(_) => overrides.stream is Some,
        },
{
}

/// Under the per-token policy every projection runs token by token and is
/// counted once it is served.
pub proof fn law_per_token_has_no_fallback(
    state: NumericPolicyState,
    overrides: StreamOverride,
    n: usize,
    graphsafe: bool,
    status: i32,
)
    requires
        state.policy() == NumericPolicy::PerToken,
    ensures
        first_gemm_step(state, overrides, n, graphsafe) == GemmStep::Launch(GemmPath::PerToken),
        match next_gemm_step(overrides, graphsafe, GemmPath::PerToken, status) {
            GemmStep::Served => counted(state, GemmPath::PerToken, status).per_token_served
                == wrapping_successor(state.per_token_served),
            GemmStep::Failed(_) => counted(state, GemmPath::PerToken, status) == state,
            GemmStep::Launch(_) => false,
        },
{
}

/// Under the production policy a projection takes at most two launches, and
/// neither count moves. The second launch is on the plain path, and only a
/// shape that was never tuned gets there. No projection uses the handle
/// without a workspace while prefill owns the stream, and none uses the tuned
/// algorithm under an override.
pub proof fn law_tuned_path(
    state: NumericPolicyState,
    overrides: StreamOverride,
    n: usize,
    graphsafe: bool,
    first_status: i32,
    second_status: i32,
)
    requires
        state.policy() == NumericPolicy::Tuned,
    ensures
        match first_gemm_step(state, overrides, n, graphsafe) {
            GemmStep::Launch(first) => {
                &&& counted(state, first, first_status) == state
                &&& first == GemmPath::Lt ==> overrides.stream is None && n <= GEMM_LT_MAX_N
                &&& first == GemmPath::GraphSafe ==> !overrides.prefill
                &&& match next_gemm_step(overrides, graphsafe, first, first_status) {
                    GemmStep::Launch(second) => {
                        &&& first == GemmPath::Lt
                        &&& first_status == GEMM_LT_UNTUNED
                        &&& second == plain_path(overrides, graphsafe)
                        &&& second == GemmPath::GraphSafe ==> !overrides.prefill
                        &&& counted(state, second, second_status) == state
                        &&& !(next_gemm_step(overrides, graphsafe, second, second_status)
                            is Launch)
                    },
                    GemmStep::Served => first_status == 0,
                    GemmStep::Failed(_) => first_status != 0,
                }
            },
            _ => false,
        },
{
}

/// A strided-batched bf16 product is accepted exactly when its own operands
/// hold what it reads and writes.
pub proof fn law_strided_gemm_bf16_is_accepted_when_it_fits(c: StridedGemmBf16)
    ensures
        c.fault() is None <==> {
            &&& c.m > 0
            &&& c.n > 0
            &&& c.k > 0
            &&& c.batch > 0
            &&& c.a_len >= c.stride_a * c.batch
            &&& c.b_len >= c.stride_b * c.batch
            &&& c.c_len >= c.stride_c * c.batch
        },
{
    assert((c.stride_a * c.batch) >= 0) by (nonlinear_arith);
    assert((c.stride_b * c.batch) >= 0) by (nonlinear_arith);
    assert((c.stride_c * c.batch) >= 0) by (nonlinear_arith);
}

/// A strided-batched bf16 product is launched with its own numbers, each
/// where it belongs.
pub proof fn law_strided_gemm_bf16_launches_its_own_numbers(c: StridedGemmBf16)
    requires
        c.fault() is None,
    ensures
        c.launch().transpose_a == (if c.transpose_a { 1int } else { 0 }),
        c.launch().transpose_b == (if c.transpose_b { 1int } else { 0 }),
        c.m <= i32::MAX ==> c.launch().m == c.m,
        c.n <= i32::MAX ==> c.launch().n == c.n,
        c.k <= i32::MAX ==> c.launch().k == c.k,
        c.lda <= i32::MAX ==> c.launch().lda == c.lda,
        c.ldb <= i32::MAX ==> c.launch().ldb == c.ldb,
        c.ldc <= i32::MAX ==> c.launch().ldc == c.ldc,
        c.batch <= i32::MAX ==> c.launch().batch == c.batch,
        c.stride_a <= i64::MAX ==> c.launch().stride_a == c.stride_a,
        c.stride_b <= i64::MAX ==> c.launch().stride_b == c.stride_b,
        c.stride_c <= i64::MAX ==> c.launch().stride_c == c.stride_c,
{
}

/// A strided-batched f32 product is accepted exactly when its own operands
/// hold what it reads and writes.
pub proof fn law_strided_gemm_f32_is_accepted_when_it_fits(c: StridedGemmF32)
    ensures
        c.fault() is None <==> {
            &&& c.m > 0
            &&& c.n > 0
            &&& c.k > 0
            &&& c.batch > 0
            &&& c.a_len >= c.stride_a * c.batch
            &&& c.b_len >= c.stride_b * c.batch
            &&& c.c_len >= c.stride_c * c.batch
        },
{
    assert((c.stride_a * c.batch) >= 0) by (nonlinear_arith);
    assert((c.stride_b * c.batch) >= 0) by (nonlinear_arith);
    assert((c.stride_c * c.batch) >= 0) by (nonlinear_arith);
}

/// A strided-batched f32 product is launched with its own numbers, each where
/// it belongs.
pub proof fn law_strided_gemm_f32_launches_its_own_numbers(c: StridedGemmF32)
    requires
        c.fault() is None,
    ensures
        c.launch().transpose_a == (if c.transpose_a { 1int } else { 0 }),
        c.launch().transpose_b == (if c.transpose_b { 1int } else { 0 }),
        c.m <= i32::MAX ==> c.launch().m == c.m,
        c.n <= i32::MAX ==> c.launch().n == c.n,
        c.k <= i32::MAX ==> c.launch().k == c.k,
        c.lda <= i32::MAX ==> c.launch().lda == c.lda,
        c.ldb <= i32::MAX ==> c.launch().ldb == c.ldb,
        c.ldc <= i32::MAX ==> c.launch().ldc == c.ldc,
        c.batch <= i32::MAX ==> c.launch().batch == c.batch,
        c.stride_a <= i64::MAX ==> c.launch().stride_a == c.stride_a,
        c.stride_b <= i64::MAX ==> c.launch().stride_b == c.stride_b,
        c.stride_c <= i64::MAX ==> c.launch().stride_c == c.stride_c,
        c.launch().accumulate == c.accumulate,
{
}

/// A bf16 product with f32 results is accepted exactly when its own operands
/// hold what it reads and writes.
pub proof fn law_gemm_bf16_f32_is_accepted_when_it_fits(c: GemmBf16F32)
    ensures
        c.fault() is None <==> {
            &&& c.m > 0
            &&& c.n > 0
            &&& c.k > 0
            &&& c.a_len >= c.m * c.k
            &&& c.b_len >= c.n * c.k
            &&& c.c_len >= c.m * c.n
        },
{
}

/// A bf16 product with f32 results is launched with its own numbers, each
/// where it belongs.
pub proof fn law_gemm_bf16_f32_launches_its_own_numbers(c: GemmBf16F32)
    requires
        c.fault() is None,
    ensures
        c.launch().transpose_a == (if c.transpose_a { 1int } else { 0 }),
        c.launch().transpose_b == (if c.transpose_b { 1int } else { 0 }),
        c.m <= i32::MAX ==> c.launch().m == c.m,
        c.n <= i32::MAX ==> c.launch().n == c.n,
        c.k <= i32::MAX ==> c.launch().k == c.k,
        c.lda <= i32::MAX ==> c.launch().lda == c.lda,
        c.ldb <= i32::MAX ==> c.launch().ldb == c.ldb,
        c.ldc <= i32::MAX ==> c.launch().ldc == c.ldc,
{
}

/// Every batch entry of an accepted product lies in its buffers, at the
/// strides that the launch is given.
pub proof fn law_strided_entries_stay_in_their_buffers(c: StridedGemmBf16, b: int)
    requires
        c.fault() is None,
        c.stride_a <= i64::MAX,
        c.stride_b <= i64::MAX,
        c.stride_c <= i64::MAX,
        0 <= b < c.batch,
    ensures
        0 <= b * c.launch().stride_a,
        (b + 1) * c.launch().stride_a <= c.a_len,
        0 <= b * c.launch().stride_b,
        (b + 1) * c.launch().stride_b <= c.b_len,
        0 <= b * c.launch().stride_c,
        (b + 1) * c.launch().stride_c <= c.c_len,
{
    law_strided_gemm_bf16_launches_its_own_numbers(c);
    lemma_entry_is_backed(b, c.batch as int, c.stride_a as int, c.a_len as int);
    lemma_entry_is_backed(b, c.batch as int, c.stride_b as int, c.b_len as int);
    lemma_entry_is_backed(b, c.batch as int, c.stride_c as int, c.c_len as int);
}

/// The same of the f32 product.
pub proof fn law_strided_f32_entries_stay_in_their_buffers(c: StridedGemmF32, b: int)
    requires
        c.fault() is None,
        c.stride_a <= i64::MAX,
        c.stride_b <= i64::MAX,
        c.stride_c <= i64::MAX,
        0 <= b < c.batch,
    ensures
        0 <= b * c.launch().stride_a,
        (b + 1) * c.launch().stride_a <= c.a_len,
        0 <= b * c.launch().stride_b,
        (b + 1) * c.launch().stride_b <= c.b_len,
        0 <= b * c.launch().stride_c,
        (b + 1) * c.launch().stride_c <= c.c_len,
{
    law_strided_gemm_f32_launches_its_own_numbers(c);
    lemma_entry_is_backed(b, c.batch as int, c.stride_a as int, c.a_len as int);
    lemma_entry_is_backed(b, c.batch as int, c.stride_b as int, c.b_len as int);
    lemma_entry_is_backed(b, c.batch as int, c.stride_c as int, c.c_len as int);
}

proof fn lemma_entry_is_backed(b: int, batch: int, stride: int, len: int)
    requires
        0 <= b < batch,
        stride >= 0,
        stride * batch <= len,
    ensures
        0 <= b * stride,
        (b + 1) * stride <= len,
{
    assert(0 <= b * stride && (b + 1) * stride <= stride * batch) by (nonlinear_arith)
        requires
            0 <= b < batch,
            stride >= 0,
    ;
}

/// A projection multiplies the whole weight with every token: it has one
/// result row per weight row, one result column per token and sums over the
/// weight's columns.
pub proof fn law_projection_covers_the_weight_and_the_tokens(
    weight: DeviceMatrix,
    x: HiddenStates,
    out: HiddenStates,
    graphsafe: bool,
)
    ensures
        projects(weight, x, out) <==> weight.cols == x.hidden_dim && weight.rows == out.hidden_dim
            && x.seq_len == out.seq_len,
        gemm_launch(weight, x, graphsafe).m == weight.rows,
        gemm_launch(weight, x, graphsafe).n == x.seq_len,
        gemm_launch(weight, x, graphsafe).k == weight.cols,
        gemm_launch(weight, x, graphsafe).w_bytes == 0,
        gemm_launch(weight, x, graphsafe).x_bytes == 0,
        gemm_launch(weight, x, graphsafe).graphsafe == graphsafe,
{
}

/// The policy byte: one is the pin, two is the per-token path, and every other
/// byte is the production policy. Typed products run under that one alone.
pub proof fn law_policy_bytes(state: NumericPolicyState)
    ensures
        state.policy() == NumericPolicy::Pin <==> state.policy_code == 1,
        state.policy() == NumericPolicy::PerToken <==> state.policy_code == 2,
        state.policy() == NumericPolicy::Tuned <==> state.policy_code != 1 && state.policy_code
            != 2,
        NumericPolicy::Tuned.spec_code() == 0,
        NumericPolicy::Pin.spec_code() == 1,
        NumericPolicy::PerToken.spec_code() == 2,
        tuned_fault(state) is None <==> state.policy_code != 1 && state.policy_code != 2,
{
}

/// Where a projection is launched first: the pin where it is pinned and no
/// override holds the stream, token by token where that is the policy; under
/// the production policy the tuned algorithm for up to thirty-two tokens on
/// the base stream, else the handle without a workspace where the launch has
/// to be captured and prefill does not own the stream, else the handle with
/// one.
pub proof fn law_policy_decides_the_first_launch(
    state: NumericPolicyState,
    overrides: StreamOverride,
    n: usize,
    graphsafe: bool,
)
    ensures
        ({
            let first = first_gemm_step(state, overrides, n, graphsafe);
            let plain = if graphsafe && !overrides.prefill {
                GemmPath::GraphSafe
            } else {
                GemmPath::Workspace
            };
            &&& state.policy_code == 1 && overrides.stream is None ==> first == GemmStep::Launch(
                GemmPath::Pin,
            )
            &&& state.policy_code == 1 && overrides.stream is Some ==> first is Failed
            &&& state.policy_code == 2 ==> first == GemmStep::Launch(GemmPath::PerToken)
            &&& state.policy_code != 1 && state.policy_code != 2 ==> first == GemmStep::Launch(
                if n <= 32 && overrides.stream is None {
                    GemmPath::Lt
                } else {
                    plain
                },
            )
        }),
{
}

/// What a launch's status leads to: zero serves the projection on every path,
/// the untuned status of the tuned algorithm sends it to the plain path, and
/// every other status fails it. Only a served projection is counted, once, and
/// only under the policy whose path served it.
pub proof fn law_status_decides_the_next_step(
    state: NumericPolicyState,
    overrides: StreamOverride,
    graphsafe: bool,
    path: GemmPath,
    status: i32,
)
    ensures
        ({
            let next = next_gemm_step(overrides, graphsafe, path, status);
            let after = counted(state, path, status);
            let plain = if graphsafe && !overrides.prefill {
                GemmPath::GraphSafe
            } else {
                GemmPath::Workspace
            };
            &&& status == 0 <==> next == GemmStep::Served
            &&& path == GemmPath::Lt && status == -1 ==> next == GemmStep::Launch(plain)
            &&& status != 0 && !(path == GemmPath::Lt && status == -1) ==> next is Failed
            &&& after.policy_code == state.policy_code
            &&& status == 0 && path == GemmPath::Pin && state.pin_served < u64::MAX
                ==> after.pin_served == state.pin_served + 1
            &&& !(status == 0 && path == GemmPath::Pin) ==> after.pin_served == state.pin_served
            &&& status == 0 && path == GemmPath::PerToken && state.per_token_served < u64::MAX
                ==> after.per_token_served == state.per_token_served + 1
            &&& !(status == 0 && path == GemmPath::PerToken) ==> after.per_token_served
                == state.per_token_served
            &&& wrapping_successor(u64::MAX) == 0
        }),
{
}

/// A failed status is reported under the library that it came from: from one
/// hundred thousand on it is that library's own code moved up by as much.
pub proof fn law_statuses_name_their_library(
    cublas: &'static str,
    cuda: &'static str,
    status: i32,
)
    ensures
        status >= 100_000 ==> gemm_status_error(cublas, cuda, status) == (KernelError::Status {
            what: cublas,
            code: (status - 100_000) as i32,
        }),
        status < 100_000 ==> gemm_status_error(cublas, cuda, status) == (KernelError::Status {
            what: cuda,
            code: status,
        }),
{
}

/// The reduction schemes that have a name.
pub proof fn law_reduction_schemes_have_one_name(a: PinAlgoConfig)
    ensures
        a.reduction_scheme == 0 ==> a.scheme_name() == "none",
        a.reduction_scheme == 1 ==> a.scheme_name() == "inplace",
        a.reduction_scheme == 2 ==> a.scheme_name() == "compute_type",
        a.reduction_scheme == 4 ==> a.scheme_name() == "output_type",
        a.reduction_scheme != 0 && a.reduction_scheme != 1 && a.reduction_scheme != 2
            && a.reduction_scheme != 4 ==> a.scheme_name() == "unknown",
{
}

/// The statuses that a pinned product answers besides success, and the token
/// count that a pin stands for.
pub proof fn law_pin_statuses()
    ensures
        GEMM_LT_UNTUNED == -1,
        GEMM_LT_PIN_UNTUNED == -1,
        GEMM_LT_PIN_UNSUPPORTED == -2,
        GEMM_LT_PIN_NONDET == -3,
        PIN_REP_N == 32,
        PIN_REP_N == GEMM_LT_MAX_N,
{
}

/// A strided-batched bf16 product that is accepted, and then gets one buffer
/// that does not fit, is refused over that buffer: the answer names the check
/// and shows what it compared.
pub proof fn law_strided_gemm_bf16_is_refused_over_the_buffer_at_fault(c: StridedGemmBf16, n: usize)
    requires
        c.fault() is None,
    ensures
        n < c.stride_a * c.batch ==> (StridedGemmBf16 { a_len: n, ..c }).fault() == Some(
            KernelError::Rejected {
                what: "gemm_strided_batched_bf16 A too small",
                got: n,
                want: (c.stride_a * c.batch) as usize,
            },
        ),
        n < c.stride_b * c.batch ==> (StridedGemmBf16 { b_len: n, ..c }).fault() == Some(
            KernelError::Rejected {
                what: "gemm_strided_batched_bf16 B too small",
                got: n,
                want: (c.stride_b * c.batch) as usize,
            },
        ),
        n < c.stride_c * c.batch ==> (StridedGemmBf16 { c_len: n, ..c }).fault() == Some(
            KernelError::Rejected {
                what: "gemm_strided_batched_bf16 C too small",
                got: n,
                want: (c.stride_c * c.batch) as usize,
            },
        ),
{
}

/// A strided-batched f32 product that is accepted, and then gets one buffer
/// that does not fit, is refused over that buffer: the answer names the check
/// and shows what it compared.
pub proof fn law_strided_gemm_f32_is_refused_over_the_buffer_at_fault(c: StridedGemmF32, n: usize)
    requires
        c.fault() is None,
    ensures
        n < c.stride_a * c.batch ==> (StridedGemmF32 { a_len: n, ..c }).fault() == Some(
            KernelError::Rejected {
                what: "gemm_strided_batched_f32 A too small",
                got: n,
                want: (c.stride_a * c.batch) as usize,
            },
        ),
        n < c.stride_b * c.batch ==> (StridedGemmF32 { b_len: n, ..c }).fault() == Some(
            KernelError::Rejected {
                what: "gemm_strided_batched_f32 B too small",
                got: n,
                want: (c.stride_b * c.batch) as usize,
            },
        ),
        n < c.stride_c * c.batch ==> (StridedGemmF32 { c_len: n, ..c }).fault() == Some(
            KernelError::Rejected {
                what: "gemm_strided_batched_f32 C too small",
                got: n,
                want: (c.stride_c * c.batch) as usize,
            },
        ),
{
}

/// A bf16 product with f32 results that is accepted, and then gets one buffer
/// that does not fit, is refused over that buffer: the answer names the check
/// and shows what it compared.
pub proof fn law_gemm_bf16_f32_is_refused_over_the_buffer_at_fault(c: GemmBf16F32, n: usize)
    requires
        c.fault() is None,
    ensures
        n < c.m * c.k ==> (GemmBf16F32 { a_len: n, ..c }).fault() == Some(
            KernelError::Invalid { what: "gemm_bf16_f32 buffers do not fit" },
        ),
        n < c.n * c.k ==> (GemmBf16F32 { b_len: n, ..c }).fault() == Some(
            KernelError::Invalid { what: "gemm_bf16_f32 buffers do not fit" },
        ),
        n < c.m * c.n ==> (GemmBf16F32 { c_len: n, ..c }).fault() == Some(
            KernelError::Invalid { what: "gemm_bf16_f32 buffers do not fit" },
        ),
{
}

} // verus!
