//! Shapes of device tensors: the logical size of each against the number of
//! elements that back it.

use vstd::prelude::*;

use crate::error::checked_product;
use crate::error::checked_sum;
use crate::error::ensure;
use crate::error::ensure_at_most;
use crate::error::ensure_met;
use crate::error::ensure_that;
use crate::error::FaultList;
use crate::error::KernelError;

verus! {

/// A bf16 vector on the device.
#[derive(Clone, Copy, Debug, PartialEq, Eq)]
pub struct DeviceVec {
    /// Elements allocated.
    pub data_len: usize,
    /// Elements in use.
    pub len: usize,
}

/// The two bytes of a little-endian bf16 as its bit pattern.
pub open spec fn bf16_bits(low: u8, high: u8) -> u16 {
    (low + 256 * high) as u16
}

/// The bf16 patterns of little-endian bytes.
pub open spec fn bf16_words(bytes: Seq<u8>) -> Seq<u16> {
    Seq::new(bytes.len() / 2, |i: int| bf16_bits(bytes[2 * i], bytes[2 * i + 1]))
}

/// Read little-endian bf16 bit patterns out of raw bytes.
pub fn bf16_from_le_bytes(data: &[u8]) -> (r: Vec<u16>)
    requires
        data@.len() % 2 == 0,
    ensures
        r@ == bf16_words(data@),
{
    let n: usize = data.len() / 2;
    let mut out: Vec<u16> = Vec::new();
    let mut i: usize = 0;
    while i < n
        invariant
            2 * n == data@.len() <= usize::MAX,
            i <= n,
            out@.len() == i,
            forall|k: int|
                0 <= k < i ==> #[trigger] out@[k] == bf16_bits(data@[2 * k], data@[2 * k + 1]),
        decreases n - i,
    {
        let low: u16 = data[2 * i] as u16;
        let high: u16 = data[2 * i + 1] as u16;
        out.push(low + 256 * high);
        i += 1;
    }
    assert(out@ =~= bf16_words(data@));
    out
}

impl DeviceVec {
    /// The vector that holds `data_len` uploaded elements.
    pub fn from_host(data_len: usize) -> (r: Self)
        ensures
            r == (DeviceVec { data_len, len: data_len }),
    {
        DeviceVec { data_len, len: data_len }
    }

    /// A zeroed vector.
    pub fn zeros(len: usize) -> (r: Self)
        ensures
            r == (DeviceVec { data_len: len, len }),
    {
        DeviceVec { data_len: len, len }
    }

    /// The vector and the bf16 patterns of a little-endian byte tensor.
    pub fn from_safetensors(data: &[u8]) -> (r: Result<(Self, Vec<u16>), KernelError>)
        ensures
            match r {
                Ok((shape, words)) => {
                    &&& data@.len() % 2 == 0
                    &&& words@ == bf16_words(data@)
                    &&& shape == (DeviceVec {
                        data_len: (data@.len() / 2) as usize,
                        len: (data@.len() / 2) as usize,
                    })
                },
                Err(e) => {
                    &&& data@.len() % 2 != 0
                    &&& e == (KernelError::Unmet {
                        what: "data length must be even for bf16",
                        value: data@.len() as usize,
                    })
                },
            },
    {
        ensure_met(data.len() % 2 == 0, "data length must be even for bf16", data.len())?;
        let words: Vec<u16> = bf16_from_le_bytes(data);
        Ok((Self::from_host(words.len()), words))
    }

    /// The fault of a logical length past the allocation.
    pub open spec fn backing_fault(self, what: &'static str) -> Option<KernelError> {
        if self.data_len >= self.len {
            None
        } else {
            Some(KernelError::Backing { what, len: self.data_len, need: self.len })
        }
    }

    /// Refuse a logical length past the allocation before a kernel indexes
    /// through it.
    pub fn ensure_backed(&self, what: &'static str) -> (r: Result<(), KernelError>)
        ensures
            r == KernelError::outcome(self.backing_fault(what), ()),
    {
        if self.data_len >= self.len {
            Ok(())
        } else {
            Err(KernelError::Backing { what, len: self.data_len, need: self.len })
        }
    }
}

/// A row-major bf16 matrix on the device.
#[derive(Clone, Copy, Debug, PartialEq, Eq)]
pub struct DeviceMatrix {
    /// Elements allocated.
    pub data_len: usize,
    pub rows: usize,
    pub cols: usize,
}

/// Rows of the first `n` matrices.
pub open spec fn rows_upto(matrices: Seq<DeviceMatrix>, n: nat) -> nat
    decreases n,
{
    if n == 0 {
        0
    } else {
        rows_upto(matrices, (n - 1) as nat) + matrices[n - 1].rows as nat
    }
}

/// A copy of `count` elements to `offset` in the destination.
#[derive(Clone, Copy, Debug, PartialEq, Eq)]
pub struct CopyRange {
    pub offset: usize,
    pub count: usize,
}

impl DeviceMatrix {
    /// Stack matrices of one width on top of each other: the shape of the
    /// result and, for each matrix, the range it is copied to.
    pub fn vstack(matrices: &[DeviceMatrix]) -> (r: (Self, Vec<CopyRange>))
        requires
            matrices@.len() > 0,
            forall|i: int|
                0 <= i < matrices@.len() ==> (#[trigger] matrices@[i]).cols == matrices@[0].cols,
            forall|i: int|
                0 <= i < matrices@.len() ==> #[trigger] matrices@[i].rows * matrices@[i].cols
                    <= matrices@[i].data_len,
            rows_upto(matrices@, matrices@.len()) <= usize::MAX,
            rows_upto(matrices@, matrices@.len()) * matrices@[0].cols <= usize::MAX,
        ensures
            r.0.rows == rows_upto(matrices@, matrices@.len()),
            r.0.cols == matrices@[0].cols,
            r.0.data_len == r.0.rows * r.0.cols,
            r.1@.len() == matrices@.len(),
            forall|i: int|
                0 <= i < matrices@.len() ==> {
                    &&& (#[trigger] r.1@[i]).offset == rows_upto(matrices@, i as nat) * r.0.cols
                    &&& r.1@[i].count == matrices@[i].rows * r.0.cols
                },
    {
        let n: usize = matrices.len();
        let cols: usize = matrices[0].cols;
        let mut total_rows: usize = 0;
        let mut offset: usize = 0;
        let mut copies: Vec<CopyRange> = Vec::new();
        let mut i: usize = 0;
        while i < n
            invariant
                n == matrices@.len(),
                n > 0,
                i <= n,
                cols == matrices@[0].cols,
                forall|k: int|
                    0 <= k < n ==> (#[trigger] matrices@[k]).cols == matrices@[0].cols,
                forall|k: int|
                    0 <= k < n ==> #[trigger] matrices@[k].rows * matrices@[k].cols
                        <= matrices@[k].data_len,
                rows_upto(matrices@, n as nat) <= usize::MAX,
                rows_upto(matrices@, n as nat) * cols <= usize::MAX,
                total_rows == rows_upto(matrices@, i as nat),
                offset == total_rows * cols,
                copies@.len() == i,
                forall|k: int|
                    0 <= k < i ==> {
                        &&& (#[trigger] copies@[k]).offset == rows_upto(matrices@, k as nat) * cols
                        &&& copies@[k].count == matrices@[k].rows * cols
                    },
            decreases n - i,
        {
            let m: DeviceMatrix = matrices[i];
            proof {
                lemma_rows_monotone(matrices@, (i + 1) as nat, n as nat);
                let next = rows_upto(matrices@, (i + 1) as nat);
                assert(next == total_rows + m.rows);
                assert(next * cols == total_rows * cols + m.rows * cols) by (nonlinear_arith)
                    requires
                        next == total_rows + m.rows,
                ;
                assert(next * cols <= rows_upto(matrices@, n as nat) * cols) by (nonlinear_arith)
                    requires
                        next <= rows_upto(matrices@, n as nat),
                        cols >= 0,
                ;
                assert(m.rows * cols >= 0) by (nonlinear_arith);
                assert(total_rows * cols >= 0) by (nonlinear_arith);
            }
            let count: usize = m.rows * cols;
            copies.push(CopyRange { offset, count });
            offset = offset + count;
            total_rows = total_rows + m.rows;
            i += 1;
        }
        (DeviceMatrix { data_len: offset, rows: total_rows, cols }, copies)
    }

    /// The matrix that holds `data_len` uploaded elements.
    pub fn from_host(data_len: usize, rows: usize, cols: usize) -> (r: Self)
        requires
            data_len == rows * cols,
        ensures
            r == (DeviceMatrix { data_len, rows, cols }),
    {
        DeviceMatrix { data_len, rows, cols }
    }

    /// The matrix and the bf16 patterns of a little-endian byte tensor.
    pub fn from_safetensors(data: &[u8], rows: usize, cols: usize) -> (r: Result<
        (Self, Vec<u16>),
        KernelError,
    >)
        requires
            rows * cols * 2 <= usize::MAX,
        ensures
            match r {
                Ok((shape, words)) => {
                    &&& data@.len() == rows * cols * 2
                    &&& words@ == bf16_words(data@)
                    &&& shape == (DeviceMatrix { data_len: (rows * cols) as usize, rows, cols })
                },
                Err(e) => {
                    &&& data@.len() != rows * cols * 2
                    &&& e == (KernelError::Rejected {
                        what: "data length mismatch for a bf16 matrix",
                        got: data@.len() as usize,
                        want: (rows * cols * 2) as usize,
                    })
                },
            },
    {
        proof {
            assert(rows * cols >= 0) by (nonlinear_arith);
        }
        ensure(
            data.len() == rows * cols * 2,
            "data length mismatch for a bf16 matrix",
            data.len(),
            rows * cols * 2,
        )?;
        let words: Vec<u16> = bf16_from_le_bytes(data);
        Ok((Self::from_host(words.len(), rows, cols), words))
    }
}

proof fn lemma_rows_monotone(matrices: Seq<DeviceMatrix>, i: nat, j: nat)
    requires
        i <= j,
    ensures
        rows_upto(matrices, i) <= rows_upto(matrices, j),
    decreases j,
{
    if i < j {
        lemma_rows_monotone(matrices, i, (j - 1) as nat);
    }
}

/// The ranges of a stack tile its elements: they start at zero, each begins
/// where the one before it ends, and the last ends at the end.
pub proof fn law_vstack_tiles(matrices: Seq<DeviceMatrix>, cols: int, i: nat)
    requires
        i < matrices.len(),
        cols >= 0,
    ensures
        rows_upto(matrices, 0) * cols == 0,
        rows_upto(matrices, i) * cols + matrices[i as int].rows * cols == rows_upto(
            matrices,
            (i + 1) as nat,
        ) * cols,
        rows_upto(matrices, (i + 1) as nat) * cols <= rows_upto(matrices, matrices.len()) * cols,
{
    lemma_rows_monotone(matrices, (i + 1) as nat, matrices.len());
    assert(0 * cols == 0);
    let a = rows_upto(matrices, i);
    let b = matrices[i as int].rows as int;
    assert(a * cols + b * cols == (a + b) * cols) by (nonlinear_arith);
    assert(rows_upto(matrices, (i + 1) as nat) * cols <= rows_upto(matrices, matrices.len())
        * cols) by (nonlinear_arith)
        requires
            rows_upto(matrices, (i + 1) as nat) <= rows_upto(matrices, matrices.len()),
            cols >= 0,
    ;
}

/// Batched hidden states: `seq_len` token vectors of `hidden_dim` elements,
/// token `i` at offset `i * hidden_dim`.
#[derive(Clone, Copy, Debug, PartialEq, Eq)]
pub struct HiddenStates {
    /// Elements allocated.
    pub data_len: usize,
    pub hidden_dim: usize,
    pub seq_len: usize,
}

impl HiddenStates {
    /// Whether two batches have one shape.
    pub open spec fn shaped_like(self, other: HiddenStates) -> bool {
        self.hidden_dim == other.hidden_dim && self.seq_len == other.seq_len
    }

    /// Elements of the logical shape.
    pub open spec fn extent(self) -> int {
        self.hidden_dim * self.seq_len
    }

    /// The fault of a logical shape past the allocation.
    pub open spec fn extent_fault(self, what: &'static str) -> Option<KernelError> {
        KernelError::overflow(self.extent(), what).or_fault(
            if self.data_len >= self.extent() {
                None
            } else {
                Some(
                    KernelError::Backing {
                        what,
                        len: self.data_len,
                        need: self.extent() as usize,
                    },
                )
            },
        )
    }

    /// The logical extent `hidden_dim * seq_len`, refused where it runs past
    /// the allocation. The allocation may be larger: buffers are allocated
    /// for the maximum and `seq_len` is rewritten per step.
    pub fn checked_extent(&self, what: &'static str) -> (r: Result<usize, KernelError>)
        ensures
            r == KernelError::outcome(self.extent_fault(what), self.extent() as usize),
    {
        let extent: usize = checked_product(self.hidden_dim, self.seq_len, what)?;
        if self.data_len >= extent {
            Ok(extent)
        } else {
            Err(KernelError::Backing { what, len: self.data_len, need: extent })
        }
    }

    /// Bytes before row `offset`.
    pub open spec fn row_bytes(self, offset: usize) -> int {
        offset * self.hidden_dim * 2
    }

    /// The fault of a row window that does not lie in the tensor.
    pub open spec fn row_fault(self, offset: usize, span: usize, what: &'static str) -> Option<
        KernelError,
    > {
        KernelError::overflow(offset + span, what).or_fault(
            KernelError::unless_at_most(
                offset + span <= self.seq_len,
                what,
                offset + span,
                self.seq_len as int,
            ),
        ).or_fault(self.extent_fault(what)).or_fault(
            KernelError::overflow(self.row_bytes(offset), what),
        )
    }

    /// The byte offset of row `offset`, refused where the window
    /// `[offset, offset + span)` does not lie in the tensor or the offset
    /// does not fit. No input makes the arithmetic wrap.
    pub fn checked_row_offset(&self, offset: usize, span: usize, what: &'static str) -> (r: Result<
        u64,
        KernelError,
    >)
        ensures
            r == KernelError::outcome(
                self.row_fault(offset, span, what),
                self.row_bytes(offset) as u64,
            ),
    {
        let end: usize = checked_sum(offset, span, what)?;
        ensure_at_most(end <= self.seq_len, what, end, self.seq_len)?;
        let extent: usize = self.checked_extent(what)?;
        proof {
            assert(offset * self.hidden_dim <= self.hidden_dim * self.seq_len) by (nonlinear_arith)
                requires
                    offset <= self.seq_len,
                    self.hidden_dim >= 0,
            ;
            assert(offset * self.hidden_dim >= 0) by (nonlinear_arith);
        }
        let elems: usize = offset * self.hidden_dim;
        let bytes: usize = checked_product(elems, 2, what)?;
        Ok(bytes as u64)
    }

    /// A zeroed batch.
    pub fn zeros(hidden_dim: usize, seq_len: usize) -> (r: Self)
        requires
            hidden_dim * seq_len <= usize::MAX,
        ensures
            r == (HiddenStates {
                data_len: (hidden_dim * seq_len) as usize,
                hidden_dim,
                seq_len,
            }),
    {
        proof {
            assert(hidden_dim * seq_len >= 0) by (nonlinear_arith);
        }
        HiddenStates { data_len: hidden_dim * seq_len, hidden_dim, seq_len }
    }

    /// The batch that holds `data_len` uploaded elements.
    pub fn from_host(data_len: usize, hidden_dim: usize, seq_len: usize) -> (r: Self)
        requires
            data_len == hidden_dim * seq_len,
        ensures
            r == (HiddenStates { data_len, hidden_dim, seq_len }),
    {
        HiddenStates { data_len, hidden_dim, seq_len }
    }
}

/// A row window that is not refused lies in the allocation: its bytes end
/// within the bytes that back the tensor, and its first byte does not wrap.
pub proof fn law_row_window_is_backed(t: HiddenStates, offset: usize, span: usize, what: &'static str)
    requires
        t.row_fault(offset, span, what) is None,
    ensures
        0 <= t.row_bytes(offset) <= usize::MAX,
        t.row_bytes(offset) + span * t.hidden_dim * 2 <= t.data_len * 2,
{
    let h = t.hidden_dim as int;
    let o = offset as int;
    let s = span as int;
    let n = t.seq_len as int;
    assert(o * h * 2 + s * h * 2 == (o + s) * h * 2) by (nonlinear_arith);
    assert((o + s) * h <= n * h) by (nonlinear_arith)
        requires
            o + s <= n,
            h >= 0,
    ;
    assert(n * h == h * n) by (nonlinear_arith);
    assert(o * h >= 0) by (nonlinear_arith)
        requires
            o >= 0,
            h >= 0,
    ;
}

/// Batched activations whose hidden dimension is part of the type.
#[derive(Clone, Copy, Debug, PartialEq, Eq)]
pub struct GpuTensor<const DIM: usize> {
    pub data_len: usize,
    pub seq_len: usize,
}

impl<const DIM: usize> GpuTensor<DIM> {
    /// A zeroed tensor.
    pub fn zeros(seq_len: usize) -> (r: Self)
        requires
            DIM * seq_len <= usize::MAX,
        ensures
            r.data_len == DIM * seq_len,
            r.seq_len == seq_len,
    {
        proof {
            assert(DIM * seq_len >= 0) by (nonlinear_arith);
        }
        GpuTensor { data_len: DIM * seq_len, seq_len }
    }

    /// The rows of a matrix as tokens.
    pub fn from_device_matrix_rows(m: DeviceMatrix) -> (r: Result<Self, KernelError>)
        ensures
            r == KernelError::outcome(
                KernelError::unless_sized(
                    m.cols == DIM,
                    "GpuTensor::from_device_matrix_rows col mismatch",
                    m.cols as int,
                    DIM as int,
                ),
                GpuTensor::<DIM> { data_len: m.data_len, seq_len: m.rows },
            ),
    {
        ensure(
            m.cols == DIM,
            "GpuTensor::from_device_matrix_rows col mismatch",
            m.cols,
            DIM,
        )?;
        Ok(GpuTensor { data_len: m.data_len, seq_len: m.rows })
    }
}

/// A weight matrix whose dimensions are part of the type.
#[derive(Clone, Copy, Debug, PartialEq, Eq)]
pub struct GpuWeight<const OUT: usize, const IN: usize> {
    pub data_len: usize,
}

impl<const OUT: usize, const IN: usize> GpuWeight<OUT, IN> {
    /// A matrix of exactly these dimensions.
    pub fn from_device_matrix(m: DeviceMatrix) -> (r: Result<Self, KernelError>)
        ensures
            r == KernelError::outcome(
                KernelError::unless(
                    m.rows == OUT && m.cols == IN,
                    "GpuWeight::from_device_matrix shape mismatch",
                ),
                GpuWeight::<OUT, IN> { data_len: m.data_len },
            ),
    {
        ensure_that(
            m.rows == OUT && m.cols == IN,
            "GpuWeight::from_device_matrix shape mismatch",
        )?;
        Ok(GpuWeight { data_len: m.data_len })
    }
}

/// A norm weight vector whose dimension is part of the type.
#[derive(Clone, Copy, Debug, PartialEq, Eq)]
pub struct NormWeight<const DIM: usize> {
    pub data_len: usize,
}

impl<const DIM: usize> NormWeight<DIM> {
    /// A vector of exactly this length.
    pub fn from_device_vec(v: DeviceVec) -> (r: Result<Self, KernelError>)
        ensures
            r == KernelError::outcome(
                KernelError::unless_sized(
                    v.len == DIM,
                    "NormWeight::from_device_vec len mismatch",
                    v.len as int,
                    DIM as int,
                ),
                NormWeight::<DIM> { data_len: v.data_len },
            ),
    {
        ensure(v.len == DIM, "NormWeight::from_device_vec len mismatch", v.len, DIM)?;
        Ok(NormWeight { data_len: v.data_len })
    }
}

/// A raw buffer with a fixed element count per batch entry.
#[derive(Clone, Copy, Debug, PartialEq, Eq)]
pub struct GpuRawSlice<const ELEMS: usize> {
    pub data_len: usize,
    pub batch_size: usize,
}

impl<const ELEMS: usize> GpuRawSlice<ELEMS> {
    /// A zeroed buffer.
    pub fn zeros(batch_size: usize) -> (r: Self)
        requires
            ELEMS * batch_size <= usize::MAX,
        ensures
            r.data_len == ELEMS * batch_size,
            r.batch_size == batch_size,
    {
        proof {
            assert(ELEMS * batch_size >= 0) by (nonlinear_arith);
        }
        GpuRawSlice { data_len: ELEMS * batch_size, batch_size }
    }
}

/// A raw `i32` buffer with a fixed element count per batch entry.
#[derive(Clone, Copy, Debug, PartialEq, Eq)]
pub struct GpuRawSliceI32<const ELEMS: usize> {
    pub data_len: usize,
    pub batch_size: usize,
}

impl<const ELEMS: usize> GpuRawSliceI32<ELEMS> {
    /// A zeroed buffer.
    pub fn zeros(batch_size: usize) -> (r: Self)
        requires
            ELEMS * batch_size <= usize::MAX,
        ensures
            r.data_len == ELEMS * batch_size,
            r.batch_size == batch_size,
    {
        proof {
            assert(ELEMS * batch_size >= 0) by (nonlinear_arith);
        }
        GpuRawSliceI32 { data_len: ELEMS * batch_size, batch_size }
    }
}

/// A buffer passes exactly when it holds every row that its shape claims. A
/// shape too large to count is told from one that is only too large for the
/// buffer.
pub proof fn law_a_shape_is_backed_or_refused(t: HiddenStates, v: DeviceVec, what: &'static str)
    ensures
        t.extent() == t.hidden_dim * t.seq_len,
        t.extent_fault(what) is None <==> t.hidden_dim * t.seq_len <= t.data_len,
        t.hidden_dim * t.seq_len > usize::MAX ==> t.extent_fault(what) == Some(
            KernelError::Overflow { what },
        ),
        t.data_len < t.hidden_dim * t.seq_len <= usize::MAX ==> t.extent_fault(what) == Some(
            KernelError::Backing {
                what,
                len: t.data_len,
                need: (t.hidden_dim * t.seq_len) as usize,
            },
        ),
        v.backing_fault(what) is None <==> v.len <= v.data_len,
        v.len > v.data_len ==> v.backing_fault(what) == Some(
            KernelError::Backing { what, len: v.data_len, need: v.len },
        ),
{
    assert(t.hidden_dim * t.seq_len >= 0) by (nonlinear_arith);
}

/// A row window is given out exactly when its rows exist in a backed buffer and
/// its start can be counted in bytes, and it starts behind the two-byte
/// elements of the rows before it.
pub proof fn law_a_row_window_starts_behind_the_rows_before_it(
    t: HiddenStates,
    offset: usize,
    span: usize,
    what: &'static str,
)
    ensures
        t.row_fault(offset, span, what) is None <==> {
            &&& offset + span <= t.seq_len
            &&& t.hidden_dim * t.seq_len <= t.data_len
            &&& offset * t.hidden_dim * 2 <= usize::MAX
        },
        t.seq_len < offset + span <= usize::MAX ==> t.row_fault(offset, span, what) == Some(
            KernelError::Exceeds { what, got: (offset + span) as usize, max: t.seq_len },
        ),
        t.row_bytes(offset) == offset * t.hidden_dim * 2,
{
    assert(t.hidden_dim * t.seq_len >= 0) by (nonlinear_arith);
    assert(offset * t.hidden_dim >= 0) by (nonlinear_arith);
}

/// Each two bytes are one word, the first of them its low half.
pub proof fn law_words_are_little_endian(bytes: Seq<u8>, i: int)
    requires
        0 <= 2 * i,
        2 * i + 1 < bytes.len(),
    ensures
        bf16_words(bytes).len() == bytes.len() / 2,
        bf16_words(bytes)[i] == bytes[2 * i] + 256 * bytes[2 * i + 1],
{
}

} // verus!
