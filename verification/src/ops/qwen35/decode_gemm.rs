//! Qwen 3.5 decode products with single-precision split reduction.

use vstd::prelude::*;

use super::super::linear::ensure_tuned_policy;
use super::super::linear::NumericPolicyState;
use crate::error::checked_i32;
use crate::error::ensure_that;
use crate::error::FaultList;
use crate::error::holds_product;
use crate::error::KernelError;
use crate::shape::DeviceMatrix;
use crate::shape::HiddenStates;
use crate::tensor::has_stream_override;
use crate::tensor::StreamOverride;

verus! {

/// A prepared decode product: output rows, batch, and input columns.
#[derive(Clone, Copy, Debug, PartialEq, Eq)]
pub struct Qwen35DecodeGemm {
    pub rows: i32,
    pub batch: i32,
    pub cols: i32,
    pub device_ordinal: usize,
}

/// What [`Qwen35DecodeGemm::prepare`] takes.
#[derive(Clone, Copy, Debug)]
pub struct Qwen35PrepareCall {
    /// Whether the stream and the weights belong to the context.
    pub contexts_match: bool,
    pub weights: DeviceMatrix,
    pub batch: usize,
    pub policy: NumericPolicyState,
    pub streams: StreamOverride,
    pub device_ordinal: usize,
}

/// What [`Qwen35DecodeGemm::launch`] takes.
#[derive(Clone, Copy, Debug)]
pub struct Qwen35LaunchCall {
    pub policy: NumericPolicyState,
    pub streams: StreamOverride,
    pub device_ordinal: usize,
    /// Whether every buffer belongs to the stream's context.
    pub contexts_match: bool,
    pub weights: DeviceMatrix,
    pub input: HiddenStates,
    pub output: HiddenStates,
}

impl Qwen35PrepareCall {
    /// Why the recipe is refused, if it is.
    pub open spec fn fault(self) -> Option<KernelError> {
        KernelError::unless(
            self.contexts_match,
            "Qwen3.5 decode GEMM weight/stream context mismatch",
        )
            .or_fault(KernelError::too_wide(self.weights.rows as int, "Qwen3.5 decode GEMM rows"))
            .or_fault(KernelError::too_wide(self.batch as int, "Qwen3.5 decode GEMM batch"))
            .or_fault(KernelError::too_wide(self.weights.cols as int, "Qwen3.5 decode GEMM cols"))
            .or_fault(super::super::linear::tuned_fault(self.policy))
            .or_fault(KernelError::unless(
                !(self.streams.stream is Some),
                "Qwen3.5 decode GEMM requires the base decode stream",
            ))
            .or_fault(KernelError::unless(
                self.weights.rows > 0 && self.batch > 0 && self.weights.cols > 0,
                "empty Qwen3.5 decode GEMM shape",
            ))
            .or_fault(KernelError::unless(
                self.weights.data_len >= self.weights.rows * self.weights.cols,
                "Qwen3.5 decode GEMM weight allocation is too small",
            ))
    }

    /// The recipe of a call without a fault.
    pub open spec fn recipe(self) -> Qwen35DecodeGemm {
        Qwen35DecodeGemm {
            rows: self.weights.rows as i32,
            batch: self.batch as i32,
            cols: self.weights.cols as i32,
            device_ordinal: self.device_ordinal,
        }
    }
}

impl Qwen35LaunchCall {
    /// Why the launch of a recipe is refused, if it is.
    pub open spec fn fault(self, gemm: Qwen35DecodeGemm) -> Option<KernelError> {
        super::super::linear::tuned_fault(self.policy)
            .or_fault(KernelError::unless(
                !(self.streams.stream is Some),
                "Qwen3.5 decode GEMM requires the base decode stream",
            ))
            .or_fault(KernelError::unless(
                self.device_ordinal == gemm.device_ordinal && self.contexts_match,
                "Qwen3.5 decode GEMM buffer/stream context mismatch",
            ))
            .or_fault(KernelError::unless(
                self.weights.rows == gemm.rows && self.weights.cols == gemm.cols
                    && self.input.seq_len == gemm.batch && self.input.hidden_dim == gemm.cols
                    && self.output.seq_len == gemm.batch && self.output.hidden_dim == gemm.rows
                    && self.weights.data_len >= gemm.rows * gemm.cols && self.input.data_len
                    >= gemm.batch * gemm.cols && self.output.data_len >= gemm.batch * gemm.rows,
                "Qwen3.5 decode GEMM tensors do not match the prepared shape",
            ))
    }
}

impl Qwen35DecodeGemm {
    /// Whether the recipe is for a shape of at least one element.
    pub open spec fn wf(self) -> bool {
        self.rows > 0 && self.batch > 0 && self.cols > 0
    }

    /// The shape of a recipe, to prepare after the ordinary tuning and before
    /// any capture.
    pub fn prepare(c: &Qwen35PrepareCall) -> (r: Result<Self, KernelError>)
        ensures
            r == KernelError::outcome(c.fault(), c.recipe()),
            r matches Ok(gemm) ==> gemm.wf(),
    {
        ensure_that(c.contexts_match, "Qwen3.5 decode GEMM weight/stream context mismatch")?;
        let rows: i32 = checked_i32(c.weights.rows, "Qwen3.5 decode GEMM rows")?;
        let batch: i32 = checked_i32(c.batch, "Qwen3.5 decode GEMM batch")?;
        let cols: i32 = checked_i32(c.weights.cols, "Qwen3.5 decode GEMM cols")?;
        ensure_tuned_policy(&c.policy)?;
        ensure_that(
            !has_stream_override(&c.streams),
            "Qwen3.5 decode GEMM requires the base decode stream",
        )?;
        ensure_that(
            rows > 0 && batch > 0 && cols > 0,
            "empty Qwen3.5 decode GEMM shape",
        )?;
        ensure_that(
            holds_product(c.weights.data_len, c.weights.rows, c.weights.cols),
            "Qwen3.5 decode GEMM weight allocation is too small",
        )?;
        Ok(Qwen35DecodeGemm { rows, batch, cols, device_ordinal: c.device_ordinal })
    }

    /// Launch a recipe on tensors of its shape: the shape.
    pub fn launch(&self, c: &Qwen35LaunchCall) -> (r: Result<(i32, i32, i32), KernelError>)
        requires
            self.wf(),
        ensures
            r == KernelError::outcome(c.fault(*self), (self.rows, self.batch, self.cols)),
    {
        let rows: usize = self.rows as usize;
        let batch: usize = self.batch as usize;
        let cols: usize = self.cols as usize;
        ensure_tuned_policy(&c.policy)?;
        ensure_that(
            !has_stream_override(&c.streams),
            "Qwen3.5 decode GEMM requires the base decode stream",
        )?;
        ensure_that(
            c.device_ordinal == self.device_ordinal && c.contexts_match,
            "Qwen3.5 decode GEMM buffer/stream context mismatch",
        )?;
        ensure_that(
            c.weights.rows == rows && c.weights.cols == cols && c.input.seq_len == batch
                && c.input.hidden_dim == cols && c.output.seq_len == batch && c.output.hidden_dim
                == rows && holds_product(c.weights.data_len, rows, cols) && holds_product(
                c.input.data_len,
                batch,
                cols,
            ) && holds_product(c.output.data_len, batch, rows),
            "Qwen3.5 decode GEMM tensors do not match the prepared shape",
        )?;
        Ok((self.rows, self.batch, self.cols))
    }
}

/// A recipe that was prepared for some weights and a batch is launched on those
/// weights with tensors of that batch, on the same device and policy, without a
/// fault.
pub proof fn law_prepared_recipe_launches(
    prepared: Qwen35PrepareCall,
    call: Qwen35LaunchCall,
)
    requires
        prepared.fault() is None,
        call.policy == prepared.policy,
        call.streams == prepared.streams,
        call.device_ordinal == prepared.device_ordinal,
        call.contexts_match,
        call.weights == prepared.weights,
        call.input.seq_len == prepared.batch,
        call.input.hidden_dim == prepared.weights.cols,
        call.output.seq_len == prepared.batch,
        call.output.hidden_dim == prepared.weights.rows,
        call.input.extent_fault("input") is None,
        call.output.extent_fault("output") is None,
    ensures
        call.fault(prepared.recipe()) is None,
{
    assert(call.input.hidden_dim * call.input.seq_len == call.input.seq_len
        * call.input.hidden_dim) by (nonlinear_arith);
    assert(call.output.hidden_dim * call.output.seq_len == call.output.seq_len
        * call.output.hidden_dim) by (nonlinear_arith);
}

/// A preparation of a decode product is accepted exactly when its own
/// operands hold what it reads and writes.
pub proof fn law_qwen35_prepare_is_accepted_when_it_fits(c: Qwen35PrepareCall)
    ensures
        c.fault() is None <==> {
            &&& c.contexts_match
            &&& c.weights.rows <= i32::MAX
            &&& c.batch <= i32::MAX
            &&& c.weights.cols <= i32::MAX
            &&& super::super::linear::tuned_fault(c.policy) is None
            &&& !(c.streams.stream is Some)
            &&& c.weights.rows > 0
            &&& c.batch > 0
            &&& c.weights.cols > 0
            &&& c.weights.data_len >= c.weights.rows * c.weights.cols
        },
{
}

/// A launch of a prepared decode product is accepted exactly when its own
/// operands hold what it reads and writes.
pub proof fn law_qwen35_launch_is_accepted_when_it_fits(c: Qwen35LaunchCall, gemm: Qwen35DecodeGemm)
    ensures
        c.fault(gemm) is None <==> {
            &&& super::super::linear::tuned_fault(c.policy) is None
            &&& !(c.streams.stream is Some)
            &&& c.device_ordinal == gemm.device_ordinal
            &&& c.contexts_match
            &&& c.weights.rows == gemm.rows
            &&& c.weights.cols == gemm.cols
            &&& c.input.seq_len == gemm.batch
            &&& c.input.hidden_dim == gemm.cols
            &&& c.output.seq_len == gemm.batch
            &&& c.output.hidden_dim == gemm.rows
            &&& c.weights.data_len >= gemm.rows * gemm.cols
            &&& c.input.data_len >= gemm.batch * gemm.cols
            &&& c.output.data_len >= gemm.batch * gemm.rows
        },
{
}

/// An accepted preparation records the weight's own shape, the batch and the
/// device that it was made for.
pub proof fn law_recipe_is_that_of_the_weight(c: Qwen35PrepareCall)
    requires
        c.fault() is None,
    ensures
        c.recipe().rows == c.weights.rows,
        c.recipe().cols == c.weights.cols,
        c.recipe().batch == c.batch,
        c.recipe().device_ordinal == c.device_ordinal,
        c.recipe().wf() <==> c.recipe().rows > 0 && c.recipe().batch > 0 && c.recipe().cols > 0,
{
}

} // verus!
