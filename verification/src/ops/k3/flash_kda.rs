//! The K3 chunked-prefill recurrence over one segment of a step.

use vstd::prelude::*;

use crate::error::ensure;
use crate::error::ensure_that;
use crate::error::FaultList;
use crate::error::holds_product3;
use crate::error::holds_product;
use crate::error::KernelError;

verus! {

/// The only head width of the kernel.
pub const K3_FLASH_KDA_HEAD_DIM: usize = 128;

/// Elements of a head's recurrent state.
pub const K3_FLASH_KDA_HEAD_STATE: usize = 16384;

/// Where one segment of a larger step starts: its first token row, and the
/// rows of the pooled state that it reads and writes.
#[derive(Clone, Copy, Debug, PartialEq, Eq)]
pub struct K3FlashKdaSpan {
    pub row: usize,
    pub state_in_row: usize,
    pub state_out_row: usize,
}

impl Default for K3FlashKdaSpan {
    /// The segment at the first row, on the first state row.
    fn default() -> (r: Self)
        ensures
            r == (K3FlashKdaSpan { row: 0, state_in_row: 0, state_out_row: 0 }),
    {
        K3FlashKdaSpan { row: 0, state_in_row: 0, state_out_row: 0 }
    }
}

/// What [`k3_flash_kda_fwd_launch`] takes.
#[derive(Clone, Copy, Debug)]
pub struct K3FlashKdaCall {
    pub t_total: usize,
    pub heads: usize,
    pub span: K3FlashKdaSpan,
    pub q_len: usize,
    pub k_len: usize,
    pub v_len: usize,
    pub g_len: usize,
    pub beta_len: usize,
    pub beta_scratch_len: usize,
    pub a_log_len: usize,
    pub dt_bias_len: usize,
    pub state_in_len: usize,
    pub state_out_len: usize,
    pub out_len: usize,
    pub workspace_len: usize,
    /// Bytes that the kernel asks for.
    pub workspace_needed: usize,
}

/// The C arguments that [`k3_flash_kda_fwd_launch`] derives, with the byte offsets
/// of the segment in its buffers.
#[derive(Clone, Copy, Debug, PartialEq, Eq)]
pub struct K3FlashKdaLaunch {
    pub beta_bytes: u64,
    pub row_bytes: u64,
    pub state_in_bytes: u64,
    pub state_out_bytes: u64,
    pub t_total: i32,
    pub heads: i32,
}

impl K3FlashKdaCall {
    /// What is wrong with the token buffers, if anything.
    pub open spec fn token_fault(self) -> Option<KernelError> {
        let width = self.heads * K3_FLASH_KDA_HEAD_DIM;
        let rows = self.span.row + self.t_total;
        KernelError::unless(self.t_total > 0, "K3 FlashKDA got an empty chunk")
            .or_fault(KernelError::unless(
                self.q_len >= rows * width && self.k_len >= rows * width
                    && self.v_len >= rows * width && self.g_len >= rows * width
                    && self.out_len >= rows * width,
                "K3 FlashKDA q/k/v/g/out buffers too small",
            ))
            .or_fault(KernelError::unless(
                self.beta_len >= rows * self.heads
                    && self.beta_scratch_len >= self.t_total * self.heads,
                "K3 FlashKDA beta buffers too small",
            ))
            .or_fault(KernelError::unless(
                self.a_log_len >= self.heads && self.dt_bias_len >= width,
                "K3 FlashKDA a_log/dt_bias too small",
            ))
    }

    /// Why the kernel cannot run, if it cannot.
    pub open spec fn fault(self) -> Option<KernelError> {
        let state = self.heads * K3_FLASH_KDA_HEAD_STATE;
        self.token_fault()
            .or_fault(KernelError::unless(
                self.state_in_len >= (self.span.state_in_row + 1) * state
                    && self.state_out_len >= (self.span.state_out_row + 1) * state,
                "K3 FlashKDA state rows too small",
            ))
            .or_fault(KernelError::unless_sized(
                self.workspace_len >= self.workspace_needed,
                "K3 FlashKDA workspace is under what the chunk needs",
                self.workspace_len as int,
                self.workspace_needed as int,
            ))
    }

    /// The launch of a call without a fault.
    pub open spec fn launch(self) -> K3FlashKdaLaunch {
        let width = self.heads * K3_FLASH_KDA_HEAD_DIM;
        let state = self.heads * K3_FLASH_KDA_HEAD_STATE;
        let beta_bytes = (self.span.row * self.heads * 2) as u64;
        let row_bytes = (self.span.row * width * 2) as u64;
        let state_in_bytes = (self.span.state_in_row * state * 4) as u64;
        let state_out_bytes = (self.span.state_out_row * state * 4) as u64;
        K3FlashKdaLaunch {
            beta_bytes,
            row_bytes,
            state_in_bytes,
            state_out_bytes,
            t_total: self.t_total as i32,
            heads: self.heads as i32,
        }
    }
}

/// One token segment through the chunkwise forward of one layer. The state rows
/// that the span addresses do not overlap.
pub fn k3_flash_kda_fwd_launch(c: &K3FlashKdaCall) -> (r: Result<K3FlashKdaLaunch, KernelError>)
    requires
        c.span.row + c.t_total <= usize::MAX,
        c.heads * K3_FLASH_KDA_HEAD_DIM <= usize::MAX,
        c.beta_len * 2 <= usize::MAX,
        c.q_len * 2 <= usize::MAX,
        c.state_in_len * 4 <= usize::MAX,
        c.state_out_len * 4 <= usize::MAX,
    ensures
        r == KernelError::outcome(c.fault(), c.launch()),
{
    let width: usize = c.heads * K3_FLASH_KDA_HEAD_DIM;
    let rows: usize = c.span.row + c.t_total;
    ensure_that(c.t_total > 0, "K3 FlashKDA got an empty chunk")?;
    ensure_that(
        holds_product(c.q_len, rows, width) && holds_product(c.k_len, rows, width)
            && holds_product(c.v_len, rows, width) && holds_product(c.g_len, rows, width)
            && holds_product(c.out_len, rows, width),
        "K3 FlashKDA q/k/v/g/out buffers too small",
    )?;
    ensure_that(
        holds_product(c.beta_len, rows, c.heads)
            && holds_product(c.beta_scratch_len, c.t_total, c.heads),
        "K3 FlashKDA beta buffers too small",
    )?;
    ensure_that(
        c.a_log_len >= c.heads && c.dt_bias_len >= width,
        "K3 FlashKDA a_log/dt_bias too small",
    )?;
    ensure_that(
        holds_state_row(c.state_in_len, c.span.state_in_row, c.heads)
            && holds_state_row(c.state_out_len, c.span.state_out_row, c.heads),
        "K3 FlashKDA state rows too small",
    )?;
    ensure(
        c.workspace_len >= c.workspace_needed,
        "K3 FlashKDA workspace is under what the chunk needs",
        c.workspace_len,
        c.workspace_needed,
    )?;
    proof {
        let state = c.heads * K3_FLASH_KDA_HEAD_STATE;
        lemma_offset_fits(1, c.span.state_in_row + 1, state, c.state_in_len as int);
    }
    let state: usize = c.heads * K3_FLASH_KDA_HEAD_STATE;
    proof {
        lemma_offset_fits(c.span.row as int, rows as int, c.heads as int, c.beta_len as int);
        lemma_offset_fits(c.span.row as int, rows as int, width as int, c.q_len as int);
        lemma_offset_fits(
            c.span.state_in_row as int,
            c.span.state_in_row + 1,
            state as int,
            c.state_in_len as int,
        );
        lemma_offset_fits(
            c.span.state_out_row as int,
            c.span.state_out_row + 1,
            state as int,
            c.state_out_len as int,
        );
    }
    let beta_bytes: u64 = (c.span.row * c.heads * 2) as u64;
    let row_bytes: u64 = (c.span.row * width * 2) as u64;
    let state_in_bytes: u64 = (c.span.state_in_row * state * 4) as u64;
    let state_out_bytes: u64 = (c.span.state_out_row * state * 4) as u64;
    Ok(K3FlashKdaLaunch {
        beta_bytes,
        row_bytes,
        state_in_bytes,
        state_out_bytes,
        t_total: c.t_total as i32,
        heads: c.heads as i32,
    })
}

/// Whether a pooled state of `len` elements holds the row `row`.
fn holds_state_row(len: usize, row: usize, heads: usize) -> (r: bool)
    ensures
        r == (len >= (row + 1) * (heads * K3_FLASH_KDA_HEAD_STATE)),
{
    if heads == 0 {
        assert((row + 1) * (heads * K3_FLASH_KDA_HEAD_STATE) == 0) by (nonlinear_arith)
            requires
                heads == 0,
        ;
        return true;
    }
    match row.checked_add(1) {
        Some(rows) => {
            assert(rows * heads * K3_FLASH_KDA_HEAD_STATE == rows * (heads
                * K3_FLASH_KDA_HEAD_STATE)) by (nonlinear_arith);
            holds_product3(len, rows, heads, K3_FLASH_KDA_HEAD_STATE)
        },
        None => {
            assert((row + 1) * (heads * K3_FLASH_KDA_HEAD_STATE) >= row + 1) by (nonlinear_arith)
                requires
                    heads * K3_FLASH_KDA_HEAD_STATE >= 1,
                    row >= 0,
            ;
            false
        },
    }
}

proof fn lemma_offset_fits(row: int, rows: int, stride: int, len: int)
    requires
        0 <= row <= rows,
        0 <= stride,
        rows * stride <= len,
    ensures
        0 <= row * stride <= len,
{
    assert(0 <= row * stride <= rows * stride) by (nonlinear_arith)
        requires
            0 <= row <= rows,
            0 <= stride,
    ;
}

/// An accepted segment reads and writes inside its buffers: its token rows end
/// before the buffers do, and so do its state rows.
pub proof fn law_segment_is_backed(call: K3FlashKdaCall, t: int)
    requires
        call.fault() is None,
        0 <= t < call.t_total,
    ensures
        (call.span.row + t + 1) * (call.heads * K3_FLASH_KDA_HEAD_DIM) <= call.q_len,
        (call.span.row + t + 1) * call.heads <= call.beta_len,
        (call.span.state_in_row + 1) * (call.heads * K3_FLASH_KDA_HEAD_STATE)
            <= call.state_in_len,
        (call.span.state_out_row + 1) * (call.heads * K3_FLASH_KDA_HEAD_STATE)
            <= call.state_out_len,
{
    let rows = call.span.row + call.t_total;
    let width = call.heads * K3_FLASH_KDA_HEAD_DIM;
    assert((call.span.row + t + 1) * width <= rows * width) by (nonlinear_arith)
        requires
            call.span.row + t + 1 <= rows,
            width >= 0,
    ;
    assert((call.span.row + t + 1) * call.heads <= rows * call.heads) by (nonlinear_arith)
        requires
            call.span.row + t + 1 <= rows,
    ;
}

/// A chunk of delta attention is accepted exactly when its own operands hold
/// what it reads and writes.
pub proof fn law_k3_flash_kda_is_accepted_when_it_fits(c: K3FlashKdaCall)
    ensures
        c.fault() is None <==> {
            &&& c.t_total > 0
            &&& c.q_len >= (c.span.row + c.t_total) * (c.heads * 128)
            &&& c.k_len >= (c.span.row + c.t_total) * (c.heads * 128)
            &&& c.v_len >= (c.span.row + c.t_total) * (c.heads * 128)
            &&& c.g_len >= (c.span.row + c.t_total) * (c.heads * 128)
            &&& c.out_len >= (c.span.row + c.t_total) * (c.heads * 128)
            &&& c.beta_len >= (c.span.row + c.t_total) * c.heads
            &&& c.beta_scratch_len >= c.t_total * c.heads
            &&& c.a_log_len >= c.heads
            &&& c.dt_bias_len >= c.heads * 128
            &&& c.state_in_len >= (c.span.state_in_row + 1) * (c.heads * 16384)
            &&& c.state_out_len >= (c.span.state_out_row + 1) * (c.heads * 16384)
            &&& c.workspace_len >= c.workspace_needed
        },
{
}

/// A chunk of delta attention is launched with its own numbers, each where it
/// belongs.
pub proof fn law_k3_flash_kda_launches_its_own_numbers(c: K3FlashKdaCall)
    requires
        c.fault() is None,
    ensures
        c.span.row * c.heads * 2 <= u64::MAX ==> c.launch().beta_bytes == c.span.row * c.heads * 2,
        c.span.row * (c.heads * 128) * 2 <= u64::MAX ==> c.launch().row_bytes == c.span.row
            * (c.heads * 128) * 2,
        c.span.state_in_row * (c.heads * 16384) * 4 <= u64::MAX ==> c.launch().state_in_bytes
            == c.span.state_in_row * (c.heads * 16384) * 4,
        c.span.state_out_row * (c.heads * 16384) * 4 <= u64::MAX ==> c.launch().state_out_bytes
            == c.span.state_out_row * (c.heads * 16384) * 4,
        c.t_total <= i32::MAX ==> c.launch().t_total == c.t_total,
        c.heads <= i32::MAX ==> c.launch().heads == c.heads,
{
}

/// A chunk of delta attention that is accepted, and then gets one buffer that
/// does not fit, is refused over that buffer: the answer names the check and
/// shows what it compared.
pub proof fn law_k3_flash_kda_is_refused_over_the_buffer_at_fault(c: K3FlashKdaCall, n: usize)
    requires
        c.fault() is None,
    ensures
        n < (c.span.state_in_row + 1) * (c.heads * 16384) ==> (K3FlashKdaCall { state_in_len: n,
            ..c }).fault() == Some(
            KernelError::Invalid { what: "K3 FlashKDA state rows too small" },
        ),
        n < (c.span.state_out_row + 1) * (c.heads * 16384) ==> (K3FlashKdaCall { state_out_len: n,
            ..c }).fault() == Some(
            KernelError::Invalid { what: "K3 FlashKDA state rows too small" },
        ),
        n < c.workspace_needed ==> (K3FlashKdaCall { workspace_len: n, ..c }).fault() == Some(
            KernelError::Rejected {
                what: "K3 FlashKDA workspace is under what the chunk needs",
                got: n,
                want: c.workspace_needed,
            },
        ),
{
}

} // verus!
