//! When attention over one contiguous cache runs, and with what.

use vstd::prelude::*;

use super::single::SingleDecodeNhd;
use super::single::SinglePrefillCausal;
use super::single::SinglePrefillHd256;
use super::single::SinglePrefillHd512;
use super::single::SinglePrefillNoncausal;
use crate::error::KernelError;
use crate::shape::HiddenStates;

verus! {

/// A non-causal prefill of one request is accepted exactly when its own
/// operands hold what it reads and writes.
pub proof fn law_single_prefill_noncausal_is_accepted_when_it_fits(c: SinglePrefillNoncausal)
    ensures
        c.fault() is None <==> {
            &&& c.head_dim == 128 || c.head_dim == 64
        },
{
}

/// A non-causal prefill of one request is launched with its own numbers, each
/// where it belongs.
pub proof fn law_single_prefill_noncausal_launches_its_own_numbers(c: SinglePrefillNoncausal)
    requires
        c.fault() is None,
    ensures
        c.row_offset * c.q.hidden_dim * 2 <= u64::MAX ==> c.launch().row_bytes == c.row_offset
            * c.q.hidden_dim * 2,
        c.num_q_heads <= i32::MAX ==> c.launch().num_q_heads == c.num_q_heads,
        c.num_kv_heads <= i32::MAX ==> c.launch().num_kv_heads == c.num_kv_heads,
        c.launch().head_dim == c.head_dim,
        c.q_seq_len <= i32::MAX ==> c.launch().q_seq_len == c.q_seq_len,
        c.kv_len <= i32::MAX ==> c.launch().kv_len == c.kv_len,
        c.k_cache.seq_len <= i32::MAX ==> c.launch().cache_rows == c.k_cache.seq_len,
        c.launch().hd64 == (c.head_dim == 64),
{
}

/// A decode of one request is accepted exactly when its own operands hold
/// what it reads and writes.
pub proof fn law_single_decode_nhd_is_accepted_when_it_fits(c: SingleDecodeNhd)
    ensures
        c.fault() is None <==> {
            &&& c.q.hidden_dim * c.q.seq_len <= c.q.data_len
            &&& c.k_cache.hidden_dim * c.k_cache.seq_len <= c.k_cache.data_len
            &&& c.v_cache.hidden_dim * c.v_cache.seq_len <= c.v_cache.data_len
            &&& c.output.hidden_dim * c.output.seq_len <= c.output.data_len
        },
{
    assert(c.q.hidden_dim * c.q.seq_len >= 0) by (nonlinear_arith);
    assert(c.k_cache.hidden_dim * c.k_cache.seq_len >= 0) by (nonlinear_arith);
    assert(c.v_cache.hidden_dim * c.v_cache.seq_len >= 0) by (nonlinear_arith);
    assert(c.output.hidden_dim * c.output.seq_len >= 0) by (nonlinear_arith);
}

/// A decode of one request is launched with its own numbers, each where it
/// belongs.
pub proof fn law_single_decode_nhd_launches_its_own_numbers(c: SingleDecodeNhd)
    requires
        c.fault() is None,
    ensures
        c.num_q_heads <= i32::MAX ==> c.launch().num_q_heads == c.num_q_heads,
        c.num_kv_heads <= i32::MAX ==> c.launch().num_kv_heads == c.num_kv_heads,
        c.head_dim <= i32::MAX ==> c.launch().head_dim == c.head_dim,
        c.kv_len <= i32::MAX ==> c.launch().kv_len == c.kv_len,
        c.k_cache.seq_len <= i32::MAX ==> c.launch().cache_rows == c.k_cache.seq_len,
{
}

/// A causal prefill of one request is accepted exactly when its own operands
/// hold what it reads and writes.
pub proof fn law_single_prefill_causal_is_accepted_when_it_fits(c: SinglePrefillCausal)
    ensures
        c.fault() is None <==> {
            &&& c.row_offset + c.q_seq_len <= c.q.seq_len
            &&& c.q.hidden_dim * c.q.seq_len <= c.q.data_len
            &&& c.row_offset * c.q.hidden_dim * 2 <= usize::MAX
            &&& c.output.hidden_dim * c.output.seq_len <= c.output.data_len
            &&& c.k_cache.hidden_dim * c.k_cache.seq_len <= c.k_cache.data_len
            &&& c.v_cache.hidden_dim * c.v_cache.seq_len <= c.v_cache.data_len
        },
{
    assert(c.q.hidden_dim * c.q.seq_len >= 0) by (nonlinear_arith);
    assert(c.row_offset * c.q.hidden_dim >= 0) by (nonlinear_arith);
    assert(c.output.hidden_dim * c.output.seq_len >= 0) by (nonlinear_arith);
    assert(c.k_cache.hidden_dim * c.k_cache.seq_len >= 0) by (nonlinear_arith);
    assert(c.v_cache.hidden_dim * c.v_cache.seq_len >= 0) by (nonlinear_arith);
}

/// A causal prefill of one request is launched with its own numbers, each
/// where it belongs.
pub proof fn law_single_prefill_causal_launches_its_own_numbers(c: SinglePrefillCausal)
    requires
        c.fault() is None,
    ensures
        c.launch().row_bytes == c.row_offset * c.q.hidden_dim * 2,
        c.num_q_heads <= i32::MAX ==> c.launch().num_q_heads == c.num_q_heads,
        c.num_kv_heads <= i32::MAX ==> c.launch().num_kv_heads == c.num_kv_heads,
        c.head_dim <= i32::MAX ==> c.launch().head_dim == c.head_dim,
        c.q_seq_len <= i32::MAX ==> c.launch().q_seq_len == c.q_seq_len,
        c.kv_len <= i32::MAX ==> c.launch().kv_len == c.kv_len,
        c.k_cache.seq_len <= i32::MAX ==> c.launch().cache_rows == c.k_cache.seq_len,
{
}

/// A prefill of one request over 512-wide heads is accepted exactly when its
/// own operands hold what it reads and writes.
pub proof fn law_single_prefill_hd512_is_accepted_when_it_fits(c: SinglePrefillHd512)
    ensures
        c.fault() is None <==> {
            &&& crate::float_bits::finite(c.sm_scale_bits)
            &&& c.row_offset + c.q_seq_len <= c.q.seq_len
            &&& c.q.hidden_dim * c.q.seq_len <= c.q.data_len
            &&& c.row_offset * c.q.hidden_dim * 2 <= usize::MAX
            &&& c.output.hidden_dim * c.output.seq_len <= c.output.data_len
            &&& c.k_cache.hidden_dim * c.k_cache.seq_len <= c.k_cache.data_len
            &&& c.v_cache.hidden_dim * c.v_cache.seq_len <= c.v_cache.data_len
        },
{
    assert(c.q.hidden_dim * c.q.seq_len >= 0) by (nonlinear_arith);
    assert(c.row_offset * c.q.hidden_dim >= 0) by (nonlinear_arith);
    assert(c.output.hidden_dim * c.output.seq_len >= 0) by (nonlinear_arith);
    assert(c.k_cache.hidden_dim * c.k_cache.seq_len >= 0) by (nonlinear_arith);
    assert(c.v_cache.hidden_dim * c.v_cache.seq_len >= 0) by (nonlinear_arith);
}

/// A prefill of one request over 512-wide heads is launched with its own
/// numbers, each where it belongs.
pub proof fn law_single_prefill_hd512_launches_its_own_numbers(c: SinglePrefillHd512)
    requires
        c.fault() is None,
    ensures
        c.launch().row_bytes == c.row_offset * c.q.hidden_dim * 2,
        c.num_q_heads <= i32::MAX ==> c.launch().num_q_heads == c.num_q_heads,
        c.num_kv_heads <= i32::MAX ==> c.launch().num_kv_heads == c.num_kv_heads,
        c.q_seq_len <= i32::MAX ==> c.launch().q_seq_len == c.q_seq_len,
        c.kv_len <= i32::MAX ==> c.launch().kv_len == c.kv_len,
        c.k_cache.seq_len <= i32::MAX ==> c.launch().cache_rows == c.k_cache.seq_len,
{
}

/// A prefill of one request over 256-wide heads is accepted exactly when its
/// own operands hold what it reads and writes.
pub proof fn law_single_prefill_hd256_is_accepted_when_it_fits(c: SinglePrefillHd256)
    ensures
        c.fault() is None <==> {
            &&& crate::float_bits::finite(c.sm_scale_bits)
            &&& c.num_q_heads > 0
            &&& c.num_kv_heads > 0
            &&& c.q_seq_len > 0
            &&& c.num_q_heads % c.num_kv_heads == 0
            &&& c.num_q_heads / c.num_kv_heads == 1 || c.num_q_heads / c.num_kv_heads
                    == 2 || c.num_q_heads / c.num_kv_heads
                    == 3 || c.num_q_heads / c.num_kv_heads
                    == 4 || c.num_q_heads / c.num_kv_heads == 8
            &&& c.q.hidden_dim == c.num_q_heads * 256
            &&& c.output.hidden_dim == c.q.hidden_dim
            &&& c.output.seq_len == c.q.seq_len
            &&& c.k_cache.hidden_dim == c.num_kv_heads * 256
            &&& c.v_cache.hidden_dim == c.k_cache.hidden_dim
            &&& c.v_cache.seq_len == c.k_cache.seq_len
            &&& c.kv_len <= c.k_cache.seq_len
            &&& c.q_seq_len <= c.kv_len
            &&& c.row_offset + c.q_seq_len <= c.q.seq_len
            &&& c.q.hidden_dim * c.q.seq_len <= c.q.data_len
            &&& c.row_offset * c.q.hidden_dim * 2 <= usize::MAX
            &&& c.output.hidden_dim * c.output.seq_len <= c.output.data_len
            &&& c.k_cache.hidden_dim * c.k_cache.seq_len <= c.k_cache.data_len
            &&& c.v_cache.hidden_dim * c.v_cache.seq_len <= c.v_cache.data_len
            &&& c.q.hidden_dim * c.q.seq_len <= i32::MAX
            &&& c.output.hidden_dim * c.output.seq_len <= i32::MAX
            &&& c.k_cache.hidden_dim * c.k_cache.seq_len <= i32::MAX
            &&& c.v_cache.hidden_dim * c.v_cache.seq_len <= i32::MAX
            &&& c.num_q_heads <= i32::MAX
            &&& c.num_kv_heads <= i32::MAX
            &&& c.q_seq_len <= i32::MAX
            &&& c.kv_len <= i32::MAX
            &&& c.k_cache.seq_len <= i32::MAX
        },
{
    assert((c.num_q_heads * 256) >= 0) by (nonlinear_arith);
    assert((c.num_kv_heads * 256) >= 0) by (nonlinear_arith);
    assert(c.q.hidden_dim * c.q.seq_len >= 0) by (nonlinear_arith);
    assert(c.row_offset * c.q.hidden_dim >= 0) by (nonlinear_arith);
    assert(c.output.hidden_dim * c.output.seq_len >= 0) by (nonlinear_arith);
    assert(c.k_cache.hidden_dim * c.k_cache.seq_len >= 0) by (nonlinear_arith);
    assert(c.v_cache.hidden_dim * c.v_cache.seq_len >= 0) by (nonlinear_arith);
    let sizes = super::single::SUPPORTED_GQA_GROUP_SIZES@;
    assert(sizes.len() == 5);
    assert(sizes[0] == 1 && sizes[1] == 2 && sizes[2] == 3 && sizes[3] == 4 && sizes[4] == 8);
}

/// A prefill of one request over 256-wide heads is launched with its own
/// numbers, each where it belongs.
pub proof fn law_single_prefill_hd256_launches_its_own_numbers(c: SinglePrefillHd256)
    requires
        c.fault() is None,
    ensures
        c.launch().row_bytes == c.row_offset * c.q.hidden_dim * 2,
        c.launch().num_q_heads == c.num_q_heads,
        c.launch().num_kv_heads == c.num_kv_heads,
        c.launch().q_seq_len == c.q_seq_len,
        c.launch().kv_len == c.kv_len,
        c.launch().cache_rows == c.k_cache.seq_len,
{
}

/// A decode of one request that is accepted, and then gets one tensor with
/// fewer elements than its shape claims, is refused over that tensor: the
/// answer names it and shows both lengths.
pub proof fn law_single_decode_nhd_is_refused_over_the_tensor_at_fault(c: SingleDecodeNhd, n: usize)
    requires
        c.fault() is None,
    ensures
        n < c.q.hidden_dim * c.q.seq_len ==> (SingleDecodeNhd {
            q: HiddenStates { data_len: n, ..c.q },
            ..c
        }).fault() == Some(
            KernelError::Backing {
                what: "single_decode q",
                len: n,
                need: (c.q.hidden_dim * c.q.seq_len) as usize,
            },
        ),
        n < c.k_cache.hidden_dim * c.k_cache.seq_len ==> (SingleDecodeNhd {
            k_cache: HiddenStates { data_len: n, ..c.k_cache },
            ..c
        }).fault() == Some(
            KernelError::Backing {
                what: "single_decode k_cache",
                len: n,
                need: (c.k_cache.hidden_dim * c.k_cache.seq_len) as usize,
            },
        ),
        n < c.v_cache.hidden_dim * c.v_cache.seq_len ==> (SingleDecodeNhd {
            v_cache: HiddenStates { data_len: n, ..c.v_cache },
            ..c
        }).fault() == Some(
            KernelError::Backing {
                what: "single_decode v_cache",
                len: n,
                need: (c.v_cache.hidden_dim * c.v_cache.seq_len) as usize,
            },
        ),
        n < c.output.hidden_dim * c.output.seq_len ==> (SingleDecodeNhd {
            output: HiddenStates { data_len: n, ..c.output },
            ..c
        }).fault() == Some(
            KernelError::Backing {
                what: "single_decode output",
                len: n,
                need: (c.output.hidden_dim * c.output.seq_len) as usize,
            },
        ),
{
    assert(c.q.hidden_dim * c.q.seq_len >= 0) by (nonlinear_arith);
    assert(c.k_cache.hidden_dim * c.k_cache.seq_len >= 0) by (nonlinear_arith);
    assert(c.v_cache.hidden_dim * c.v_cache.seq_len >= 0) by (nonlinear_arith);
    assert(c.output.hidden_dim * c.output.seq_len >= 0) by (nonlinear_arith);
}

/// A causal prefill of one request that is accepted, and then gets one tensor
/// with fewer elements than its shape claims, is refused over that tensor:
/// the answer names it and shows both lengths.
pub proof fn law_single_prefill_causal_is_refused_over_the_tensor_at_fault(
    c: SinglePrefillCausal,
    n: usize,
)
    requires
        c.fault() is None,
    ensures
        n < c.q.hidden_dim * c.q.seq_len ==> (SinglePrefillCausal {
            q: HiddenStates { data_len: n, ..c.q },
            ..c
        }).fault() == Some(
            KernelError::Backing {
                what: "single_prefill_causal q",
                len: n,
                need: (c.q.hidden_dim * c.q.seq_len) as usize,
            },
        ),
        n < c.k_cache.hidden_dim * c.k_cache.seq_len ==> (SinglePrefillCausal {
            k_cache: HiddenStates { data_len: n, ..c.k_cache },
            ..c
        }).fault() == Some(
            KernelError::Backing {
                what: "single_prefill_causal k_cache",
                len: n,
                need: (c.k_cache.hidden_dim * c.k_cache.seq_len) as usize,
            },
        ),
        n < c.v_cache.hidden_dim * c.v_cache.seq_len ==> (SinglePrefillCausal {
            v_cache: HiddenStates { data_len: n, ..c.v_cache },
            ..c
        }).fault() == Some(
            KernelError::Backing {
                what: "single_prefill_causal v_cache",
                len: n,
                need: (c.v_cache.hidden_dim * c.v_cache.seq_len) as usize,
            },
        ),
        n < c.output.hidden_dim * c.output.seq_len ==> (SinglePrefillCausal {
            output: HiddenStates { data_len: n, ..c.output },
            ..c
        }).fault() == Some(
            KernelError::Backing {
                what: "single_prefill_causal output",
                len: n,
                need: (c.output.hidden_dim * c.output.seq_len) as usize,
            },
        ),
{
    assert(c.q.hidden_dim * c.q.seq_len >= 0) by (nonlinear_arith);
    assert(c.k_cache.hidden_dim * c.k_cache.seq_len >= 0) by (nonlinear_arith);
    assert(c.v_cache.hidden_dim * c.v_cache.seq_len >= 0) by (nonlinear_arith);
    assert(c.output.hidden_dim * c.output.seq_len >= 0) by (nonlinear_arith);
}

/// A prefill of one request over 512-wide heads that is accepted, and then
/// gets one tensor with fewer elements than its shape claims, is refused over
/// that tensor: the answer names it and shows both lengths.
pub proof fn law_single_prefill_hd512_is_refused_over_the_tensor_at_fault(
    c: SinglePrefillHd512,
    n: usize,
)
    requires
        c.fault() is None,
    ensures
        n < c.q.hidden_dim * c.q.seq_len ==> (SinglePrefillHd512 {
            q: HiddenStates { data_len: n, ..c.q },
            ..c
        }).fault() == Some(
            KernelError::Backing {
                what: "single_prefill_hd512 q",
                len: n,
                need: (c.q.hidden_dim * c.q.seq_len) as usize,
            },
        ),
        n < c.k_cache.hidden_dim * c.k_cache.seq_len ==> (SinglePrefillHd512 {
            k_cache: HiddenStates { data_len: n, ..c.k_cache },
            ..c
        }).fault() == Some(
            KernelError::Backing {
                what: "single_prefill_hd512 k_cache",
                len: n,
                need: (c.k_cache.hidden_dim * c.k_cache.seq_len) as usize,
            },
        ),
        n < c.v_cache.hidden_dim * c.v_cache.seq_len ==> (SinglePrefillHd512 {
            v_cache: HiddenStates { data_len: n, ..c.v_cache },
            ..c
        }).fault() == Some(
            KernelError::Backing {
                what: "single_prefill_hd512 v_cache",
                len: n,
                need: (c.v_cache.hidden_dim * c.v_cache.seq_len) as usize,
            },
        ),
        n < c.output.hidden_dim * c.output.seq_len ==> (SinglePrefillHd512 {
            output: HiddenStates { data_len: n, ..c.output },
            ..c
        }).fault() == Some(
            KernelError::Backing {
                what: "single_prefill_hd512 output",
                len: n,
                need: (c.output.hidden_dim * c.output.seq_len) as usize,
            },
        ),
{
    assert(c.q.hidden_dim * c.q.seq_len >= 0) by (nonlinear_arith);
    assert(c.k_cache.hidden_dim * c.k_cache.seq_len >= 0) by (nonlinear_arith);
    assert(c.v_cache.hidden_dim * c.v_cache.seq_len >= 0) by (nonlinear_arith);
    assert(c.output.hidden_dim * c.output.seq_len >= 0) by (nonlinear_arith);
}

/// A prefill of one request over 256-wide heads that is accepted, and then
/// gets one tensor with fewer elements than its shape claims, is refused over
/// that tensor: the answer names it and shows both lengths.
pub proof fn law_single_prefill_hd256_is_refused_over_the_tensor_at_fault(
    c: SinglePrefillHd256,
    n: usize,
)
    requires
        c.fault() is None,
    ensures
        n < c.q.hidden_dim * c.q.seq_len ==> (SinglePrefillHd256 {
            q: HiddenStates { data_len: n, ..c.q },
            ..c
        }).fault() == Some(
            KernelError::Backing {
                what: "single_prefill_hd256 q",
                len: n,
                need: (c.q.hidden_dim * c.q.seq_len) as usize,
            },
        ),
        n < c.k_cache.hidden_dim * c.k_cache.seq_len ==> (SinglePrefillHd256 {
            k_cache: HiddenStates { data_len: n, ..c.k_cache },
            ..c
        }).fault() == Some(
            KernelError::Backing {
                what: "single_prefill_hd256 k_cache",
                len: n,
                need: (c.k_cache.hidden_dim * c.k_cache.seq_len) as usize,
            },
        ),
        n < c.v_cache.hidden_dim * c.v_cache.seq_len ==> (SinglePrefillHd256 {
            v_cache: HiddenStates { data_len: n, ..c.v_cache },
            ..c
        }).fault() == Some(
            KernelError::Backing {
                what: "single_prefill_hd256 v_cache",
                len: n,
                need: (c.v_cache.hidden_dim * c.v_cache.seq_len) as usize,
            },
        ),
        n < c.output.hidden_dim * c.output.seq_len ==> (SinglePrefillHd256 {
            output: HiddenStates { data_len: n, ..c.output },
            ..c
        }).fault() == Some(
            KernelError::Backing {
                what: "single_prefill_hd256 output",
                len: n,
                need: (c.output.hidden_dim * c.output.seq_len) as usize,
            },
        ),
{
    assert(c.q.hidden_dim * c.q.seq_len >= 0) by (nonlinear_arith);
    assert(c.k_cache.hidden_dim * c.k_cache.seq_len >= 0) by (nonlinear_arith);
    assert(c.v_cache.hidden_dim * c.v_cache.seq_len >= 0) by (nonlinear_arith);
    assert(c.output.hidden_dim * c.output.seq_len >= 0) by (nonlinear_arith);
}

} // verus!
