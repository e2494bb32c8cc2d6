//! Attention of one sequence over a contiguous cache.

use vstd::prelude::*;

use crate::error::checked_i32;
use crate::error::checked_product;
use crate::error::ensure;
use crate::error::ensure_at_most;
use crate::error::ensure_met;
use crate::error::ensure_that;
use crate::error::FaultList;
use crate::error::KernelError;
use crate::float_bits;
use crate::shape::HiddenStates;

verus! {

/// Query heads per KV head that the attention kernels are instantiated for.
pub const SUPPORTED_GQA_GROUP_SIZES: [usize; 5] = [1, 2, 3, 4, 8];

/// Whether a group size is instantiated.
pub fn is_supported_group(group: usize) -> (r: bool)
    ensures
        r == SUPPORTED_GQA_GROUP_SIZES@.contains(group),
{
    let mut i: usize = 0;
    while i < 5
        invariant
            i <= 5,
            forall|j: int| 0 <= j < i ==> SUPPORTED_GQA_GROUP_SIZES@[j] != group,
        decreases 5 - i,
    {
        if SUPPORTED_GQA_GROUP_SIZES[i] == group {
            assert(SUPPORTED_GQA_GROUP_SIZES@[i as int] == group);
            return true;
        }
        i += 1;
    }
    false
}

/// What [`single_prefill_nhd_noncausal_into`] takes.
#[derive(Clone, Copy, Debug)]
pub struct SinglePrefillNoncausal {
    pub q: HiddenStates,
    pub row_offset: usize,
    pub q_seq_len: usize,
    pub k_cache: HiddenStates,
    pub v_cache: HiddenStates,
    pub output: HiddenStates,
    pub num_q_heads: usize,
    pub num_kv_heads: usize,
    pub head_dim: usize,
    pub kv_len: usize,
}

/// The C arguments that [`single_prefill_nhd_noncausal_into`] derives.
#[derive(Clone, Copy, Debug, PartialEq, Eq)]
pub struct SinglePrefillNoncausalLaunch {
    pub row_bytes: u64,
    pub num_q_heads: i32,
    pub num_kv_heads: i32,
    pub head_dim: i32,
    pub q_seq_len: i32,
    pub kv_len: i32,
    pub cache_rows: i32,
    pub hd64: bool,
}

impl SinglePrefillNoncausal {
    /// Why the kernel cannot run, if it cannot.
    pub open spec fn fault(self) -> Option<KernelError> {
        KernelError::unless_met(
            self.head_dim == 128 || self.head_dim == 64,
            "single_prefill_nhd_noncausal has no such head_dim instantiation",
            self.head_dim as int,
        )
    }

    /// The launch of a call without a fault.
    pub open spec fn launch(self) -> SinglePrefillNoncausalLaunch {
        let row_bytes = self.q.row_bytes(self.row_offset) as u64;
        SinglePrefillNoncausalLaunch {
            row_bytes,
            num_q_heads: self.num_q_heads as i32,
            num_kv_heads: self.num_kv_heads as i32,
            head_dim: self.head_dim as i32,
            q_seq_len: self.q_seq_len as i32,
            kv_len: self.kv_len as i32,
            cache_rows: self.k_cache.seq_len as i32,
            hd64: self.head_dim == 64,
        }
    }
}

/// Non-causal attention of one request's draft block. Queries and output share
/// the row window `[row_offset, row_offset + q_seq_len)`; the caches are the
/// request's own. The kernel exists for head_dim 64 and 128.
pub fn single_prefill_nhd_noncausal_into(c: &SinglePrefillNoncausal) -> (r: Result<
    SinglePrefillNoncausalLaunch,
    KernelError,
>)
    requires
        c.q.hidden_dim == c.num_q_heads * c.head_dim,
        c.output.hidden_dim == c.q.hidden_dim,
        c.output.seq_len == c.q.seq_len,
        c.k_cache.hidden_dim == c.num_kv_heads * c.head_dim,
        c.v_cache.hidden_dim == c.k_cache.hidden_dim,
        c.v_cache.seq_len == c.k_cache.seq_len,
        c.kv_len <= c.k_cache.seq_len,
        c.row_offset + c.q_seq_len <= c.q.seq_len,
        c.row_offset * c.q.hidden_dim * 2 <= usize::MAX,
    ensures
        r == KernelError::outcome(c.fault(), c.launch()),
{
    proof {
        assert(c.row_offset * c.q.hidden_dim >= 0) by (nonlinear_arith);
    }
    let row_bytes: u64 = (c.row_offset * c.q.hidden_dim * 2) as u64;
    ensure_met(
        c.head_dim == 128 || c.head_dim == 64,
        "single_prefill_nhd_noncausal has no such head_dim instantiation",
        c.head_dim,
    )?;
    Ok(SinglePrefillNoncausalLaunch {
        row_bytes,
        num_q_heads: c.num_q_heads as i32,
        num_kv_heads: c.num_kv_heads as i32,
        head_dim: c.head_dim as i32,
        q_seq_len: c.q_seq_len as i32,
        kv_len: c.kv_len as i32,
        cache_rows: c.k_cache.seq_len as i32,
        hd64: c.head_dim == 64,
    })
}

/// What [`single_decode_nhd_into`] takes.
#[derive(Clone, Copy, Debug)]
pub struct SingleDecodeNhd {
    pub q: HiddenStates,
    pub k_cache: HiddenStates,
    pub v_cache: HiddenStates,
    pub output: HiddenStates,
    pub num_q_heads: usize,
    pub num_kv_heads: usize,
    pub head_dim: usize,
    pub kv_len: usize,
}

/// The C arguments that [`single_decode_nhd_into`] derives.
#[derive(Clone, Copy, Debug, PartialEq, Eq)]
pub struct SingleDecodeNhdLaunch {
    pub num_q_heads: i32,
    pub num_kv_heads: i32,
    pub head_dim: i32,
    pub kv_len: i32,
    pub cache_rows: i32,
}

impl SingleDecodeNhd {
    /// Why the kernel cannot run, if it cannot.
    pub open spec fn fault(self) -> Option<KernelError> {
        self.q.extent_fault("single_decode q")
            .or_fault(self.k_cache.extent_fault("single_decode k_cache"))
            .or_fault(self.v_cache.extent_fault("single_decode v_cache"))
            .or_fault(self.output.extent_fault("single_decode output"))
    }

    /// The launch of a call without a fault.
    pub open spec fn launch(self) -> SingleDecodeNhdLaunch {
        SingleDecodeNhdLaunch {
            num_q_heads: self.num_q_heads as i32,
            num_kv_heads: self.num_kv_heads as i32,
            head_dim: self.head_dim as i32,
            kv_len: self.kv_len as i32,
            cache_rows: self.k_cache.seq_len as i32,
        }
    }
}

/// Single-query decode over a contiguous cache: one query attends to the whole
/// prefix of `kv_len` tokens.
pub fn single_decode_nhd_into(c: &SingleDecodeNhd) -> (r: Result<
    SingleDecodeNhdLaunch,
    KernelError,
>)
    requires
        c.q.seq_len == 1,
        c.q.hidden_dim == c.num_q_heads * c.head_dim,
        c.output.hidden_dim == c.q.hidden_dim,
        c.output.seq_len == c.q.seq_len,
        c.k_cache.hidden_dim == c.num_kv_heads * c.head_dim,
        c.v_cache.hidden_dim == c.k_cache.hidden_dim,
        c.v_cache.seq_len == c.k_cache.seq_len,
        c.kv_len <= c.k_cache.seq_len,
    ensures
        r == KernelError::outcome(c.fault(), c.launch()),
{
    c.q.checked_extent("single_decode q")?;
    c.k_cache.checked_extent("single_decode k_cache")?;
    c.v_cache.checked_extent("single_decode v_cache")?;
    c.output.checked_extent("single_decode output")?;
    Ok(SingleDecodeNhdLaunch {
        num_q_heads: c.num_q_heads as i32,
        num_kv_heads: c.num_kv_heads as i32,
        head_dim: c.head_dim as i32,
        kv_len: c.kv_len as i32,
        cache_rows: c.k_cache.seq_len as i32,
    })
}

/// What [`single_prefill_nhd_causal_into`] takes.
#[derive(Clone, Copy, Debug)]
pub struct SinglePrefillCausal {
    pub q: HiddenStates,
    pub row_offset: usize,
    pub q_seq_len: usize,
    pub k_cache: HiddenStates,
    pub v_cache: HiddenStates,
    pub output: HiddenStates,
    pub num_q_heads: usize,
    pub num_kv_heads: usize,
    pub head_dim: usize,
    pub kv_len: usize,
}

/// The C arguments that [`single_prefill_nhd_causal_into`] derives.
#[derive(Clone, Copy, Debug, PartialEq, Eq)]
pub struct SinglePrefillCausalLaunch {
    pub row_bytes: u64,
    pub num_q_heads: i32,
    pub num_kv_heads: i32,
    pub head_dim: i32,
    pub q_seq_len: i32,
    pub kv_len: i32,
    pub cache_rows: i32,
}

impl SinglePrefillCausal {
    /// Why the kernel cannot run, if it cannot.
    pub open spec fn fault(self) -> Option<KernelError> {
        self.q.row_fault(self.row_offset, self.q_seq_len, "single_prefill_causal q")
            .or_fault(self.output.extent_fault("single_prefill_causal output"))
            .or_fault(self.k_cache.extent_fault("single_prefill_causal k_cache"))
            .or_fault(self.v_cache.extent_fault("single_prefill_causal v_cache"))
    }

    /// The launch of a call without a fault.
    pub open spec fn launch(self) -> SinglePrefillCausalLaunch {
        let row_bytes = self.q.row_bytes(self.row_offset) as u64;
        SinglePrefillCausalLaunch {
            row_bytes,
            num_q_heads: self.num_q_heads as i32,
            num_kv_heads: self.num_kv_heads as i32,
            head_dim: self.head_dim as i32,
            q_seq_len: self.q_seq_len as i32,
            kv_len: self.kv_len as i32,
            cache_rows: self.k_cache.seq_len as i32,
        }
    }
}

/// Causal prefill of one sequence. Queries and output share the row window
/// `[row_offset, row_offset + q_seq_len)`.
pub fn single_prefill_nhd_causal_into(c: &SinglePrefillCausal) -> (r: Result<
    SinglePrefillCausalLaunch,
    KernelError,
>)
    requires
        c.q.hidden_dim == c.num_q_heads * c.head_dim,
        c.output.hidden_dim == c.q.hidden_dim,
        c.output.seq_len == c.q.seq_len,
        c.k_cache.hidden_dim == c.num_kv_heads * c.head_dim,
        c.v_cache.hidden_dim == c.k_cache.hidden_dim,
        c.v_cache.seq_len == c.k_cache.seq_len,
        c.kv_len <= c.k_cache.seq_len,
        c.q_seq_len <= c.kv_len,
    ensures
        r == KernelError::outcome(c.fault(), c.launch()),
{
    let row_bytes: u64 = c.q.checked_row_offset(
        c.row_offset,
        c.q_seq_len,
        "single_prefill_causal q",
    )?;
    c.output.checked_extent("single_prefill_causal output")?;
    c.k_cache.checked_extent("single_prefill_causal k_cache")?;
    c.v_cache.checked_extent("single_prefill_causal v_cache")?;
    Ok(SinglePrefillCausalLaunch {
        row_bytes,
        num_q_heads: c.num_q_heads as i32,
        num_kv_heads: c.num_kv_heads as i32,
        head_dim: c.head_dim as i32,
        q_seq_len: c.q_seq_len as i32,
        kv_len: c.kv_len as i32,
        cache_rows: c.k_cache.seq_len as i32,
    })
}

/// What [`single_prefill_hd512_into`] takes.
#[derive(Clone, Copy, Debug)]
pub struct SinglePrefillHd512 {
    pub q: HiddenStates,
    pub row_offset: usize,
    pub q_seq_len: usize,
    pub k_cache: HiddenStates,
    pub v_cache: HiddenStates,
    pub output: HiddenStates,
    pub num_q_heads: usize,
    pub num_kv_heads: usize,
    pub kv_len: usize,
    /// The softmax scale, as its bit pattern.
    pub sm_scale_bits: u32,
}

/// The C arguments that [`single_prefill_hd512_into`] derives.
#[derive(Clone, Copy, Debug, PartialEq, Eq)]
pub struct SinglePrefillHd512Launch {
    pub row_bytes: u64,
    pub num_q_heads: i32,
    pub num_kv_heads: i32,
    pub q_seq_len: i32,
    pub kv_len: i32,
    pub cache_rows: i32,
}

impl SinglePrefillHd512 {
    /// Why the kernel cannot run, if it cannot.
    pub open spec fn fault(self) -> Option<KernelError> {
        KernelError::unless(
            crate::float_bits::finite(self.sm_scale_bits),
            "single_prefill_hd512 sm_scale must be finite",
        )
            .or_fault(self.q.row_fault(self.row_offset, self.q_seq_len, "single_prefill_hd512 q"))
            .or_fault(self.output.extent_fault("single_prefill_hd512 output"))
            .or_fault(self.k_cache.extent_fault("single_prefill_hd512 k_cache"))
            .or_fault(self.v_cache.extent_fault("single_prefill_hd512 v_cache"))
    }

    /// The launch of a call without a fault.
    pub open spec fn launch(self) -> SinglePrefillHd512Launch {
        let row_bytes = self.q.row_bytes(self.row_offset) as u64;
        SinglePrefillHd512Launch {
            row_bytes,
            num_q_heads: self.num_q_heads as i32,
            num_kv_heads: self.num_kv_heads as i32,
            q_seq_len: self.q_seq_len as i32,
            kv_len: self.kv_len as i32,
            cache_rows: self.k_cache.seq_len as i32,
        }
    }
}

/// Causal prefill of one sequence at head_dim 512 over caches whose head axis
/// is strided by the cache rows.
pub fn single_prefill_hd512_into(c: &SinglePrefillHd512) -> (r: Result<
    SinglePrefillHd512Launch,
    KernelError,
>)
    requires
        crate::float_bits::finite(c.sm_scale_bits) ==> c.q.hidden_dim == c.num_q_heads * 512,
        crate::float_bits::finite(c.sm_scale_bits) ==> c.output.hidden_dim == c.q.hidden_dim,
        crate::float_bits::finite(c.sm_scale_bits) ==> c.output.seq_len == c.q.seq_len,
        crate::float_bits::finite(c.sm_scale_bits) ==> c.k_cache.hidden_dim == c.num_kv_heads * 512,
        crate::float_bits::finite(c.sm_scale_bits) ==> c.v_cache.hidden_dim == c.k_cache.hidden_dim,
        crate::float_bits::finite(c.sm_scale_bits) ==> c.v_cache.seq_len == c.k_cache.seq_len,
        crate::float_bits::finite(c.sm_scale_bits) ==> c.kv_len <= c.k_cache.seq_len,
        crate::float_bits::finite(c.sm_scale_bits) ==> c.q_seq_len <= c.kv_len,
    ensures
        r == KernelError::outcome(c.fault(), c.launch()),
{
    ensure_that(
        float_bits::is_finite(c.sm_scale_bits),
        "single_prefill_hd512 sm_scale must be finite",
    )?;
    let row_bytes: u64 = c.q.checked_row_offset(
        c.row_offset,
        c.q_seq_len,
        "single_prefill_hd512 q",
    )?;
    c.output.checked_extent("single_prefill_hd512 output")?;
    c.k_cache.checked_extent("single_prefill_hd512 k_cache")?;
    c.v_cache.checked_extent("single_prefill_hd512 v_cache")?;
    Ok(SinglePrefillHd512Launch {
        row_bytes,
        num_q_heads: c.num_q_heads as i32,
        num_kv_heads: c.num_kv_heads as i32,
        q_seq_len: c.q_seq_len as i32,
        kv_len: c.kv_len as i32,
        cache_rows: c.k_cache.seq_len as i32,
    })
}

/// What [`single_prefill_hd256_into`] takes.
#[derive(Clone, Copy, Debug)]
pub struct SinglePrefillHd256 {
    pub q: HiddenStates,
    pub row_offset: usize,
    pub q_seq_len: usize,
    pub k_cache: HiddenStates,
    pub v_cache: HiddenStates,
    pub output: HiddenStates,
    pub num_q_heads: usize,
    pub num_kv_heads: usize,
    pub kv_len: usize,
    /// The softmax scale, as its bit pattern.
    pub sm_scale_bits: u32,
}

/// The C arguments that [`single_prefill_hd256_into`] derives.
#[derive(Clone, Copy, Debug, PartialEq, Eq)]
pub struct SinglePrefillHd256Launch {
    pub row_bytes: u64,
    pub num_q_heads: i32,
    pub num_kv_heads: i32,
    pub q_seq_len: i32,
    pub kv_len: i32,
    pub cache_rows: i32,
}

impl SinglePrefillHd256 {
    /// Why the kernel cannot run, if it cannot.
    pub open spec fn fault(self) -> Option<KernelError> {
        let q_dim = self.num_q_heads * 256;
        let kv_dim = self.num_kv_heads * 256;
        let q_extent = self.q.extent();
        let output_extent = self.output.extent();
        let k_cache_extent = self.k_cache.extent();
        let v_cache_extent = self.v_cache.extent();
        KernelError::unless(
            crate::float_bits::finite(self.sm_scale_bits),
            "single_prefill_hd256 sm_scale must be finite",
        )
            .or_fault(KernelError::unless(
                self.num_q_heads > 0 && self.num_kv_heads > 0 && self.q_seq_len > 0,
                "single_prefill_hd256 heads and q_seq_len must be positive",
            ))
            .or_fault(KernelError::unless(
                self.num_q_heads % self.num_kv_heads == 0
                    && SUPPORTED_GQA_GROUP_SIZES@.contains(self.num_q_heads / self.num_kv_heads),
                "single_prefill_hd256 GQA group is not instantiated",
            ))
            .or_fault(KernelError::overflow(q_dim, "single_prefill_hd256 num_q_heads"))
            .or_fault(KernelError::overflow(kv_dim, "single_prefill_hd256 num_kv_heads"))
            .or_fault(KernelError::unless_sized(
                self.q.hidden_dim == q_dim,
                "single_prefill_hd256 q.hidden_dim",
                self.q.hidden_dim as int,
                q_dim,
            ))
            .or_fault(KernelError::unless(
                self.output.hidden_dim == self.q.hidden_dim
                    && self.output.seq_len == self.q.seq_len,
                "single_prefill_hd256 output must be shaped like q",
            ))
            .or_fault(KernelError::unless_sized(
                self.k_cache.hidden_dim == kv_dim,
                "single_prefill_hd256 k_cache.hidden_dim",
                self.k_cache.hidden_dim as int,
                kv_dim,
            ))
            .or_fault(KernelError::unless(
                self.v_cache.hidden_dim == self.k_cache.hidden_dim
                    && self.v_cache.seq_len == self.k_cache.seq_len,
                "single_prefill_hd256 v_cache must be shaped like k_cache",
            ))
            .or_fault(KernelError::unless_at_most(
                self.kv_len <= self.k_cache.seq_len,
                "single_prefill_hd256 kv_len exceeds the cache rows",
                self.kv_len as int,
                self.k_cache.seq_len as int,
            ))
            .or_fault(KernelError::unless_at_most(
                self.q_seq_len <= self.kv_len,
                "causal prefill q_seq_len exceeds kv_len",
                self.q_seq_len as int,
                self.kv_len as int,
            ))
            .or_fault(self.q.row_fault(self.row_offset, self.q_seq_len, "single_prefill_hd256 q"))
            .or_fault(self.q.extent_fault("single_prefill_hd256 q"))
            .or_fault(self.output.extent_fault("single_prefill_hd256 output"))
            .or_fault(self.k_cache.extent_fault("single_prefill_hd256 k_cache"))
            .or_fault(self.v_cache.extent_fault("single_prefill_hd256 v_cache"))
            .or_fault(KernelError::too_wide(q_extent, "single_prefill_hd256 q extent"))
            .or_fault(KernelError::too_wide(output_extent, "single_prefill_hd256 output extent"))
            .or_fault(KernelError::too_wide(k_cache_extent, "single_prefill_hd256 k_cache extent"))
            .or_fault(KernelError::too_wide(v_cache_extent, "single_prefill_hd256 v_cache extent"))
            .or_fault(KernelError::too_wide(
                self.num_q_heads as int,
                "single_prefill_hd256 num_q_heads",
            ))
            .or_fault(KernelError::too_wide(
                self.num_kv_heads as int,
                "single_prefill_hd256 num_kv_heads",
            ))
            .or_fault(KernelError::too_wide(
                self.q_seq_len as int,
                "single_prefill_hd256 q_seq_len",
            ))
            .or_fault(KernelError::too_wide(self.kv_len as int, "single_prefill_hd256 kv_len"))
            .or_fault(KernelError::too_wide(
                self.k_cache.seq_len as int,
                "single_prefill_hd256 cache_rows",
            ))
    }

    /// The launch of a call without a fault.
    pub open spec fn launch(self) -> SinglePrefillHd256Launch {
        let row_bytes = self.q.row_bytes(self.row_offset) as u64;
        let num_q_heads = self.num_q_heads as i32;
        let num_kv_heads = self.num_kv_heads as i32;
        let q_seq_len = self.q_seq_len as i32;
        let kv_len = self.kv_len as i32;
        let cache_rows = self.k_cache.seq_len as i32;
        SinglePrefillHd256Launch {
            row_bytes,
            num_q_heads,
            num_kv_heads,
            q_seq_len,
            kv_len,
            cache_rows,
        }
    }
}

/// Causal prefill of one sequence at head_dim 256 over a contiguous cache with
/// the head axis first. The C entry builds 32-bit strides; each is bounded by
/// a buffer's extent, so the extents have to fit 32 bits.
pub fn single_prefill_hd256_into(c: &SinglePrefillHd256) -> (r: Result<
    SinglePrefillHd256Launch,
    KernelError,
>)
    ensures
        r == KernelError::outcome(c.fault(), c.launch()),
{
    ensure_that(
        float_bits::is_finite(c.sm_scale_bits),
        "single_prefill_hd256 sm_scale must be finite",
    )?;
    ensure_that(
        c.num_q_heads > 0 && c.num_kv_heads > 0 && c.q_seq_len > 0,
        "single_prefill_hd256 heads and q_seq_len must be positive",
    )?;
    ensure_that(
        c.num_q_heads % c.num_kv_heads == 0 && is_supported_group(c.num_q_heads / c.num_kv_heads),
        "single_prefill_hd256 GQA group is not instantiated",
    )?;
    let q_dim: usize = checked_product(c.num_q_heads, 256, "single_prefill_hd256 num_q_heads")?;
    let kv_dim: usize = checked_product(c.num_kv_heads, 256, "single_prefill_hd256 num_kv_heads")?;
    ensure(c.q.hidden_dim == q_dim, "single_prefill_hd256 q.hidden_dim", c.q.hidden_dim, q_dim)?;
    ensure_that(
        c.output.hidden_dim == c.q.hidden_dim && c.output.seq_len == c.q.seq_len,
        "single_prefill_hd256 output must be shaped like q",
    )?;
    ensure(
        c.k_cache.hidden_dim == kv_dim,
        "single_prefill_hd256 k_cache.hidden_dim",
        c.k_cache.hidden_dim,
        kv_dim,
    )?;
    ensure_that(
        c.v_cache.hidden_dim == c.k_cache.hidden_dim && c.v_cache.seq_len == c.k_cache.seq_len,
        "single_prefill_hd256 v_cache must be shaped like k_cache",
    )?;
    ensure_at_most(
        c.kv_len <= c.k_cache.seq_len,
        "single_prefill_hd256 kv_len exceeds the cache rows",
        c.kv_len,
        c.k_cache.seq_len,
    )?;
    ensure_at_most(
        c.q_seq_len <= c.kv_len,
        "causal prefill q_seq_len exceeds kv_len",
        c.q_seq_len,
        c.kv_len,
    )?;
    let row_bytes: u64 = c.q.checked_row_offset(
        c.row_offset,
        c.q_seq_len,
        "single_prefill_hd256 q",
    )?;
    let q_extent: usize = c.q.checked_extent("single_prefill_hd256 q")?;
    let output_extent: usize = c.output.checked_extent("single_prefill_hd256 output")?;
    let k_cache_extent: usize = c.k_cache.checked_extent("single_prefill_hd256 k_cache")?;
    let v_cache_extent: usize = c.v_cache.checked_extent("single_prefill_hd256 v_cache")?;
    checked_i32(q_extent, "single_prefill_hd256 q extent")?;
    checked_i32(output_extent, "single_prefill_hd256 output extent")?;
    checked_i32(k_cache_extent, "single_prefill_hd256 k_cache extent")?;
    checked_i32(v_cache_extent, "single_prefill_hd256 v_cache extent")?;
    let num_q_heads: i32 = checked_i32(c.num_q_heads, "single_prefill_hd256 num_q_heads")?;
    let num_kv_heads: i32 = checked_i32(c.num_kv_heads, "single_prefill_hd256 num_kv_heads")?;
    let q_seq_len: i32 = checked_i32(c.q_seq_len, "single_prefill_hd256 q_seq_len")?;
    let kv_len: i32 = checked_i32(c.kv_len, "single_prefill_hd256 kv_len")?;
    let cache_rows: i32 = checked_i32(c.k_cache.seq_len, "single_prefill_hd256 cache_rows")?;
    Ok(SinglePrefillHd256Launch {
        row_bytes,
        num_q_heads,
        num_kv_heads,
        q_seq_len,
        kv_len,
        cache_rows,
    })
}

} // verus!
