//! The K3 chunked-prefill latent attention: gather, expand, attend.

use vstd::prelude::*;

use crate::error::ensure;
use crate::error::ensure_that;
use crate::error::FaultList;
use crate::error::holds_product3;
use crate::error::holds_product;
use crate::error::KernelError;
use crate::ops::div_ceil;

verus! {

/// Cached latent elements of a token.
pub const K3_MLA_PREFILL_LATENT: usize = 512;

/// Rope elements that the heads of a token share.
pub const K3_MLA_PREFILL_ROPE: usize = 64;

/// Elements of a cached row.
pub const K3_MLA_PREFILL_ROW: usize = K3_MLA_PREFILL_LATENT + K3_MLA_PREFILL_ROPE;

/// Query and key width of a head.
pub const K3_MLA_PREFILL_QK: usize = 192;

/// Value width of a head.
pub const K3_MLA_PREFILL_V: usize = 128;

/// Expanded width of a head: the unrotated key and the value.
pub const K3_MLA_PREFILL_NV: usize = K3_MLA_PREFILL_V + K3_MLA_PREFILL_V;

/// Tokens of a cached page.
pub const K3_MLA_PREFILL_PAGE_TOKENS: usize = 64;

/// A gather of cached rows.
#[derive(Clone, Copy, Debug, PartialEq, Eq)]
pub struct K3MlaGatherLaunch {
    pub page_stride: i64,
    pub layer_offset: i64,
    pub t_total: i32,
}

/// Gather the cached rows of one sequence into dense latent and rope buffers.
pub fn k3_mla_prefill_gather_launch(
    t_total: usize,
    table_len: usize,
    page_stride: usize,
    layer_offset: usize,
    latent_out_len: usize,
    rope_out_len: usize,
) -> (r: Result<K3MlaGatherLaunch, KernelError>)
    ensures
        r == ({
            let pages = crate::ops::ceil_div(t_total as int, K3_MLA_PREFILL_PAGE_TOKENS as int);
            KernelError::outcome(
                KernelError::unless(t_total > 0, "K3 MLA prefill gather got an empty span")
                    .or_fault(KernelError::unless(
                        latent_out_len >= t_total * K3_MLA_PREFILL_LATENT
                            && rope_out_len >= t_total * K3_MLA_PREFILL_ROPE,
                        "K3 MLA prefill gather outputs too small",
                    ))
                    .or_fault(KernelError::unless_sized(
                        table_len >= pages,
                        "K3 MLA prefill gather table row cannot span the tokens",
                        table_len as int,
                        pages,
                    )),
                (K3MlaGatherLaunch {
                    page_stride: page_stride as i64,
                    layer_offset: layer_offset as i64,
                    t_total: t_total as i32,
                }),
            )
        }),
{
    ensure_that(t_total > 0, "K3 MLA prefill gather got an empty span")?;
    ensure_that(
        holds_product(latent_out_len, t_total, K3_MLA_PREFILL_LATENT)
            && holds_product(rope_out_len, t_total, K3_MLA_PREFILL_ROPE),
        "K3 MLA prefill gather outputs too small",
    )?;
    let pages: usize = div_ceil(t_total, K3_MLA_PREFILL_PAGE_TOKENS);
    ensure(
        table_len >= pages,
        "K3 MLA prefill gather table row cannot span the tokens",
        table_len,
        pages,
    )?;
    Ok(K3MlaGatherLaunch {
        page_stride: page_stride as i64,
        layer_offset: layer_offset as i64,
        t_total: t_total as i32,
    })
}

/// Assemble the key rows of every head from the expansion and the shared rope:
/// the tokens and the heads.
pub fn k3_mla_prefill_expand_k_launch(
    t_total: usize,
    heads: usize,
    nope_v_len: usize,
    rope_len: usize,
    k_out_len: usize,
) -> (r: Result<(i32, i32), KernelError>)
    ensures
        r == KernelError::outcome(
            KernelError::unless(t_total > 0, "K3 MLA prefill expand got an empty span")
                .or_fault(KernelError::unless(
                    nope_v_len >= t_total * heads * K3_MLA_PREFILL_NV
                        && rope_len >= t_total * K3_MLA_PREFILL_ROPE
                        && k_out_len >= t_total * heads * K3_MLA_PREFILL_QK,
                    "K3 MLA prefill expand buffers too small",
                )),
            (t_total as i32, heads as i32),
        ),
{
    ensure_that(t_total > 0, "K3 MLA prefill expand got an empty span")?;
    ensure_that(
        holds_product3(nope_v_len, t_total, heads, K3_MLA_PREFILL_NV)
            && holds_product(rope_len, t_total, K3_MLA_PREFILL_ROPE)
            && holds_product3(k_out_len, t_total, heads, K3_MLA_PREFILL_QK),
        "K3 MLA prefill expand buffers too small",
    )?;
    Ok((t_total as i32, heads as i32))
}

/// What [`k3_flash_mla_prefill_fwd_launch`] takes.
#[derive(Clone, Copy, Debug)]
pub struct K3MlaPrefillCall {
    pub t_q: usize,
    pub t_kv: usize,
    pub heads: usize,
    pub q_len: usize,
    pub k_len: usize,
    pub nope_v_len: usize,
    pub out_len: usize,
}

/// The C arguments that [`k3_flash_mla_prefill_fwd_launch`] derives: strides in
/// elements, and the bytes before the first value of the expansion.
#[derive(Clone, Copy, Debug, PartialEq, Eq)]
pub struct K3MlaPrefillLaunch {
    pub q_token_stride: i64,
    pub q_head_stride: i64,
    pub k_token_stride: i64,
    pub k_head_stride: i64,
    pub v_bytes: u64,
    pub v_token_stride: i64,
    pub v_head_stride: i64,
    pub out_token_stride: i64,
    pub out_head_stride: i64,
    pub t_q: i32,
    pub t_kv: i32,
    pub heads: i32,
}

impl K3MlaPrefillCall {
    /// Why the kernel cannot run, if it cannot.
    pub open spec fn fault(self) -> Option<KernelError> {
        KernelError::unless(
            0 < self.t_q && self.t_q <= self.t_kv,
            "K3 FlashMLA prefill needs 0 < t_q <= t_kv",
        )
            .or_fault(KernelError::unless(
                self.q_len >= self.t_q * self.heads * K3_MLA_PREFILL_QK
                    && self.k_len >= self.t_kv * self.heads * K3_MLA_PREFILL_QK
                    && self.nope_v_len >= self.t_kv * self.heads * K3_MLA_PREFILL_NV
                    && self.out_len >= self.t_q * self.heads * K3_MLA_PREFILL_V,
                "K3 FlashMLA prefill buffers too small",
            ))
    }

    /// The launch of a call without a fault.
    pub open spec fn launch(self) -> K3MlaPrefillLaunch {
        let qk_stride = (self.heads * K3_MLA_PREFILL_QK) as i64;
        let nv_stride = (self.heads * K3_MLA_PREFILL_NV) as i64;
        let v_stride = (self.heads * K3_MLA_PREFILL_V) as i64;
        K3MlaPrefillLaunch {
            q_token_stride: qk_stride,
            q_head_stride: K3_MLA_PREFILL_QK as i64,
            k_token_stride: qk_stride,
            k_head_stride: K3_MLA_PREFILL_QK as i64,
            v_bytes: 256,
            v_token_stride: nv_stride,
            v_head_stride: K3_MLA_PREFILL_NV as i64,
            out_token_stride: v_stride,
            out_head_stride: K3_MLA_PREFILL_V as i64,
            t_q: self.t_q as i32,
            t_kv: self.t_kv as i32,
            heads: self.heads as i32,
        }
    }
}

/// The attention of one chunk: query row `i` of `t_q` sees the first
/// `t_kv - t_q + i + 1` of `t_kv` keys. The values are a strided view into the
/// expansion.
pub fn k3_flash_mla_prefill_fwd_launch(c: &K3MlaPrefillCall) -> (r: Result<
    K3MlaPrefillLaunch,
    KernelError,
>)
    ensures
        r == KernelError::outcome(c.fault(), c.launch()),
{
    ensure_that(0 < c.t_q && c.t_q <= c.t_kv, "K3 FlashMLA prefill needs 0 < t_q <= t_kv")?;
    ensure_that(
        holds_product3(c.q_len, c.t_q, c.heads, K3_MLA_PREFILL_QK)
            && holds_product3(c.k_len, c.t_kv, c.heads, K3_MLA_PREFILL_QK)
            && holds_product3(c.nope_v_len, c.t_kv, c.heads, K3_MLA_PREFILL_NV)
            && holds_product3(c.out_len, c.t_q, c.heads, K3_MLA_PREFILL_V),
        "K3 FlashMLA prefill buffers too small",
    )?;
    assert(c.heads * K3_MLA_PREFILL_NV <= c.nope_v_len) by (nonlinear_arith)
        requires
            c.t_kv * c.heads * K3_MLA_PREFILL_NV <= c.nope_v_len,
            c.t_kv >= 1,
    ;
    let qk_stride: i64 = (c.heads * K3_MLA_PREFILL_QK) as i64;
    let nv_stride: i64 = (c.heads * K3_MLA_PREFILL_NV) as i64;
    let v_stride: i64 = (c.heads * K3_MLA_PREFILL_V) as i64;
    Ok(K3MlaPrefillLaunch {
        q_token_stride: qk_stride,
        q_head_stride: K3_MLA_PREFILL_QK as i64,
        k_token_stride: qk_stride,
        k_head_stride: K3_MLA_PREFILL_QK as i64,
        v_bytes: 256,
        v_token_stride: nv_stride,
        v_head_stride: K3_MLA_PREFILL_NV as i64,
        out_token_stride: v_stride,
        out_head_stride: K3_MLA_PREFILL_V as i64,
        t_q: c.t_q as i32,
        t_kv: c.t_kv as i32,
        heads: c.heads as i32,
    })
}

/// Keys that query row `i` of a chunk sees.
pub open spec fn visible_keys(t_q: usize, t_kv: usize, i: int) -> int {
    t_kv - t_q + i + 1
}

/// The causal mask of an accepted chunk is aligned to its end: every query sees
/// at least one key, the last one sees all of them, and each one sees one more
/// than the query before it.
pub proof fn law_mask_is_aligned_to_the_end(call: K3MlaPrefillCall, i: int)
    requires
        call.fault() is None,
        0 <= i < call.t_q,
    ensures
        1 <= visible_keys(call.t_q, call.t_kv, i) <= call.t_kv,
        visible_keys(call.t_q, call.t_kv, call.t_q - 1) == call.t_kv,
        visible_keys(call.t_q, call.t_kv, i + 1) == visible_keys(call.t_q, call.t_kv, i) + 1,
{
}

/// A latent-attention prefill is accepted exactly when its own operands hold
/// what it reads and writes.
pub proof fn law_k3_mla_prefill_is_accepted_when_it_fits(c: K3MlaPrefillCall)
    ensures
        c.fault() is None <==> {
            &&& 0 < c.t_q
            &&& c.t_q <= c.t_kv
            &&& c.q_len >= c.t_q * c.heads * 192
            &&& c.k_len >= c.t_kv * c.heads * 192
            &&& c.nope_v_len >= c.t_kv * c.heads * K3_MLA_PREFILL_NV
            &&& c.out_len >= c.t_q * c.heads * 128
        },
{
}

/// A latent-attention prefill is launched with its own numbers, each where it
/// belongs.
pub proof fn law_k3_mla_prefill_launches_its_own_numbers(c: K3MlaPrefillCall)
    requires
        c.fault() is None,
    ensures
        c.heads * 192 <= i64::MAX ==> c.launch().q_token_stride == c.heads * 192,
        c.launch().q_head_stride == 192,
        c.heads * 192 <= i64::MAX ==> c.launch().k_token_stride == c.heads * 192,
        c.launch().k_head_stride == 192,
        c.launch().v_bytes == 256,
        c.heads * K3_MLA_PREFILL_NV <= i64::MAX ==> c.launch().v_token_stride == c.heads
            * K3_MLA_PREFILL_NV,
        c.launch().v_head_stride == K3_MLA_PREFILL_NV,
        c.heads * 128 <= i64::MAX ==> c.launch().out_token_stride == c.heads * 128,
        c.launch().out_head_stride == 128,
        c.t_q <= i32::MAX ==> c.launch().t_q == c.t_q,
        c.t_kv <= i32::MAX ==> c.launch().t_kv == c.t_kv,
        c.heads <= i32::MAX ==> c.launch().heads == c.heads,
{
}

/// A cached row is the latent and the rotary part; an expanded key is a value
/// wide besides its rotary part, and keys and values are expanded side by side.
pub proof fn law_latent_rows_and_heads_fit_together()
    ensures
        K3_MLA_PREFILL_LATENT == 512,
        K3_MLA_PREFILL_ROPE == 64,
        K3_MLA_PREFILL_ROW == 512 + 64,
        K3_MLA_PREFILL_QK == K3_MLA_PREFILL_V + K3_MLA_PREFILL_ROPE,
        K3_MLA_PREFILL_NV == 128 + 128,
        K3_MLA_PREFILL_PAGE_TOKENS == 64,
{
}

/// A latent-attention prefill that is accepted, and then gets one buffer that
/// does not fit, is refused over that buffer: the answer names the check and
/// shows what it compared.
pub proof fn law_k3_mla_prefill_is_refused_over_the_buffer_at_fault(c: K3MlaPrefillCall, n: usize)
    requires
        c.fault() is None,
    ensures
        n < c.t_q * c.heads * 192 ==> (K3MlaPrefillCall { q_len: n, ..c }).fault() == Some(
            KernelError::Invalid { what: "K3 FlashMLA prefill buffers too small" },
        ),
        n < c.t_kv * c.heads * 192 ==> (K3MlaPrefillCall { k_len: n, ..c }).fault() == Some(
            KernelError::Invalid { what: "K3 FlashMLA prefill buffers too small" },
        ),
        n < c.t_kv * c.heads * K3_MLA_PREFILL_NV ==> (K3MlaPrefillCall { nope_v_len: n,
            ..c }).fault() == Some(
            KernelError::Invalid { what: "K3 FlashMLA prefill buffers too small" },
        ),
        n < c.t_q * c.heads * 128 ==> (K3MlaPrefillCall { out_len: n, ..c }).fault() == Some(
            KernelError::Invalid { what: "K3 FlashMLA prefill buffers too small" },
        ),
{
}

} // verus!
