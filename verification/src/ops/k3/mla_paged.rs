//! K3 latent decode over the paged cache.

use vstd::prelude::*;

use super::super::k3_tilelang::K3_QK_DIM;
use super::super::k3_tilelang::K3_V_DIM;
use crate::error::checked_i32;
use crate::error::checked_i64;
use crate::error::ensure_fit;
use crate::error::ensure_that;
use crate::error::FaultList;
use crate::error::holds_product3;
use crate::error::holds_product4;
use crate::error::holds_product;
use crate::error::KernelError;

verus! {

/// Tokens of a page.
pub const K3_KV_PAGE_TOKENS: usize = 64;

/// Latent width of a cached row.
pub const K3_KV_LORA: usize = 512;

/// Elements of a cached row: the latent and the rope.
pub const K3_KV_LATENT_ROW: usize = K3_KV_LORA + 64;

/// Elements of one layer's slice of a page.
pub const K3_KV_PAGE_SLICE: usize = 36864;

/// What [`k3_mla_paged_attn_launch`] takes.
#[derive(Clone, Copy, Debug)]
pub struct K3MlaPagedCall {
    pub b: usize,
    pub num_heads: usize,
    pub q_len: usize,
    pub w_kv_b_len: usize,
    /// Elements before the layer's slice of a page.
    pub layer_offset: usize,
    /// Elements of a page.
    pub page_stride: usize,
    pub table_len: usize,
    pub max_pages: usize,
    pub n_len: usize,
    pub scale_len: usize,
    pub o_len: usize,
}

/// The C arguments that [`k3_mla_paged_attn_launch`] derives.
#[derive(Clone, Copy, Debug, PartialEq, Eq)]
pub struct K3MlaPagedLaunch {
    pub layer_offset: i64,
    pub page_stride: i64,
    pub max_pages: i32,
    pub b: i32,
    pub num_heads: i32,
    pub qk_dim: i32,
    pub v_dim: i32,
}

impl K3MlaPagedCall {
    /// Why the kernel cannot run, if it cannot.
    pub open spec fn fault(self) -> Option<KernelError> {
        KernelError::unless(self.b > 0 && self.num_heads > 0, "K3 paged MLA needs rows and heads")
            .or_fault(KernelError::unless_fit(
                self.layer_offset + K3_KV_PAGE_SLICE <= self.page_stride,
                "K3 paged MLA layer slice does not fit the page",
                self.layer_offset as int,
                self.page_stride as int,
            ))
            .or_fault(KernelError::unless(
                self.q_len >= self.b * self.num_heads * K3_QK_DIM
                    && self.w_kv_b_len >= self.num_heads * 2 * K3_V_DIM * K3_KV_LORA
                    && self.table_len >= self.b * self.max_pages && self.n_len >= self.b
                    && self.scale_len >= 1 && self.o_len >= self.b * self.num_heads * K3_V_DIM,
                "K3 paged MLA buffers too small",
            ))
            .or_fault(KernelError::too_wide_64(
                self.layer_offset as int,
                "K3 paged MLA layer offset",
            ))
            .or_fault(KernelError::too_wide_64(self.page_stride as int, "K3 paged MLA page stride"))
            .or_fault(KernelError::too_wide(self.max_pages as int, "K3 paged MLA max_pages"))
            .or_fault(KernelError::too_wide(self.b as int, "K3 paged MLA rows"))
            .or_fault(KernelError::too_wide(self.num_heads as int, "K3 paged MLA heads"))
    }

    /// The launch of a call without a fault.
    pub open spec fn launch(self) -> K3MlaPagedLaunch {
        let layer_offset = self.layer_offset as i64;
        let page_stride = self.page_stride as i64;
        let max_pages = self.max_pages as i32;
        let b = self.b as i32;
        let num_heads = self.num_heads as i32;
        K3MlaPagedLaunch {
            layer_offset,
            page_stride,
            max_pages,
            b,
            num_heads,
            qk_dim: K3_QK_DIM as i32,
            v_dim: K3_V_DIM as i32,
        }
    }
}

/// Latent decode over the paged cache. The lengths of the rows are on the
/// device, so the step waits for nothing.
pub fn k3_mla_paged_attn_launch(c: &K3MlaPagedCall) -> (r: Result<K3MlaPagedLaunch, KernelError>)
    ensures
        r == KernelError::outcome(c.fault(), c.launch()),
{
    ensure_that(c.b > 0 && c.num_heads > 0, "K3 paged MLA needs rows and heads")?;
    ensure_fit(
        c.page_stride >= K3_KV_PAGE_SLICE && c.layer_offset <= c.page_stride - K3_KV_PAGE_SLICE,
        "K3 paged MLA layer slice does not fit the page",
        c.layer_offset,
        c.page_stride,
    )?;
    ensure_that(
        holds_product3(c.q_len, c.b, c.num_heads, K3_QK_DIM)
            && holds_product4(c.w_kv_b_len, c.num_heads, 2, K3_V_DIM, K3_KV_LORA)
            && holds_product(c.table_len, c.b, c.max_pages) && c.n_len >= c.b && c.scale_len >= 1
            && holds_product3(c.o_len, c.b, c.num_heads, K3_V_DIM),
        "K3 paged MLA buffers too small",
    )?;
    let layer_offset: i64 = checked_i64(c.layer_offset, "K3 paged MLA layer offset")?;
    let page_stride: i64 = checked_i64(c.page_stride, "K3 paged MLA page stride")?;
    let max_pages: i32 = checked_i32(c.max_pages, "K3 paged MLA max_pages")?;
    let b: i32 = checked_i32(c.b, "K3 paged MLA rows")?;
    let num_heads: i32 = checked_i32(c.num_heads, "K3 paged MLA heads")?;
    Ok(K3MlaPagedLaunch {
        layer_offset,
        page_stride,
        max_pages,
        b,
        num_heads,
        qk_dim: K3_QK_DIM as i32,
        v_dim: K3_V_DIM as i32,
    })
}

/// Where token `t` of a page keeps its cached row, in elements from the start
/// of the pool.
pub open spec fn cached_row(call: K3MlaPagedCall, page: int, t: int) -> int {
    page * call.page_stride + call.layer_offset + t * K3_KV_LATENT_ROW
}

/// Every cached row of an accepted layer lies inside its own page, whatever
/// page the table names, so a permutation of the pages moves no row into
/// another's place.
pub proof fn law_cached_rows_stay_in_their_page(call: K3MlaPagedCall, page: int, t: int)
    requires
        call.fault() is None,
        0 <= page,
        0 <= t < K3_KV_PAGE_TOKENS,
    ensures
        page * call.page_stride <= cached_row(call, page, t),
        cached_row(call, page, t) + K3_KV_LATENT_ROW <= (page + 1) * call.page_stride,
{
    assert((page + 1) * call.page_stride == page * call.page_stride + call.page_stride)
        by (nonlinear_arith);
}

/// A paged latent-attention decode is accepted exactly when its own operands
/// hold what it reads and writes.
pub proof fn law_k3_mla_paged_is_accepted_when_it_fits(c: K3MlaPagedCall)
    ensures
        c.fault() is None <==> {
            &&& c.b > 0
            &&& c.num_heads > 0
            &&& c.layer_offset + 36864 <= c.page_stride
            &&& c.q_len >= c.b * c.num_heads * 192
            &&& c.w_kv_b_len >= c.num_heads * 2 * 128 * 512
            &&& c.table_len >= c.b * c.max_pages
            &&& c.n_len >= c.b
            &&& c.scale_len >= 1
            &&& c.o_len >= c.b * c.num_heads * 128
            &&& c.layer_offset <= i64::MAX
            &&& c.page_stride <= i64::MAX
            &&& c.max_pages <= i32::MAX
            &&& c.b <= i32::MAX
            &&& c.num_heads <= i32::MAX
        },
{
}

/// A paged latent-attention decode is launched with its own numbers, each
/// where it belongs.
pub proof fn law_k3_mla_paged_launches_its_own_numbers(c: K3MlaPagedCall)
    requires
        c.fault() is None,
    ensures
        c.launch().layer_offset == c.layer_offset,
        c.launch().page_stride == c.page_stride,
        c.launch().max_pages == c.max_pages,
        c.launch().b == c.b,
        c.launch().num_heads == c.num_heads,
        c.launch().qk_dim == 192,
        c.launch().v_dim == 128,
{
}

/// A page slice of one layer holds sixty-four rows of the latent and the
/// rotary part.
pub proof fn law_a_slice_holds_whole_rows()
    ensures
        K3_KV_PAGE_TOKENS == 64,
        K3_KV_LORA == 512,
        K3_KV_LATENT_ROW == 512 + 64,
        K3_KV_PAGE_SLICE == K3_KV_PAGE_TOKENS * K3_KV_LATENT_ROW,
{
}

/// A paged latent-attention decode that is accepted, and then gets one buffer
/// that does not fit, is refused over that buffer: the answer names the check
/// and shows what it compared.
pub proof fn law_k3_mla_paged_is_refused_over_the_buffer_at_fault(c: K3MlaPagedCall, n: usize)
    requires
        c.fault() is None,
    ensures
        n < c.b * c.num_heads * 192 ==> (K3MlaPagedCall { q_len: n, ..c }).fault() == Some(
            KernelError::Invalid { what: "K3 paged MLA buffers too small" },
        ),
        n < c.num_heads * 2 * 128 * 512 ==> (K3MlaPagedCall { w_kv_b_len: n, ..c }).fault() == Some(
            KernelError::Invalid { what: "K3 paged MLA buffers too small" },
        ),
        n < c.b * c.max_pages ==> (K3MlaPagedCall { table_len: n, ..c }).fault() == Some(
            KernelError::Invalid { what: "K3 paged MLA buffers too small" },
        ),
        n < c.b ==> (K3MlaPagedCall { n_len: n, ..c }).fault() == Some(
            KernelError::Invalid { what: "K3 paged MLA buffers too small" },
        ),
        n < 1 ==> (K3MlaPagedCall { scale_len: n, ..c }).fault() == Some(
            KernelError::Invalid { what: "K3 paged MLA buffers too small" },
        ),
        n < c.b * c.num_heads * 128 ==> (K3MlaPagedCall { o_len: n, ..c }).fault() == Some(
            KernelError::Invalid { what: "K3 paged MLA buffers too small" },
        ),
{
}

} // verus!
