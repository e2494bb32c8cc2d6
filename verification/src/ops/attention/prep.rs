//! Norm and rotary preparation of the queries, keys and values.

use vstd::prelude::*;

use super::geometry::checked_paged_geometry;
use super::geometry::PagedGeometry;
use crate::error::checked_i32;
use crate::error::checked_product;
use crate::error::checked_sum;
use crate::error::ensure;
use crate::error::ensure_at_most;
use crate::error::ensure_below;
use crate::error::ensure_fit;
use crate::error::ensure_that;
use crate::error::FaultList;
use crate::error::holds_product;
use crate::error::is_product;
use crate::error::KernelError;
use crate::paged_kv::KvStorage;
use crate::paged_kv::PagedKvLayout;
use crate::shape::DeviceVec;
use crate::shape::HiddenStates;

verus! {

/// What [`qk_norm_rope_prefill_hd256_plain_into`] takes.
#[derive(Clone, Copy, Debug)]
pub struct QkPrepHd256 {
    pub q: HiddenStates,
    pub k: HiddenStates,
    pub q_out: HiddenStates,
    pub k_out: HiddenStates,
    pub q_norm_weight: DeviceVec,
    pub k_norm_weight: DeviceVec,
    pub cos_cache: DeviceVec,
    pub sin_cache: DeviceVec,
    pub start_pos: usize,
    pub cos_max_pos: usize,
    pub num_q_heads: usize,
    pub num_kv_heads: usize,
    pub rotary_dim: usize,
}

/// The C arguments that [`qk_norm_rope_prefill_hd256_plain_into`] derives.
#[derive(Clone, Copy, Debug, PartialEq, Eq)]
pub struct QkPrepHd256Launch {
    pub num_q_heads: i32,
    pub num_kv_heads: i32,
    pub seq_len: i32,
    pub start_pos: i32,
    pub cos_max_pos: i32,
    pub rotary_dim: i32,
}

impl QkPrepHd256 {
    /// Why the kernel cannot run, if it cannot.
    pub open spec fn fault(self) -> Option<KernelError> {
        let q_dim = self.num_q_heads * 256;
        let kv_dim = self.num_kv_heads * 256;
        let end_pos = self.start_pos + self.q.seq_len;
        let table_len = self.cos_max_pos * self.rotary_dim;
        let q_extent = self.q.extent();
        let k_extent = self.k.extent();
        KernelError::overflow(q_dim, "hd256 plain prep num_q_heads")
            .or_fault(KernelError::overflow(kv_dim, "hd256 plain prep num_kv_heads"))
            .or_fault(KernelError::unless_sized(
                self.q.hidden_dim == q_dim,
                "hd256 plain prep q.hidden_dim",
                self.q.hidden_dim as int,
                q_dim,
            ))
            .or_fault(KernelError::unless_sized(
                self.k.hidden_dim == kv_dim,
                "hd256 plain prep k.hidden_dim",
                self.k.hidden_dim as int,
                kv_dim,
            ))
            .or_fault(KernelError::unless_sized(
                self.q_out.hidden_dim == self.q.hidden_dim,
                "hd256 plain prep q_out.hidden_dim",
                self.q_out.hidden_dim as int,
                self.q.hidden_dim as int,
            ))
            .or_fault(KernelError::unless_sized(
                self.k_out.hidden_dim == self.k.hidden_dim,
                "hd256 plain prep k_out.hidden_dim",
                self.k_out.hidden_dim as int,
                self.k.hidden_dim as int,
            ))
            .or_fault(KernelError::unless_sized(
                self.k.seq_len == self.q.seq_len,
                "hd256 plain prep k.seq_len",
                self.k.seq_len as int,
                self.q.seq_len as int,
            ))
            .or_fault(KernelError::unless_sized(
                self.q_out.seq_len == self.q.seq_len,
                "hd256 plain prep q_out.seq_len",
                self.q_out.seq_len as int,
                self.q.seq_len as int,
            ))
            .or_fault(KernelError::unless_sized(
                self.k_out.seq_len == self.q.seq_len,
                "hd256 plain prep k_out.seq_len",
                self.k_out.seq_len as int,
                self.q.seq_len as int,
            ))
            .or_fault(KernelError::unless_sized(
                self.q_norm_weight.len == 256,
                "hd256 plain prep q_norm_weight len",
                self.q_norm_weight.len as int,
                256,
            ))
            .or_fault(KernelError::unless_sized(
                self.k_norm_weight.len == 256,
                "hd256 plain prep k_norm_weight len",
                self.k_norm_weight.len as int,
                256,
            ))
            .or_fault(KernelError::overflow(end_pos, "hd256 plain prep start_pos + seq_len"))
            .or_fault(KernelError::unless_at_most(
                end_pos <= self.cos_max_pos,
                "hd256 plain prep start_pos + seq_len exceeds cos_max_pos",
                end_pos,
                self.cos_max_pos as int,
            ))
            .or_fault(KernelError::overflow(table_len, "hd256 plain prep cos_max_pos * rotary_dim"))
            .or_fault(KernelError::unless_sized(
                self.cos_cache.len >= table_len,
                "hd256 plain prep cos_cache len",
                self.cos_cache.len as int,
                table_len,
            ))
            .or_fault(KernelError::unless_sized(
                self.sin_cache.len >= table_len,
                "hd256 plain prep sin_cache len",
                self.sin_cache.len as int,
                table_len,
            ))
            .or_fault(self.q_norm_weight.backing_fault("hd256 plain prep q_norm_weight"))
            .or_fault(self.k_norm_weight.backing_fault("hd256 plain prep k_norm_weight"))
            .or_fault(self.cos_cache.backing_fault("hd256 plain prep cos_cache"))
            .or_fault(self.sin_cache.backing_fault("hd256 plain prep sin_cache"))
            .or_fault(self.q.extent_fault("hd256 plain prep q"))
            .or_fault(self.k.extent_fault("hd256 plain prep k"))
            .or_fault(self.q_out.extent_fault("hd256 plain prep q_out"))
            .or_fault(self.k_out.extent_fault("hd256 plain prep k_out"))
            .or_fault(KernelError::too_wide(q_extent, "hd256 plain prep q extent"))
            .or_fault(KernelError::too_wide(k_extent, "hd256 plain prep k extent"))
            .or_fault(KernelError::too_wide(table_len, "hd256 plain prep rope table extent"))
            .or_fault(KernelError::too_wide(
                self.num_q_heads as int,
                "hd256 plain prep num_q_heads",
            ))
            .or_fault(KernelError::too_wide(
                self.num_kv_heads as int,
                "hd256 plain prep num_kv_heads",
            ))
            .or_fault(KernelError::too_wide(self.q.seq_len as int, "hd256 plain prep seq_len"))
            .or_fault(KernelError::too_wide(self.start_pos as int, "hd256 plain prep start_pos"))
            .or_fault(KernelError::too_wide(
                self.cos_max_pos as int,
                "hd256 plain prep cos_max_pos",
            ))
            .or_fault(KernelError::too_wide(self.rotary_dim as int, "hd256 plain prep rotary_dim"))
    }

    /// The launch of a call without a fault.
    pub open spec fn launch(self) -> QkPrepHd256Launch {
        let num_q_heads = self.num_q_heads as i32;
        let num_kv_heads = self.num_kv_heads as i32;
        let seq_len = self.q.seq_len as i32;
        let start_pos = self.start_pos as i32;
        let cos_max_pos = self.cos_max_pos as i32;
        let rotary_dim = self.rotary_dim as i32;
        QkPrepHd256Launch {
            num_q_heads,
            num_kv_heads,
            seq_len,
            start_pos,
            cos_max_pos,
            rotary_dim,
        }
    }
}

/// Plain-weight QK RMSNorm and RoPE at head_dim 256 into contiguous token-major
/// outputs shaped like the inputs. The kernel indexes extents and the rope
/// table in 32 bits, so all of them have to fit.
pub fn qk_norm_rope_prefill_hd256_plain_into(c: &QkPrepHd256) -> (r: Result<
    QkPrepHd256Launch,
    KernelError,
>)
    ensures
        r == KernelError::outcome(c.fault(), c.launch()),
        r matches Ok(l) ==> l.start_pos == c.start_pos,
{
    let q_dim: usize = checked_product(c.num_q_heads, 256, "hd256 plain prep num_q_heads")?;
    let kv_dim: usize = checked_product(c.num_kv_heads, 256, "hd256 plain prep num_kv_heads")?;
    ensure(c.q.hidden_dim == q_dim, "hd256 plain prep q.hidden_dim", c.q.hidden_dim, q_dim)?;
    ensure(c.k.hidden_dim == kv_dim, "hd256 plain prep k.hidden_dim", c.k.hidden_dim, kv_dim)?;
    ensure(
        c.q_out.hidden_dim == c.q.hidden_dim,
        "hd256 plain prep q_out.hidden_dim",
        c.q_out.hidden_dim,
        c.q.hidden_dim,
    )?;
    ensure(
        c.k_out.hidden_dim == c.k.hidden_dim,
        "hd256 plain prep k_out.hidden_dim",
        c.k_out.hidden_dim,
        c.k.hidden_dim,
    )?;
    ensure(c.k.seq_len == c.q.seq_len, "hd256 plain prep k.seq_len", c.k.seq_len, c.q.seq_len)?;
    ensure(
        c.q_out.seq_len == c.q.seq_len,
        "hd256 plain prep q_out.seq_len",
        c.q_out.seq_len,
        c.q.seq_len,
    )?;
    ensure(
        c.k_out.seq_len == c.q.seq_len,
        "hd256 plain prep k_out.seq_len",
        c.k_out.seq_len,
        c.q.seq_len,
    )?;
    ensure(
        c.q_norm_weight.len == 256,
        "hd256 plain prep q_norm_weight len",
        c.q_norm_weight.len,
        256,
    )?;
    ensure(
        c.k_norm_weight.len == 256,
        "hd256 plain prep k_norm_weight len",
        c.k_norm_weight.len,
        256,
    )?;
    let end_pos: usize = checked_sum(
        c.start_pos,
        c.q.seq_len,
        "hd256 plain prep start_pos + seq_len",
    )?;
    ensure_at_most(
        end_pos <= c.cos_max_pos,
        "hd256 plain prep start_pos + seq_len exceeds cos_max_pos",
        end_pos,
        c.cos_max_pos,
    )?;
    let table_len: usize = checked_product(
        c.cos_max_pos,
        c.rotary_dim,
        "hd256 plain prep cos_max_pos * rotary_dim",
    )?;
    ensure(
        c.cos_cache.len >= table_len,
        "hd256 plain prep cos_cache len",
        c.cos_cache.len,
        table_len,
    )?;
    ensure(
        c.sin_cache.len >= table_len,
        "hd256 plain prep sin_cache len",
        c.sin_cache.len,
        table_len,
    )?;
    c.q_norm_weight.ensure_backed("hd256 plain prep q_norm_weight")?;
    c.k_norm_weight.ensure_backed("hd256 plain prep k_norm_weight")?;
    c.cos_cache.ensure_backed("hd256 plain prep cos_cache")?;
    c.sin_cache.ensure_backed("hd256 plain prep sin_cache")?;
    let q_extent: usize = c.q.checked_extent("hd256 plain prep q")?;
    let k_extent: usize = c.k.checked_extent("hd256 plain prep k")?;
    c.q_out.checked_extent("hd256 plain prep q_out")?;
    c.k_out.checked_extent("hd256 plain prep k_out")?;
    checked_i32(q_extent, "hd256 plain prep q extent")?;
    checked_i32(k_extent, "hd256 plain prep k extent")?;
    checked_i32(table_len, "hd256 plain prep rope table extent")?;
    let num_q_heads: i32 = checked_i32(c.num_q_heads, "hd256 plain prep num_q_heads")?;
    let num_kv_heads: i32 = checked_i32(c.num_kv_heads, "hd256 plain prep num_kv_heads")?;
    let seq_len: i32 = checked_i32(c.q.seq_len, "hd256 plain prep seq_len")?;
    let start_pos: i32 = checked_i32(c.start_pos, "hd256 plain prep start_pos")?;
    let cos_max_pos: i32 = checked_i32(c.cos_max_pos, "hd256 plain prep cos_max_pos")?;
    let rotary_dim: i32 = checked_i32(c.rotary_dim, "hd256 plain prep rotary_dim")?;
    Ok(QkPrepHd256Launch {
        num_q_heads,
        num_kv_heads,
        seq_len,
        start_pos,
        cos_max_pos,
        rotary_dim,
    })
}

/// What [`qkv_norm_rope_paged_prefill_hd256_plain_into`] takes.
#[derive(Clone, Copy, Debug)]
pub struct QkvPagedPrefillHd256 {
    pub q: HiddenStates,
    pub k: HiddenStates,
    pub v: HiddenStates,
    pub q_out: HiddenStates,
    pub row_offset: usize,
    /// Two-byte slots of the pool.
    pub kv_pool_len: usize,
    pub layout: PagedKvLayout,
    pub q_norm_weight: DeviceVec,
    pub k_norm_weight: DeviceVec,
    pub cos_cache: DeviceVec,
    pub sin_cache: DeviceVec,
    pub layer: usize,
    /// Entries of the page table.
    pub page_indices_len: usize,
    pub pages_offset: usize,
    pub page_origin: usize,
    pub start_pos: usize,
    pub cos_max_pos: usize,
    pub num_q_heads: usize,
    pub num_kv_heads: usize,
    pub rotary_dim: usize,
}

/// The C arguments that [`qkv_norm_rope_paged_prefill_hd256_plain_into`] derives.
#[derive(Clone, Copy, Debug, PartialEq, Eq)]
pub struct QkvPagedPrefillHd256Launch {
    pub geometry: PagedGeometry,
    pub page_indices_len: i32,
    pub page_origin: i32,
    pub num_q_heads: i32,
    pub num_kv_heads: i32,
    pub seq_len: i32,
    pub start_pos: i32,
    pub cos_max_pos: i32,
    pub rotary_dim: i32,
    pub q_row_bytes: u64,
    pub k_row_bytes: u64,
    pub v_row_bytes: u64,
    pub q_out_row_bytes: u64,
    pub pages_offset_bytes: u64,
    pub fp8: bool,
}

impl QkvPagedPrefillHd256 {
    /// Why the kernel cannot run, if it cannot.
    pub open spec fn fault(self) -> Option<KernelError> {
        let rows = self.q.seq_len - self.row_offset;
        let window = self.page_indices_len - self.pages_offset;
        let q_dim = self.num_q_heads * 256;
        let kv_dim = self.num_kv_heads * 256;
        let end_pos = self.start_pos + rows;
        let covered = window * self.layout.page_size;
        let row_start = self.page_origin * self.layout.page_size;
        let row_end = row_start + covered;
        let table_len = self.cos_max_pos * self.rotary_dim;
        let q_extent = self.q.extent();
        let k_extent = self.k.extent();
        KernelError::unless_below(
            self.row_offset < self.q.seq_len,
            "hd256 paged prep row_offset leaves no rows",
            self.row_offset as int,
            self.q.seq_len as int,
        )
            .or_fault(KernelError::unless_below(
                self.pages_offset < self.page_indices_len,
                "hd256 paged prep pages_offset exceeds table len",
                self.pages_offset as int,
                self.page_indices_len as int,
            ))
            .or_fault(KernelError::overflow(q_dim, "hd256 paged prep num_q_heads"))
            .or_fault(KernelError::overflow(kv_dim, "hd256 paged prep num_kv_heads"))
            .or_fault(KernelError::unless_sized(
                self.q.hidden_dim == q_dim,
                "hd256 paged prep q.hidden_dim",
                self.q.hidden_dim as int,
                q_dim,
            ))
            .or_fault(KernelError::unless_sized(
                self.q_out.hidden_dim == self.q.hidden_dim,
                "hd256 paged prep q_out.hidden_dim",
                self.q_out.hidden_dim as int,
                self.q.hidden_dim as int,
            ))
            .or_fault(KernelError::unless_sized(
                self.q_out.seq_len == self.q.seq_len,
                "hd256 paged prep q_out.seq_len",
                self.q_out.seq_len as int,
                self.q.seq_len as int,
            ))
            .or_fault(KernelError::unless_sized(
                self.k.hidden_dim == kv_dim,
                "hd256 paged prep k.hidden_dim",
                self.k.hidden_dim as int,
                kv_dim,
            ))
            .or_fault(KernelError::unless_sized(
                self.v.hidden_dim == self.k.hidden_dim,
                "hd256 paged prep v.hidden_dim",
                self.v.hidden_dim as int,
                self.k.hidden_dim as int,
            ))
            .or_fault(KernelError::unless_sized(
                self.k.seq_len == self.q.seq_len,
                "hd256 paged prep k.seq_len",
                self.k.seq_len as int,
                self.q.seq_len as int,
            ))
            .or_fault(KernelError::unless_sized(
                self.v.seq_len == self.q.seq_len,
                "hd256 paged prep v.seq_len",
                self.v.seq_len as int,
                self.q.seq_len as int,
            ))
            .or_fault(super::geometry::geometry_fault(
                "hd256 paged prep",
                self.layout,
                self.kv_pool_len,
                self.layer,
                256,
                self.num_kv_heads,
                true,
            ))
            .or_fault(self.q_norm_weight.backing_fault("hd256 paged prep q_norm_weight"))
            .or_fault(self.k_norm_weight.backing_fault("hd256 paged prep k_norm_weight"))
            .or_fault(self.cos_cache.backing_fault("hd256 paged prep cos_cache"))
            .or_fault(self.sin_cache.backing_fault("hd256 paged prep sin_cache"))
            .or_fault(KernelError::unless_sized(
                self.q_norm_weight.len == 256,
                "hd256 paged prep q_norm_weight len",
                self.q_norm_weight.len as int,
                256,
            ))
            .or_fault(KernelError::unless_sized(
                self.k_norm_weight.len == 256,
                "hd256 paged prep k_norm_weight len",
                self.k_norm_weight.len as int,
                256,
            ))
            .or_fault(KernelError::overflow(end_pos, "hd256 paged prep start_pos + seq_len"))
            .or_fault(KernelError::overflow(covered, "hd256 paged prep page window"))
            .or_fault(KernelError::overflow(row_start, "hd256 paged prep page_origin"))
            .or_fault(KernelError::overflow(row_end, "hd256 paged prep row start + span"))
            .or_fault(KernelError::unless_at_most(
                row_start <= self.start_pos,
                "hd256 paged prep page_origin starts after start_pos",
                row_start,
                self.start_pos as int,
            ))
            .or_fault(KernelError::unless_sized(
                row_end >= end_pos,
                "hd256 paged prep page row ends before the segment",
                row_end,
                end_pos,
            ))
            .or_fault(KernelError::unless_at_most(
                end_pos <= self.cos_max_pos,
                "hd256 paged prep start_pos + seq_len exceeds cos_max_pos",
                end_pos,
                self.cos_max_pos as int,
            ))
            .or_fault(KernelError::overflow(table_len, "hd256 paged prep cos_max_pos * rotary_dim"))
            .or_fault(KernelError::unless_sized(
                self.cos_cache.len >= table_len,
                "hd256 paged prep cos_cache len",
                self.cos_cache.len as int,
                table_len,
            ))
            .or_fault(KernelError::unless_sized(
                self.sin_cache.len >= table_len,
                "hd256 paged prep sin_cache len",
                self.sin_cache.len as int,
                table_len,
            ))
            .or_fault(self.q.extent_fault("hd256 paged prep q"))
            .or_fault(self.q_out.extent_fault("hd256 paged prep q_out"))
            .or_fault(self.k.extent_fault("hd256 paged prep k"))
            .or_fault(self.v.extent_fault("hd256 paged prep v"))
            .or_fault(KernelError::too_wide(q_extent, "hd256 paged prep q extent"))
            .or_fault(KernelError::too_wide(k_extent, "hd256 paged prep k extent"))
            .or_fault(KernelError::too_wide(table_len, "hd256 paged prep rope table extent"))
            .or_fault(KernelError::too_wide(
                self.page_origin as int,
                "hd256 paged prep page_origin",
            ))
            .or_fault(KernelError::too_wide(
                self.num_q_heads as int,
                "hd256 paged prep num_q_heads",
            ))
            .or_fault(KernelError::too_wide(
                self.num_kv_heads as int,
                "hd256 paged prep num_kv_heads",
            ))
            .or_fault(KernelError::too_wide(rows, "hd256 paged prep seq_len"))
            .or_fault(KernelError::too_wide(self.start_pos as int, "hd256 paged prep start_pos"))
            .or_fault(KernelError::too_wide(
                self.cos_max_pos as int,
                "hd256 paged prep cos_max_pos",
            ))
            .or_fault(KernelError::too_wide(self.rotary_dim as int, "hd256 paged prep rotary_dim"))
            .or_fault(KernelError::too_wide(window, "hd256 paged prep page window len"))
            .or_fault(self.q.row_fault(self.row_offset, rows as usize, "hd256 paged prep q"))
            .or_fault(self.k.row_fault(self.row_offset, rows as usize, "hd256 paged prep k"))
            .or_fault(self.v.row_fault(self.row_offset, rows as usize, "hd256 paged prep v"))
            .or_fault(self.q_out.row_fault(
                self.row_offset,
                rows as usize,
                "hd256 paged prep q_out",
            ))
    }

    /// The launch of a call without a fault.
    pub open spec fn launch(self) -> QkvPagedPrefillHd256Launch {
        let rows = self.q.seq_len - self.row_offset;
        let window = self.page_indices_len - self.pages_offset;
        let geometry = super::geometry::geometry_of(self.layout, self.kv_pool_len, self.layer);
        let page_origin = self.page_origin as i32;
        let num_q_heads = self.num_q_heads as i32;
        let num_kv_heads = self.num_kv_heads as i32;
        let seq_len = rows as i32;
        let start_pos = self.start_pos as i32;
        let cos_max_pos = self.cos_max_pos as i32;
        let rotary_dim = self.rotary_dim as i32;
        let page_indices_len = window as i32;
        let q_row_bytes = self.q.row_bytes(self.row_offset) as u64;
        let k_row_bytes = self.k.row_bytes(self.row_offset) as u64;
        let v_row_bytes = self.v.row_bytes(self.row_offset) as u64;
        let q_out_row_bytes = self.q_out.row_bytes(self.row_offset) as u64;
        QkvPagedPrefillHd256Launch {
            geometry,
            page_indices_len,
            page_origin,
            num_q_heads,
            num_kv_heads,
            seq_len,
            start_pos,
            cos_max_pos,
            rotary_dim,
            q_row_bytes,
            k_row_bytes,
            v_row_bytes,
            q_out_row_bytes,
            pages_offset_bytes: (self.pages_offset * 4) as u64,
            fp8: self.layout.storage == KvStorage::E4m3,
        }
    }
}

/// QKV prep of a prompt segment at head_dim 256: Q is normed and rotated into
/// `q_out`, K into the layer's K block of the pool and V, normed but never
/// rotated, into its V block. The segment is the row suffix from `row_offset`;
/// its page row starts at `pages_offset` and its first entry covers the
/// absolute page `page_origin`.
pub fn qkv_norm_rope_paged_prefill_hd256_plain_into(c: &QkvPagedPrefillHd256) -> (r: Result<
    QkvPagedPrefillHd256Launch,
    KernelError,
>)
    requires
        c.page_indices_len * 4 <= usize::MAX,
    ensures
        r == KernelError::outcome(c.fault(), c.launch()),
        r matches Ok(l) ==> l.start_pos == c.start_pos,
{
    ensure_below(
        c.row_offset < c.q.seq_len,
        "hd256 paged prep row_offset leaves no rows",
        c.row_offset,
        c.q.seq_len,
    )?;
    let rows: usize = c.q.seq_len - c.row_offset;
    ensure_below(
        c.pages_offset < c.page_indices_len,
        "hd256 paged prep pages_offset exceeds table len",
        c.pages_offset,
        c.page_indices_len,
    )?;
    let window: usize = c.page_indices_len - c.pages_offset;
    let q_dim: usize = checked_product(c.num_q_heads, 256, "hd256 paged prep num_q_heads")?;
    let kv_dim: usize = checked_product(c.num_kv_heads, 256, "hd256 paged prep num_kv_heads")?;
    ensure(c.q.hidden_dim == q_dim, "hd256 paged prep q.hidden_dim", c.q.hidden_dim, q_dim)?;
    ensure(
        c.q_out.hidden_dim == c.q.hidden_dim,
        "hd256 paged prep q_out.hidden_dim",
        c.q_out.hidden_dim,
        c.q.hidden_dim,
    )?;
    ensure(
        c.q_out.seq_len == c.q.seq_len,
        "hd256 paged prep q_out.seq_len",
        c.q_out.seq_len,
        c.q.seq_len,
    )?;
    ensure(c.k.hidden_dim == kv_dim, "hd256 paged prep k.hidden_dim", c.k.hidden_dim, kv_dim)?;
    ensure(
        c.v.hidden_dim == c.k.hidden_dim,
        "hd256 paged prep v.hidden_dim",
        c.v.hidden_dim,
        c.k.hidden_dim,
    )?;
    ensure(c.k.seq_len == c.q.seq_len, "hd256 paged prep k.seq_len", c.k.seq_len, c.q.seq_len)?;
    ensure(c.v.seq_len == c.q.seq_len, "hd256 paged prep v.seq_len", c.v.seq_len, c.q.seq_len)?;
    let geometry: PagedGeometry = checked_paged_geometry(
        "hd256 paged prep",
        &c.layout,
        c.kv_pool_len,
        c.layer,
        256,
        c.num_kv_heads,
        true,
    )?;
    c.q_norm_weight.ensure_backed("hd256 paged prep q_norm_weight")?;
    c.k_norm_weight.ensure_backed("hd256 paged prep k_norm_weight")?;
    c.cos_cache.ensure_backed("hd256 paged prep cos_cache")?;
    c.sin_cache.ensure_backed("hd256 paged prep sin_cache")?;
    ensure(
        c.q_norm_weight.len == 256,
        "hd256 paged prep q_norm_weight len",
        c.q_norm_weight.len,
        256,
    )?;
    ensure(
        c.k_norm_weight.len == 256,
        "hd256 paged prep k_norm_weight len",
        c.k_norm_weight.len,
        256,
    )?;
    let end_pos: usize = checked_sum(c.start_pos, rows, "hd256 paged prep start_pos + seq_len")?;
    let covered: usize = checked_product(
        window,
        c.layout.page_size,
        "hd256 paged prep page window",
    )?;
    let row_start: usize = checked_product(
        c.page_origin,
        c.layout.page_size,
        "hd256 paged prep page_origin",
    )?;
    let row_end: usize = checked_sum(row_start, covered, "hd256 paged prep row start + span")?;
    ensure_at_most(
        row_start <= c.start_pos,
        "hd256 paged prep page_origin starts after start_pos",
        row_start,
        c.start_pos,
    )?;
    ensure(
        row_end >= end_pos,
        "hd256 paged prep page row ends before the segment",
        row_end,
        end_pos,
    )?;
    ensure_at_most(
        end_pos <= c.cos_max_pos,
        "hd256 paged prep start_pos + seq_len exceeds cos_max_pos",
        end_pos,
        c.cos_max_pos,
    )?;
    let table_len: usize = checked_product(
        c.cos_max_pos,
        c.rotary_dim,
        "hd256 paged prep cos_max_pos * rotary_dim",
    )?;
    ensure(
        c.cos_cache.len >= table_len,
        "hd256 paged prep cos_cache len",
        c.cos_cache.len,
        table_len,
    )?;
    ensure(
        c.sin_cache.len >= table_len,
        "hd256 paged prep sin_cache len",
        c.sin_cache.len,
        table_len,
    )?;
    let q_extent: usize = c.q.checked_extent("hd256 paged prep q")?;
    c.q_out.checked_extent("hd256 paged prep q_out")?;
    let k_extent: usize = c.k.checked_extent("hd256 paged prep k")?;
    c.v.checked_extent("hd256 paged prep v")?;
    checked_i32(q_extent, "hd256 paged prep q extent")?;
    checked_i32(k_extent, "hd256 paged prep k extent")?;
    checked_i32(table_len, "hd256 paged prep rope table extent")?;
    let page_origin: i32 = checked_i32(c.page_origin, "hd256 paged prep page_origin")?;
    let num_q_heads: i32 = checked_i32(c.num_q_heads, "hd256 paged prep num_q_heads")?;
    let num_kv_heads: i32 = checked_i32(c.num_kv_heads, "hd256 paged prep num_kv_heads")?;
    let seq_len: i32 = checked_i32(rows, "hd256 paged prep seq_len")?;
    let start_pos: i32 = checked_i32(c.start_pos, "hd256 paged prep start_pos")?;
    let cos_max_pos: i32 = checked_i32(c.cos_max_pos, "hd256 paged prep cos_max_pos")?;
    let rotary_dim: i32 = checked_i32(c.rotary_dim, "hd256 paged prep rotary_dim")?;
    let page_indices_len: i32 = checked_i32(window, "hd256 paged prep page window len")?;
    let q_row_bytes: u64 = c.q.checked_row_offset(c.row_offset, rows, "hd256 paged prep q")?;
    let k_row_bytes: u64 = c.k.checked_row_offset(c.row_offset, rows, "hd256 paged prep k")?;
    let v_row_bytes: u64 = c.v.checked_row_offset(c.row_offset, rows, "hd256 paged prep v")?;
    let q_out_row_bytes: u64 = c.q_out.checked_row_offset(
        c.row_offset,
        rows,
        "hd256 paged prep q_out",
    )?;
    Ok(QkvPagedPrefillHd256Launch {
        geometry,
        page_indices_len,
        page_origin,
        num_q_heads,
        num_kv_heads,
        seq_len,
        start_pos,
        cos_max_pos,
        rotary_dim,
        q_row_bytes,
        k_row_bytes,
        v_row_bytes,
        q_out_row_bytes,
        pages_offset_bytes: (c.pages_offset * 4) as u64,
        fp8: c.layout.storage == KvStorage::E4m3,
    })
}

/// What [`qk_norm_partial_rope_paged_prefill_hd512_into`] takes.
#[derive(Clone, Copy, Debug)]
pub struct QkPagedPrefillHd512 {
    pub q: HiddenStates,
    pub k: HiddenStates,
    pub q_out: HiddenStates,
    pub row_offset: usize,
    /// Two-byte slots of the pool.
    pub kv_pool_len: usize,
    pub layout: PagedKvLayout,
    pub q_norm_weight: DeviceVec,
    pub k_norm_weight: DeviceVec,
    pub cos_cache: DeviceVec,
    pub sin_cache: DeviceVec,
    pub layer: usize,
    /// Entries of the page table.
    pub page_indices_len: usize,
    pub pages_offset: usize,
    pub start_pos: usize,
    pub cos_max_pos: usize,
    pub num_q_heads: usize,
    pub num_kv_heads: usize,
    pub rotary_dim: usize,
}

/// The C arguments that [`qk_norm_partial_rope_paged_prefill_hd512_into`] derives.
#[derive(Clone, Copy, Debug, PartialEq, Eq)]
pub struct QkPagedPrefillHd512Launch {
    pub geometry: PagedGeometry,
    pub page_indices_len: i32,
    pub num_q_heads: i32,
    pub num_kv_heads: i32,
    pub seq_len: i32,
    pub start_pos: i32,
    pub cos_max_pos: i32,
    pub rotary_dim: i32,
    pub q_row_bytes: u64,
    pub k_row_bytes: u64,
    pub q_out_row_bytes: u64,
    pub pages_offset_bytes: u64,
}

impl QkPagedPrefillHd512 {
    /// Why the kernel cannot run, if it cannot.
    pub open spec fn fault(self) -> Option<KernelError> {
        let rows = self.q.seq_len - self.row_offset;
        let window = self.page_indices_len - self.pages_offset;
        let q_dim = self.num_q_heads * 512;
        let kv_dim = self.num_kv_heads * 512;
        let end_pos = self.start_pos + rows;
        let covered = window * self.layout.page_size;
        let table_len = self.cos_max_pos * self.rotary_dim;
        let q_extent = self.q.extent();
        let k_extent = self.k.extent();
        KernelError::unless_below(
            self.row_offset < self.q.seq_len,
            "hd512 prefill prep row_offset leaves no rows",
            self.row_offset as int,
            self.q.seq_len as int,
        )
            .or_fault(KernelError::unless_below(
                self.pages_offset < self.page_indices_len,
                "hd512 prefill prep pages_offset exceeds table len",
                self.pages_offset as int,
                self.page_indices_len as int,
            ))
            .or_fault(KernelError::overflow(q_dim, "hd512 prefill prep num_q_heads"))
            .or_fault(KernelError::overflow(kv_dim, "hd512 prefill prep num_kv_heads"))
            .or_fault(KernelError::unless_sized(
                self.q.hidden_dim == q_dim,
                "hd512 prefill prep q.hidden_dim",
                self.q.hidden_dim as int,
                q_dim,
            ))
            .or_fault(KernelError::unless_sized(
                self.q_out.hidden_dim == self.q.hidden_dim,
                "hd512 prefill prep q_out.hidden_dim",
                self.q_out.hidden_dim as int,
                self.q.hidden_dim as int,
            ))
            .or_fault(KernelError::unless_sized(
                self.q_out.seq_len == self.q.seq_len,
                "hd512 prefill prep q_out.seq_len",
                self.q_out.seq_len as int,
                self.q.seq_len as int,
            ))
            .or_fault(KernelError::unless_sized(
                self.k.hidden_dim == kv_dim,
                "hd512 prefill prep k.hidden_dim",
                self.k.hidden_dim as int,
                kv_dim,
            ))
            .or_fault(KernelError::unless_sized(
                self.k.seq_len == self.q.seq_len,
                "hd512 prefill prep k.seq_len",
                self.k.seq_len as int,
                self.q.seq_len as int,
            ))
            .or_fault(super::geometry::geometry_fault(
                "hd512 prefill prep",
                self.layout,
                self.kv_pool_len,
                self.layer,
                512,
                self.num_kv_heads,
                false,
            ))
            .or_fault(KernelError::unless_sized(
                self.q_norm_weight.len == 512,
                "hd512 prefill prep q_norm_weight len",
                self.q_norm_weight.len as int,
                512,
            ))
            .or_fault(KernelError::unless_sized(
                self.k_norm_weight.len == 512,
                "hd512 prefill prep k_norm_weight len",
                self.k_norm_weight.len as int,
                512,
            ))
            .or_fault(KernelError::overflow(end_pos, "hd512 prefill prep start_pos + seq_len"))
            .or_fault(KernelError::overflow(covered, "hd512 prefill prep page window"))
            .or_fault(KernelError::unless_sized(
                covered >= end_pos,
                "hd512 prefill prep pages end before the segment",
                covered,
                end_pos,
            ))
            .or_fault(KernelError::unless_at_most(
                end_pos <= self.cos_max_pos,
                "hd512 prefill prep start_pos + seq_len exceeds cos_max_pos",
                end_pos,
                self.cos_max_pos as int,
            ))
            .or_fault(KernelError::overflow(
                table_len,
                "hd512 prefill prep cos_max_pos * rotary_dim",
            ))
            .or_fault(KernelError::unless_sized(
                self.cos_cache.len >= table_len,
                "hd512 prefill prep cos_cache len",
                self.cos_cache.len as int,
                table_len,
            ))
            .or_fault(KernelError::unless_sized(
                self.sin_cache.len >= table_len,
                "hd512 prefill prep sin_cache len",
                self.sin_cache.len as int,
                table_len,
            ))
            .or_fault(self.q.extent_fault("hd512 prefill prep q"))
            .or_fault(self.q_out.extent_fault("hd512 prefill prep q_out"))
            .or_fault(self.k.extent_fault("hd512 prefill prep k"))
            .or_fault(KernelError::too_wide(q_extent, "hd512 prefill prep q extent"))
            .or_fault(KernelError::too_wide(k_extent, "hd512 prefill prep k extent"))
            .or_fault(KernelError::too_wide(table_len, "hd512 prefill prep rope table extent"))
            .or_fault(self.q_norm_weight.backing_fault("hd512 prefill prep q_norm_weight"))
            .or_fault(self.k_norm_weight.backing_fault("hd512 prefill prep k_norm_weight"))
            .or_fault(self.cos_cache.backing_fault("hd512 prefill prep cos_cache"))
            .or_fault(self.sin_cache.backing_fault("hd512 prefill prep sin_cache"))
            .or_fault(KernelError::too_wide(
                self.num_q_heads as int,
                "hd512 prefill prep num_q_heads",
            ))
            .or_fault(KernelError::too_wide(
                self.num_kv_heads as int,
                "hd512 prefill prep num_kv_heads",
            ))
            .or_fault(KernelError::too_wide(rows, "hd512 prefill prep seq_len"))
            .or_fault(KernelError::too_wide(self.start_pos as int, "hd512 prefill prep start_pos"))
            .or_fault(KernelError::too_wide(
                self.cos_max_pos as int,
                "hd512 prefill prep cos_max_pos",
            ))
            .or_fault(KernelError::too_wide(
                self.rotary_dim as int,
                "hd512 prefill prep rotary_dim",
            ))
            .or_fault(KernelError::too_wide(window, "hd512 paged prep page window len"))
            .or_fault(self.q.row_fault(self.row_offset, rows as usize, "hd512 prefill prep q"))
            .or_fault(self.k.row_fault(self.row_offset, rows as usize, "hd512 prefill prep k"))
            .or_fault(self.q_out.row_fault(
                self.row_offset,
                rows as usize,
                "hd512 prefill prep q_out",
            ))
    }

    /// The launch of a call without a fault.
    pub open spec fn launch(self) -> QkPagedPrefillHd512Launch {
        let rows = self.q.seq_len - self.row_offset;
        let window = self.page_indices_len - self.pages_offset;
        let geometry = super::geometry::geometry_of(self.layout, self.kv_pool_len, self.layer);
        let num_q_heads = self.num_q_heads as i32;
        let num_kv_heads = self.num_kv_heads as i32;
        let seq_len = rows as i32;
        let start_pos = self.start_pos as i32;
        let cos_max_pos = self.cos_max_pos as i32;
        let rotary_dim = self.rotary_dim as i32;
        let page_indices_len = window as i32;
        let q_row_bytes = self.q.row_bytes(self.row_offset) as u64;
        let k_row_bytes = self.k.row_bytes(self.row_offset) as u64;
        let q_out_row_bytes = self.q_out.row_bytes(self.row_offset) as u64;
        QkPagedPrefillHd512Launch {
            geometry,
            page_indices_len,
            num_q_heads,
            num_kv_heads,
            seq_len,
            start_pos,
            cos_max_pos,
            rotary_dim,
            q_row_bytes,
            k_row_bytes,
            q_out_row_bytes,
            pages_offset_bytes: (self.pages_offset * 4) as u64,
        }
    }
}

/// QK prep of a prompt segment at head_dim 512: Q is normed and partially
/// rotated into `q_out`, K into the layer's K block of the pool, and the
/// weightless norm of the same K into its V block. The segment is the row
/// suffix from `row_offset`, its page row starts at `pages_offset`.
pub fn qk_norm_partial_rope_paged_prefill_hd512_into(c: &QkPagedPrefillHd512) -> (r: Result<
    QkPagedPrefillHd512Launch,
    KernelError,
>)
    requires
        c.page_indices_len * 4 <= usize::MAX,
    ensures
        r == KernelError::outcome(c.fault(), c.launch()),
        r matches Ok(l) ==> l.start_pos == c.start_pos,
{
    ensure_below(
        c.row_offset < c.q.seq_len,
        "hd512 prefill prep row_offset leaves no rows",
        c.row_offset,
        c.q.seq_len,
    )?;
    let rows: usize = c.q.seq_len - c.row_offset;
    ensure_below(
        c.pages_offset < c.page_indices_len,
        "hd512 prefill prep pages_offset exceeds table len",
        c.pages_offset,
        c.page_indices_len,
    )?;
    let window: usize = c.page_indices_len - c.pages_offset;
    let q_dim: usize = checked_product(c.num_q_heads, 512, "hd512 prefill prep num_q_heads")?;
    let kv_dim: usize = checked_product(c.num_kv_heads, 512, "hd512 prefill prep num_kv_heads")?;
    ensure(c.q.hidden_dim == q_dim, "hd512 prefill prep q.hidden_dim", c.q.hidden_dim, q_dim)?;
    ensure(
        c.q_out.hidden_dim == c.q.hidden_dim,
        "hd512 prefill prep q_out.hidden_dim",
        c.q_out.hidden_dim,
        c.q.hidden_dim,
    )?;
    ensure(
        c.q_out.seq_len == c.q.seq_len,
        "hd512 prefill prep q_out.seq_len",
        c.q_out.seq_len,
        c.q.seq_len,
    )?;
    ensure(c.k.hidden_dim == kv_dim, "hd512 prefill prep k.hidden_dim", c.k.hidden_dim, kv_dim)?;
    ensure(c.k.seq_len == c.q.seq_len, "hd512 prefill prep k.seq_len", c.k.seq_len, c.q.seq_len)?;
    let geometry: PagedGeometry = checked_paged_geometry(
        "hd512 prefill prep",
        &c.layout,
        c.kv_pool_len,
        c.layer,
        512,
        c.num_kv_heads,
        false,
    )?;
    ensure(
        c.q_norm_weight.len == 512,
        "hd512 prefill prep q_norm_weight len",
        c.q_norm_weight.len,
        512,
    )?;
    ensure(
        c.k_norm_weight.len == 512,
        "hd512 prefill prep k_norm_weight len",
        c.k_norm_weight.len,
        512,
    )?;
    let end_pos: usize = checked_sum(c.start_pos, rows, "hd512 prefill prep start_pos + seq_len")?;
    let covered: usize = checked_product(
        window,
        c.layout.page_size,
        "hd512 prefill prep page window",
    )?;
    ensure(
        covered >= end_pos,
        "hd512 prefill prep pages end before the segment",
        covered,
        end_pos,
    )?;
    ensure_at_most(
        end_pos <= c.cos_max_pos,
        "hd512 prefill prep start_pos + seq_len exceeds cos_max_pos",
        end_pos,
        c.cos_max_pos,
    )?;
    let table_len: usize = checked_product(
        c.cos_max_pos,
        c.rotary_dim,
        "hd512 prefill prep cos_max_pos * rotary_dim",
    )?;
    ensure(
        c.cos_cache.len >= table_len,
        "hd512 prefill prep cos_cache len",
        c.cos_cache.len,
        table_len,
    )?;
    ensure(
        c.sin_cache.len >= table_len,
        "hd512 prefill prep sin_cache len",
        c.sin_cache.len,
        table_len,
    )?;
    let q_extent: usize = c.q.checked_extent("hd512 prefill prep q")?;
    c.q_out.checked_extent("hd512 prefill prep q_out")?;
    let k_extent: usize = c.k.checked_extent("hd512 prefill prep k")?;
    checked_i32(q_extent, "hd512 prefill prep q extent")?;
    checked_i32(k_extent, "hd512 prefill prep k extent")?;
    checked_i32(table_len, "hd512 prefill prep rope table extent")?;
    c.q_norm_weight.ensure_backed("hd512 prefill prep q_norm_weight")?;
    c.k_norm_weight.ensure_backed("hd512 prefill prep k_norm_weight")?;
    c.cos_cache.ensure_backed("hd512 prefill prep cos_cache")?;
    c.sin_cache.ensure_backed("hd512 prefill prep sin_cache")?;
    let num_q_heads: i32 = checked_i32(c.num_q_heads, "hd512 prefill prep num_q_heads")?;
    let num_kv_heads: i32 = checked_i32(c.num_kv_heads, "hd512 prefill prep num_kv_heads")?;
    let seq_len: i32 = checked_i32(rows, "hd512 prefill prep seq_len")?;
    let start_pos: i32 = checked_i32(c.start_pos, "hd512 prefill prep start_pos")?;
    let cos_max_pos: i32 = checked_i32(c.cos_max_pos, "hd512 prefill prep cos_max_pos")?;
    let rotary_dim: i32 = checked_i32(c.rotary_dim, "hd512 prefill prep rotary_dim")?;
    let page_indices_len: i32 = checked_i32(window, "hd512 paged prep page window len")?;
    let q_row_bytes: u64 = c.q.checked_row_offset(c.row_offset, rows, "hd512 prefill prep q")?;
    let k_row_bytes: u64 = c.k.checked_row_offset(c.row_offset, rows, "hd512 prefill prep k")?;
    let q_out_row_bytes: u64 = c.q_out.checked_row_offset(
        c.row_offset,
        rows,
        "hd512 prefill prep q_out",
    )?;
    Ok(QkPagedPrefillHd512Launch {
        geometry,
        page_indices_len,
        num_q_heads,
        num_kv_heads,
        seq_len,
        start_pos,
        cos_max_pos,
        rotary_dim,
        q_row_bytes,
        k_row_bytes,
        q_out_row_bytes,
        pages_offset_bytes: (c.pages_offset * 4) as u64,
    })
}

/// What [`qkv_norm_rope_paged_decode_hd256_plain_into`] takes.
#[derive(Clone, Copy, Debug)]
pub struct QkvPagedDecodeHd256 {
    pub q: HiddenStates,
    pub k: HiddenStates,
    pub v: HiddenStates,
    pub q_out: HiddenStates,
    pub row_offset: usize,
    /// Two-byte slots of the pool.
    pub kv_pool_len: usize,
    pub layout: PagedKvLayout,
    pub q_norm_weight: DeviceVec,
    pub k_norm_weight: DeviceVec,
    pub cos_cache: DeviceVec,
    pub sin_cache: DeviceVec,
    pub layer: usize,
    /// Entries of the metadata arrays.
    pub page_indices_len: usize,
    pub page_indptr_len: usize,
    pub page_origins_len: usize,
    pub positions_len: usize,
    pub cos_max_pos: usize,
    pub num_q_heads: usize,
    pub num_kv_heads: usize,
    pub rotary_dim: usize,
}

/// The C arguments that [`qkv_norm_rope_paged_decode_hd256_plain_into`] derives.
#[derive(Clone, Copy, Debug, PartialEq, Eq)]
pub struct QkvPagedDecodeHd256Launch {
    pub geometry: PagedGeometry,
    pub page_indices_len: i32,
    pub num_q_heads: i32,
    pub num_kv_heads: i32,
    pub batch: i32,
    pub cos_max_pos: i32,
    pub rotary_dim: i32,
    pub q_row_bytes: u64,
    pub k_row_bytes: u64,
    pub v_row_bytes: u64,
    pub q_out_row_bytes: u64,
    pub fp8: bool,
}

impl QkvPagedDecodeHd256 {
    /// Why the kernel cannot run, if it cannot.
    pub open spec fn fault(self) -> Option<KernelError> {
        let rows = self.q.seq_len - self.row_offset;
        let table_rows = self.cos_max_pos * self.rotary_dim;
        let q_extent = self.q.extent();
        let k_extent = self.k.extent();
        KernelError::unless_below(
            self.row_offset < self.q.seq_len,
            "hd256 paged decode prep row_offset leaves no rows",
            self.row_offset as int,
            self.q.seq_len as int,
        )
            .or_fault(KernelError::unless_fit(
                self.q.hidden_dim == self.num_q_heads * 256,
                "hd256 paged decode prep q.hidden_dim must be 256 per query head",
                self.q.hidden_dim as int,
                self.num_q_heads as int,
            ))
            .or_fault(KernelError::unless(
                self.q_out.hidden_dim == self.q.hidden_dim && self.q_out.seq_len == self.q.seq_len,
                "hd256 paged decode prep q_out must be shaped like q",
            ))
            .or_fault(KernelError::unless(
                self.k.hidden_dim == self.num_kv_heads * 256 && self.k.seq_len == self.q.seq_len,
                "hd256 paged decode prep k must be num_kv_heads * 256 wide with the rows of q",
            ))
            .or_fault(KernelError::unless(
                self.v.hidden_dim == self.k.hidden_dim && self.v.seq_len == self.q.seq_len,
                "hd256 paged decode prep v must be shaped like k",
            ))
            .or_fault(super::geometry::geometry_fault(
                "hd256 paged decode prep",
                self.layout,
                self.kv_pool_len,
                self.layer,
                256,
                self.num_kv_heads,
                true,
            ))
            .or_fault(self.q_norm_weight.backing_fault("hd256 paged decode prep q_norm_weight"))
            .or_fault(self.k_norm_weight.backing_fault("hd256 paged decode prep k_norm_weight"))
            .or_fault(self.cos_cache.backing_fault("hd256 paged decode prep cos_cache"))
            .or_fault(self.sin_cache.backing_fault("hd256 paged decode prep sin_cache"))
            .or_fault(KernelError::unless(
                self.q_norm_weight.len == 256 && self.k_norm_weight.len == 256,
                "hd256 paged decode prep norm weights must hold 256",
            ))
            .or_fault(KernelError::overflow(
                table_rows,
                "hd256 paged decode prep cos_max_pos * rotary_dim",
            ))
            .or_fault(KernelError::too_wide(
                table_rows,
                "hd256 paged decode prep rope table extent",
            ))
            .or_fault(KernelError::unless(
                self.cos_cache.len >= table_rows && self.sin_cache.len >= table_rows,
                "hd256 paged decode prep cos/sin caches are shorter than the rope table",
            ))
            .or_fault(KernelError::unless(
                self.positions_len >= rows && self.page_origins_len >= rows
                    && self.page_indptr_len > rows,
                "hd256 paged decode prep metadata does not cover the batch",
            ))
            .or_fault(KernelError::too_wide(
                self.page_indices_len as int,
                "hd256 paged decode prep page_indices len",
            ))
            .or_fault(self.q.extent_fault("hd256 paged decode prep q"))
            .or_fault(self.q_out.extent_fault("hd256 paged decode prep q_out"))
            .or_fault(self.k.extent_fault("hd256 paged decode prep k"))
            .or_fault(self.v.extent_fault("hd256 paged decode prep v"))
            .or_fault(KernelError::too_wide(q_extent, "hd256 paged decode prep q extent"))
            .or_fault(KernelError::too_wide(k_extent, "hd256 paged decode prep k extent"))
            .or_fault(KernelError::too_wide(
                self.num_q_heads as int,
                "hd256 paged decode prep q heads",
            ))
            .or_fault(KernelError::too_wide(
                self.num_kv_heads as int,
                "hd256 paged decode prep kv heads",
            ))
            .or_fault(KernelError::too_wide(rows, "hd256 paged decode prep batch"))
            .or_fault(KernelError::too_wide(
                self.cos_max_pos as int,
                "hd256 paged decode prep cos_max_pos",
            ))
            .or_fault(KernelError::too_wide(
                self.rotary_dim as int,
                "hd256 paged decode prep rotary_dim",
            ))
            .or_fault(self.q.row_fault(self.row_offset, rows as usize, "hd256 paged decode prep q"))
            .or_fault(self.k.row_fault(self.row_offset, rows as usize, "hd256 paged decode prep k"))
            .or_fault(self.v.row_fault(self.row_offset, rows as usize, "hd256 paged decode prep v"))
            .or_fault(self.q_out.row_fault(
                self.row_offset,
                rows as usize,
                "hd256 paged decode prep q_out",
            ))
    }

    /// The launch of a call without a fault.
    pub open spec fn launch(self) -> QkvPagedDecodeHd256Launch {
        let rows = self.q.seq_len - self.row_offset;
        let geometry = super::geometry::geometry_of(self.layout, self.kv_pool_len, self.layer);
        let page_indices_len = self.page_indices_len as i32;
        let num_q_heads = self.num_q_heads as i32;
        let num_kv_heads = self.num_kv_heads as i32;
        let batch = rows as i32;
        let cos_max_pos = self.cos_max_pos as i32;
        let rotary_dim = self.rotary_dim as i32;
        let q_row_bytes = self.q.row_bytes(self.row_offset) as u64;
        let k_row_bytes = self.k.row_bytes(self.row_offset) as u64;
        let v_row_bytes = self.v.row_bytes(self.row_offset) as u64;
        let q_out_row_bytes = self.q_out.row_bytes(self.row_offset) as u64;
        QkvPagedDecodeHd256Launch {
            geometry,
            page_indices_len,
            num_q_heads,
            num_kv_heads,
            batch,
            cos_max_pos,
            rotary_dim,
            q_row_bytes,
            k_row_bytes,
            v_row_bytes,
            q_out_row_bytes,
            fp8: self.layout.storage == KvStorage::E4m3,
        }
    }
}

/// QKV prep of the decode rows at head_dim 256, one request per row of the
/// suffix from `row_offset`. `page_origins` holds each request's released
/// window front.
pub fn qkv_norm_rope_paged_decode_hd256_plain_into(c: &QkvPagedDecodeHd256) -> (r: Result<
    QkvPagedDecodeHd256Launch,
    KernelError,
>)
    ensures
        r == KernelError::outcome(c.fault(), c.launch()),
{
    ensure_below(
        c.row_offset < c.q.seq_len,
        "hd256 paged decode prep row_offset leaves no rows",
        c.row_offset,
        c.q.seq_len,
    )?;
    let rows: usize = c.q.seq_len - c.row_offset;
    ensure_fit(
        is_product(c.q.hidden_dim, c.num_q_heads, 256),
        "hd256 paged decode prep q.hidden_dim must be 256 per query head",
        c.q.hidden_dim,
        c.num_q_heads,
    )?;
    ensure_that(
        c.q_out.hidden_dim == c.q.hidden_dim && c.q_out.seq_len == c.q.seq_len,
        "hd256 paged decode prep q_out must be shaped like q",
    )?;
    ensure_that(
        is_product(c.k.hidden_dim, c.num_kv_heads, 256) && c.k.seq_len == c.q.seq_len,
        "hd256 paged decode prep k must be num_kv_heads * 256 wide with the rows of q",
    )?;
    ensure_that(
        c.v.hidden_dim == c.k.hidden_dim && c.v.seq_len == c.q.seq_len,
        "hd256 paged decode prep v must be shaped like k",
    )?;
    let geometry: PagedGeometry = checked_paged_geometry(
        "hd256 paged decode prep",
        &c.layout,
        c.kv_pool_len,
        c.layer,
        256,
        c.num_kv_heads,
        true,
    )?;
    c.q_norm_weight.ensure_backed("hd256 paged decode prep q_norm_weight")?;
    c.k_norm_weight.ensure_backed("hd256 paged decode prep k_norm_weight")?;
    c.cos_cache.ensure_backed("hd256 paged decode prep cos_cache")?;
    c.sin_cache.ensure_backed("hd256 paged decode prep sin_cache")?;
    ensure_that(
        c.q_norm_weight.len == 256 && c.k_norm_weight.len == 256,
        "hd256 paged decode prep norm weights must hold 256",
    )?;
    let table_rows: usize = checked_product(
        c.cos_max_pos,
        c.rotary_dim,
        "hd256 paged decode prep cos_max_pos * rotary_dim",
    )?;
    checked_i32(table_rows, "hd256 paged decode prep rope table extent")?;
    ensure_that(
        c.cos_cache.len >= table_rows && c.sin_cache.len >= table_rows,
        "hd256 paged decode prep cos/sin caches are shorter than the rope table",
    )?;
    ensure_that(
        c.positions_len >= rows && c.page_origins_len >= rows && c.page_indptr_len > rows,
        "hd256 paged decode prep metadata does not cover the batch",
    )?;
    let page_indices_len: i32 = checked_i32(
        c.page_indices_len,
        "hd256 paged decode prep page_indices len",
    )?;
    let q_extent: usize = c.q.checked_extent("hd256 paged decode prep q")?;
    c.q_out.checked_extent("hd256 paged decode prep q_out")?;
    let k_extent: usize = c.k.checked_extent("hd256 paged decode prep k")?;
    c.v.checked_extent("hd256 paged decode prep v")?;
    checked_i32(q_extent, "hd256 paged decode prep q extent")?;
    checked_i32(k_extent, "hd256 paged decode prep k extent")?;
    let num_q_heads: i32 = checked_i32(c.num_q_heads, "hd256 paged decode prep q heads")?;
    let num_kv_heads: i32 = checked_i32(c.num_kv_heads, "hd256 paged decode prep kv heads")?;
    let batch: i32 = checked_i32(rows, "hd256 paged decode prep batch")?;
    let cos_max_pos: i32 = checked_i32(c.cos_max_pos, "hd256 paged decode prep cos_max_pos")?;
    let rotary_dim: i32 = checked_i32(c.rotary_dim, "hd256 paged decode prep rotary_dim")?;
    let q_row_bytes: u64 = c.q.checked_row_offset(c.row_offset, rows, "hd256 paged decode prep q")?;
    let k_row_bytes: u64 = c.k.checked_row_offset(c.row_offset, rows, "hd256 paged decode prep k")?;
    let v_row_bytes: u64 = c.v.checked_row_offset(c.row_offset, rows, "hd256 paged decode prep v")?;
    let q_out_row_bytes: u64 = c.q_out.checked_row_offset(
        c.row_offset,
        rows,
        "hd256 paged decode prep q_out",
    )?;
    Ok(QkvPagedDecodeHd256Launch {
        geometry,
        page_indices_len,
        num_q_heads,
        num_kv_heads,
        batch,
        cos_max_pos,
        rotary_dim,
        q_row_bytes,
        k_row_bytes,
        v_row_bytes,
        q_out_row_bytes,
        fp8: c.layout.storage == KvStorage::E4m3,
    })
}

/// What [`qk_norm_partial_rope_paged_decode_hd512_into`] takes.
#[derive(Clone, Copy, Debug)]
pub struct QkPagedDecodeHd512 {
    pub q: HiddenStates,
    pub k: HiddenStates,
    pub q_out: HiddenStates,
    pub row_offset: usize,
    /// Two-byte slots of the pool.
    pub kv_pool_len: usize,
    pub layout: PagedKvLayout,
    pub q_norm_weight: DeviceVec,
    pub k_norm_weight: DeviceVec,
    pub cos_cache: DeviceVec,
    pub sin_cache: DeviceVec,
    pub layer: usize,
    /// Entries of the metadata arrays.
    pub page_indices_len: usize,
    pub page_indptr_len: usize,
    pub page_origins_len: usize,
    pub positions_len: usize,
    pub cos_max_pos: usize,
    pub num_q_heads: usize,
    pub num_kv_heads: usize,
    pub rotary_dim: usize,
}

/// The C arguments that [`qk_norm_partial_rope_paged_decode_hd512_into`] derives.
#[derive(Clone, Copy, Debug, PartialEq, Eq)]
pub struct QkPagedDecodeHd512Launch {
    pub geometry: PagedGeometry,
    pub page_indices_len: i32,
    pub num_q_heads: i32,
    pub num_kv_heads: i32,
    pub batch: i32,
    pub cos_max_pos: i32,
    pub rotary_dim: i32,
    pub q_row_bytes: u64,
    pub k_row_bytes: u64,
    pub q_out_row_bytes: u64,
}

impl QkPagedDecodeHd512 {
    /// Why the kernel cannot run, if it cannot.
    pub open spec fn fault(self) -> Option<KernelError> {
        let rows = self.q.seq_len - self.row_offset;
        let table_rows = self.cos_max_pos * self.rotary_dim;
        let q_extent = self.q.extent();
        let k_extent = self.k.extent();
        KernelError::unless_below(
            self.row_offset < self.q.seq_len,
            "hd512 paged decode prep row_offset leaves no rows",
            self.row_offset as int,
            self.q.seq_len as int,
        )
            .or_fault(KernelError::unless_fit(
                self.q.hidden_dim == self.num_q_heads * 512,
                "hd512 paged decode prep q.hidden_dim must be 512 per query head",
                self.q.hidden_dim as int,
                self.num_q_heads as int,
            ))
            .or_fault(KernelError::unless(
                self.q_out.hidden_dim == self.q.hidden_dim && self.q_out.seq_len == self.q.seq_len,
                "hd512 paged decode prep q_out must be shaped like q",
            ))
            .or_fault(KernelError::unless(
                self.k.hidden_dim == self.num_kv_heads * 512 && self.k.seq_len == self.q.seq_len,
                "hd512 paged decode prep k must be num_kv_heads * 512 wide with the rows of q",
            ))
            .or_fault(super::geometry::geometry_fault(
                "hd512 paged decode prep",
                self.layout,
                self.kv_pool_len,
                self.layer,
                512,
                self.num_kv_heads,
                false,
            ))
            .or_fault(self.q_norm_weight.backing_fault("hd512 paged decode prep q_norm_weight"))
            .or_fault(self.k_norm_weight.backing_fault("hd512 paged decode prep k_norm_weight"))
            .or_fault(self.cos_cache.backing_fault("hd512 paged decode prep cos_cache"))
            .or_fault(self.sin_cache.backing_fault("hd512 paged decode prep sin_cache"))
            .or_fault(KernelError::unless(
                self.q_norm_weight.len == 512 && self.k_norm_weight.len == 512,
                "hd512 paged decode prep norm weights must hold 512",
            ))
            .or_fault(KernelError::overflow(
                table_rows,
                "hd512 paged decode prep cos_max_pos * rotary_dim",
            ))
            .or_fault(KernelError::too_wide(
                table_rows,
                "hd512 paged decode prep rope table extent",
            ))
            .or_fault(KernelError::unless(
                self.cos_cache.len >= table_rows && self.sin_cache.len >= table_rows,
                "hd512 paged decode prep cos/sin caches are shorter than the rope table",
            ))
            .or_fault(KernelError::unless(
                self.positions_len >= rows && self.page_origins_len >= rows
                    && self.page_indptr_len > rows,
                "hd512 paged decode prep metadata does not cover the batch",
            ))
            .or_fault(KernelError::too_wide(
                self.page_indices_len as int,
                "hd512 paged decode prep page_indices len",
            ))
            .or_fault(self.q.extent_fault("hd512 paged decode prep q"))
            .or_fault(self.q_out.extent_fault("hd512 paged decode prep q_out"))
            .or_fault(self.k.extent_fault("hd512 paged decode prep k"))
            .or_fault(KernelError::too_wide(q_extent, "hd512 paged decode prep q extent"))
            .or_fault(KernelError::too_wide(k_extent, "hd512 paged decode prep k extent"))
            .or_fault(KernelError::too_wide(
                self.num_q_heads as int,
                "hd512 paged decode prep q heads",
            ))
            .or_fault(KernelError::too_wide(
                self.num_kv_heads as int,
                "hd512 paged decode prep kv heads",
            ))
            .or_fault(KernelError::too_wide(rows, "hd512 paged decode prep batch"))
            .or_fault(KernelError::too_wide(
                self.cos_max_pos as int,
                "hd512 paged decode prep cos_max_pos",
            ))
            .or_fault(KernelError::too_wide(
                self.rotary_dim as int,
                "hd512 paged decode prep rotary_dim",
            ))
            .or_fault(self.q.row_fault(self.row_offset, rows as usize, "hd512 paged decode prep q"))
            .or_fault(self.k.row_fault(self.row_offset, rows as usize, "hd512 paged decode prep k"))
            .or_fault(self.q_out.row_fault(
                self.row_offset,
                rows as usize,
                "hd512 paged decode prep q_out",
            ))
    }

    /// The launch of a call without a fault.
    pub open spec fn launch(self) -> QkPagedDecodeHd512Launch {
        let rows = self.q.seq_len - self.row_offset;
        let geometry = super::geometry::geometry_of(self.layout, self.kv_pool_len, self.layer);
        let page_indices_len = self.page_indices_len as i32;
        let num_q_heads = self.num_q_heads as i32;
        let num_kv_heads = self.num_kv_heads as i32;
        let batch = rows as i32;
        let cos_max_pos = self.cos_max_pos as i32;
        let rotary_dim = self.rotary_dim as i32;
        let q_row_bytes = self.q.row_bytes(self.row_offset) as u64;
        let k_row_bytes = self.k.row_bytes(self.row_offset) as u64;
        let q_out_row_bytes = self.q_out.row_bytes(self.row_offset) as u64;
        QkPagedDecodeHd512Launch {
            geometry,
            page_indices_len,
            num_q_heads,
            num_kv_heads,
            batch,
            cos_max_pos,
            rotary_dim,
            q_row_bytes,
            k_row_bytes,
            q_out_row_bytes,
        }
    }
}

/// QK prep of the decode rows at head_dim 512, one request per row of the
/// suffix from `row_offset`; V is the weightless norm of the same K.
pub fn qk_norm_partial_rope_paged_decode_hd512_into(c: &QkPagedDecodeHd512) -> (r: Result<
    QkPagedDecodeHd512Launch,
    KernelError,
>)
    ensures
        r == KernelError::outcome(c.fault(), c.launch()),
{
    ensure_below(
        c.row_offset < c.q.seq_len,
        "hd512 paged decode prep row_offset leaves no rows",
        c.row_offset,
        c.q.seq_len,
    )?;
    let rows: usize = c.q.seq_len - c.row_offset;
    ensure_fit(
        is_product(c.q.hidden_dim, c.num_q_heads, 512),
        "hd512 paged decode prep q.hidden_dim must be 512 per query head",
        c.q.hidden_dim,
        c.num_q_heads,
    )?;
    ensure_that(
        c.q_out.hidden_dim == c.q.hidden_dim && c.q_out.seq_len == c.q.seq_len,
        "hd512 paged decode prep q_out must be shaped like q",
    )?;
    ensure_that(
        is_product(c.k.hidden_dim, c.num_kv_heads, 512) && c.k.seq_len == c.q.seq_len,
        "hd512 paged decode prep k must be num_kv_heads * 512 wide with the rows of q",
    )?;
    let geometry: PagedGeometry = checked_paged_geometry(
        "hd512 paged decode prep",
        &c.layout,
        c.kv_pool_len,
        c.layer,
        512,
        c.num_kv_heads,
        false,
    )?;
    c.q_norm_weight.ensure_backed("hd512 paged decode prep q_norm_weight")?;
    c.k_norm_weight.ensure_backed("hd512 paged decode prep k_norm_weight")?;
    c.cos_cache.ensure_backed("hd512 paged decode prep cos_cache")?;
    c.sin_cache.ensure_backed("hd512 paged decode prep sin_cache")?;
    ensure_that(
        c.q_norm_weight.len == 512 && c.k_norm_weight.len == 512,
        "hd512 paged decode prep norm weights must hold 512",
    )?;
    let table_rows: usize = checked_product(
        c.cos_max_pos,
        c.rotary_dim,
        "hd512 paged decode prep cos_max_pos * rotary_dim",
    )?;
    checked_i32(table_rows, "hd512 paged decode prep rope table extent")?;
    ensure_that(
        c.cos_cache.len >= table_rows && c.sin_cache.len >= table_rows,
        "hd512 paged decode prep cos/sin caches are shorter than the rope table",
    )?;
    ensure_that(
        c.positions_len >= rows && c.page_origins_len >= rows && c.page_indptr_len > rows,
        "hd512 paged decode prep metadata does not cover the batch",
    )?;
    let page_indices_len: i32 = checked_i32(
        c.page_indices_len,
        "hd512 paged decode prep page_indices len",
    )?;
    let q_extent: usize = c.q.checked_extent("hd512 paged decode prep q")?;
    c.q_out.checked_extent("hd512 paged decode prep q_out")?;
    let k_extent: usize = c.k.checked_extent("hd512 paged decode prep k")?;
    checked_i32(q_extent, "hd512 paged decode prep q extent")?;
    checked_i32(k_extent, "hd512 paged decode prep k extent")?;
    let num_q_heads: i32 = checked_i32(c.num_q_heads, "hd512 paged decode prep q heads")?;
    let num_kv_heads: i32 = checked_i32(c.num_kv_heads, "hd512 paged decode prep kv heads")?;
    let batch: i32 = checked_i32(rows, "hd512 paged decode prep batch")?;
    let cos_max_pos: i32 = checked_i32(c.cos_max_pos, "hd512 paged decode prep cos_max_pos")?;
    let rotary_dim: i32 = checked_i32(c.rotary_dim, "hd512 paged decode prep rotary_dim")?;
    let q_row_bytes: u64 = c.q.checked_row_offset(c.row_offset, rows, "hd512 paged decode prep q")?;
    let k_row_bytes: u64 = c.k.checked_row_offset(c.row_offset, rows, "hd512 paged decode prep k")?;
    let q_out_row_bytes: u64 = c.q_out.checked_row_offset(
        c.row_offset,
        rows,
        "hd512 paged decode prep q_out",
    )?;
    Ok(QkPagedDecodeHd512Launch {
        geometry,
        page_indices_len,
        num_q_heads,
        num_kv_heads,
        batch,
        cos_max_pos,
        rotary_dim,
        q_row_bytes,
        k_row_bytes,
        q_out_row_bytes,
    })
}

/// What [`qk_norm_partial_rope_batched_decode_hd512_into`] takes.
#[derive(Clone, Copy, Debug)]
pub struct QkBatchedDecodeHd512 {
    pub q: HiddenStates,
    pub q_out: HiddenStates,
    pub k: HiddenStates,
    pub q_norm_weight: DeviceVec,
    pub k_norm_weight: DeviceVec,
    pub cos_cache: DeviceVec,
    pub sin_cache: DeviceVec,
    /// Entries of the positions array.
    pub positions_len: usize,
    pub cos_max_pos: usize,
    pub num_q_heads: usize,
    pub num_kv_heads: usize,
    pub rotary_dim: usize,
}

/// The C arguments that [`qk_norm_partial_rope_batched_decode_hd512_into`] derives.
#[derive(Clone, Copy, Debug, PartialEq, Eq)]
pub struct QkBatchedDecodeHd512Launch {
    pub cos_max_pos: i32,
    pub num_q_heads: i32,
    pub num_kv_heads: i32,
    pub batch_size: i32,
    pub rotary_dim: i32,
}

impl QkBatchedDecodeHd512 {
    /// Why the kernel cannot run, if it cannot.
    pub open spec fn fault(self) -> Option<KernelError> {
        let table_len = self.cos_max_pos * self.rotary_dim;
        KernelError::unless_fit(
            self.q.hidden_dim == self.num_q_heads * 512,
            "hd512 decode prep q.hidden_dim must be 512 per query head",
            self.q.hidden_dim as int,
            self.num_q_heads as int,
        )
            .or_fault(KernelError::unless_sized(
                self.q_out.hidden_dim == self.q.hidden_dim,
                "hd512 decode prep q_out.hidden_dim",
                self.q_out.hidden_dim as int,
                self.q.hidden_dim as int,
            ))
            .or_fault(KernelError::unless_sized(
                self.q_out.seq_len == self.q.seq_len,
                "hd512 decode prep q_out.seq_len",
                self.q_out.seq_len as int,
                self.q.seq_len as int,
            ))
            .or_fault(KernelError::unless_fit(
                self.k.hidden_dim == self.num_kv_heads * 512,
                "hd512 decode prep k.hidden_dim must be 512 per KV head",
                self.k.hidden_dim as int,
                self.num_kv_heads as int,
            ))
            .or_fault(KernelError::unless_sized(
                self.k.seq_len == self.q.seq_len,
                "hd512 decode prep k.seq_len",
                self.k.seq_len as int,
                self.q.seq_len as int,
            ))
            .or_fault(KernelError::unless_sized(
                self.q_norm_weight.len == 512,
                "hd512 decode prep q_norm_weight len",
                self.q_norm_weight.len as int,
                512,
            ))
            .or_fault(KernelError::unless_sized(
                self.k_norm_weight.len == 512,
                "hd512 decode prep k_norm_weight len",
                self.k_norm_weight.len as int,
                512,
            ))
            .or_fault(KernelError::unless_sized(
                self.positions_len == self.q.seq_len,
                "hd512 decode prep positions len",
                self.positions_len as int,
                self.q.seq_len as int,
            ))
            .or_fault(KernelError::unless_fit(
                self.cos_cache.len >= table_len,
                "hd512 decode prep cos_cache must hold rotary_dim columns for each of cos_max_pos",
                self.cos_cache.len as int,
                self.cos_max_pos as int,
            ))
            .or_fault(KernelError::unless_fit(
                self.sin_cache.len >= table_len,
                "hd512 decode prep sin_cache must hold rotary_dim columns for each of cos_max_pos",
                self.sin_cache.len as int,
                self.cos_max_pos as int,
            ))
            .or_fault(self.q.extent_fault("hd512 decode prep q"))
            .or_fault(self.q_out.extent_fault("hd512 decode prep q_out"))
            .or_fault(self.k.extent_fault("hd512 decode prep k"))
            .or_fault(self.q_norm_weight.backing_fault("hd512 decode prep q_norm_weight"))
            .or_fault(self.k_norm_weight.backing_fault("hd512 decode prep k_norm_weight"))
            .or_fault(self.cos_cache.backing_fault("hd512 decode prep cos_cache"))
            .or_fault(self.sin_cache.backing_fault("hd512 decode prep sin_cache"))
    }

    /// The launch of a call without a fault.
    pub open spec fn launch(self) -> QkBatchedDecodeHd512Launch {
        QkBatchedDecodeHd512Launch {
            cos_max_pos: self.cos_max_pos as i32,
            num_q_heads: self.num_q_heads as i32,
            num_kv_heads: self.num_kv_heads as i32,
            batch_size: self.q.seq_len as i32,
            rotary_dim: self.rotary_dim as i32,
        }
    }
}

/// Batched QK RMSNorm and partial RoPE at head_dim 512: Q into `q_out`, K in
/// place. Positions stay on the device, where the kernel traps on one outside
/// the rope table.
pub fn qk_norm_partial_rope_batched_decode_hd512_into(c: &QkBatchedDecodeHd512) -> (r: Result<
    QkBatchedDecodeHd512Launch,
    KernelError,
>)
    ensures
        r == KernelError::outcome(c.fault(), c.launch()),
{
    ensure_fit(
        is_product(c.q.hidden_dim, c.num_q_heads, 512),
        "hd512 decode prep q.hidden_dim must be 512 per query head",
        c.q.hidden_dim,
        c.num_q_heads,
    )?;
    ensure(
        c.q_out.hidden_dim == c.q.hidden_dim,
        "hd512 decode prep q_out.hidden_dim",
        c.q_out.hidden_dim,
        c.q.hidden_dim,
    )?;
    ensure(
        c.q_out.seq_len == c.q.seq_len,
        "hd512 decode prep q_out.seq_len",
        c.q_out.seq_len,
        c.q.seq_len,
    )?;
    ensure_fit(
        is_product(c.k.hidden_dim, c.num_kv_heads, 512),
        "hd512 decode prep k.hidden_dim must be 512 per KV head",
        c.k.hidden_dim,
        c.num_kv_heads,
    )?;
    ensure(c.k.seq_len == c.q.seq_len, "hd512 decode prep k.seq_len", c.k.seq_len, c.q.seq_len)?;
    ensure(
        c.q_norm_weight.len == 512,
        "hd512 decode prep q_norm_weight len",
        c.q_norm_weight.len,
        512,
    )?;
    ensure(
        c.k_norm_weight.len == 512,
        "hd512 decode prep k_norm_weight len",
        c.k_norm_weight.len,
        512,
    )?;
    ensure(
        c.positions_len == c.q.seq_len,
        "hd512 decode prep positions len",
        c.positions_len,
        c.q.seq_len,
    )?;
    ensure_fit(
        holds_product(c.cos_cache.len, c.cos_max_pos, c.rotary_dim),
        "hd512 decode prep cos_cache must hold rotary_dim columns for each of cos_max_pos",
        c.cos_cache.len,
        c.cos_max_pos,
    )?;
    ensure_fit(
        holds_product(c.sin_cache.len, c.cos_max_pos, c.rotary_dim),
        "hd512 decode prep sin_cache must hold rotary_dim columns for each of cos_max_pos",
        c.sin_cache.len,
        c.cos_max_pos,
    )?;
    c.q.checked_extent("hd512 decode prep q")?;
    c.q_out.checked_extent("hd512 decode prep q_out")?;
    c.k.checked_extent("hd512 decode prep k")?;
    c.q_norm_weight.ensure_backed("hd512 decode prep q_norm_weight")?;
    c.k_norm_weight.ensure_backed("hd512 decode prep k_norm_weight")?;
    c.cos_cache.ensure_backed("hd512 decode prep cos_cache")?;
    c.sin_cache.ensure_backed("hd512 decode prep sin_cache")?;
    Ok(QkBatchedDecodeHd512Launch {
        cos_max_pos: c.cos_max_pos as i32,
        num_q_heads: c.num_q_heads as i32,
        num_kv_heads: c.num_kv_heads as i32,
        batch_size: c.q.seq_len as i32,
        rotary_dim: c.rotary_dim as i32,
    })
}

/// What [`qk_norm_rope_batch_decode_into`] takes.
#[derive(Clone, Copy, Debug)]
pub struct QkNormRopeBatchDecode {
    pub q: HiddenStates,
    pub k: HiddenStates,
    pub row_offset: usize,
    pub num_rows: usize,
    pub cos_cache: DeviceVec,
    pub num_q_heads: usize,
    pub num_kv_heads: usize,
    pub head_dim: usize,
}

/// The C arguments that [`qk_norm_rope_batch_decode_into`] derives.
#[derive(Clone, Copy, Debug, PartialEq, Eq)]
pub struct QkNormRopeBatchDecodeLaunch {
    pub q_row_bytes: u64,
    pub k_row_bytes: u64,
    pub num_q_heads: i32,
    pub num_kv_heads: i32,
    pub head_dim: i32,
    pub num_rows: i32,
    pub cos_max_pos: i32,
}

impl QkNormRopeBatchDecode {
    /// Why the kernel cannot run, if it cannot.
    pub open spec fn fault(self) -> Option<KernelError> {
        self.q.row_fault(self.row_offset, self.num_rows, "qk_norm_rope_batch_decode q")
            .or_fault(self.k.row_fault(
                self.row_offset,
                self.num_rows,
                "qk_norm_rope_batch_decode k",
            ))
    }

    /// The launch of a call without a fault.
    pub open spec fn launch(self) -> QkNormRopeBatchDecodeLaunch {
        let q_row_bytes = self.q.row_bytes(self.row_offset) as u64;
        let k_row_bytes = self.k.row_bytes(self.row_offset) as u64;
        QkNormRopeBatchDecodeLaunch {
            q_row_bytes,
            k_row_bytes,
            num_q_heads: self.num_q_heads as i32,
            num_kv_heads: self.num_kv_heads as i32,
            head_dim: self.head_dim as i32,
            num_rows: self.num_rows as i32,
            cos_max_pos: (self.cos_cache.data_len / self.head_dim) as i32,
        }
    }
}

/// Batched QK RMSNorm and RoPE over the row window
/// `[row_offset, row_offset + num_rows)`, in place; the decode rows of a mixed
/// step sit behind its prefill rows. Positions are indexed from local row 0.
pub fn qk_norm_rope_batch_decode_into(c: &QkNormRopeBatchDecode) -> (r: Result<
    QkNormRopeBatchDecodeLaunch,
    KernelError,
>)
    requires
        c.fault() is None ==> c.head_dim > 0,
    ensures
        r == KernelError::outcome(c.fault(), c.launch()),
{
    let q_row_bytes: u64 = c.q.checked_row_offset(
        c.row_offset,
        c.num_rows,
        "qk_norm_rope_batch_decode q",
    )?;
    let k_row_bytes: u64 = c.k.checked_row_offset(
        c.row_offset,
        c.num_rows,
        "qk_norm_rope_batch_decode k",
    )?;
    Ok(QkNormRopeBatchDecodeLaunch {
        q_row_bytes,
        k_row_bytes,
        num_q_heads: c.num_q_heads as i32,
        num_kv_heads: c.num_kv_heads as i32,
        head_dim: c.head_dim as i32,
        num_rows: c.num_rows as i32,
        cos_max_pos: (c.cos_cache.data_len / c.head_dim) as i32,
    })
}

/// What [`dflash_qk_norm_rope_into`] takes.
#[derive(Clone, Copy, Debug)]
pub struct DflashQkNormRope {
    pub q: HiddenStates,
    pub q_row_offset: usize,
    pub q_seq_len: usize,
    pub k: HiddenStates,
    pub q_norm_weight: DeviceVec,
    pub k_norm_weight: DeviceVec,
    pub cos_cache: DeviceVec,
    pub num_q_heads: usize,
    pub num_kv_heads: usize,
    pub head_dim: usize,
    pub q_start_pos: usize,
    pub k_start_pos: usize,
}

/// The C arguments that [`dflash_qk_norm_rope_into`] derives.
#[derive(Clone, Copy, Debug, PartialEq, Eq)]
pub struct DflashQkNormRopeLaunch {
    pub q_row_bytes: u64,
    pub num_q_heads: i32,
    pub num_kv_heads: i32,
    pub head_dim: i32,
    pub q_seq_len: i32,
    pub k_seq_len: i32,
    pub q_start_pos: i32,
    pub k_start_pos: i32,
    pub cos_max_pos: i32,
}

impl DflashQkNormRope {
    /// The launch.
    pub open spec fn launch(self) -> DflashQkNormRopeLaunch {
        let q_row_bytes = self.q.row_bytes(self.q_row_offset) as u64;
        DflashQkNormRopeLaunch {
            q_row_bytes,
            num_q_heads: self.num_q_heads as i32,
            num_kv_heads: self.num_kv_heads as i32,
            head_dim: self.head_dim as i32,
            q_seq_len: self.q_seq_len as i32,
            k_seq_len: self.k.seq_len as i32,
            q_start_pos: self.q_start_pos as i32,
            k_start_pos: self.k_start_pos as i32,
            cos_max_pos: (self.cos_cache.data_len / self.head_dim) as i32,
        }
    }
}

/// QK RMSNorm and RoPE of one request's draft block. Its query rows are a
/// window of a batched buffer; `k` is the request's own whole buffer.
pub fn dflash_qk_norm_rope_into(c: &DflashQkNormRope) -> (r: DflashQkNormRopeLaunch)
    requires
        c.head_dim > 0,
        c.q.hidden_dim == c.num_q_heads * c.head_dim,
        c.k.hidden_dim == c.num_kv_heads * c.head_dim,
        c.q_norm_weight.len == c.head_dim,
        c.k_norm_weight.len == c.head_dim,
        c.q_row_offset + c.q_seq_len <= c.q.seq_len,
        c.q_row_offset * c.q.hidden_dim * 2 <= usize::MAX,
    ensures
        r == c.launch(),
{
    proof {
        assert(c.q_row_offset * c.q.hidden_dim >= 0) by (nonlinear_arith);
    }
    let q_row_bytes: u64 = (c.q_row_offset * c.q.hidden_dim * 2) as u64;
    DflashQkNormRopeLaunch {
        q_row_bytes,
        num_q_heads: c.num_q_heads as i32,
        num_kv_heads: c.num_kv_heads as i32,
        head_dim: c.head_dim as i32,
        q_seq_len: c.q_seq_len as i32,
        k_seq_len: c.k.seq_len as i32,
        q_start_pos: c.q_start_pos as i32,
        k_start_pos: c.k_start_pos as i32,
        cos_max_pos: (c.cos_cache.data_len / c.head_dim) as i32,
    }
}

/// What [`eagle3_rope_into`] takes.
#[derive(Clone, Copy, Debug)]
pub struct Eagle3Rope {
    pub q: HiddenStates,
    pub q_row_offset: usize,
    pub q_seq_len: usize,
    pub k: HiddenStates,
    pub cos_cache: DeviceVec,
    pub sin_cache: DeviceVec,
    pub num_q_heads: usize,
    pub num_kv_heads: usize,
    pub head_dim: usize,
    pub q_start_pos: usize,
    pub k_start_pos: usize,
}

/// The C arguments that [`eagle3_rope_into`] derives.
#[derive(Clone, Copy, Debug, PartialEq, Eq)]
pub struct Eagle3RopeLaunch {
    pub q_row_bytes: u64,
    pub num_q_heads: i32,
    pub num_kv_heads: i32,
    pub head_dim: i32,
    pub q_seq_len: i32,
    pub k_seq_len: i32,
    pub q_start_pos: i32,
    pub k_start_pos: i32,
    pub cos_max_pos: i32,
}

impl Eagle3Rope {
    /// Why the kernel cannot run, if it cannot.
    pub open spec fn fault(self) -> Option<KernelError> {
        self.q.row_fault(self.q_row_offset, self.q_seq_len, "eagle3_rope q")
            .or_fault(self.k.extent_fault("eagle3_rope k"))
    }

    /// The launch of a call without a fault.
    pub open spec fn launch(self) -> Eagle3RopeLaunch {
        let q_row_bytes = self.q.row_bytes(self.q_row_offset) as u64;
        Eagle3RopeLaunch {
            q_row_bytes,
            num_q_heads: self.num_q_heads as i32,
            num_kv_heads: self.num_kv_heads as i32,
            head_dim: self.head_dim as i32,
            q_seq_len: self.q_seq_len as i32,
            k_seq_len: self.k.seq_len as i32,
            q_start_pos: self.q_start_pos as i32,
            k_start_pos: self.k_start_pos as i32,
            cos_max_pos: (self.cos_cache.data_len / self.head_dim) as i32,
        }
    }
}

/// Plain RoPE, without a QK norm, of one draft step. Both caches are indexed
/// by the same position, so they have to be equally long.
pub fn eagle3_rope_into(c: &Eagle3Rope) -> (r: Result<Eagle3RopeLaunch, KernelError>)
    requires
        c.q.hidden_dim == c.num_q_heads * c.head_dim,
        c.k.hidden_dim == c.num_kv_heads * c.head_dim,
        c.fault() is None ==> c.sin_cache.data_len == c.cos_cache.data_len,
        c.fault() is None ==> c.head_dim > 0,
    ensures
        r == KernelError::outcome(c.fault(), c.launch()),
{
    let q_row_bytes: u64 = c.q.checked_row_offset(c.q_row_offset, c.q_seq_len, "eagle3_rope q")?;
    c.k.checked_extent("eagle3_rope k")?;
    Ok(Eagle3RopeLaunch {
        q_row_bytes,
        num_q_heads: c.num_q_heads as i32,
        num_kv_heads: c.num_kv_heads as i32,
        head_dim: c.head_dim as i32,
        q_seq_len: c.q_seq_len as i32,
        k_seq_len: c.k.seq_len as i32,
        q_start_pos: c.q_start_pos as i32,
        k_start_pos: c.k_start_pos as i32,
        cos_max_pos: (c.cos_cache.data_len / c.head_dim) as i32,
    })
}

/// What [`qk_norm_partial_rope_batched_decode_hd256_into`] takes.
#[derive(Clone, Copy, Debug)]
pub struct QkBatchedDecodeHd256 {
    pub q_full: HiddenStates,
    pub q: HiddenStates,
    pub k: HiddenStates,
    pub num_q_heads: usize,
    pub num_kv_heads: usize,
    pub rotary_dim: usize,
}

/// The C arguments that [`qk_norm_partial_rope_batched_decode_hd256_into`] derives.
#[derive(Clone, Copy, Debug, PartialEq, Eq)]
pub struct QkBatchedDecodeHd256Launch {
    pub num_q_heads: i32,
    pub num_kv_heads: i32,
    pub batch_size: i32,
    pub rotary_dim: i32,
}

impl QkBatchedDecodeHd256 {
    /// The launch.
    pub open spec fn launch(self) -> QkBatchedDecodeHd256Launch {
        QkBatchedDecodeHd256Launch {
            num_q_heads: self.num_q_heads as i32,
            num_kv_heads: self.num_kv_heads as i32,
            batch_size: self.q.seq_len as i32,
            rotary_dim: self.rotary_dim as i32,
        }
    }
}

/// Batched QK RMSNorm and partial RoPE at head_dim 256: Q is read from the
/// interleaved query and gate heads of `q_full` and written to `q`, K is
/// rotated in place.
pub fn qk_norm_partial_rope_batched_decode_hd256_into(c: &QkBatchedDecodeHd256) -> (r: QkBatchedDecodeHd256Launch)
    requires
        c.q_full.seq_len == c.q.seq_len,
        c.k.seq_len == c.q.seq_len,
    ensures
        r == c.launch(),
{
    QkBatchedDecodeHd256Launch {
        num_q_heads: c.num_q_heads as i32,
        num_kv_heads: c.num_kv_heads as i32,
        batch_size: c.q.seq_len as i32,
        rotary_dim: c.rotary_dim as i32,
    }
}

} // verus!
