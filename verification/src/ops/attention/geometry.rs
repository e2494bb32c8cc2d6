//! Where a layer's K and V blocks lie in the paged pool.

use vstd::prelude::*;

use crate::error::checked_i32;
use crate::error::checked_i64;
use crate::error::checked_product;
use crate::error::checked_sum;
use crate::error::ensure_layout;
use crate::error::ensure_that;
use crate::error::FaultList;
use crate::error::KernelError;
use crate::paged_kv::KvStorage;
use crate::paged_kv::PagedKvLayout;

verus! {

/// Everything that a paged-pool launch derives from a layout.
#[derive(Clone, Copy, Debug, PartialEq, Eq)]
pub struct PagedGeometry {
    pub k_offset_elems: i64,
    pub v_offset_elems: i64,
    pub page_size: i32,
    pub num_pages: i32,
    pub stride_page: i64,
}

/// Elements of a pool of `pool_len` two-byte slots: an e4m3 pool packs two
/// elements into a slot.
pub open spec fn pool_elements(storage: KvStorage, pool_len: usize) -> int {
    match storage {
        KvStorage::E4m3 => pool_len * 2,
        KvStorage::Bf16 => pool_len as int,
    }
}

/// The block length that the layout's dimensions give.
pub open spec fn layout_block(layout: PagedKvLayout) -> int {
    crate::paged_kv::block_len(
        layout.page_size as int,
        layout.num_kv_heads as int,
        layout.head_dim as int,
    )
}

/// Why a layer of a layout cannot be addressed in a pool, if it cannot. The
/// layout's strides are public fields, so they are held against what the
/// dimensions give.
pub open spec fn geometry_fault(
    what: &'static str,
    layout: PagedKvLayout,
    pool_len: usize,
    layer: usize,
    head_dim: usize,
    num_kv_heads: usize,
    fp8_capable: bool,
) -> Option<KernelError> {
    let pool = pool_elements(layout.storage, pool_len);
    let block = layout_block(layout);
    let layer_stride = 2 * block;
    let page_stride = layout.num_layers * layer_stride;
    let num_pages = pool / page_stride;
    KernelError::unless_layout(
        fp8_capable || layout.storage == KvStorage::Bf16,
        what,
        "has no fp8 KV path; element bytes of the layout and of the kernel",
        layout.storage.spec_elem_bytes() as int,
        2,
    ).or_fault(KernelError::overflow(pool, what)).or_fault(
        KernelError::unless_layout(
            layout.head_dim == head_dim,
            what,
            "layout.head_dim must be the kernel's",
            layout.head_dim as int,
            head_dim as int,
        ),
    ).or_fault(
        KernelError::unless_layout(
            layout.num_kv_heads == num_kv_heads,
            what,
            "layout.num_kv_heads must be num_kv_heads",
            layout.num_kv_heads as int,
            num_kv_heads as int,
        ),
    ).or_fault(
        KernelError::unless(
            layout.page_size > 0 && layout.num_kv_heads > 0 && layout.num_layers > 0
                && layout.head_dim > 0,
            "layout dims must be positive",
        ),
    ).or_fault(KernelError::overflow(block, what)).or_fault(
        KernelError::unless_layout(
            layout.kv_block_len == block,
            what,
            "layout.kv_block_len must be page_size * num_kv_heads * head_dim",
            layout.kv_block_len as int,
            block,
        ),
    ).or_fault(KernelError::overflow(layer_stride, what)).or_fault(
        KernelError::unless_layout(
            layout.layer_stride == layer_stride,
            what,
            "layout.layer_stride must be 2 * kv_block_len",
            layout.layer_stride as int,
            layer_stride,
        ),
    ).or_fault(KernelError::overflow(page_stride, what)).or_fault(
        KernelError::unless_layout(
            layout.page_stride == page_stride,
            what,
            "layout.page_stride must be num_layers * layer_stride",
            layout.page_stride as int,
            page_stride,
        ),
    ).or_fault(
        KernelError::unless_layout(
            layer < layout.num_layers,
            what,
            "layer must be below layout.num_layers",
            layer as int,
            layout.num_layers as int,
        ),
    ).or_fault(
        KernelError::unless_layout(
            pool % page_stride == 0,
            what,
            "kv_pool.len must be a multiple of layout.page_stride",
            pool,
            page_stride,
        ),
    ).or_fault(
        KernelError::unless_layout(
            num_pages >= 1,
            what,
            "kv_pool.len must hold a whole page of layout.page_stride",
            pool,
            page_stride,
        ),
    ).or_fault(KernelError::too_wide_64(layer * layer_stride, "K offset")).or_fault(
        KernelError::too_wide_64(layer * layer_stride + block, "V offset"),
    ).or_fault(
        KernelError::too_wide(layout.page_size as int, "paged prep page_size"),
    ).or_fault(KernelError::too_wide(num_pages, "paged prep num_pages")).or_fault(
        KernelError::too_wide_64(page_stride, "page_stride"),
    )
}

/// The geometry of a layer whose layout has no fault.
pub open spec fn geometry_of(layout: PagedKvLayout, pool_len: usize, layer: usize) -> PagedGeometry {
    let block = layout_block(layout);
    let page_stride = layout.num_layers * (2 * block);
    PagedGeometry {
        k_offset_elems: (layer * (2 * block)) as i64,
        v_offset_elems: (layer * (2 * block) + block) as i64,
        page_size: layout.page_size as i32,
        num_pages: (pool_elements(layout.storage, pool_len) / page_stride) as i32,
        stride_page: page_stride as i64,
    }
}

/// Derive a layer's geometry from a layout, refusing a layout that
/// contradicts itself, the caller or the pool. No input makes the arithmetic
/// wrap.
pub fn checked_paged_geometry(
    what: &'static str,
    layout: &PagedKvLayout,
    pool_len: usize,
    layer: usize,
    head_dim: usize,
    num_kv_heads: usize,
    fp8_capable: bool,
) -> (r: Result<PagedGeometry, KernelError>)
    ensures
        r == KernelError::outcome(
            geometry_fault(what, *layout, pool_len, layer, head_dim, num_kv_heads, fp8_capable),
            geometry_of(*layout, pool_len, layer),
        ),
{
    let is_bf16: bool = match layout.storage {
        KvStorage::Bf16 => true,
        KvStorage::E4m3 => false,
    };
    ensure_layout(
        fp8_capable || is_bf16,
        what,
        "has no fp8 KV path; element bytes of the layout and of the kernel",
        layout.storage.elem_bytes(),
        2,
    )?;
    let pool: usize = match layout.storage {
        KvStorage::E4m3 => checked_product(pool_len, 2, what)?,
        KvStorage::Bf16 => pool_len,
    };
    ensure_layout(
        layout.head_dim == head_dim,
        what,
        "layout.head_dim must be the kernel's",
        layout.head_dim,
        head_dim,
    )?;
    ensure_layout(
        layout.num_kv_heads == num_kv_heads,
        what,
        "layout.num_kv_heads must be num_kv_heads",
        layout.num_kv_heads,
        num_kv_heads,
    )?;
    ensure_that(
        layout.page_size > 0 && layout.num_kv_heads > 0 && layout.num_layers > 0
            && layout.head_dim > 0,
        "layout dims must be positive",
    )?;
    proof {
        lemma_partial_product(
            layout.page_size as int,
            layout.num_kv_heads as int,
            layout.head_dim as int,
        );
    }
    let plane: usize = checked_product(layout.page_size, layout.num_kv_heads, what)?;
    let block: usize = checked_product(plane, layout.head_dim, what)?;
    ensure_layout(
        layout.kv_block_len == block,
        what,
        "layout.kv_block_len must be page_size * num_kv_heads * head_dim",
        layout.kv_block_len,
        block,
    )?;
    let layer_stride: usize = checked_product(block, 2, what)?;
    ensure_layout(
        layout.layer_stride == layer_stride,
        what,
        "layout.layer_stride must be 2 * kv_block_len",
        layout.layer_stride,
        layer_stride,
    )?;
    let page_stride: usize = checked_product(layout.num_layers, layer_stride, what)?;
    ensure_layout(
        layout.page_stride == page_stride,
        what,
        "layout.page_stride must be num_layers * layer_stride",
        layout.page_stride,
        page_stride,
    )?;
    ensure_layout(
        layer < layout.num_layers,
        what,
        "layer must be below layout.num_layers",
        layer,
        layout.num_layers,
    )?;
    proof {
        let layers = layout.num_layers as int;
        let stride = layer_stride as int;
        assert(page_stride > 0) by (nonlinear_arith)
            requires
                page_stride == layers * stride,
                layers > 0,
                stride > 0,
        ;
        assert(0 <= layer * stride && layer * stride + stride <= page_stride) by (nonlinear_arith)
            requires
                page_stride == layers * stride,
                0 <= layer < layers,
                stride > 0,
        ;
    }
    ensure_layout(
        pool % page_stride == 0,
        what,
        "kv_pool.len must be a multiple of layout.page_stride",
        pool,
        page_stride,
    )?;
    let num_pages: usize = pool / page_stride;
    ensure_layout(
        num_pages >= 1,
        what,
        "kv_pool.len must hold a whole page of layout.page_stride",
        pool,
        page_stride,
    )?;
    let k_offset: usize = layer * layer_stride;
    let v_offset: usize = k_offset + block;
    let k_offset_elems: i64 = checked_i64(k_offset, "K offset")?;
    let v_offset_elems: i64 = checked_i64(v_offset, "V offset")?;
    let page_size: i32 = checked_i32(layout.page_size, "paged prep page_size")?;
    let num_pages: i32 = checked_i32(num_pages, "paged prep num_pages")?;
    let stride_page: i64 = checked_i64(page_stride, "page_stride")?;
    Ok(PagedGeometry { k_offset_elems, v_offset_elems, page_size, num_pages, stride_page })
}

/// One token's K row of a consistent layout is no longer than its block.
pub proof fn lemma_head_row_fits(layout: PagedKvLayout)
    requires
        layout.page_size > 0,
        layout.num_kv_heads > 0,
        layout.head_dim > 0,
        layout_block(layout) <= usize::MAX,
    ensures
        0 <= layout.num_kv_heads * layout.head_dim <= usize::MAX,
{
    let p = layout.page_size as int;
    let row = layout.num_kv_heads * layout.head_dim;
    assert(p * layout.num_kv_heads * layout.head_dim == p * row) by (nonlinear_arith)
        requires
            row == layout.num_kv_heads * layout.head_dim,
    ;
    assert(row >= 0) by (nonlinear_arith)
        requires
            row == layout.num_kv_heads * layout.head_dim,
    ;
    assert(row <= p * row) by (nonlinear_arith)
        requires
            p >= 1,
            row >= 0,
    ;
}

proof fn lemma_partial_product(a: int, b: int, c: int)
    requires
        a > 0,
        b > 0,
        c > 0,
    ensures
        a * b > 0,
        a * b * c >= a * b,
{
    assert(a * b > 0) by (nonlinear_arith)
        requires
            a > 0,
            b > 0,
    ;
    let p = a * b;
    assert(p * c >= p) by (nonlinear_arith)
        requires
            p > 0,
            c > 0,
    ;
}

/// A layout built from dimensions is never refused over a pool of whole pages,
/// in either storage that the kernel reads: what the constructor stores is what
/// the geometry re-derives.
pub proof fn law_built_layouts_are_accepted(
    what: &'static str,
    layout: PagedKvLayout,
    num_pages: int,
    pool_len: usize,
    layer: usize,
    fp8_capable: bool,
)
    requires
        layout.consistent(),
        layout.page_size > 0,
        layout.num_layers > 0,
        layout.num_kv_heads > 0,
        layout.head_dim > 0,
        fp8_capable || layout.storage == KvStorage::Bf16,
        layer < layout.num_layers,
        1 <= num_pages <= i32::MAX,
        layout.page_size <= i32::MAX,
        layout.page_stride <= i64::MAX,
        pool_elements(layout.storage, pool_len) == num_pages * layout.page_stride,
        pool_elements(layout.storage, pool_len) <= usize::MAX,
    ensures
        geometry_fault(
            what,
            layout,
            pool_len,
            layer,
            layout.head_dim,
            layout.num_kv_heads,
            fp8_capable,
        ) is None,
        geometry_of(layout, pool_len, layer).num_pages == num_pages,
        geometry_of(layout, pool_len, layer).stride_page == layout.page_stride,
{
    let block = layout_block(layout);
    let stride = 2 * block;
    let page_stride = layout.page_stride as int;
    let layers = layout.num_layers as int;
    lemma_partial_product(
        layout.page_size as int,
        layout.num_kv_heads as int,
        layout.head_dim as int,
    );
    assert(page_stride > 0) by (nonlinear_arith)
        requires
            page_stride == layers * stride,
            layers > 0,
            stride > 0,
    ;
    assert(0 <= layer * stride && layer * stride + stride <= page_stride) by (nonlinear_arith)
        requires
            page_stride == layers * stride,
            0 <= layer < layers,
            stride > 0,
    ;
    let pool = pool_elements(layout.storage, pool_len);
    assert(pool % page_stride == 0 && pool / page_stride == num_pages) by {
        vstd::arithmetic::div_mod::lemma_fundamental_div_mod_converse(
            pool,
            page_stride,
            num_pages,
            0,
        );
    }
}

/// Elements of K block `kv == 0` or V block `kv == 1` of a layer in a page.
pub open spec fn block_start(layout: PagedKvLayout, page: int, layer: int, kv: int) -> int {
    page * layout.page_stride + layer * layout.layer_stride + kv * layout.kv_block_len
}

/// The offsets of an accepted geometry are the K and V blocks of the layer
/// in page zero, and every block of every page lies in the pool.
pub proof fn law_blocks_lie_in_the_pool(
    what: &'static str,
    layout: PagedKvLayout,
    pool_len: usize,
    layer: usize,
    head_dim: usize,
    num_kv_heads: usize,
    fp8_capable: bool,
    page: int,
    kv: int,
)
    requires
        geometry_fault(
            what,
            layout,
            pool_len,
            layer,
            head_dim,
            num_kv_heads,
            fp8_capable,
        ) is None,
        0 <= page < geometry_of(layout, pool_len, layer).num_pages,
        0 <= kv <= 1,
    ensures
        layout.consistent(),
        geometry_of(layout, pool_len, layer).k_offset_elems == block_start(
            layout,
            0,
            layer as int,
            0,
        ),
        geometry_of(layout, pool_len, layer).v_offset_elems == block_start(
            layout,
            0,
            layer as int,
            1,
        ),
        0 <= block_start(layout, page, layer as int, kv),
        block_start(layout, page, layer as int, kv) + layout.kv_block_len <= pool_elements(
            layout.storage,
            pool_len,
        ),
{
    let block = layout_block(layout);
    let stride = 2 * block;
    let page_stride = layout.page_stride as int;
    let layers = layout.num_layers as int;
    let pool = pool_elements(layout.storage, pool_len);
    let num_pages = pool / page_stride;
    lemma_partial_product(
        layout.page_size as int,
        layout.num_kv_heads as int,
        layout.head_dim as int,
    );
    assert(page_stride > 0) by (nonlinear_arith)
        requires
            page_stride == layers * stride,
            layers > 0,
            stride > 0,
    ;
    assert(0 <= layer * stride && layer * stride + stride <= page_stride) by (nonlinear_arith)
        requires
            page_stride == layers * stride,
            0 <= layer < layers,
            stride > 0,
    ;
    assert(pool == page_stride * num_pages) by {
        vstd::arithmetic::div_mod::lemma_fundamental_div_mod(pool, page_stride);
    }
    assert(num_pages <= i32::MAX && num_pages >= 1);
    assert(0 <= page * page_stride && page * page_stride + page_stride <= pool) by (nonlinear_arith)
        requires
            pool == page_stride * num_pages,
            0 <= page < num_pages,
            page_stride > 0,
    ;
    assert(kv * block <= block && kv * block >= 0) by (nonlinear_arith)
        requires
            0 <= kv <= 1,
            block > 0,
    ;
    assert(0 * page_stride == 0);
}

/// Two blocks of a consistent layout never overlap unless they are the same
/// block of the same layer of the same page.
pub proof fn law_blocks_are_disjoint(
    layout: PagedKvLayout,
    page_a: int,
    layer_a: int,
    kv_a: int,
    page_b: int,
    layer_b: int,
    kv_b: int,
)
    requires
        layout.consistent(),
        0 <= layer_a < layout.num_layers,
        0 <= layer_b < layout.num_layers,
        0 <= kv_a <= 1,
        0 <= kv_b <= 1,
        0 <= page_a,
        0 <= page_b,
        (page_a, layer_a, kv_a) != (page_b, layer_b, kv_b),
    ensures
        block_start(layout, page_a, layer_a, kv_a) + layout.kv_block_len <= block_start(
            layout,
            page_b,
            layer_b,
            kv_b,
        ) || block_start(layout, page_b, layer_b, kv_b) + layout.kv_block_len <= block_start(
            layout,
            page_a,
            layer_a,
            kv_a,
        ),
{
    if page_a < page_b || (page_a == page_b && (layer_a < layer_b || (layer_a == layer_b && kv_a
        < kv_b))) {
        lemma_block_before(layout, page_a, layer_a, kv_a, page_b, layer_b, kv_b);
    } else {
        lemma_block_before(layout, page_b, layer_b, kv_b, page_a, layer_a, kv_a);
    }
}

proof fn lemma_block_before(
    layout: PagedKvLayout,
    page_a: int,
    layer_a: int,
    kv_a: int,
    page_b: int,
    layer_b: int,
    kv_b: int,
)
    requires
        layout.consistent(),
        0 <= layer_a < layout.num_layers,
        0 <= layer_b < layout.num_layers,
        0 <= kv_a <= 1,
        0 <= kv_b <= 1,
        0 <= page_a,
        0 <= page_b,
        page_a < page_b || (page_a == page_b && (layer_a < layer_b || (layer_a == layer_b && kv_a
            < kv_b))),
    ensures
        block_start(layout, page_a, layer_a, kv_a) + layout.kv_block_len <= block_start(
            layout,
            page_b,
            layer_b,
            kv_b,
        ),
{
    let block = layout.kv_block_len as int;
    let stride = layout.layer_stride as int;
    let page = layout.page_stride as int;
    let layers = layout.num_layers as int;
    assert(stride == 2 * block);
    assert(kv_a * block + block <= stride && kv_b * block >= 0) by (nonlinear_arith)
        requires
            0 <= kv_a <= 1,
            0 <= kv_b <= 1,
            stride == 2 * block,
            block >= 0,
    ;
    if page_a < page_b {
        assert(layer_a * stride + stride <= page && layer_b * stride >= 0) by (nonlinear_arith)
            requires
                page == layers * stride,
                0 <= layer_a < layers,
                0 <= layer_b,
                stride >= 0,
        ;
        assert(page_a * page + page <= page_b * page) by (nonlinear_arith)
            requires
                page_a + 1 <= page_b,
                page >= 0,
        ;
    } else if layer_a < layer_b {
        assert(layer_a * stride + stride <= layer_b * stride) by (nonlinear_arith)
            requires
                layer_a + 1 <= layer_b,
                stride >= 0,
        ;
    } else {
        assert(kv_a == 0 && kv_b == 1);
    }
}

/// Whether a pool of `pool_len` two-byte slots is whole pages of the layout,
/// with the layer among its layers.
pub open spec fn pool_holds(
    layout: PagedKvLayout,
    pool_len: usize,
    layer: usize,
    fp8_capable: bool,
) -> bool {
    let block = layout.page_size * layout.num_kv_heads * layout.head_dim;
    let page = layout.num_layers * (2 * block);
    let elements = if layout.storage == KvStorage::E4m3 {
        2 * pool_len
    } else {
        pool_len as int
    };
    &&& layout.storage == KvStorage::E4m3 ==> fp8_capable
    &&& 0 < layout.page_size <= i32::MAX
    &&& layout.num_kv_heads > 0
    &&& layout.head_dim > 0
    &&& layer < layout.num_layers
    &&& layout.kv_block_len == block
    &&& layout.layer_stride == 2 * block
    &&& layout.page_stride == page
    &&& page <= i64::MAX
    &&& elements <= usize::MAX
    &&& page <= elements
    &&& elements % page == 0
    &&& elements / page <= i32::MAX
}

/// Whether a geometry addresses the K and V blocks of one layer in every page
/// of the pool.
pub open spec fn addresses_layer(
    g: PagedGeometry,
    layout: PagedKvLayout,
    pool_len: usize,
    layer: usize,
) -> bool {
    let block = layout.page_size * layout.num_kv_heads * layout.head_dim;
    &&& g.page_size == layout.page_size
    &&& g.stride_page == layout.num_layers * (2 * block)
    &&& g.k_offset_elems == layer * (2 * block)
    &&& g.v_offset_elems == layer * (2 * block) + block
    &&& g.num_pages >= 1
    &&& layout.storage == KvStorage::Bf16 ==> g.num_pages * g.stride_page == pool_len
    &&& layout.storage == KvStorage::E4m3 ==> g.num_pages * g.stride_page == 2 * pool_len
}

/// A geometry is given out exactly for a pool of whole pages of the kernel's
/// own head width and head count, and it addresses the layer that was asked
/// for.
pub proof fn law_geometry_addresses_the_layer(
    what: &'static str,
    layout: PagedKvLayout,
    pool_len: usize,
    layer: usize,
    head_dim: usize,
    num_kv_heads: usize,
    fp8_capable: bool,
)
    ensures
        geometry_fault(what, layout, pool_len, layer, head_dim, num_kv_heads, fp8_capable) is None
            <==> {
            &&& pool_holds(layout, pool_len, layer, fp8_capable)
            &&& layout.head_dim == head_dim
            &&& layout.num_kv_heads == num_kv_heads
        },
        pool_holds(layout, pool_len, layer, fp8_capable) ==> addresses_layer(
            geometry_of(layout, pool_len, layer),
            layout,
            pool_len,
            layer,
        ),
        pool_holds(layout, pool_len, layer, fp8_capable) ==> layout.head_dim <= layout.num_kv_heads
            * layout.head_dim <= layout.page_stride,
{
    let block = layout.page_size * layout.num_kv_heads * layout.head_dim;
    let page = layout.num_layers * (2 * block);
    let pool = pool_elements(layout.storage, pool_len);
    assert(block == layout_block(layout));
    assert(block >= 0) by (nonlinear_arith)
        requires
            block == layout.page_size * layout.num_kv_heads * layout.head_dim,
    ;
    assert(page >= 0) by (nonlinear_arith)
        requires
            page == layout.num_layers * (2 * block),
            block >= 0,
    ;
    if layout.page_size > 0 && layout.num_kv_heads > 0 && layout.head_dim > 0 && layer
        < layout.num_layers {
        lemma_partial_product(
            layout.page_size as int,
            layout.num_kv_heads as int,
            layout.head_dim as int,
        );
        assert(2 * block <= page && layer * (2 * block) + 2 * block <= page && page > 0 && layer
            * (2 * block) >= 0) by (nonlinear_arith)
            requires
                page == layout.num_layers * (2 * block),
                block > 0,
                0 <= layer < layout.num_layers,
        ;
        assert(layout.num_kv_heads * layout.head_dim <= block) by (nonlinear_arith)
            requires
                block == layout.page_size * layout.num_kv_heads * layout.head_dim,
                layout.page_size > 0,
                layout.num_kv_heads > 0,
                layout.head_dim > 0,
        ;
        assert(layout.num_kv_heads * layout.head_dim >= layout.head_dim) by (nonlinear_arith)
            requires
                layout.num_kv_heads > 0,
        ;
        vstd::arithmetic::div_mod::lemma_fundamental_div_mod(pool, page);
        let n = pool / page;
        assert(n >= 1 <==> page <= pool) by (nonlinear_arith)
            requires
                pool == page * n + pool % page,
                0 <= pool % page < page,
                page > 0,
        ;
        assert(pool % page == 0 ==> n * page == pool) by (nonlinear_arith)
            requires
                pool == page * n + pool % page,
        ;
    }
}

} // verus!
