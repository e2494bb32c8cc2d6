//! Page-first geometry of the paged KV cache.

use vstd::prelude::*;

verus! {

/// How one cache element is stored.
#[derive(Clone, Copy, Debug, Eq, PartialEq, Structural)]
pub enum KvStorage {
    Bf16,
    E4m3,
}

impl KvStorage {
    /// Bytes of one element.
    pub open spec fn spec_elem_bytes(self) -> usize {
        match self {
            KvStorage::Bf16 => 2,
            KvStorage::E4m3 => 1,
        }
    }

    /// Bytes of one element.
    pub fn elem_bytes(self) -> (r: usize)
        ensures
            r == self.spec_elem_bytes(),
    {
        match self {
            KvStorage::Bf16 => 2,
            KvStorage::E4m3 => 1,
        }
    }
}

/// Page-first geometry that the paged-KV kernels walk.
///
/// This is shape metadata only. Pool allocation, page ownership and request
/// state belong to the runtime.
#[derive(Clone, Copy, Debug)]
pub struct PagedKvLayout {
    pub page_size: usize,
    pub num_layers: usize,
    pub num_kv_heads: usize,
    pub head_dim: usize,
    /// Elements in one K (or V) block: page_size x num_kv_heads x head_dim.
    pub kv_block_len: usize,
    /// Elements between layers within a page: 2 x kv_block_len (K then V).
    pub layer_stride: usize,
    /// Elements per page (all layers): num_layers x layer_stride.
    pub page_stride: usize,
    pub storage: KvStorage,
}

/// Elements in one K (or V) block of a page.
pub open spec fn block_len(page_size: int, num_kv_heads: int, head_dim: int) -> int {
    page_size * num_kv_heads * head_dim
}

impl PagedKvLayout {
    /// The stored strides are the ones that the dimensions give.
    pub open spec fn consistent(self) -> bool {
        &&& self.kv_block_len == block_len(
            self.page_size as int,
            self.num_kv_heads as int,
            self.head_dim as int,
        )
        &&& self.layer_stride == 2 * self.kv_block_len
        &&& self.page_stride == self.num_layers * self.layer_stride
    }

    /// Geometry of a bf16 pool.
    pub fn new(num_layers: usize, num_kv_heads: usize, head_dim: usize, page_size: usize) -> (r:
        Self)
        requires
            page_size * num_kv_heads <= usize::MAX,
            block_len(page_size as int, num_kv_heads as int, head_dim as int) * 2 <= usize::MAX,
            num_layers * (2 * block_len(page_size as int, num_kv_heads as int, head_dim as int))
                <= usize::MAX,
        ensures
            r.consistent(),
            r.num_layers == num_layers,
            r.num_kv_heads == num_kv_heads,
            r.head_dim == head_dim,
            r.page_size == page_size,
            r.storage == KvStorage::Bf16,
    {
        Self::with_storage(num_layers, num_kv_heads, head_dim, page_size, KvStorage::Bf16)
    }

    /// Geometry of a pool whose elements are stored as `storage`.
    pub fn with_storage(
        num_layers: usize,
        num_kv_heads: usize,
        head_dim: usize,
        page_size: usize,
        storage: KvStorage,
    ) -> (r: Self)
        requires
            page_size * num_kv_heads <= usize::MAX,
            block_len(page_size as int, num_kv_heads as int, head_dim as int) * 2 <= usize::MAX,
            num_layers * (2 * block_len(page_size as int, num_kv_heads as int, head_dim as int))
                <= usize::MAX,
        ensures
            r.consistent(),
            r.num_layers == num_layers,
            r.num_kv_heads == num_kv_heads,
            r.head_dim == head_dim,
            r.page_size == page_size,
            r.storage == storage,
    {
        proof {
            assert(page_size * num_kv_heads >= 0) by (nonlinear_arith);
            assert(page_size * num_kv_heads * head_dim >= 0) by (nonlinear_arith)
                requires
                    page_size * num_kv_heads >= 0,
            ;
        }
        let kv_block_len: usize = page_size * num_kv_heads * head_dim;
        let layer_stride: usize = 2 * kv_block_len;
        proof {
            assert(num_layers * layer_stride >= 0) by (nonlinear_arith);
        }
        let page_stride: usize = num_layers * layer_stride;
        PagedKvLayout {
            page_size,
            num_layers,
            num_kv_heads,
            head_dim,
            kv_block_len,
            layer_stride,
            page_stride,
            storage,
        }
    }
}

/// A layout that is consistent gives every page, layer and half its own room:
/// the K block and the V block of a layer hold `page_size` tokens of
/// `num_kv_heads` heads each, and a page holds both blocks of every layer.
pub proof fn law_a_page_holds_both_blocks_of_every_layer(layout: PagedKvLayout)
    ensures
        layout.consistent() <==> {
            &&& layout.kv_block_len == layout.page_size * layout.num_kv_heads * layout.head_dim
            &&& layout.layer_stride == layout.kv_block_len + layout.kv_block_len
            &&& layout.page_stride == layout.num_layers * layout.layer_stride
        },
        KvStorage::Bf16.spec_elem_bytes() == 2 * KvStorage::E4m3.spec_elem_bytes(),
        KvStorage::E4m3.spec_elem_bytes() == 1,
{
}

} // verus!
