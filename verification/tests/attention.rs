use pegainfer_kernels::error::KernelError;
use pegainfer_kernels::ops::attention::geometry::checked_paged_geometry;
use pegainfer_kernels::ops::attention::paged::batch_prefill_paged_hd512_into;
use pegainfer_kernels::ops::attention::paged::batch_prefill_paged_window_hd256_into;
use pegainfer_kernels::ops::attention::paged::paged_attention_batch_decode_hd256_into;
use pegainfer_kernels::ops::attention::paged::paged_attention_batch_decode_into;
use pegainfer_kernels::ops::attention::paged::paged_attention_batch_decode_split_kv_hd512_into;
use pegainfer_kernels::ops::attention::paged::paged_attention_batch_decode_split_kv_into;
use pegainfer_kernels::ops::attention::paged::paged_attention_batch_decode_via_prefill_hd256_into;
use pegainfer_kernels::ops::attention::paged::paged_attention_batch_decode_via_prefill_hd512_into;
use pegainfer_kernels::ops::attention::paged::prefill_attention_paged_into;
use pegainfer_kernels::ops::attention::paged::BatchPrefillPagedHd512;
use pegainfer_kernels::ops::attention::paged::BatchPrefillPagedWindowHd256;
use pegainfer_kernels::ops::attention::paged::Hd512DecodeMetadata;
use pegainfer_kernels::ops::attention::paged::PagedBatchDecode;
use pegainfer_kernels::ops::attention::paged::PagedBatchDecodeHd256;
use pegainfer_kernels::ops::attention::paged::PagedBatchDecodeSplitKv;
use pegainfer_kernels::ops::attention::paged::PagedDecodeViaPrefillHd256;
use pegainfer_kernels::ops::attention::paged::PagedDecodeViaPrefillHd512;
use pegainfer_kernels::ops::attention::paged::PagedSplitDecodeHd512;
use pegainfer_kernels::ops::attention::paged::PrefillAttentionPaged;
use pegainfer_kernels::ops::attention::plan::BatchRequests;
use pegainfer_kernels::ops::attention::prefill_plan::PrefillPagedPlan;
use pegainfer_kernels::ops::attention::prep::dflash_qk_norm_rope_into;
use pegainfer_kernels::ops::attention::prep::eagle3_rope_into;
use pegainfer_kernels::ops::attention::prep::qk_norm_partial_rope_batched_decode_hd256_into;
use pegainfer_kernels::ops::attention::prep::qk_norm_partial_rope_batched_decode_hd512_into;
use pegainfer_kernels::ops::attention::prep::qk_norm_partial_rope_paged_decode_hd512_into;
use pegainfer_kernels::ops::attention::prep::qk_norm_partial_rope_paged_prefill_hd512_into;
use pegainfer_kernels::ops::attention::prep::qk_norm_rope_batch_decode_into;
use pegainfer_kernels::ops::attention::prep::qk_norm_rope_prefill_hd256_plain_into;
use pegainfer_kernels::ops::attention::prep::qkv_norm_rope_paged_decode_hd256_plain_into;
use pegainfer_kernels::ops::attention::prep::qkv_norm_rope_paged_prefill_hd256_plain_into;
use pegainfer_kernels::ops::attention::prep::DflashQkNormRope;
use pegainfer_kernels::ops::attention::prep::Eagle3Rope;
use pegainfer_kernels::ops::attention::prep::QkBatchedDecodeHd256;
use pegainfer_kernels::ops::attention::prep::QkBatchedDecodeHd512;
use pegainfer_kernels::ops::attention::prep::QkNormRopeBatchDecode;
use pegainfer_kernels::ops::attention::prep::QkPagedDecodeHd512;
use pegainfer_kernels::ops::attention::prep::QkPagedPrefillHd512;
use pegainfer_kernels::ops::attention::prep::QkPrepHd256;
use pegainfer_kernels::ops::attention::prep::QkvPagedDecodeHd256;
use pegainfer_kernels::ops::attention::prep::QkvPagedPrefillHd256;
use pegainfer_kernels::ops::attention::single::single_decode_nhd_into;
use pegainfer_kernels::ops::attention::single::single_prefill_hd256_into;
use pegainfer_kernels::ops::attention::single::single_prefill_hd512_into;
use pegainfer_kernels::ops::attention::single::single_prefill_nhd_causal_into;
use pegainfer_kernels::ops::attention::single::single_prefill_nhd_noncausal_into;
use pegainfer_kernels::ops::attention::single::SingleDecodeNhd;
use pegainfer_kernels::ops::attention::single::SinglePrefillCausal;
use pegainfer_kernels::ops::attention::single::SinglePrefillHd256;
use pegainfer_kernels::ops::attention::single::SinglePrefillHd512;
use pegainfer_kernels::ops::attention::single::SinglePrefillNoncausal;
use pegainfer_kernels::paged_kv::KvStorage;
use pegainfer_kernels::paged_kv::PagedKvLayout;
use pegainfer_kernels::shape::DeviceVec;
use pegainfer_kernels::shape::HiddenStates;

const SCALE: u32 = 0x3f80_0000;
const NAN: u32 = 0x7fc0_0000;

fn plan(heads: (usize, usize), head_dim: usize) -> PrefillPagedPlan {
    let pages = [vec![3], vec![1, 2]];
    let requests = BatchRequests {
        page_indices: &pages,
        last_page_lens: &[1, 1],
        start_positions: &[0, 16],
        seq_lens: &[1, 1],
    };
    PrefillPagedPlan::new_batch_with_cta_tile_q(requests, heads.0, heads.1, head_dim, 16).unwrap().0
}

fn hd256_pool() -> (PagedKvLayout, usize) {
    let layout = PagedKvLayout::new(2, 1, 256, 16);
    (layout, 4 * layout.page_stride)
}

fn hd512_pool() -> (PagedKvLayout, usize) {
    let layout = PagedKvLayout::new(2, 1, 512, 16);
    (layout, 4 * layout.page_stride)
}

#[test]
fn blocks_of_a_layer_lie_side_by_side() {
    let (layout, pool) = hd256_pool();
    let block = 16 * 256;
    let first = checked_paged_geometry("pool", &layout, pool, 0, 256, 1, false).unwrap();
    let second = checked_paged_geometry("pool", &layout, pool, 1, 256, 1, false).unwrap();
    assert_eq!((first.k_offset_elems, first.v_offset_elems), (0, block));
    assert_eq!((second.k_offset_elems, second.v_offset_elems), (2 * block, 3 * block));
    assert_eq!((first.num_pages, first.page_size, first.stride_page), (4, 16, 4 * block));
    let packed = PagedKvLayout { storage: KvStorage::E4m3, ..layout };
    let doubled = checked_paged_geometry("pool", &packed, pool, 0, 256, 1, true).unwrap();
    assert_eq!(doubled.num_pages, 8);
    let capable = checked_paged_geometry("pool", &layout, pool, 0, 256, 1, true).unwrap();
    assert_eq!(capable.num_pages, 4);
    let twisted = PagedKvLayout { page_stride: layout.page_stride + 1, ..layout };
    assert_eq!(
        checked_paged_geometry("pool", &twisted, pool, 0, 256, 1, false).unwrap_err(),
        KernelError::Layout {
            what: "pool",
            part: "layout.page_stride must be num_layers * layer_stride",
            left: layout.page_stride + 1,
            right: layout.page_stride,
        }
    );
    assert!(checked_paged_geometry("pool", &layout, pool - 1, 0, 256, 1, false).is_err());
    assert!(checked_paged_geometry("pool", &layout, 0, 0, 256, 1, false).is_err());
}

fn prep_hd256() -> QkPrepHd256 {
    QkPrepHd256 {
        q: HiddenStates::zeros(512, 3),
        k: HiddenStates::zeros(256, 3),
        q_out: HiddenStates::zeros(512, 3),
        k_out: HiddenStates::zeros(256, 3),
        q_norm_weight: DeviceVec::zeros(256),
        k_norm_weight: DeviceVec::zeros(256),
        cos_cache: DeviceVec::zeros(640),
        sin_cache: DeviceVec::zeros(640),
        start_pos: 7,
        cos_max_pos: 10,
        num_q_heads: 2,
        num_kv_heads: 1,
        rotary_dim: 64,
    }
}

#[test]
fn a_contiguous_prep_stays_in_its_table() {
    let l = qk_norm_rope_prefill_hd256_plain_into(&prep_hd256()).unwrap();
    assert_eq!((l.num_q_heads, l.num_kv_heads, l.seq_len), (2, 1, 3));
    assert_eq!((l.start_pos, l.cos_max_pos, l.rotary_dim), (7, 10, 64));
    let refused = |c: QkPrepHd256| qk_norm_rope_prefill_hd256_plain_into(&c).unwrap_err();
    let late = refused(QkPrepHd256 { start_pos: 8, ..prep_hd256() });
    assert!(late.message().contains("cos_max_pos"), "{}", late.message());
    let wrapped = refused(QkPrepHd256 { start_pos: usize::MAX, ..prep_hd256() });
    assert!(matches!(wrapped, KernelError::Overflow { .. }));
    let thin = DeviceVec { data_len: 639, len: 640 };
    assert!(matches!(
        refused(QkPrepHd256 { cos_cache: thin, ..prep_hd256() }),
        KernelError::Backing { len: 639, need: 640, .. }
    ));
    let heads = refused(QkPrepHd256 { num_q_heads: usize::MAX, ..prep_hd256() });
    assert!(matches!(heads, KernelError::Overflow { .. }));
}

fn paged_prefill_hd256() -> QkvPagedPrefillHd256 {
    let (layout, pool) = hd256_pool();
    QkvPagedPrefillHd256 {
        q: HiddenStates::zeros(512, 5),
        k: HiddenStates::zeros(256, 5),
        v: HiddenStates::zeros(256, 5),
        q_out: HiddenStates::zeros(512, 5),
        row_offset: 2,
        kv_pool_len: pool,
        layout,
        q_norm_weight: DeviceVec::zeros(256),
        k_norm_weight: DeviceVec::zeros(256),
        cos_cache: DeviceVec::zeros(64 * 64),
        sin_cache: DeviceVec::zeros(64 * 64),
        layer: 1,
        page_indices_len: 4,
        pages_offset: 1,
        page_origin: 1,
        start_pos: 20,
        cos_max_pos: 64,
        num_q_heads: 2,
        num_kv_heads: 1,
        rotary_dim: 64,
    }
}

#[test]
fn a_paged_prep_starts_at_its_rows_and_pages() {
    let call = paged_prefill_hd256();
    let l = qkv_norm_rope_paged_prefill_hd256_plain_into(&call).unwrap();
    assert_eq!((l.seq_len, l.page_indices_len, l.page_origin), (3, 3, 1));
    assert_eq!((l.q_row_bytes, l.k_row_bytes, l.v_row_bytes), (2048, 1024, 1024));
    assert_eq!((l.q_out_row_bytes, l.pages_offset_bytes, l.fp8), (2048, 4, false));
    let refused = |c: QkvPagedPrefillHd256| {
        qkv_norm_rope_paged_prefill_hd256_plain_into(&c).unwrap_err().message()
    };
    assert!(refused(QkvPagedPrefillHd256 { row_offset: 5, ..call }).contains("leaves no rows"));
    assert!(refused(QkvPagedPrefillHd256 { pages_offset: 4, ..call }).contains("table len"));
    assert!(refused(QkvPagedPrefillHd256 { page_origin: 2, ..call }).contains("starts after"));
    assert!(refused(QkvPagedPrefillHd256 { start_pos: 62, ..call }).contains("ends before"));
    assert!(refused(QkvPagedPrefillHd256 { layer: 2, ..call }).contains("num_layers"));
    let packed = PagedKvLayout { storage: KvStorage::E4m3, ..call.layout };
    let fp8 = QkvPagedPrefillHd256 { layout: packed, ..call };
    assert!(qkv_norm_rope_paged_prefill_hd256_plain_into(&fp8).unwrap().fp8);
}

#[test]
fn a_decode_prep_takes_one_row_per_request() {
    let call = paged_prefill_hd256();
    let decode = QkvPagedDecodeHd256 {
        q: call.q,
        k: call.k,
        v: call.v,
        q_out: call.q_out,
        row_offset: 2,
        kv_pool_len: call.kv_pool_len,
        layout: call.layout,
        q_norm_weight: call.q_norm_weight,
        k_norm_weight: call.k_norm_weight,
        cos_cache: call.cos_cache,
        sin_cache: call.sin_cache,
        layer: 0,
        page_indices_len: 6,
        page_indptr_len: 4,
        page_origins_len: 3,
        positions_len: 3,
        cos_max_pos: 64,
        num_q_heads: 2,
        num_kv_heads: 1,
        rotary_dim: 64,
    };
    let l = qkv_norm_rope_paged_decode_hd256_plain_into(&decode).unwrap();
    assert_eq!((l.batch, l.page_indices_len, l.q_row_bytes), (3, 6, 2048));
    let refused =
        |c: QkvPagedDecodeHd256| qkv_norm_rope_paged_decode_hd256_plain_into(&c).is_err();
    assert!(refused(QkvPagedDecodeHd256 { page_indptr_len: 3, ..decode }));
    assert!(refused(QkvPagedDecodeHd256 { page_origins_len: 2, ..decode }));
    assert!(refused(QkvPagedDecodeHd256 { positions_len: 2, ..decode }));
}

#[test]
fn preps_at_the_wide_head_check_the_same_things() {
    let (layout, pool) = hd512_pool();
    let wide = HiddenStates::zeros(1024, 3);
    let narrow = HiddenStates::zeros(512, 3);
    let (norm, table) = (DeviceVec::zeros(512), DeviceVec::zeros(64 * 128));
    let prefill = QkPagedPrefillHd512 {
        q: wide,
        k: narrow,
        q_out: wide,
        row_offset: 1,
        kv_pool_len: pool,
        layout,
        q_norm_weight: norm,
        k_norm_weight: norm,
        cos_cache: table,
        sin_cache: table,
        layer: 1,
        page_indices_len: 3,
        pages_offset: 1,
        start_pos: 30,
        cos_max_pos: 64,
        num_q_heads: 2,
        num_kv_heads: 1,
        rotary_dim: 128,
    };
    let l = qk_norm_partial_rope_paged_prefill_hd512_into(&prefill).unwrap();
    assert_eq!((l.seq_len, l.q_row_bytes, l.k_row_bytes), (2, 2048, 1024));
    let late = QkPagedPrefillHd512 { start_pos: 31, ..prefill };
    assert!(qk_norm_partial_rope_paged_prefill_hd512_into(&late).is_err());
    let decode = QkPagedDecodeHd512 {
        q: wide,
        k: narrow,
        q_out: wide,
        row_offset: 1,
        kv_pool_len: pool,
        layout,
        q_norm_weight: norm,
        k_norm_weight: norm,
        cos_cache: table,
        sin_cache: table,
        layer: 0,
        page_indices_len: 3,
        page_indptr_len: 3,
        page_origins_len: 2,
        positions_len: 2,
        cos_max_pos: 64,
        num_q_heads: 2,
        num_kv_heads: 1,
        rotary_dim: 128,
    };
    assert_eq!(qk_norm_partial_rope_paged_decode_hd512_into(&decode).unwrap().batch, 2);
    let short = QkPagedDecodeHd512 { positions_len: 1, ..decode };
    assert!(qk_norm_partial_rope_paged_decode_hd512_into(&short).is_err());
    let batched = QkBatchedDecodeHd512 {
        q: wide,
        q_out: wide,
        k: narrow,
        q_norm_weight: norm,
        k_norm_weight: norm,
        cos_cache: table,
        sin_cache: table,
        positions_len: 3,
        cos_max_pos: 64,
        num_q_heads: 2,
        num_kv_heads: 1,
        rotary_dim: 128,
    };
    assert_eq!(qk_norm_partial_rope_batched_decode_hd512_into(&batched).unwrap().batch_size, 3);
    let heads = QkBatchedDecodeHd512 { num_q_heads: usize::MAX, ..batched };
    assert!(qk_norm_partial_rope_batched_decode_hd512_into(&heads).is_err());
    let far = QkBatchedDecodeHd512 { cos_max_pos: usize::MAX, ..batched };
    assert!(qk_norm_partial_rope_batched_decode_hd512_into(&far).is_err());
}

#[test]
fn rotations_derive_the_table_length() {
    let q = HiddenStates::zeros(256, 4);
    let k = HiddenStates::zeros(128, 4);
    let table = DeviceVec::zeros(1280);
    let decode = QkNormRopeBatchDecode {
        q,
        k,
        row_offset: 1,
        num_rows: 3,
        cos_cache: table,
        num_q_heads: 2,
        num_kv_heads: 1,
        head_dim: 128,
    };
    let l = qk_norm_rope_batch_decode_into(&decode).unwrap();
    assert_eq!((l.q_row_bytes, l.k_row_bytes, l.cos_max_pos), (512, 256, 10));
    let past = QkNormRopeBatchDecode { num_rows: 4, ..decode };
    assert!(qk_norm_rope_batch_decode_into(&past).is_err());
    let l = dflash_qk_norm_rope_into(&DflashQkNormRope {
        q,
        q_row_offset: 1,
        q_seq_len: 2,
        k,
        q_norm_weight: DeviceVec::zeros(128),
        k_norm_weight: DeviceVec::zeros(128),
        cos_cache: table,
        num_q_heads: 2,
        num_kv_heads: 1,
        head_dim: 128,
        q_start_pos: 5,
        k_start_pos: 3,
    });
    assert_eq!((l.q_row_bytes, l.q_seq_len, l.k_seq_len, l.cos_max_pos), (512, 2, 4, 10));
    let rope = Eagle3Rope {
        q,
        q_row_offset: 0,
        q_seq_len: 4,
        k,
        cos_cache: table,
        sin_cache: table,
        num_q_heads: 2,
        num_kv_heads: 1,
        head_dim: 128,
        q_start_pos: 0,
        k_start_pos: 0,
    };
    assert_eq!(eagle3_rope_into(&rope).unwrap().cos_max_pos, 10);
    assert!(eagle3_rope_into(&Eagle3Rope { q_row_offset: 1, ..rope }).is_err());
    let l = qk_norm_partial_rope_batched_decode_hd256_into(&QkBatchedDecodeHd256 {
        q_full: HiddenStates::zeros(512, 4),
        q,
        k,
        num_q_heads: 1,
        num_kv_heads: 1,
        rotary_dim: 64,
    });
    assert_eq!((l.batch_size, l.rotary_dim), (4, 64));
}

#[test]
fn a_paged_prefill_reads_the_plan() {
    let (layout, pool) = hd256_pool();
    let call = PrefillAttentionPaged {
        cos_cache: DeviceVec::zeros(2560),
        kv_pool_len: pool,
        layout,
        layer: 1,
        plan: plan((2, 1), 256),
        num_q_heads: 2,
        num_kv_heads: 1,
        head_dim: 256,
    };
    let l = prefill_attention_paged_into(&call).unwrap();
    assert_eq!((l.total_tokens, l.batch_size, l.num_tiles, l.cta_tile_q), (2, 2, 2, 16));
    assert_eq!((l.src_stride_n, l.src_stride_h, l.cos_max_pos), (256, 256, 10));
    assert!(prefill_attention_paged_into(&PrefillAttentionPaged { head_dim: 128, ..call }).is_err());
}

#[test]
fn a_paged_decode_scatters_and_attends() {
    let (layout, pool) = hd256_pool();
    let call =
        PagedBatchDecode { kv_pool_len: pool, layout, layer: 1, num_qo_heads: 4, batch_size: 3 };
    let l = paged_attention_batch_decode_into(&call).unwrap();
    assert_eq!((l.num_qo_heads, l.num_kv_heads, l.batch_size), (4, 1, 3));
    assert_eq!((l.geometry.k_offset_elems, l.src_stride_n), (2 * 4096, 256));
    let packed = PagedKvLayout { storage: KvStorage::E4m3, ..layout };
    assert!(paged_attention_batch_decode_into(&PagedBatchDecode { layout: packed, ..call }).is_err());
    let call = PagedBatchDecodeHd256 {
        kv_pool_len: pool,
        layout,
        layer: 1,
        num_qo_heads: 4,
        batch_size: 3,
    };
    let l = paged_attention_batch_decode_hd256_into(&call).unwrap();
    assert_eq!((l.scatter.batch_size, l.scatter.head_dim, l.batch_size), (3, 256, 3));
    let rows = HiddenStates::zeros(1024, 5);
    let split = PagedBatchDecodeSplitKv {
        q: rows,
        k: HiddenStates::zeros(256, 5),
        v: HiddenStates::zeros(256, 5),
        output: rows,
        row_offset: 2,
        kv_pool_len: pool,
        layout,
        layer: 0,
        split_padded_slots: 8,
        num_qo_heads: 4,
        batch_size: 3,
    };
    let l = paged_attention_batch_decode_split_kv_into(&split).unwrap();
    assert_eq!((l.q_row_bytes, l.k_row_bytes, l.output_row_bytes), (4096, 1024, 4096));
    assert_eq!(l.padded_slots, 8);
    let past = PagedBatchDecodeSplitKv { batch_size: 4, ..split };
    assert!(paged_attention_batch_decode_split_kv_into(&past).is_err());
}

#[test]
fn a_decode_through_prefill_needs_a_plan_of_its_batch() {
    let (layout, pool) = hd256_pool();
    let call = PagedDecodeViaPrefillHd256 {
        kv_pool_len: pool,
        layout,
        layer: 0,
        plan: plan((2, 1), 256),
        num_qo_heads: 2,
        batch_size: 2,
    };
    let l = paged_attention_batch_decode_via_prefill_hd256_into(&call).unwrap();
    assert_eq!((l.plan_batch_size, l.num_tiles, l.scatter.batch_size), (2, 2, 2));
    let other = PagedDecodeViaPrefillHd256 { batch_size: 3, ..call };
    assert!(paged_attention_batch_decode_via_prefill_hd256_into(&other).is_err());

    let (layout, pool) = hd512_pool();
    let call = PagedDecodeViaPrefillHd512 {
        q: HiddenStates::zeros(1024, 2),
        k: HiddenStates::zeros(512, 2),
        v: HiddenStates::zeros(512, 2),
        output: HiddenStates::zeros(1024, 2),
        kv_pool_len: pool,
        layout,
        layer: 1,
        plan: plan((2, 1), 512),
        positions_len: 2,
        num_qo_heads: 2,
        sm_scale_bits: SCALE,
        kernel_cta_tile_q: 16,
    };
    let l = paged_attention_batch_decode_via_prefill_hd512_into(&call).unwrap();
    assert_eq!((l.total_tokens, l.batch_size, l.head_dim), (2, 2, 512));
    let refused = |c: PagedDecodeViaPrefillHd512| {
        paged_attention_batch_decode_via_prefill_hd512_into(&c).unwrap_err().message()
    };
    assert!(refused(PagedDecodeViaPrefillHd512 { sm_scale_bits: NAN, ..call }).contains("finite"));
    assert!(
        refused(PagedDecodeViaPrefillHd512 { kernel_cta_tile_q: 64, ..call }).contains("overridden")
    );
    assert!(refused(PagedDecodeViaPrefillHd512 { positions_len: 1, ..call }).contains("positions"));
    let heads = PagedDecodeViaPrefillHd512 { num_qo_heads: usize::MAX, ..call };
    assert!(refused(heads).contains("q.hidden_dim"));
}

#[test]
fn a_planned_prefill_is_held_against_its_plan() {
    let (layout, pool) = hd512_pool();
    let call = BatchPrefillPagedHd512 {
        q: HiddenStates::zeros(1024, 2),
        output: HiddenStates::zeros(1024, 2),
        kv_pool_len: pool,
        layout,
        layer: 0,
        plan: plan((2, 1), 512),
        num_qo_heads: 2,
        sm_scale_bits: SCALE,
        kernel_cta_tile_q: 16,
    };
    assert_eq!(batch_prefill_paged_hd512_into(&call).unwrap().total_tokens, 2);
    let other = BatchPrefillPagedHd512 { plan: plan((4, 1), 512), ..call };
    assert!(batch_prefill_paged_hd512_into(&other).is_err());

    let (layout, pool) = hd256_pool();
    let call = BatchPrefillPagedWindowHd256 {
        q: HiddenStates::zeros(512, 2),
        output: HiddenStates::zeros(512, 2),
        kv_pool_len: pool,
        layout,
        layer: 0,
        plan: plan((2, 1), 256),
        num_qo_heads: 2,
        sm_scale_bits: SCALE,
        window_left: 1023,
        kernel_cta_tile_q: 16,
        fp8_built: false,
    };
    let l = batch_prefill_paged_window_hd256_into(&call).unwrap();
    assert_eq!((l.window_left, l.fp8, l.total_tokens), (1023, false, 2));
    let refused =
        |c: BatchPrefillPagedWindowHd256| batch_prefill_paged_window_hd256_into(&c).is_err();
    assert!(refused(BatchPrefillPagedWindowHd256 { window_left: -2, ..call }));
    // The plan names page three: a pool of three pages does not have it.
    let smaller = 3 * layout.page_stride;
    assert!(refused(BatchPrefillPagedWindowHd256 { kv_pool_len: smaller, ..call }));
    let packed = PagedKvLayout { storage: KvStorage::E4m3, ..layout };
    assert!(refused(BatchPrefillPagedWindowHd256 { layout: packed, ..call }));
    let built = BatchPrefillPagedWindowHd256 { layout: packed, fp8_built: true, ..call };
    assert!(batch_prefill_paged_window_hd256_into(&built).unwrap().fp8);
}

#[test]
fn a_split_decode_backs_every_slot() {
    let (layout, pool) = hd512_pool();
    let call = PagedSplitDecodeHd512 {
        q: HiddenStates::zeros(1024, 3),
        output: HiddenStates::zeros(1024, 3),
        row_offset: 1,
        kv_pool_len: pool,
        layout,
        layer: 0,
        meta: Hd512DecodeMetadata::new(4, 3, 2, 5, 5, 2),
        split_o_indptr_len: 3,
        split_valid_mask_len: 5,
        split_tmp_v_len: 5 * 1024,
        split_tmp_s_len: 10,
        split_padded_slots: 5,
        num_qo_heads: 2,
        sm_scale_bits: SCALE,
    };
    let l = paged_attention_batch_decode_split_kv_hd512_into(&call).unwrap();
    assert_eq!((l.batch_size, l.padded_slots, l.q_row_bytes), (2, 5, 2048));
    let refused =
        |c: PagedSplitDecodeHd512| paged_attention_batch_decode_split_kv_hd512_into(&c).is_err();
    assert!(refused(PagedSplitDecodeHd512 { split_tmp_v_len: 5 * 1024 - 1, ..call }));
    assert!(refused(PagedSplitDecodeHd512 { split_o_indptr_len: 2, ..call }));
    assert!(refused(PagedSplitDecodeHd512 { split_padded_slots: 1, ..call }));
    let short = Hd512DecodeMetadata::new(4, 2, 2, 5, 5, 2);
    assert!(short.validate(2).is_err());
    assert!(refused(PagedSplitDecodeHd512 { meta: short, ..call }));
}

#[test]
fn single_sequences_run_at_their_head_widths() {
    let q = HiddenStates::zeros(256, 4);
    let cache = HiddenStates::zeros(128, 6);
    let noncausal = SinglePrefillNoncausal {
        q,
        row_offset: 1,
        q_seq_len: 3,
        k_cache: cache,
        v_cache: cache,
        output: q,
        num_q_heads: 2,
        num_kv_heads: 1,
        head_dim: 128,
        kv_len: 6,
    };
    let l = single_prefill_nhd_noncausal_into(&noncausal).unwrap();
    assert_eq!((l.row_bytes, l.kv_len, l.cache_rows, l.hd64), (512, 6, 6, false));
    let half = SinglePrefillNoncausal { num_q_heads: 4, num_kv_heads: 2, head_dim: 64, ..noncausal };
    assert!(single_prefill_nhd_noncausal_into(&half).unwrap().hd64);
    let odd = SinglePrefillNoncausal { num_q_heads: 8, num_kv_heads: 4, head_dim: 32, ..noncausal };
    assert!(single_prefill_nhd_noncausal_into(&odd).is_err());
    let causal = SinglePrefillCausal {
        q,
        row_offset: 0,
        q_seq_len: 4,
        k_cache: cache,
        v_cache: cache,
        output: q,
        num_q_heads: 2,
        num_kv_heads: 1,
        head_dim: 128,
        kv_len: 6,
    };
    assert_eq!(single_prefill_nhd_causal_into(&causal).unwrap().q_seq_len, 4);
    assert!(single_prefill_nhd_causal_into(&SinglePrefillCausal { row_offset: 1, ..causal }).is_err());
    let decode = SingleDecodeNhd {
        q: HiddenStates::zeros(256, 1),
        k_cache: cache,
        v_cache: cache,
        output: HiddenStates::zeros(256, 1),
        num_q_heads: 2,
        num_kv_heads: 1,
        head_dim: 128,
        kv_len: 5,
    };
    assert_eq!(single_decode_nhd_into(&decode).unwrap().kv_len, 5);
    let wide = SinglePrefillHd512 {
        q: HiddenStates::zeros(1024, 2),
        row_offset: 0,
        q_seq_len: 2,
        k_cache: HiddenStates::zeros(512, 4),
        v_cache: HiddenStates::zeros(512, 4),
        output: HiddenStates::zeros(1024, 2),
        num_q_heads: 2,
        num_kv_heads: 1,
        kv_len: 3,
        sm_scale_bits: SCALE,
    };
    assert_eq!(single_prefill_hd512_into(&wide).unwrap().cache_rows, 4);
    assert!(single_prefill_hd512_into(&SinglePrefillHd512 { sm_scale_bits: NAN, ..wide }).is_err());
    let narrow = SinglePrefillHd256 {
        q: HiddenStates::zeros(512, 2),
        row_offset: 1,
        q_seq_len: 1,
        k_cache: HiddenStates::zeros(256, 4),
        v_cache: HiddenStates::zeros(256, 4),
        output: HiddenStates::zeros(512, 2),
        num_q_heads: 2,
        num_kv_heads: 1,
        kv_len: 3,
        sm_scale_bits: SCALE,
    };
    assert_eq!(single_prefill_hd256_into(&narrow).unwrap().row_bytes, 1024);
    assert!(single_prefill_hd256_into(&SinglePrefillHd256 { num_kv_heads: 0, ..narrow }).is_err());
    assert!(single_prefill_hd256_into(&SinglePrefillHd256 { kv_len: 5, ..narrow }).is_err());
    assert!(single_prefill_hd256_into(&SinglePrefillHd256 { q_seq_len: 0, ..narrow }).is_err());
}
