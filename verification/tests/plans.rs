use pegainfer_kernels::error::KernelError;
use pegainfer_kernels::ops::attention::geometry::checked_paged_geometry;
use pegainfer_kernels::ops::attention::plan::BatchPlanHost;
use pegainfer_kernels::ops::attention::plan::BatchRequests;
use pegainfer_kernels::ops::attention::prefill_plan::PrefillPagedPlan;
use pegainfer_kernels::ops::attention::prefill_plan::SingleRequest;
use pegainfer_kernels::paged_kv::KvStorage;
use pegainfer_kernels::paged_kv::PagedKvLayout;

#[test]
fn a_batch_plan_lists_pages_tokens_and_tiles() {
    let pages = [vec![4, 9], vec![2]];
    let requests = BatchRequests {
        page_indices: &pages,
        last_page_lens: &[3, 5],
        start_positions: &[16, 0],
        seq_lens: &[3, 5],
    };
    let (plan, host) =
        PrefillPagedPlan::new_batch_with_cta_tile_q(requests, 4, 2, 128, 4).unwrap();
    assert_eq!(host.all_page_indices, vec![4, 9, 2]);
    assert_eq!(host.page_indptr, vec![0, 2, 3]);
    assert_eq!(host.last_page_lens_i32, vec![3, 5]);
    assert_eq!(host.batch_indices, vec![0, 0, 0, 1, 1, 1, 1, 1]);
    assert_eq!(host.positions, vec![16, 17, 18, 0, 1, 2, 3, 4]);
    assert_eq!(host.q_indptr, vec![0, 3, 8]);
    // Two query heads share a cached head: six and ten rows make two and three
    // tiles of four.
    assert_eq!(host.request_indices_v, vec![0, 0, 1, 1, 1]);
    assert_eq!(host.qo_tile_indices_v, vec![0, 1, 0, 1, 2]);
    assert_eq!(host.kv_tile_indices_v, vec![0, 0, 0, 0, 0]);
    assert_eq!(host.kv_chunk_sizes, vec![19, 5]);
    assert_eq!(plan.batch_size(), 2);
    assert_eq!(plan.num_tiles(), 5);
    assert_eq!(plan.total_tokens, 8);
    assert_eq!((plan.max_page_index, plan.max_last_page_len), (9, 5));
}

#[test]
fn a_refilled_plan_agrees_with_a_fresh_one() {
    let pages = [vec![7], vec![1, 3]];
    let requests = BatchRequests {
        page_indices: &pages,
        last_page_lens: &[2, 1],
        start_positions: &[0, 8],
        seq_lens: &[2, 1],
    };
    let (fresh, fresh_host) =
        PrefillPagedPlan::new_batch_with_cta_tile_q(requests, 8, 8, 128, 16).unwrap();
    let mut kept = PrefillPagedPlan::new_preallocated(64, 16, 4, 32);
    let kept_host = kept.update_batch_with_cta_tile_q(requests, 8, 8, 128, 16).unwrap();
    assert_eq!(fresh_host.positions, kept_host.positions);
    assert_eq!(fresh_host.request_indices_v, kept_host.request_indices_v);
    assert_eq!(fresh.num_tiles, kept.num_tiles);
    assert_eq!(fresh.total_tokens, kept.total_tokens);

    let mut small = PrefillPagedPlan::new_preallocated(64, 2, 4, 32);
    let before = small;
    assert_eq!(
        small.update_batch_with_cta_tile_q(requests, 8, 8, 128, 16).unwrap_err(),
        KernelError::Exceeds {
            what: "verify plan page_indices exceeds preallocated capacity",
            got: 3,
            max: 2,
        }
    );
    assert_eq!(small, before);
}

#[test]
fn one_request_is_a_batch_of_one() {
    let request = SingleRequest {
        page_indices: &[5, 6],
        last_page_len: 4,
        start_pos: 10,
        seq_len: 3,
    };
    let (_, single) =
        PrefillPagedPlan::new_with_cta_tile_q(request, 4, 4, 128, 1, 16).unwrap();
    let pages = [vec![5, 6]];
    let batch = BatchPlanHost::compute(
        BatchRequests {
            page_indices: &pages,
            last_page_lens: &[4],
            start_positions: &[10],
            seq_lens: &[3],
        },
        4,
        4,
        128,
        16,
    )
    .unwrap();
    assert_eq!(single.positions, batch.positions);
    assert_eq!(single.kv_chunk_sizes, batch.kv_chunk_sizes);
    assert_eq!(single.request_indices_v, batch.request_indices_v);
}

#[test]
fn a_plan_refuses_what_no_kernel_can_run() {
    let one = [vec![0]];
    let requests = BatchRequests {
        page_indices: &one,
        last_page_lens: &[1],
        start_positions: &[0],
        seq_lens: &[1],
    };
    assert!(PrefillPagedPlan::new_batch_with_cta_tile_q(requests, 3, 2, 128, 16).is_err());
    assert!(PrefillPagedPlan::new_batch_with_cta_tile_q(requests, 2, 2, 128, 0).is_err());
    let negative = [vec![-1]];
    let bad = BatchRequests { page_indices: &negative, ..requests };
    assert!(PrefillPagedPlan::new_batch_with_cta_tile_q(bad, 2, 2, 128, 16).is_err());
}

#[test]
fn a_layout_is_accepted_for_its_own_pool() {
    let layout = PagedKvLayout::new(2, 4, 256, 16);
    assert_eq!(layout.kv_block_len, 16 * 4 * 256);
    assert_eq!(layout.layer_stride, 2 * layout.kv_block_len);
    assert_eq!(layout.page_stride, 2 * layout.layer_stride);
    let pool = 8 * layout.page_stride;
    assert!(checked_paged_geometry("pool", &layout, pool, 1, 256, 4, false).is_ok());
    assert!(checked_paged_geometry("pool", &layout, pool, 2, 256, 4, false).is_err());
    assert!(checked_paged_geometry("pool", &layout, pool, 1, 128, 4, false).is_err());
    let fp8 = PagedKvLayout::with_storage(2, 4, 256, 16, KvStorage::E4m3);
    assert_eq!(KvStorage::E4m3.elem_bytes(), 1);
    assert_eq!(KvStorage::Bf16.elem_bytes(), 2);
    assert!(checked_paged_geometry("pool", &fp8, pool, 1, 256, 4, false).is_err());
    assert!(checked_paged_geometry("pool", &fp8, pool, 1, 256, 4, true).is_ok());
}
