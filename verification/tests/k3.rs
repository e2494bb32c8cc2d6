use pegainfer_kernels::ops::k3::deepgemm::k3_deepgemm_sm100_masked_grouped_fp8_fp4_launch;
use pegainfer_kernels::ops::k3::deepgemm::k3_fp4_sf_prepare_launch;
use pegainfer_kernels::ops::k3::deepgemm::K3DeepGemmFp8Fp4Kind;
use pegainfer_kernels::ops::k3::deepgemm::K3MaskedGemmCall;
use pegainfer_kernels::ops::k3::flash_kda::k3_flash_kda_fwd_launch;
use pegainfer_kernels::ops::k3::flash_kda::K3FlashKdaCall;
use pegainfer_kernels::ops::k3::flash_kda::K3FlashKdaSpan;
use pegainfer_kernels::ops::k3::flash_mla_prefill::k3_flash_mla_prefill_fwd_launch;
use pegainfer_kernels::ops::k3::flash_mla_prefill::k3_mla_prefill_gather_launch;
use pegainfer_kernels::ops::k3::flash_mla_prefill::K3MlaPrefillCall;
use pegainfer_kernels::ops::k3::mega_moe::k3_mega_moe_launch;
use pegainfer_kernels::ops::k3::mega_moe::k3_mega_symm_buffer_layout;
use pegainfer_kernels::ops::k3::mega_moe::k3_mega_world_supported;
use pegainfer_kernels::ops::k3::mega_moe::K3MegaActivation;
use pegainfer_kernels::ops::k3::mega_moe::K3MegaLayoutCall;
use pegainfer_kernels::ops::k3::mega_moe::K3MegaMoeCall;
use pegainfer_kernels::ops::k3::mega_moe::K3MegaShape;
use pegainfer_kernels::ops::k3::mega_moe::K3MegaSymmLayout;
use pegainfer_kernels::ops::k3::mla_paged::k3_mla_paged_attn_launch;
use pegainfer_kernels::ops::k3::mla_paged::K3MlaPagedCall;
use pegainfer_kernels::ops::k3::mla_paged::K3_KV_LATENT_ROW;
use pegainfer_kernels::ops::k3::mla_paged::K3_KV_LORA;
use pegainfer_kernels::ops::k3::mla_paged::K3_KV_PAGE_SLICE;
use pegainfer_kernels::ops::k3::mla_paged::K3_KV_PAGE_TOKENS;
use pegainfer_kernels::ops::k3::moe_chain::k3_moe_local_route_metadata_launch;
use pegainfer_kernels::ops::k3::moe_chain::k3_situ_and_mul_fp8_quant_masked_launch;
use pegainfer_kernels::ops::k3::moe_chain::K3MoeRouteShape;
use pegainfer_kernels::ops::k3_tilelang::k3_attnres_scores_launch;
use pegainfer_kernels::ops::k3_tilelang::k3_batch_bucket;
use pegainfer_kernels::ops::k3_tilelang::k3_router_topk_launch;
use pegainfer_kernels::ops::k3_tilelang::K3AttnresScoresCall;
use pegainfer_kernels::ops::k3_tilelang::K3RouterTopkCall;
use pegainfer_kernels::ops::k3_tilelang::K3_BATCH_BUCKETS;
use pegainfer_kernels::ops::k3_tilelang::K3_QK_DIM;
use pegainfer_kernels::ops::k3_tilelang::K3_V_DIM;

#[test]
fn batch_bucket_rounds_up_and_rejects_overflow() {
    assert_eq!(k3_batch_bucket(1).unwrap(), 1);
    assert_eq!(k3_batch_bucket(3).unwrap(), 4);
    assert_eq!(k3_batch_bucket(48).unwrap(), 48);
    assert_eq!(k3_batch_bucket(49).unwrap(), 64);
    assert_eq!(k3_batch_bucket(128).unwrap(), 128);
    assert!(k3_batch_bucket(0).is_err());
    assert!(k3_batch_bucket(129).is_err());
}

#[test]
fn every_row_count_runs_at_the_smallest_bucket() {
    for rows in 1..=128 {
        let smallest = K3_BATCH_BUCKETS.iter().copied().filter(|b| *b >= rows).min();
        assert_eq!(k3_batch_bucket(rows).ok(), smallest);
    }
}

#[test]
fn geometry_agrees_with_the_cache_row() {
    // The cached row is [kv_lora 512 | rope 64]; the query per head is
    // [nope 128 | rope 64]; the value head is 128 wide.
    assert_eq!(K3_KV_LATENT_ROW, K3_KV_LORA + (K3_QK_DIM - 128));
    assert_eq!(K3_V_DIM, 128);
    assert_eq!(K3_KV_PAGE_TOKENS, 64);
    assert_eq!(K3_KV_PAGE_SLICE, K3_KV_PAGE_TOKENS * K3_KV_LATENT_ROW);
}

#[test]
fn router_buffers_hold_the_bucket_and_not_only_the_rows() {
    let call = K3RouterTopkCall {
        num_experts: 224,
        rows: 3,
        scores_len: 4 * 224,
        bias_len: 224,
        routed_scale_len: 1,
        idx_len: 4 * 16,
        weights_len: 4 * 16,
    };
    let launch = k3_router_topk_launch(&call).unwrap();
    assert_eq!((launch.num_experts, launch.topk, launch.batch), (224, 16, 4));
    assert!(k3_router_topk_launch(&K3RouterTopkCall { scores_len: 3 * 224, ..call }).is_err());
    assert!(k3_router_topk_launch(&K3RouterTopkCall { num_experts: 225, ..call }).is_err());
    assert!(k3_router_topk_launch(&K3RouterTopkCall { routed_scale_len: 0, ..call }).is_err());
}

#[test]
fn residual_scores_have_one_more_candidate_than_blocks() {
    let call = K3AttnresScoresCall {
        num_blocks: 2,
        rows: 1,
        prefix_sum_len: 7168,
        blocks_len: 2 * 7168,
        score_weight_len: 7168,
        scores_out_len: 3,
    };
    assert!(k3_attnres_scores_launch(&call).is_ok());
    assert!(k3_attnres_scores_launch(&K3AttnresScoresCall { scores_out_len: 2, ..call }).is_err());
    assert!(k3_attnres_scores_launch(&K3AttnresScoresCall { num_blocks: 9, ..call }).is_err());
}

#[test]
fn masked_products_are_instantiated_for_few_shapes() {
    assert_eq!(K3DeepGemmFp8Fp4Kind::W13.shape(), (6144, 3584));
    assert_eq!(K3DeepGemmFp8Fp4Kind::W2.shape(), (3584, 3072));
    let (n, k) = K3DeepGemmFp8Fp4Kind::W2.shape();
    let call = K3MaskedGemmCall {
        kind: K3DeepGemmFp8Fp4Kind::W2,
        groups: 56,
        masked_cap: 128,
        num_sms: 152,
        activation_len: 56 * 128 * k,
        activation_scale_len: 56 * (k / 512) * 128,
        weight_len: 56 * n * k / 2,
        weight_scale_len: 56 * (k / 128) * n,
        masked_m_len: 56,
        output_len: 56 * 128 * n,
    };
    let launch = k3_deepgemm_sm100_masked_grouped_fp8_fp4_launch(&call).unwrap();
    assert_eq!((launch.kind, launch.n, launch.k), (2, 3584, 3072));
    let refused = |c: K3MaskedGemmCall| k3_deepgemm_sm100_masked_grouped_fp8_fp4_launch(&c).is_err();
    assert!(refused(K3MaskedGemmCall { groups: 57, ..call }));
    assert!(refused(K3MaskedGemmCall { num_sms: 150, ..call }));
    assert!(refused(K3MaskedGemmCall { masked_cap: 100, ..call }));
    assert!(refused(K3MaskedGemmCall { weight_len: 56 * n * k / 2 - 1, ..call }));
    assert!(k3_fp4_sf_prepare_launch(2, 8, 256, 2 * 8 * 8, 2 * 2 * 8).is_ok());
    assert!(k3_fp4_sf_prepare_launch(2, 8, 256, 2 * 8 * 8 - 1, 2 * 2 * 8).is_err());
    assert!(k3_fp4_sf_prepare_launch(2, 6, 256, 1000, 1000).is_err());
}

fn kda() -> K3FlashKdaCall {
    K3FlashKdaCall {
        t_total: 4,
        heads: 2,
        span: K3FlashKdaSpan { row: 3, state_in_row: 1, state_out_row: 2 },
        q_len: 7 * 256,
        k_len: 7 * 256,
        v_len: 7 * 256,
        g_len: 7 * 256,
        beta_len: 14,
        beta_scratch_len: 8,
        a_log_len: 2,
        dt_bias_len: 256,
        state_in_len: 2 * 32768,
        state_out_len: 3 * 32768,
        out_len: 7 * 256,
        workspace_len: 100,
        workspace_needed: 100,
    }
}

#[test]
fn a_segment_starts_at_its_own_rows() {
    let launch = k3_flash_kda_fwd_launch(&kda()).unwrap();
    assert_eq!(launch.beta_bytes, 3 * 2 * 2);
    assert_eq!(launch.row_bytes, 3 * 256 * 2);
    assert_eq!(launch.state_in_bytes, 32768 * 4);
    assert_eq!(launch.state_out_bytes, 2 * 32768 * 4);
    assert!(k3_flash_kda_fwd_launch(&K3FlashKdaCall { t_total: 5, ..kda() }).is_err());
    assert!(k3_flash_kda_fwd_launch(&K3FlashKdaCall { t_total: 0, ..kda() }).is_err());
    assert!(k3_flash_kda_fwd_launch(&K3FlashKdaCall { workspace_needed: 101, ..kda() }).is_err());
    assert!(k3_flash_kda_fwd_launch(&K3FlashKdaCall { state_out_len: 2 * 32768, ..kda() }).is_err());
    let far = K3FlashKdaSpan { state_in_row: usize::MAX, ..kda().span };
    assert!(k3_flash_kda_fwd_launch(&K3FlashKdaCall { span: far, ..kda() }).is_err());
    let first = K3FlashKdaCall { span: K3FlashKdaSpan::default(), ..kda() };
    let launch = k3_flash_kda_fwd_launch(&first).unwrap();
    assert_eq!((launch.row_bytes, launch.state_in_bytes, launch.state_out_bytes), (0, 0, 0));
}

#[test]
fn a_chunk_attends_to_at_least_itself() {
    let call = K3MlaPrefillCall {
        t_q: 2,
        t_kv: 3,
        heads: 4,
        q_len: 2 * 4 * 192,
        k_len: 3 * 4 * 192,
        nope_v_len: 3 * 4 * 256,
        out_len: 2 * 4 * 128,
    };
    let launch = k3_flash_mla_prefill_fwd_launch(&call).unwrap();
    assert_eq!((launch.q_token_stride, launch.v_token_stride, launch.v_bytes), (768, 1024, 256));
    assert!(k3_flash_mla_prefill_fwd_launch(&K3MlaPrefillCall { t_q: 4, ..call }).is_err());
    assert!(k3_flash_mla_prefill_fwd_launch(&K3MlaPrefillCall { out_len: 1023, ..call }).is_err());
    assert!(k3_mla_prefill_gather_launch(65, 2, 1, 0, 65 * 512, 65 * 64).is_ok());
    assert!(k3_mla_prefill_gather_launch(65, 1, 1, 0, 65 * 512, 65 * 64).is_err());
}

#[test]
fn a_layer_slice_fits_its_page() {
    let call = K3MlaPagedCall {
        b: 2,
        num_heads: 1,
        q_len: 384,
        w_kv_b_len: 2 * 128 * 512,
        layer_offset: K3_KV_PAGE_SLICE,
        page_stride: 2 * K3_KV_PAGE_SLICE,
        table_len: 6,
        max_pages: 3,
        n_len: 2,
        scale_len: 1,
        o_len: 256,
    };
    let launch = k3_mla_paged_attn_launch(&call).unwrap();
    assert_eq!((launch.qk_dim, launch.v_dim, launch.max_pages), (192, 128, 3));
    let late = K3MlaPagedCall { layer_offset: K3_KV_PAGE_SLICE + 1, ..call };
    assert!(k3_mla_paged_attn_launch(&late).is_err());
    let wrapped = K3MlaPagedCall { layer_offset: usize::MAX, ..call };
    assert!(k3_mla_paged_attn_launch(&wrapped).is_err());
    assert!(k3_mla_paged_attn_launch(&K3MlaPagedCall { scale_len: 0, ..call }).is_err());
}

#[test]
fn the_chain_agrees_on_its_geometry() {
    let shape = K3MoeRouteShape { tokens: 3, topk: 16, groups: 56, masked_cap: 128 };
    assert_eq!(shape.entries(), 48);
    assert_eq!(shape.masked_rows(), 7168);
    let launch = k3_moe_local_route_metadata_launch(shape, 48, 56, 48).unwrap();
    assert_eq!((launch.local_expert_base, launch.groups), (0, 56));
    assert!(k3_moe_local_route_metadata_launch(shape, 47, 56, 48).is_err());
    let ragged = K3MoeRouteShape { masked_cap: 100, ..shape };
    assert!(k3_moe_local_route_metadata_launch(ragged, 48, 56, 48).is_err());
    let rows = shape.masked_rows();
    let situ = |inter: usize, gate_up: usize| {
        k3_situ_and_mul_fp8_quant_masked_launch(shape, inter, gate_up, 48, 48, rows * inter, 7168)
    };
    assert!(situ(128, rows * 256).is_ok());
    assert!(situ(128, rows * 256 - 1).is_err());
    assert!(situ(100, rows * 256).is_err());
}

fn mega_shape() -> K3MegaShape {
    K3MegaShape {
        num_tokens: 16,
        num_max_tokens_per_rank: 128,
        num_experts: 8,
        num_ranks: 2,
        rank_idx: 1,
        num_topk: 4,
        hidden: 256,
        intermediate_hidden: 128,
        num_sms: 152,
    }
}

#[test]
fn a_fused_call_knows_its_rank() {
    let shape = mega_shape();
    assert_eq!(shape.local_experts(), 4);
    let call = K3MegaMoeCall {
        shape,
        token_alignment: 64,
        activation: K3MegaActivation::Situ,
        layout_bytes: 1000,
        symm_len: 1000,
        symm_base: 77,
        l1_weights_len: 4 * 256 * 128,
        l1_weights_sf_len: 4 * 2 * 256,
        l2_weights_len: 4 * 256 * 64,
        l2_weights_sf_len: 4 * 256,
        output_len: 16 * 256,
    };
    let launch = k3_mega_moe_launch(&call, &[5, 77]).unwrap();
    assert_eq!((launch.rank_idx, launch.num_ranks, launch.activation), (1, 2, 1));
    assert!(k3_mega_moe_launch(&call, &[77, 5]).is_err());
    assert!(k3_mega_moe_launch(&call, &[77]).is_err());
    assert!(k3_mega_moe_launch(&K3MegaMoeCall { symm_len: 999, ..call }, &[5, 77]).is_err());
    assert!(k3_mega_moe_launch(&K3MegaMoeCall { token_alignment: 96, ..call }, &[5, 77]).is_err());
    let odd = K3MegaShape { num_experts: 7, ..shape };
    assert!(odd.validate(64).is_err());
    let grid = K3MegaShape { num_sms: 148, ..shape };
    assert!(grid.validate(64).is_err());
}

#[test]
fn a_slab_layout_is_asked_for_and_taken() {
    let call = K3MegaLayoutCall {
        token_alignment: 64,
        num_ranks: 4,
        num_experts: 224,
        num_max_tokens_per_rank: 128,
        num_topk: 16,
        hidden: 3584,
        intermediate_hidden: 3072,
        num_sms: 152,
    };
    let query = k3_mega_symm_buffer_layout(&call).unwrap();
    assert_eq!((query.num_experts, query.hidden, query.num_sms), (224, 3584, 152));
    assert!(k3_mega_symm_buffer_layout(&K3MegaLayoutCall { num_ranks: 3, ..call }).is_err());
    assert!(
        k3_mega_symm_buffer_layout(&K3MegaLayoutCall { num_max_tokens_per_rank: 100, ..call })
            .is_err()
    );
    let offsets = [10u64, 20, 30, 40, 50, 60, 70, 80, 90, 100, 110, 120];
    let layout = K3MegaSymmLayout::new(4096, offsets, 7, 9).unwrap();
    assert_eq!((layout.x(), layout.x_sf()), (10, 20));
    assert_eq!((layout.topk_idx(), layout.topk_weights()), (30, 40));
    assert_eq!(layout.offsets()[11], 120);
    assert_eq!((layout.num_bytes, layout.ring_tokens, layout.sf_ring_tokens), (4096, 7, 9));
    assert_eq!(layout, K3MegaSymmLayout::new(4096, offsets, 7, 9).unwrap());
    assert!(K3MegaSymmLayout::new(4096, offsets, -1, 9).is_err());
    assert!(K3MegaSymmLayout::new(4096, offsets, 7, -1).is_err());
    assert_eq!(k3_mega_world_supported(224, 64), Some((224, 64)));
    assert_eq!(k3_mega_world_supported(usize::MAX, 64), None);
}
