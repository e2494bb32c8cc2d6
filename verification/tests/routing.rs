use pegainfer_kernels::error::KernelError;
use pegainfer_kernels::ops::argmax::argmax_batch_bf16_split_indexed_into;
use pegainfer_kernels::ops::argmax::flashinfer_top1_batch_into;
use pegainfer_kernels::ops::argmax::logprob_topk_batch_bf16_into;
use pegainfer_kernels::ops::argmax::markov_step_argmax_impl;
use pegainfer_kernels::ops::argmax::markov_step_top2_into;
use pegainfer_kernels::ops::argmax::LogprobTopkCall;
use pegainfer_kernels::ops::argmax::MarkovStepCall;
use pegainfer_kernels::ops::argmax::MarkovStepLaunch;
use pegainfer_kernels::ops::argmax::MarkovTop2Call;
use pegainfer_kernels::ops::gemma4::gemma4_marlin_nvfp4_moe;
use pegainfer_kernels::ops::gemma4::gemma4_marlin_nvfp4_prepare_scales;
use pegainfer_kernels::ops::gemma4::gemma4_moe_sum_topk_into;
use pegainfer_kernels::ops::gemma4::marlin_repack_4bit;
use pegainfer_kernels::ops::gemma4::ExpertStack;
use pegainfer_kernels::ops::gemma4::MarlinDispatch;
use pegainfer_kernels::ops::gemma4::MarlinMoeCall;
use pegainfer_kernels::ops::gemma4_tilelang::gemma4_hd256_prefill_window_into;
use pegainfer_kernels::ops::gemma4_tilelang::gemma4_hd512_prefill_varlen_into;
use pegainfer_kernels::ops::gemma4_tilelang::Gemma4PrefillCall;
use pegainfer_kernels::ops::gemma4_tilelang::Gemma4WindowPrefillCall;
use pegainfer_kernels::ops::gemma4_tilelang::KvRowGeometry;
use pegainfer_kernels::ops::gemma4_tilelang::KvRows;
use pegainfer_kernels::ops::glm52::flashmla_sparse::glm52_flashmla_sparse_decode_launch;
use pegainfer_kernels::ops::glm52::flashmla_sparse::glm52_flashmla_sparse_prefill_launch;
use pegainfer_kernels::ops::glm52::flashmla_sparse::validate_metadata_buffers;
use pegainfer_kernels::ops::glm52::flashmla_sparse::Glm52FlashMlaSparseDecode;
use pegainfer_kernels::ops::glm52::flashmla_sparse::Glm52SparseDecodeCall;
use pegainfer_kernels::ops::glm52::flashmla_sparse::Glm52SparsePrefillCall;
use pegainfer_kernels::ops::glm52::indexer::glm52_indexer_k_gather_launch;
use pegainfer_kernels::ops::glm52::indexer::glm52_indexer_k_quant_and_cache_launch;
use pegainfer_kernels::ops::glm52::indexer::glm52_indexer_local_topk_to_slots_launch;
use pegainfer_kernels::ops::glm52::indexer::glm52_indexer_topk_to_slots_lut_launch;
use pegainfer_kernels::ops::glm52::indexer::glm52_indexer_weights_fold_launch;
use pegainfer_kernels::ops::glm52::indexer::glm52_indexer_weights_proj_launch;
use pegainfer_kernels::ops::glm52::indexer::Glm52IndexerCacheInsert;
use pegainfer_kernels::ops::glm52::indexer::Glm52IndexerCacheLayout;
use pegainfer_kernels::ops::glm52::indexer::Glm52IndexerLocalTopKToSlots;
use pegainfer_kernels::ops::glm52::indexer::Glm52KCacheCall;
use pegainfer_kernels::ops::glm52::indexer::Glm52KGatherCall;
use pegainfer_kernels::ops::glm52::indexer::Glm52TopkLutCall;
use pegainfer_kernels::ops::glm52::indexer::Glm52TopkSlotsCall;
use pegainfer_kernels::ops::k3::flash_mla_prefill::k3_mla_prefill_expand_k_launch;
use pegainfer_kernels::ops::k3::mega_moe::k3_mega_fabric_slab_alloc;
use pegainfer_kernels::ops::k3::mega_moe::k3_mega_fabric_slab_import;
use pegainfer_kernels::ops::k3::mega_moe::k3_mega_fabric_supported;
use pegainfer_kernels::ops::k3::mega_moe::k3_mega_open_peer_access;
use pegainfer_kernels::ops::k3::mega_moe::k3_mega_prepare_l1_weights_launch;
use pegainfer_kernels::ops::k3::mega_moe::k3_mega_prepare_sf_launch;
use pegainfer_kernels::ops::k3::mega_moe::k3_mega_write_inputs_launch;
use pegainfer_kernels::ops::k3::mega_moe::K3MegaInputsCall;
use pegainfer_kernels::ops::k3::mega_moe::K3MegaStack;
use pegainfer_kernels::ops::k3::moe_chain::k3_fp8_scale_pack_ue8m0_launch;
use pegainfer_kernels::ops::k3::moe_chain::k3_moe_gather_fp8_quant_masked_launch;
use pegainfer_kernels::ops::k3::moe_chain::k3_moe_weighted_combine_launch;
use pegainfer_kernels::ops::k3::moe_chain::situ_and_mul_fp8_quant_windowed_launch;
use pegainfer_kernels::ops::k3::moe_chain::windowed_gather_fp8_quant_masked_launch;
use pegainfer_kernels::ops::k3::moe_chain::windowed_route_metadata_launch;
use pegainfer_kernels::ops::k3::moe_chain::K3CombineCall;
use pegainfer_kernels::ops::k3::moe_chain::K3GatherQuantCall;
use pegainfer_kernels::ops::k3::moe_chain::K3MaskedLaunch;
use pegainfer_kernels::ops::k3::moe_chain::K3MoeRouteShape;
use pegainfer_kernels::ops::k3::moe_chain::K3RouteMetadataCall;
use pegainfer_kernels::ops::k3::moe_chain::K3SituQuantCall;
use pegainfer_kernels::paged_kv::KvStorage;
use pegainfer_kernels::shape::HiddenStates;

const ONE: u32 = 0x3f80_0000;

#[test]
fn selections_name_their_rows_and_vocabulary() {
    let logits = HiddenStates::zeros(5000, 4);
    let launch = argmax_batch_bf16_split_indexed_into(&logits, 3, 3, 6, 6, 3, 3).unwrap();
    assert_eq!((launch.rows, launch.vocab), (3, 5000));
    assert!(argmax_batch_bf16_split_indexed_into(&logits, 3, 3, 5, 6, 3, 3).is_err());
    assert!(argmax_batch_bf16_split_indexed_into(&logits, 2, 3, 6, 6, 3, 3).is_err());
    assert!(argmax_batch_bf16_split_indexed_into(&logits, 3, 0, 6, 6, 3, 3).is_err());
    let launch = flashinfer_top1_batch_into(&logits, 4, 100, 100, 4).unwrap();
    assert_eq!((launch.rows, launch.vocab), (4, 5000));
    assert!(flashinfer_top1_batch_into(&logits, 4, 99, 100, 4).is_err());
    assert!(flashinfer_top1_batch_into(&logits, 3, 100, 100, 4).is_err());
    let call = LogprobTopkCall {
        logits,
        row_indices_len: 2,
        picked_len: 2,
        top_k_len: 2,
        rows: 2,
        k_max: 20,
        out_picked_lp_len: 2,
        out_topk_vals_len: 40,
        out_topk_ids_len: 40,
    };
    let launch = logprob_topk_batch_bf16_into(&call).unwrap();
    assert_eq!((launch.rows, launch.vocab, launch.k_max), (2, 5000, 20));
    assert!(logprob_topk_batch_bf16_into(&LogprobTopkCall { out_topk_ids_len: 39, ..call }).is_err());
    assert!(logprob_topk_batch_bf16_into(&LogprobTopkCall { rows: 0, ..call }).is_err());
    assert!(matches!(
        logprob_topk_batch_bf16_into(&LogprobTopkCall { k_max: usize::MAX, ..call }).unwrap_err(),
        KernelError::Overflow { .. }
    ));
}

#[test]
fn a_markov_step_reads_one_row_of_each_block() {
    let call = MarkovStepCall {
        base: HiddenStates::zeros(1500, 8),
        bias: HiddenStates::zeros(1500, 4),
        block_size: 4,
        step: 3,
        chains: 2,
        req_map_len: None,
        rows: 4,
        partial_values_len: 8,
        partial_indices_len: 8,
        out_tokens_len: 4,
        sampled_tokens_len: 16,
    };
    let launch =
        MarkovStepLaunch { block_size: 4, step: 3, chains: 2, rows: 4, vocab: 1500 };
    assert_eq!(markov_step_argmax_impl(&call).unwrap(), launch);
    let refused = |c: MarkovStepCall| markov_step_argmax_impl(&c).is_err();
    assert!(refused(MarkovStepCall { chains: 3, ..call }));
    assert!(refused(MarkovStepCall { chains: 0, ..call }));
    assert!(refused(MarkovStepCall { step: 4, ..call }));
    assert!(refused(MarkovStepCall { base: HiddenStates::zeros(1500, 7), ..call }));
    assert!(refused(MarkovStepCall { req_map_len: Some(1), ..call }));
    assert!(refused(MarkovStepCall { partial_values_len: 7, ..call }));
    let mapped = MarkovStepCall {
        base: HiddenStates::zeros(1500, 4),
        req_map_len: Some(2),
        ..call
    };
    assert_eq!(markov_step_argmax_impl(&mapped).unwrap(), launch);
    let top2 = MarkovTop2Call {
        base: HiddenStates::zeros(1500, 16),
        bias: HiddenStates::zeros(1500, 4),
        block_size: 4,
        step: 0,
        rows: 4,
        partial_v1_len: 8,
        partial_i1_len: 8,
        partial_v2_len: 8,
        partial_i2_len: 8,
        output_len: 4,
        sampled_tokens_len: 16,
        out_top2_len: 4,
    };
    assert_eq!(
        markov_step_top2_into(&top2).unwrap(),
        MarkovStepLaunch { block_size: 4, step: 0, chains: 1, rows: 4, vocab: 1500 }
    );
    assert!(markov_step_top2_into(&MarkovTop2Call { partial_i2_len: 7, ..top2 }).is_err());
    assert!(markov_step_top2_into(&MarkovTop2Call { sampled_tokens_len: 15, ..top2 }).is_err());
    assert!(markov_step_top2_into(&MarkovTop2Call { out_top2_len: 3, ..top2 }).is_err());
}

#[test]
fn routed_products_expand_by_the_picks() {
    let routed = HiddenStates::zeros(64, 6);
    let out = HiddenStates::zeros(64, 3);
    assert_eq!(gemma4_moe_sum_topk_into(&routed, 2, &out).unwrap(), (3, 2, 64));
    assert!(gemma4_moe_sum_topk_into(&routed, 3, &out).is_err());
    assert!(gemma4_moe_sum_topk_into(&routed, 0, &out).is_err());
    let call = MarlinMoeCall {
        input: HiddenStates::zeros(32, 3),
        workspace_len: 100,
        dispatch: MarlinDispatch {
            sorted_token_ids_len: 48,
            block_size: 8,
            top_k: 2,
            mul_topk_weights: true,
        },
        rows: 3,
        size_n: 64,
        size_k: 32,
        out: routed,
    };
    let launch = gemma4_marlin_nvfp4_moe(&call).unwrap();
    assert_eq!((launch.rows, launch.size_n, launch.size_k, launch.top_k), (3, 64, 32, 2));
    assert_eq!((launch.workspace_len, launch.sorted_len, launch.block_size), (100, 48, 8));
    assert!(launch.mul_topk_weights);
    let fewer = MarlinMoeCall { out: HiddenStates::zeros(64, 5), ..call };
    assert!(gemma4_marlin_nvfp4_moe(&fewer).is_err());
    assert!(gemma4_marlin_nvfp4_moe(&MarlinMoeCall { size_k: 31, ..call }).is_err());
    assert!(gemma4_marlin_nvfp4_moe(&MarlinMoeCall { rows: 0, ..call }).is_err());
    let stack = ExpertStack { experts: 2, in_dim: 32, out_dim: 5 };
    assert_eq!(gemma4_marlin_nvfp4_prepare_scales(20, 20, 2, 32, 5).unwrap(), stack);
    assert!(gemma4_marlin_nvfp4_prepare_scales(19, 20, 2, 32, 5).is_err());
    assert!(gemma4_marlin_nvfp4_prepare_scales(20, 20, 2, 33, 5).is_err());
    assert_eq!(marlin_repack_4bit(160, 160, 2, 32, 5).unwrap(), stack);
    assert!(marlin_repack_4bit(160, 159, 2, 32, 5).is_err());
}

#[test]
fn generated_prefills_read_the_rows_that_the_layout_told() {
    let kv = KvRows {
        storage: KvStorage::Bf16,
        head_dim: 256,
        num_kv_heads: 2,
        page_size: 64,
        split_rows: true,
        fold_rotary: 32,
        rows: Ok(KvRowGeometry { rows_per_page: 256, layer_row: 128, pool_rows: 4096 }),
    };
    let rows = HiddenStates::zeros(1024, 9);
    let call = Gemma4PrefillCall {
        q: rows,
        kv,
        packed_rows: 9,
        batch: 3,
        output: rows,
        num_qo_heads: 4,
        sm_scale_bits: ONE,
    };
    let launch = gemma4_hd512_prefill_varlen_into(&call).unwrap();
    assert_eq!((launch.batch, launch.q_rows, launch.pool_rows), (3, 9, 4096));
    assert_eq!((launch.rows_per_page, launch.layer_row, launch.page_size), (256, 128, 64));
    assert_eq!((launch.fold_rotary, launch.num_qo_heads, launch.num_kv_heads), (32, 4, 2));
    let refused = |c: Gemma4PrefillCall| gemma4_hd512_prefill_varlen_into(&c).is_err();
    assert!(refused(Gemma4PrefillCall { packed_rows: 10, ..call }));
    assert!(refused(Gemma4PrefillCall { num_qo_heads: 3, ..call }));
    assert!(refused(Gemma4PrefillCall { sm_scale_bits: 0x7fc0_0000, ..call }));
    let packed = KvRows { storage: KvStorage::E4m3, ..kv };
    assert!(refused(Gemma4PrefillCall { kv: packed, ..call }));
    let window = Gemma4WindowPrefillCall {
        q: rows,
        kv,
        packed_rows: 9,
        batch: 3,
        output: rows,
        num_qo_heads: 4,
        sm_scale_bits: ONE,
        window_left: 1023,
    };
    let launch = gemma4_hd256_prefill_window_into(&window).unwrap();
    assert_eq!((launch.window_left, launch.q_rows, launch.layer_row), (1023, 9, 128));
    let folded = KvRows { split_rows: false, ..kv };
    assert!(gemma4_hd256_prefill_window_into(&Gemma4WindowPrefillCall { kv: folded, ..window })
        .is_err());
}

#[test]
fn sparse_attention_backs_every_head() {
    let call = Glm52SparsePrefillCall {
        query_rows: 2,
        kv_rows: 100,
        topk: 64,
        sm_scale_bits: ONE,
        q_len: 2 * 64 * 576,
        kv_len: 100 * 576,
        topk_indices_len: 128,
        topk_length_len: None,
        out_len: 2 * 64 * 512,
        max_logits_len: 128,
        lse_len: 128,
    };
    let launch = glm52_flashmla_sparse_prefill_launch(&call).unwrap();
    assert_eq!((launch.query_rows, launch.kv_rows, launch.topk), (2, 100, 64));
    let refused = |c: Glm52SparsePrefillCall| glm52_flashmla_sparse_prefill_launch(&c).is_err();
    assert!(refused(Glm52SparsePrefillCall { topk: 65, ..call }));
    assert!(refused(Glm52SparsePrefillCall { topk_length_len: Some(1), ..call }));
    assert!(refused(Glm52SparsePrefillCall { out_len: 2 * 64 * 512 - 1, ..call }));
    assert!(refused(Glm52SparsePrefillCall { sm_scale_bits: 0, ..call }));
    let contract = Glm52FlashMlaSparseDecode {
        batch_size: 2,
        num_blocks: 3,
        kv_layer_offset_bytes: 10,
        kv_block_stride_bytes: 64 * 656 * 2,
        topk: 128,
        num_sm_parts: 4,
        sm_scale: ONE,
    };
    assert_eq!((contract.topk_indices_len(), contract.split_count()), (256, 6));
    assert!(validate_metadata_buffers(&contract, 32, 3).is_ok());
    assert!(validate_metadata_buffers(&contract, 31, 3).is_err());
    assert!(validate_metadata_buffers(&contract, 32, 2).is_err());
    let call = Glm52SparseDecodeCall {
        contract,
        q_len: contract.q_len(),
        packed_kv_cache_len: contract.packed_kv_cache_len(),
        topk_indices_len: 256,
        tile_scheduler_metadata_len: 32,
        num_splits_len: 3,
        out_latent_len: contract.latent_len(),
        lse_len: 128,
        lse_accum_len: contract.lse_accum_len(),
        o_accum_len: contract.o_accum_len(),
    };
    let launch = glm52_flashmla_sparse_decode_launch(&call).unwrap();
    assert_eq!((launch.kv_bytes, launch.num_blocks, launch.topk), (10, 3, 128));
    assert_eq!((launch.batch_size, launch.num_sm_parts), (2, 4));
    assert_eq!(launch.block_stride_bytes, 64 * 656 * 2);
    let refused = |c: Glm52SparseDecodeCall| glm52_flashmla_sparse_decode_launch(&c).is_err();
    assert!(refused(Glm52SparseDecodeCall { q_len: call.q_len - 1, ..call }));
    assert!(refused(Glm52SparseDecodeCall { o_accum_len: call.o_accum_len - 1, ..call }));
    let cache = call.packed_kv_cache_len - 1;
    assert!(refused(Glm52SparseDecodeCall { packed_kv_cache_len: cache, ..call }));
    let endless = Glm52FlashMlaSparseDecode { num_blocks: usize::MAX, ..contract };
    assert!(matches!(
        glm52_flashmla_sparse_decode_launch(&Glm52SparseDecodeCall { contract: endless, ..call })
            .unwrap_err(),
        KernelError::Overflow { .. }
    ));
    let unread = Glm52SparseDecodeCall { contract: endless, q_len: 0, ..call };
    assert!(matches!(
        glm52_flashmla_sparse_decode_launch(&unread).unwrap_err(),
        KernelError::Rejected { got: 0, .. }
    ));
}

#[test]
fn the_indexer_caches_gathers_and_converts() {
    let layout = Glm52IndexerCacheLayout {
        cache_blocks: 3,
        cache_block_size: 64,
        cache_layer_offset_bytes: 7,
        cache_block_stride_bytes: 64 * 132,
    };
    let call = Glm52KCacheCall {
        contract: Glm52IndexerCacheInsert { tokens: 2, layout },
        k_len: 256,
        indexer_cache_len: 3 * 64 * 132 + 7,
        slot_mapping_len: 2,
    };
    let launch = glm52_indexer_k_quant_and_cache_launch(&call).unwrap();
    assert_eq!((launch.cache_bytes, launch.tokens, launch.head_dim), (7, 2, 128));
    assert_eq!((launch.quant_block, launch.block_size), (128, 64));
    assert_eq!(launch.block_stride_bytes, 64 * 132);
    let refused = |c: Glm52KCacheCall| glm52_indexer_k_quant_and_cache_launch(&c).is_err();
    assert!(refused(Glm52KCacheCall { k_len: 255, ..call }));
    assert!(refused(Glm52KCacheCall { indexer_cache_len: 3 * 64 * 132 + 6, ..call }));
    let nothing = K3MoeRouteShape { tokens: 0, topk: 1, groups: 1, masked_cap: 128 };
    assert_eq!(
        nothing.validate().unwrap_err(),
        KernelError::Invalid { what: "K3 MoE route shape needs tokens/topk/groups > 0" }
    );
    let empty = Glm52IndexerCacheInsert { tokens: 0, layout };
    assert!(empty.validate().is_err());
    let narrow = Glm52IndexerCacheLayout { cache_block_stride_bytes: 64 * 132 - 1, ..layout };
    assert!(narrow.min_cache_bytes().is_err());

    let slots = Glm52TopkSlotsCall {
        contract: Glm52IndexerLocalTopKToSlots {
            num_tokens: 2,
            topk: 5,
            block_size: 64,
            block_table_cols: 3,
        },
        local_topk_offsets_len: 10,
        seq_lens_len: 2,
        block_table_len: 6,
        global_slots_len: 10,
        topk_lens_len: 2,
    };
    let launch = glm52_indexer_local_topk_to_slots_launch(&slots).unwrap();
    assert_eq!((launch.offsets_stride, launch.table_stride, launch.table_cols), (5, 3, 3));
    assert_eq!((launch.block_size, launch.topk, launch.num_tokens), (64, 5, 2));
    let refused = |c: Glm52TopkSlotsCall| glm52_indexer_local_topk_to_slots_launch(&c).is_err();
    assert!(refused(Glm52TopkSlotsCall { block_table_len: 5, ..slots }));
    assert!(refused(Glm52TopkSlotsCall { global_slots_len: 9, ..slots }));

    assert_eq!(glm52_indexer_weights_proj_launch(32, 12, 8, 3, 4, 24).unwrap(), (8, 3, 4));
    assert!(glm52_indexer_weights_proj_launch(36, 12, 9, 3, 4, 27).is_err());
    assert!(glm52_indexer_weights_proj_launch(32, 11, 8, 3, 4, 24).is_err());
    assert_eq!(glm52_indexer_weights_fold_launch(9, 8, 8).unwrap(), 8);
    assert!(glm52_indexer_weights_fold_launch(9, 7, 8).is_err());
    assert!(glm52_indexer_weights_fold_launch(9, 8, 0).is_err());

    let gather = Glm52KGatherCall {
        num_requests: 2,
        table_stride: 3,
        block_size: 64,
        layer_offset_bytes: 7,
        block_stride_bytes: 64 * 132,
        block_table_len: 6,
        seq_lens_len: 2,
        out_offsets_len: 2,
    };
    let launch = glm52_indexer_k_gather_launch(&gather).unwrap();
    assert_eq!((launch.cache_bytes, launch.num_requests, launch.table_stride), (7, 2, 3));
    assert!(glm52_indexer_k_gather_launch(&Glm52KGatherCall { seq_lens_len: 1, ..gather }).is_err());
    let lut = Glm52TopkLutCall {
        rows: 2,
        topk: 5,
        topk_offsets_len: 10,
        context_lens_len: 2,
        cu_seqlen_ks_len: 2,
        slot_lut_len: 1,
        global_slots_len: 10,
        topk_lens_len: 2,
    };
    let launch = glm52_indexer_topk_to_slots_lut_launch(&lut).unwrap();
    assert_eq!((launch.rows, launch.topk), (2, 5));
    let refused = |c: Glm52TopkLutCall| glm52_indexer_topk_to_slots_lut_launch(&c).is_err();
    assert!(refused(Glm52TopkLutCall { topk: 2049, ..lut }));
    assert!(refused(Glm52TopkLutCall { slot_lut_len: 0, ..lut }));
}

#[test]
fn the_chain_runs_over_a_window_of_experts() {
    let shape = K3MoeRouteShape { tokens: 3, topk: 16, groups: 2, masked_cap: 128 };
    let route = K3RouteMetadataCall {
        shape,
        local_expert_base: 56,
        topk_idx_len: 48,
        masked_m_len: 2,
        slot_map_len: 48,
    };
    let launch = windowed_route_metadata_launch(&route).unwrap();
    assert_eq!((launch.tokens, launch.topk, launch.groups), (3, 16, 2));
    assert_eq!((launch.masked_cap, launch.local_expert_base), (128, 56));
    let far = K3RouteMetadataCall { local_expert_base: 1 << 31, ..route };
    assert!(windowed_route_metadata_launch(&far).is_err());
    assert!(windowed_route_metadata_launch(&K3RouteMetadataCall { masked_m_len: 1, ..route })
        .is_err());

    let gather = K3GatherQuantCall {
        shape,
        hidden: 256,
        local_expert_base: 56,
        latent_len: 3 * 256,
        topk_idx_len: 48,
        slot_map_len: 48,
        output_len: 2 * 128 * 256,
        scales_len: 2 * 2 * 128,
    };
    let masked = K3MaskedLaunch {
        tokens: 3,
        topk: 16,
        width: 256,
        groups: 2,
        masked_cap: 128,
        local_expert_base: 56,
    };
    assert_eq!(windowed_gather_fp8_quant_masked_launch(&gather).unwrap(), masked);
    let short = K3GatherQuantCall { scales_len: 511, ..gather };
    assert!(windowed_gather_fp8_quant_masked_launch(&short).is_err());
    let all = k3_moe_gather_fp8_quant_masked_launch(shape, 256, 768, 48, 48, 65_536, 512).unwrap();
    assert_eq!(all, K3MaskedLaunch { local_expert_base: 0, ..masked });

    let situ = K3SituQuantCall {
        shape,
        inter: 256,
        local_expert_base: 56,
        gate_up_len: 2 * 128 * 2 * 256,
        topk_idx_len: 48,
        slot_map_len: 48,
        output_len: 65_536,
        scales_len: 512,
    };
    assert_eq!(situ_and_mul_fp8_quant_windowed_launch(&situ).unwrap(), masked);
    let short = K3SituQuantCall { gate_up_len: 131_071, ..situ };
    assert!(situ_and_mul_fp8_quant_windowed_launch(&short).is_err());

    let pack = k3_fp8_scale_pack_ue8m0_launch(2, 8, 128, 2048, 512).unwrap();
    assert_eq!((pack.groups, pack.scale_cols, pack.cap), (2, 8, 128));
    assert!(k3_fp8_scale_pack_ue8m0_launch(2, 6, 128, 2048, 512).is_err());
    assert!(k3_fp8_scale_pack_ue8m0_launch(2, 8, 128, 2048, 511).is_err());

    let combine = K3CombineCall {
        shape,
        hidden: 256,
        expert_out_len: 65_536,
        topk_idx_len: 48,
        slot_map_len: 48,
        topk_weight_len: 48,
        out_len: 768,
    };
    let launch = k3_moe_weighted_combine_launch(&combine).unwrap();
    assert_eq!((launch.width, launch.tokens, launch.masked_cap), (256, 3, 128));
    assert!(k3_moe_weighted_combine_launch(&K3CombineCall { out_len: 767, ..combine }).is_err());
    assert!(k3_moe_weighted_combine_launch(&K3CombineCall { hidden: 0, ..combine }).is_err());
}

#[test]
fn the_fused_experts_are_prepared() {
    let stack = K3MegaStack { groups: 2, n: 128, k: 256 };
    let half = 2 * 128 * 128;
    assert_eq!(k3_mega_prepare_l1_weights_launch(2, 128, 256, half, half).unwrap(), stack);
    assert!(k3_mega_prepare_l1_weights_launch(2, 120, 256, half, half).is_err());
    assert!(k3_mega_prepare_l1_weights_launch(2, 128, 256, half, half - 1).is_err());
    assert_eq!(k3_mega_prepare_sf_launch(2, 128, 256, true, 2048, 512).unwrap(), (stack, 1));
    assert_eq!(k3_mega_prepare_sf_launch(2, 128, 256, false, 2048, 512).unwrap(), (stack, 0));
    assert!(k3_mega_prepare_sf_launch(2, 128, 256, true, 2047, 512).is_err());
    assert!(k3_mega_prepare_sf_launch(2, 128, 200, true, 2048, 512).is_err());
    let call = K3MegaInputsCall {
        layout_bytes: 1000,
        symm_len: 1000,
        num_tokens: 3,
        hidden: 256,
        num_topk: 4,
        latent_len: 768,
        topk_idx_len: 12,
        topk_weight_len: 12,
    };
    let launch = k3_mega_write_inputs_launch(&call).unwrap();
    assert_eq!((launch.num_tokens, launch.hidden), (3, 256));
    assert_eq!((launch.scale_words, launch.num_topk), (2, 4));
    assert!(k3_mega_write_inputs_launch(&K3MegaInputsCall { symm_len: 999, ..call }).is_err());
    assert!(k3_mega_write_inputs_launch(&K3MegaInputsCall { hidden: 200, ..call }).is_err());
    assert!(k3_mega_write_inputs_launch(&K3MegaInputsCall { topk_idx_len: 11, ..call }).is_err());
    assert_eq!(k3_mega_fabric_supported(3).unwrap(), 3);
    assert!(k3_mega_fabric_supported(1 << 31).is_err());
    assert_eq!(k3_mega_fabric_slab_alloc(3, 4096).unwrap(), (3, 4096));
    assert!(k3_mega_fabric_slab_alloc(3, 0).is_err());
    assert_eq!(k3_mega_fabric_slab_import(4096, 3).unwrap(), (4096, 3));
    assert!(k3_mega_fabric_slab_import(0, 3).is_err());
    assert_eq!(k3_mega_open_peer_access(1, 2).unwrap(), (1, 2));
    assert!(k3_mega_open_peer_access(1, usize::MAX).is_err());
}

#[test]
fn keys_are_expanded_per_head() {
    let expand = k3_mla_prefill_expand_k_launch;
    assert_eq!(expand(3, 2, 6 * 256, 192, 6 * 192).unwrap(), (3, 2));
    assert!(expand(3, 2, 6 * 256 - 1, 192, 6 * 192).is_err());
    assert!(expand(3, 2, 6 * 256, 192, 6 * 192 - 1).is_err());
    assert!(expand(0, 2, 6 * 256, 192, 6 * 192).is_err());
}
