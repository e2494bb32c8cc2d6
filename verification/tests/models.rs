use pegainfer_kernels::error::KernelError;
use pegainfer_kernels::ops::attention::paged::Hd512DecodeMetadata;
use pegainfer_kernels::ops::dflash2::dflash2_grouped_conv_into;
use pegainfer_kernels::ops::dflash2::dflash2_select_into;
use pegainfer_kernels::ops::dflash2::DFlash2ConvCall;
use pegainfer_kernels::ops::dflash2::DFlash2Scratch;
use pegainfer_kernels::ops::dflash2::DFlash2SelectCall;
use pegainfer_kernels::ops::dflash2::DFlash2Shape;
use pegainfer_kernels::ops::dflash2::DFlash2Streams;
use pegainfer_kernels::ops::gemma4::gemma4_moe_router_topk_into;
use pegainfer_kernels::ops::gemma4::marlin_moe_align_block_size;
use pegainfer_kernels::ops::gemma4::MoeAlignCall;
use pegainfer_kernels::ops::gemma4::MoeAlignScratch;
use pegainfer_kernels::ops::gemma4::RouterTopkCall;
use pegainfer_kernels::ops::gemma4_build::gemma4_hd512_prefill_arch;
use pegainfer_kernels::ops::gemma4_build::gemma4_hd512_prefill_geometry;
use pegainfer_kernels::ops::gemma4_build::gemma4_hd512_prefill_smem;
use pegainfer_kernels::ops::gemma4_tilelang::checked_launch;
use pegainfer_kernels::ops::gemma4_tilelang::gemma4_hd256_decode_window_into;
use pegainfer_kernels::ops::gemma4_tilelang::gemma4_hd512_decode_split_kv_into;
use pegainfer_kernels::ops::gemma4_tilelang::packed_rows;
use pegainfer_kernels::ops::gemma4_tilelang::split_decode_args;
use pegainfer_kernels::ops::gemma4_tilelang::Gemma4DecodeCall;
use pegainfer_kernels::ops::gemma4_tilelang::Gemma4WindowDecodeCall;
use pegainfer_kernels::ops::gemma4_tilelang::KvRowGeometry;
use pegainfer_kernels::ops::gemma4_tilelang::KvRows;
use pegainfer_kernels::ops::gemma4_tilelang::SplitDecodeCall;
use pegainfer_kernels::ops::gemma4_tilelang::SplitFamily;
use pegainfer_kernels::ops::glm52::deepgemm_grouped::Glm52DeepGemmGroupedFp8Kind;
use pegainfer_kernels::ops::glm52::flashmla_sparse::glm52_flashmla_sparse_decode_metadata_launch;
use pegainfer_kernels::ops::glm52::flashmla_sparse::glm52_flashmla_sparse_decode_num_sm_parts;
use pegainfer_kernels::ops::glm52::flashmla_sparse::Glm52FlashMlaSparseDecode;
use pegainfer_kernels::ops::glm52::indexer::glm52_min_gemv_tokens_supported;
use pegainfer_kernels::ops::glm52::indexer::Glm52IndexerCacheLayout;
use pegainfer_kernels::ops::qwen35::decode_gemm::Qwen35DecodeGemm;
use pegainfer_kernels::ops::qwen35::decode_gemm::Qwen35LaunchCall;
use pegainfer_kernels::ops::qwen35::decode_gemm::Qwen35PrepareCall;
use pegainfer_kernels::ops::qwen35::gdn::Qwen35GdnAot;
use pegainfer_kernels::ops::qwen35::gdn::Qwen35GdnCall;
use pegainfer_kernels::ops::qwen35::gdn::Qwen35GdnGeometry;
use pegainfer_kernels::ops::qwen35::gdn::Qwen35GdnPreload;
use pegainfer_kernels::ops::linear::set_numeric_policy;
use pegainfer_kernels::ops::linear::NumericPolicy;
use pegainfer_kernels::ops::linear::NumericPolicyState;
use pegainfer_kernels::paged_kv::KvStorage;
use pegainfer_kernels::shape::DeviceMatrix;
use pegainfer_kernels::shape::DeviceVec;
use pegainfer_kernels::shape::HiddenStates;
use pegainfer_kernels::tensor::StreamOverride;

#[test]
fn a_router_takes_exactly_its_experts() {
    let call = RouterTopkCall {
        logits: HiddenStates::zeros(128, 3),
        per_expert_scale: DeviceVec::zeros(128),
        top_k: 8,
        index_out_len: 24,
        weight_out_len: 24,
    };
    let launch = gemma4_moe_router_topk_into(&call).unwrap();
    assert_eq!((launch.rows, launch.experts, launch.top_k), (3, 128, 8));
    let fewer = RouterTopkCall { logits: HiddenStates::zeros(127, 1), ..call };
    let message = gemma4_moe_router_topk_into(&fewer)
        .expect_err("127 experts must be rejected")
        .message();
    assert!(
        message.contains("128-expert register-router contract") && message.contains("127"),
        "unexpected rejection: {message}"
    );
    assert!(gemma4_moe_router_topk_into(&RouterTopkCall { top_k: 33, ..call })
        .unwrap_err()
        .message()
        .ends_with("exactly 128 experts and 1..=32 picks: 128 and 33"));
    assert!(gemma4_moe_router_topk_into(&RouterTopkCall { index_out_len: 23, ..call }).is_err());
}

#[test]
fn an_alignment_has_room_for_a_part_filled_block_per_expert() {
    let out = MoeAlignScratch {
        sorted_token_ids_len: 6 + 4 * 15,
        expert_ids_len: 8,
        num_tokens_post_padded_len: 1,
        expert_offsets_len: 5,
    };
    let call =
        MoeAlignCall { topk_idx_len: 6, rows: 3, top_k: 2, experts: 4, block_size: 16, out };
    let launch = marlin_moe_align_block_size(&call).unwrap();
    assert_eq!((launch.first_expert, launch.max_padded, launch.max_blocks), (0, 66, 8));
    let tight = MoeAlignScratch { sorted_token_ids_len: 65, ..out };
    assert!(marlin_moe_align_block_size(&MoeAlignCall { out: tight, ..call }).is_err());
}

#[test]
fn a_build_states_its_geometry_as_text() {
    assert_eq!(gemma4_hd512_prefill_geometry(None), None);
    assert_eq!(gemma4_hd512_prefill_geometry(Some("16, 4 ,512,\t64")), Some((16, 4, 512, 64)));
    assert_eq!(gemma4_hd512_prefill_geometry(Some("16,4,512,64,9")), Some((16, 4, 512, 64)));
    assert_eq!(gemma4_hd512_prefill_geometry(Some("16,4,512")), None);
    assert_eq!(gemma4_hd512_prefill_geometry(Some("16,4,x,64")), None);
    assert_eq!(gemma4_hd512_prefill_geometry(Some("16,,512,64")), None);
    assert_eq!(gemma4_hd512_prefill_geometry(Some("+16,4,512,064")), Some((16, 4, 512, 64)));
    assert_eq!(gemma4_hd512_prefill_geometry(Some("-1,4,512,64")), None);
    assert_eq!(gemma4_hd512_prefill_smem(Some("232448")), Some(232_448));
    assert_eq!(gemma4_hd512_prefill_smem(Some(" 1")), None);
    assert_eq!(gemma4_hd512_prefill_smem(Some("+")), None);
    assert_eq!(gemma4_hd512_prefill_smem(Some("")), None);
    assert_eq!(gemma4_hd512_prefill_smem(Some("18446744073709551615")), Some(usize::MAX));
    assert_eq!(gemma4_hd512_prefill_smem(Some("18446744073709551616")), None);
    assert_eq!(gemma4_hd512_prefill_arch(Some("sm_100a")), Some("sm_100a"));
    assert_eq!(gemma4_hd512_prefill_arch(Some("")), None);
    assert_eq!(gemma4_hd512_prefill_arch(None), None);
}

#[test]
fn numbers_parse_as_the_standard_library_parses_them() {
    for text in ["0", "00", "+7", "++7", "-0", "", " ", "12a", "9999999999999999999999", "\u{661}"] {
        assert_eq!(gemma4_hd512_prefill_smem(Some(text)), text.parse::<usize>().ok(), "{text:?}");
    }
    for space in ['\u{9}', '\u{b}', ' ', '\u{85}', '\u{a0}', '\u{1680}', '\u{2003}', '\u{200b}', '\u{3000}'] {
        let text = format!("{space}1,2{space},3,4");
        let want = text
            .split(',')
            .map(|part| part.trim().parse::<usize>().ok())
            .collect::<Option<Vec<_>>>()
            .map(|v| (v[0], v[1], v[2], v[3]));
        assert_eq!(gemma4_hd512_prefill_geometry(Some(&text)), want, "{space:?}");
    }
}

fn split_decode() -> SplitDecodeCall {
    SplitDecodeCall {
        q: HiddenStates::zeros(1024, 5),
        row_offset: 2,
        kv: KvRows {
            storage: KvStorage::Bf16,
            head_dim: 512,
            num_kv_heads: 1,
            page_size: 64,
            split_rows: true,
            fold_rotary: 0,
            rows: Ok(KvRowGeometry { rows_per_page: 128, layer_row: 64, pool_rows: 1024 }),
        },
        meta: Hd512DecodeMetadata::new(6, 4, 3, 4, 4, 1),
        chunk_tokens: 256,
        split_o_indptr_len: 4,
        split_valid_mask_len: 4,
        split_tmp_v_len: 4096,
        split_tmp_s_len: 8,
        split_padded_slots: 4,
        output: HiddenStates::zeros(1024, 5),
        num_qo_heads: 2,
        sm_scale_bits: 1.0f32.to_bits(),
    }
}

#[test]
fn a_split_decode_walks_whole_pages() {
    let launch = gemma4_hd512_decode_split_kv_into(&Gemma4DecodeCall { read: split_decode() })
        .unwrap();
    assert_eq!((launch.args.batch, launch.args.row_offset, launch.fold_rotary), (3, 2, 0));
    assert_eq!((launch.args.layer_row, launch.args.chunk_tokens), (64, 256));
    let ragged = SplitDecodeCall { chunk_tokens: 250, ..split_decode() };
    assert!(gemma4_hd512_decode_split_kv_into(&Gemma4DecodeCall { read: ragged }).is_err());
    let short = SplitDecodeCall { split_tmp_v_len: 4095, ..split_decode() };
    assert!(gemma4_hd512_decode_split_kv_into(&Gemma4DecodeCall { read: short }).is_err());
    let mut refused = split_decode();
    refused.kv.rows = Err(KernelError::Invalid { what: "layer outside the pool" });
    assert_eq!(
        gemma4_hd512_decode_split_kv_into(&Gemma4DecodeCall { read: refused }).unwrap_err(),
        KernelError::Invalid { what: "layer outside the pool" }
    );
    let mut folded = split_decode();
    folded.kv.split_rows = false;
    let window = Gemma4WindowDecodeCall { read: folded, window_left: 1023 };
    assert!(gemma4_hd256_decode_window_into(&window).is_err());
    let window = Gemma4WindowDecodeCall { read: split_decode(), window_left: 1023 };
    assert_eq!(gemma4_hd256_decode_window_into(&window).unwrap().window_left, 1023);
    assert_eq!(packed_rows(&[0, 3, 8]), 8);
    assert_eq!(packed_rows(&[]), 0);
}

#[test]
fn a_missing_body_is_told_from_a_failed_one() {
    assert!(checked_launch(0, "gemma4 hd512 prefill").is_ok());
    for what in ["gemma4 hd512 prefill", "gemma4 hd256 window decode"] {
        let missing = checked_launch(801, what).unwrap_err();
        assert_eq!(missing, KernelError::NotInBuild { what });
        assert!(missing.message().starts_with(&format!("{what} is not in this build: ")));
        for code in [1, 700, -1, i32::MIN, i32::MAX] {
            let failed = checked_launch(code, what).unwrap_err();
            assert_eq!(failed, KernelError::CudaError { what, code });
            let text = failed.message();
            assert!(text.starts_with(&format!("{what} failed: cudaError={code} (1 = ")), "{text}");
        }
    }
}

#[test]
fn a_split_decode_names_its_own_kernel() {
    let late = SplitDecodeCall { row_offset: 5, ..split_decode() };
    assert_eq!(
        gemma4_hd512_decode_split_kv_into(&Gemma4DecodeCall { read: late }).unwrap_err().message(),
        "gemma4 hd512 decode row_offset leaves no rows: got 5, need less than 5"
    );
    let window = Gemma4WindowDecodeCall { read: late, window_left: 1023 };
    assert_eq!(
        gemma4_hd256_decode_window_into(&window).unwrap_err().message(),
        "gemma4 hd256 window decode row_offset leaves no rows: got 5, need less than 5"
    );
    assert_eq!(SplitFamily::Global.texts().chunk, "gemma4 hd512 decode chunk");
    let short = SplitDecodeCall { split_o_indptr_len: 3, ..split_decode() };
    assert_eq!(
        split_decode_args(&short, SplitFamily::Sliding).unwrap_err(),
        KernelError::Unfit {
            what: "gemma4 hd256 window decode o_indptr must hold one entry more than the batch",
            left: 3,
            right: 3,
        }
    );
}

#[test]
fn an_indexer_cache_covers_its_blocks() {
    let layout = Glm52IndexerCacheLayout {
        cache_blocks: 3,
        cache_block_size: 64,
        cache_layer_offset_bytes: 100,
        cache_block_stride_bytes: 64 * 132,
    };
    assert_eq!(layout.min_cache_bytes().unwrap(), 3 * 64 * 132 + 100);
    let narrow = Glm52IndexerCacheLayout { cache_block_stride_bytes: 64 * 132 - 1, ..layout };
    assert!(narrow.min_cache_bytes().is_err());
    let huge = Glm52IndexerCacheLayout { cache_blocks: usize::MAX, ..layout };
    assert_eq!(
        huge.min_cache_bytes().unwrap_err(),
        KernelError::Overflow { what: "GLM5.2 indexer cache byte size" }
    );
    let late = Glm52IndexerCacheLayout { cache_layer_offset_bytes: usize::MAX, ..layout };
    assert!(late.min_cache_bytes().is_err());
    assert_eq!(Glm52DeepGemmGroupedFp8Kind::W13.shape(), (4096, 6144));
    assert_eq!(Glm52DeepGemmGroupedFp8Kind::W2.shape(), (6144, 2048));
    let supported: Vec<usize> = (0..200).filter(|t| glm52_min_gemv_tokens_supported(*t)).collect();
    assert_eq!(supported, vec![1, 2, 3, 4, 5, 6, 7, 8, 16, 32, 48, 64, 96]);
}

#[test]
fn a_sparse_decode_sizes_its_buffers() {
    let decode = Glm52FlashMlaSparseDecode {
        batch_size: 2,
        num_blocks: 3,
        kv_layer_offset_bytes: 10,
        kv_block_stride_bytes: 64 * 656 * 2,
        topk: 2048,
        num_sm_parts: 4,
        sm_scale: 0.5f32.to_bits(),
    };
    assert!(decode.validate().is_ok());
    assert_eq!(decode.packed_kv_cache_len(), 10 + 2 * 64 * 656 * 2 + 64 * 656);
    assert_eq!(decode.tile_scheduler_metadata_len(), 32);
    assert_eq!(decode.num_splits_len(), 3);
    assert_eq!(decode.lse_len(), 128);
    assert_eq!(decode.latent_len(), 2 * 64 * 512);
    assert_eq!(decode.lse_accum_len(), 6 * 64);
    assert_eq!(decode.o_accum_len(), 6 * 64 * 512);
    assert!(Glm52FlashMlaSparseDecode { topk: 100, ..decode }.validate().is_err());
    assert!(Glm52FlashMlaSparseDecode { batch_size: 129, ..decode }.validate().is_err());
    assert!(Glm52FlashMlaSparseDecode { kv_block_stride_bytes: 64 * 656 + 1, ..decode }
        .validate()
        .is_err());
    assert!(Glm52FlashMlaSparseDecode { sm_scale: 0, ..decode }.validate().is_err());
    assert_eq!(glm52_flashmla_sparse_decode_metadata_launch(2, 2048, 4, 32, 3).unwrap(), (2, 2048, 4));
    assert!(glm52_flashmla_sparse_decode_metadata_launch(2, 2048, 4, 31, 3).is_err());
    assert_eq!(glm52_flashmla_sparse_decode_num_sm_parts(160).unwrap(), 160);
    assert!(glm52_flashmla_sparse_decode_num_sm_parts(0).is_err());
    assert!(glm52_flashmla_sparse_decode_num_sm_parts(-1).is_err());
    assert!(glm52_flashmla_sparse_decode_num_sm_parts(161).is_err());
}

#[test]
fn a_selection_is_backed_by_its_scratch() {
    let thread = StreamOverride::none();
    let shape = DFlash2Shape::new(&thread, 4, 5, 1000, 8, 16).unwrap();
    assert_eq!((shape.rows, shape.candidates, shape.edges), (16, 256, 4096));
    assert_eq!((shape.keys, shape.gathered), (16_000, 2048));
    assert!(DFlash2Shape::new(&thread, 4, 5, 1000, 8, 17).is_err());
    assert!(DFlash2Shape::new(&thread, 4, 1, 1000, 8, 1).is_err());
    assert!(DFlash2Shape::new(&thread, 4, 5, 15, 8, 16).is_err());
    let scratch = DFlash2Scratch::new(shape, 0).unwrap();
    assert_eq!(scratch.topk_workspace_len, 1);
    assert_eq!(
        scratch.total_bytes(),
        16_000 * 8 + 256 * 8 + 1 + 256 * 8 + 2048 * 8 + 4096 * 4 + 16 * 4 + 4
    );
    assert_eq!((scratch.candidate_ids(), scratch.selected_ids()), (256, 16));
    let on = DFlash2Streams {
        predecessor: true,
        successor: true,
        logits: true,
        projected_hidden: true,
        anchors: true,
        scratch: true,
    };
    let codebook = DeviceMatrix::from_host(8000, 1000, 8);
    let call = DFlash2SelectCall {
        streams: thread,
        logits: HiddenStates::zeros(1000, 10),
        projected_hidden: HiddenStates::zeros(8, 10),
        predecessor: codebook,
        successor: codebook,
        anchors_len: 2,
        active_batch: 2,
        on_base_stream: on,
    };
    let launch = dflash2_select_into(&call, &scratch).unwrap().unwrap();
    assert_eq!((launch.active_batch, launch.positions), (2, 4));
    assert_eq!((launch.edges.batch, launch.edges.stride_c), (8, 256));
    let empty = DFlash2SelectCall { active_batch: 0, ..call };
    assert_eq!(dflash2_select_into(&empty, &scratch).unwrap(), None);
    let wide = DFlash2SelectCall { active_batch: 5, ..call };
    assert!(dflash2_select_into(&wide, &scratch).is_err());
    let other = DFlash2Streams { anchors: false, ..on };
    assert!(dflash2_select_into(&DFlash2SelectCall { on_base_stream: other, ..call }, &scratch).is_err());
    let elsewhere = StreamOverride { stream: Some(3), prefill: false };
    assert!(dflash2_select_into(&DFlash2SelectCall { streams: elsewhere, ..call }, &scratch).is_err());
}

#[test]
fn a_grouped_convolution_counts_its_taps() {
    let call = DFlash2ConvCall {
        input: HiddenStates::zeros(32, 6),
        dynamic: HiddenStates::zeros(24, 6),
        base_len: 24 * 8,
        block_size: 3,
        group_size: 8,
        side: 1,
        output: HiddenStates::zeros(32, 6),
    };
    let launch = dflash2_grouped_conv_into(&call).unwrap();
    assert_eq!((launch.taps, launch.side), (3, 1));
    assert!(dflash2_grouped_conv_into(&DFlash2ConvCall { side: 2, ..call }).is_err());
    assert!(dflash2_grouped_conv_into(&DFlash2ConvCall { block_size: 4, ..call }).is_err());
    assert!(dflash2_grouped_conv_into(&DFlash2ConvCall { group_size: 5, ..call }).is_err());
    assert!(dflash2_grouped_conv_into(&DFlash2ConvCall { base_len: 191, ..call }).is_err());
}

fn preload() -> Qwen35GdnPreload {
    Qwen35GdnPreload {
        stream_in_context: true,
        compute_major: 12,
        compute_minor: 0,
        geometry: Qwen35GdnGeometry::production(),
        abi_version: 2,
        aot_available: 1,
    }
}

#[test]
fn a_candidate_loads_for_one_geometry() {
    assert!(Qwen35GdnAot::load_for_production(&preload()).is_ok());
    let wide = Qwen35GdnGeometry { h_v: 48, ..Qwen35GdnGeometry::production() };
    let unsupported = Qwen35GdnAot::load_for_production(&Qwen35GdnPreload { geometry: wide, ..preload() })
        .expect_err("the production loader must reject unsupported Hv48 geometry");
    assert!(unsupported.message().contains("requires Hq=16/Hk=16/Hv=32/D=128"));
    let old = Qwen35GdnPreload { compute_major: 9, ..preload() };
    assert!(Qwen35GdnAot::load_for_production(&old).is_err());
    assert!(Qwen35GdnAot::created(0, true).is_ok());
    assert!(Qwen35GdnAot::created(0, false).is_err());
    assert!(Qwen35GdnAot::created(3, true).is_err());
    assert!(Qwen35GdnAot::loaded(0, 0, 0).is_err());
    assert!(Qwen35GdnAot::loaded(0, 1, 64).is_err());
    assert_eq!(Qwen35GdnAot::loaded(0, 0, 64).unwrap().workspace_bytes(), 64);
}

#[test]
fn a_short_query_allocation_is_refused() {
    let aot = Qwen35GdnAot::loaded(0, 0, 64).unwrap();
    let workspace = aot.allocate_workspace(true, 65).unwrap();
    assert_eq!(workspace.cu_seqlens, (0, 65));
    let call = Qwen35GdnCall {
        stream_ordinal: 0,
        contexts_match: true,
        q: HiddenStates::zeros(2048, 65),
        k: HiddenStates::zeros(2048, 65),
        v: HiddenStates::zeros(4096, 65),
        alpha_len: 65 * 32,
        beta_len: 65 * 32,
        state_len: 32 * 128 * 128,
        output: HiddenStates::zeros(4096, 65),
        workspace,
    };
    assert_eq!(aot.launch_in_place(&call).unwrap().tokens, 65);
    let short_q = HiddenStates { data_len: 2048, hidden_dim: 2048, seq_len: 65 };
    let error = aot
        .launch_in_place(&Qwen35GdnCall { q: short_q, ..call })
        .expect_err("logical shape must not exceed the nonempty Q allocation");
    assert!(error.message().contains("Qwen3.5 GDN Q backing len"));
    let resized = aot.allocate_workspace(true, 64).unwrap();
    assert!(aot.launch_in_place(&Qwen35GdnCall { workspace: resized, ..call }).is_err());
    assert!(aot.allocate_workspace(false, 65).is_err());
    assert!(aot.allocate_workspace(true, 0).is_err());
}

#[test]
fn a_prepared_recipe_launches_on_its_shape() {
    let prepare = Qwen35PrepareCall {
        contexts_match: true,
        weights: DeviceMatrix::from_host(12, 3, 4),
        batch: 2,
        policy: NumericPolicyState::initial(),
        streams: StreamOverride::none(),
        device_ordinal: 1,
    };
    let gemm = Qwen35DecodeGemm::prepare(&prepare).unwrap();
    let call = Qwen35LaunchCall {
        policy: prepare.policy,
        streams: prepare.streams,
        device_ordinal: 1,
        contexts_match: true,
        weights: prepare.weights,
        input: HiddenStates::zeros(4, 2),
        output: HiddenStates::zeros(3, 2),
    };
    assert_eq!(gemm.launch(&call).unwrap(), (3, 2, 4));
    let wider = Qwen35LaunchCall { input: HiddenStates::zeros(4, 3), ..call };
    assert!(gemm.launch(&wider).is_err());
    let mut pinned = prepare.policy;
    set_numeric_policy(&mut pinned, NumericPolicy::Pin);
    assert!(gemm.launch(&Qwen35LaunchCall { policy: pinned, ..call }).is_err());
    assert!(Qwen35DecodeGemm::prepare(&Qwen35PrepareCall { batch: 0, ..prepare }).is_err());
}

#[test]
fn rendering_and_parsing_are_inverse() {
    for n in [0usize, 7, 10, 1234567890, usize::MAX] {
        let text = KernelError::Backing { what: "n", len: n, need: 0 }.message();
        let digits = text.strip_prefix("n backing len ").unwrap().strip_suffix(" < 0").unwrap();
        assert_eq!(digits, n.to_string());
        assert_eq!(gemma4_hd512_prefill_smem(Some(digits)), Some(n));
    }
    for code in [0, -1, i32::MIN, i32::MAX] {
        let text = KernelError::Status { what: "k", code }.message();
        assert_eq!(text, format!("k failed with status {code}"));
    }
}

#[test]
fn an_empty_workspace_is_told_with_its_size() {
    assert!(Qwen35GdnAot::loaded(0, 0, 4096).is_ok());
    assert_eq!(
        Qwen35GdnAot::loaded(0, 0, 0).unwrap_err().message(),
        "Qwen3.5 GDN workspace query failed: status 0, bytes=0"
    );
    assert_eq!(
        Qwen35GdnAot::loaded(0, 3, 1 << 31).unwrap_err().message(),
        "Qwen3.5 GDN workspace query failed: status 3, bytes=2147483648"
    );
}
