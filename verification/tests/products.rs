use pegainfer_kernels::error::KernelError;
use pegainfer_kernels::ops::linear::ensure_tuned_policy;
use pegainfer_kernels::ops::linear::gemm;
use pegainfer_kernels::ops::linear::gemm_bf16_f32;
use pegainfer_kernels::ops::linear::gemm_graphsafe_into_checked;
use pegainfer_kernels::ops::linear::gemm_graphsafe_ref_into_checked;
use pegainfer_kernels::ops::linear::gemm_into;
use pegainfer_kernels::ops::linear::gemm_into_checked;
use pegainfer_kernels::ops::linear::gemm_lt_pin_check_query;
use pegainfer_kernels::ops::linear::gemm_lt_pin_into_checked;
use pegainfer_kernels::ops::linear::gemm_lt_pin_served;
use pegainfer_kernels::ops::linear::gemm_lt_pin_tune;
use pegainfer_kernels::ops::linear::gemm_lt_pin_tuned;
use pegainfer_kernels::ops::linear::gemm_lt_pin_warmup;
use pegainfer_kernels::ops::linear::gemm_lt_tune;
use pegainfer_kernels::ops::linear::gemm_per_token;
use pegainfer_kernels::ops::linear::gemm_per_token_status;
use pegainfer_kernels::ops::linear::gemm_rows_into;
use pegainfer_kernels::ops::linear::gemm_rows_span_into_checked;
use pegainfer_kernels::ops::linear::gemm_strided_batched_bf16;
use pegainfer_kernels::ops::linear::gemm_token_range_into_checked;
use pegainfer_kernels::ops::linear::gemv;
use pegainfer_kernels::ops::linear::linear;
use pegainfer_kernels::ops::linear::set_numeric_policy;
use pegainfer_kernels::ops::linear::GemmBf16F32;
use pegainfer_kernels::ops::linear::GemmLaunch;
use pegainfer_kernels::ops::linear::NumericPolicy;
use pegainfer_kernels::ops::linear::NumericPolicyState;
use pegainfer_kernels::ops::linear::PinAlgoConfig;
use pegainfer_kernels::ops::linear::StridedGemmBf16;
use pegainfer_kernels::ops::linear::TuneSample;
use pegainfer_kernels::ops::linear::GEMM_LT_PIN_NONDET;
use pegainfer_kernels::ops::linear::GEMM_LT_PIN_UNSUPPORTED;
use pegainfer_kernels::ops::linear::GEMM_LT_PIN_UNTUNED;
use pegainfer_kernels::shape::DeviceMatrix;
use pegainfer_kernels::shape::DeviceVec;
use pegainfer_kernels::shape::HiddenStates;

fn whole(n: usize, graphsafe: bool) -> GemmLaunch {
    GemmLaunch { w_bytes: 0, x_bytes: 0, m: 5, n, k: 3, graphsafe }
}

#[test]
fn projections_are_rows_by_tokens_by_columns() {
    let weight = DeviceMatrix::from_host(15, 5, 3);
    let x = HiddenStates::zeros(3, 4);
    let out = HiddenStates::zeros(5, 4);
    assert_eq!(gemm_into_checked(&weight, &x, &out), whole(4, false));
    assert_eq!(gemm_into(&weight, &x, &out), whole(4, false));
    assert_eq!(gemm_graphsafe_into_checked(&weight, &x, &out), whole(4, true));
    assert_eq!(gemm_graphsafe_ref_into_checked(&weight, &x, &out), whole(4, true));
    assert_eq!(gemm_lt_pin_into_checked(&weight, &x, &out), whole(4, true));
    let (fresh, launch) = gemm(&weight, &x);
    assert_eq!((fresh.data_len, fresh.hidden_dim, fresh.seq_len), (20, 5, 4));
    assert_eq!(launch, whole(4, false));
    let (fresh, launch) = gemm_per_token(&weight, &x);
    assert_eq!((fresh.hidden_dim, launch), (5, whole(4, true)));
    let single = HiddenStates::zeros(3, 1);
    assert_eq!(gemm(&weight, &single).1, whole(1, true));
    assert_eq!(gemv(&weight, &DeviceVec::zeros(3), &DeviceVec::zeros(5)), whole(1, true));
    let (y, launch) = linear(&DeviceVec::zeros(3), &weight);
    assert_eq!((y.data_len, y.len, launch), (5, 5, whole(1, true)));
}

#[test]
fn ranges_start_at_their_own_bytes() {
    let weight = DeviceMatrix::from_host(15, 5, 3);
    let x = HiddenStates::zeros(3, 6);
    let launch = gemm_rows_into(&weight, 2, 3, &x, &HiddenStates::zeros(3, 6));
    assert_eq!(
        launch,
        GemmLaunch { w_bytes: 12, x_bytes: 0, m: 3, n: 6, k: 3, graphsafe: false }
    );
    let launch = gemm_rows_span_into_checked(&weight, 2, 3, &x, 4, &HiddenStates::zeros(3, 1));
    assert_eq!(
        launch,
        GemmLaunch { w_bytes: 12, x_bytes: 24, m: 3, n: 1, k: 3, graphsafe: true }
    );
    let launch = gemm_token_range_into_checked(&weight, &x, 4, &HiddenStates::zeros(5, 2));
    assert_eq!(
        launch,
        GemmLaunch { w_bytes: 0, x_bytes: 24, m: 5, n: 2, k: 3, graphsafe: false }
    );
}

#[test]
fn a_tuning_reads_every_sample_at_its_offset() {
    let weight = DeviceMatrix::from_host(15, 5, 3);
    let samples =
        [TuneSample { weight, row_offset: 0 }, TuneSample { weight, row_offset: 2 }];
    let tune = gemm_lt_tune(&samples, 3, 8).unwrap();
    assert_eq!(tune.sample_bytes, vec![0, 12]);
    assert_eq!((tune.samples, tune.m, tune.n, tune.k), (2, 3, 8, 3));
    assert!(gemm_lt_tune(&[], 3, 8).is_err());
}

#[test]
fn a_pin_is_asked_for_and_read() {
    let query = gemm_lt_pin_tune(7, 64, 3);
    assert_eq!((query.m, query.rep_n, query.k), (7, 64, 3));
    let query = gemm_lt_pin_warmup(7, 3);
    assert_eq!((query.m, query.rep_n, query.k), (7, 32, 3));
    assert!(gemm_lt_pin_served(0).unwrap());
    assert!(!gemm_lt_pin_served(GEMM_LT_PIN_UNSUPPORTED).unwrap());
    assert!(gemm_lt_pin_served(GEMM_LT_PIN_UNTUNED)
        .unwrap_err()
        .message()
        .contains("never pinned"));
    assert!(gemm_lt_pin_served(13).is_err());
    assert_eq!(
        gemm_lt_pin_tuned(GEMM_LT_PIN_NONDET, 1, 9).unwrap_err().message(),
        "cublasLt pin tuning selected an unknown reduction scheme: 9"
    );
    assert_eq!(gemm_lt_pin_check_query(7, 2, 3), (7, 2, 3));
    for (scheme, name) in [(0, "none"), (1, "inplace"), (2, "compute_type"), (4, "output_type")] {
        let config = PinAlgoConfig { splitk: 1, reduction_scheme: scheme };
        assert_eq!(config.reduction_scheme_name().to_lowercase(), name);
    }
    assert!(gemm_per_token_status(0).is_ok());
    assert!(gemm_per_token_status(7).unwrap_err().message().contains("per-token GEMM"));
}

#[test]
fn only_the_tuned_policy_runs_unpinned_products() {
    let mut state = NumericPolicyState::initial();
    assert!(ensure_tuned_policy(&state).is_ok());
    set_numeric_policy(&mut state, NumericPolicy::Pin);
    assert!(ensure_tuned_policy(&state).is_err());
    set_numeric_policy(&mut state, NumericPolicy::PerToken);
    assert!(ensure_tuned_policy(&state).is_err());
}

#[test]
fn strided_and_mixed_products_are_backed() {
    let call = StridedGemmBf16 {
        transpose_a: true,
        transpose_b: false,
        m: 2,
        n: 3,
        k: 4,
        a_len: 16,
        lda: 4,
        stride_a: 8,
        b_len: 24,
        ldb: 4,
        stride_b: 12,
        c_len: 12,
        ldc: 2,
        stride_c: 6,
        batch: 2,
    };
    let launch = gemm_strided_batched_bf16(&call).unwrap();
    assert_eq!((launch.transpose_a, launch.transpose_b, launch.batch), (1, 0, 2));
    assert_eq!((launch.stride_a, launch.stride_b, launch.stride_c), (8, 12, 6));
    assert_eq!((launch.lda, launch.ldb, launch.ldc), (4, 4, 2));
    assert!(gemm_strided_batched_bf16(&StridedGemmBf16 { b_len: 23, ..call }).is_err());
    assert!(gemm_strided_batched_bf16(&StridedGemmBf16 { c_len: 11, ..call }).is_err());
    assert!(gemm_strided_batched_bf16(&StridedGemmBf16 { k: 0, ..call }).is_err());
    let refused = StridedGemmBf16 { a_len: 15, stride_b: usize::MAX, ..call };
    assert_eq!(
        gemm_strided_batched_bf16(&refused).unwrap_err().message(),
        "gemm_strided_batched_bf16 A too small: got 15, need 16"
    );
    let wrapped = StridedGemmBf16 { stride_b: usize::MAX, ..call };
    assert!(matches!(
        gemm_strided_batched_bf16(&wrapped).unwrap_err(),
        KernelError::Overflow { .. }
    ));
    let call = GemmBf16F32 {
        transpose_a: false,
        transpose_b: true,
        m: 2,
        n: 3,
        k: 4,
        a_len: 8,
        lda: 2,
        b_len: 12,
        ldb: 3,
        c_len: 6,
        ldc: 2,
    };
    let launch = gemm_bf16_f32(&call).unwrap();
    assert_eq!((launch.m, launch.n, launch.k, launch.transpose_b), (2, 3, 4, 1));
    assert!(gemm_bf16_f32(&GemmBf16F32 { a_len: 7, ..call }).is_err());
    assert!(gemm_bf16_f32(&GemmBf16F32 { c_len: 5, ..call }).is_err());
    assert!(gemm_bf16_f32(&GemmBf16F32 { n: usize::MAX, ..call }).is_err());
}
