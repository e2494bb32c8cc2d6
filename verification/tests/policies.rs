use pegainfer_kernels::ops::linear::gemm_launched;
use pegainfer_kernels::ops::linear::gemm_lt_pin_check;
use pegainfer_kernels::ops::linear::gemm_lt_pin_tuned;
use pegainfer_kernels::ops::linear::gemm_rows_into_checked;
use pegainfer_kernels::ops::linear::gemm_strided_batched_f32;
use pegainfer_kernels::ops::linear::launch_gemm;
use pegainfer_kernels::ops::linear::numeric_policy;
use pegainfer_kernels::ops::linear::per_token_served;
use pegainfer_kernels::ops::linear::pin_served;
use pegainfer_kernels::ops::linear::reset_numeric_policy_counters;
use pegainfer_kernels::ops::linear::set_numeric_policy;
use pegainfer_kernels::ops::linear::GemmPath;
use pegainfer_kernels::ops::linear::GemmStep;
use pegainfer_kernels::ops::linear::NumericPolicy;
use pegainfer_kernels::ops::linear::NumericPolicyState;
use pegainfer_kernels::ops::linear::StridedGemmF32;
use pegainfer_kernels::ops::linear::GEMM_LT_PIN_UNSUPPORTED;
use pegainfer_kernels::shape::DeviceMatrix;
use pegainfer_kernels::shape::HiddenStates;
use pegainfer_kernels::tensor::StreamOverride;

fn path(step: GemmStep) -> GemmPath {
    match step {
        GemmStep::Launch(path) => path,
        _ => panic!("a launch was expected"),
    }
}

#[test]
fn a_policy_reads_back() {
    let mut state = NumericPolicyState::initial();
    for policy in [NumericPolicy::Pin, NumericPolicy::PerToken, NumericPolicy::Tuned] {
        set_numeric_policy(&mut state, policy);
        assert!(numeric_policy(&state) == policy);
    }
}

#[test]
fn a_pinned_projection_has_no_fallback() {
    let mut state = NumericPolicyState::initial();
    let overrides = StreamOverride::none();
    set_numeric_policy(&mut state, NumericPolicy::Pin);
    assert!(matches!(path(launch_gemm(&state, &overrides, 4, false)), GemmPath::Pin));
    let failed = gemm_launched(&mut state, &overrides, false, GemmPath::Pin, GEMM_LT_PIN_UNSUPPORTED);
    assert!(matches!(failed, GemmStep::Failed(_)));
    assert_eq!(pin_served(&state), 0);
    let served = gemm_launched(&mut state, &overrides, false, GemmPath::Pin, 0);
    assert!(matches!(served, GemmStep::Served));
    assert_eq!((pin_served(&state), per_token_served(&state)), (1, 0));
    reset_numeric_policy_counters(&mut state);
    assert_eq!(pin_served(&state), 0);
}

#[test]
fn a_tuned_projection_asks_for_the_handle_of_its_size() {
    let state = NumericPolicyState::initial();
    let overrides = StreamOverride::none();
    assert!(matches!(path(launch_gemm(&state, &overrides, 64, false)), GemmPath::Workspace));
}

#[test]
fn pin_queries_are_read() {
    assert!(gemm_lt_pin_tuned(0, 1, 0).is_ok());
    assert!(gemm_lt_pin_tuned(GEMM_LT_PIN_UNSUPPORTED, 1, 0).is_err());
    assert!(gemm_lt_pin_check(0).unwrap());
}

#[test]
fn a_row_range_starts_at_its_own_bytes() {
    let weight = DeviceMatrix::from_host(40, 10, 4);
    let launch = gemm_rows_into_checked(
        &weight,
        3,
        5,
        &HiddenStates::zeros(4, 1),
        &HiddenStates::zeros(5, 1),
    );
    assert_eq!((launch.w_bytes, launch.m, launch.n, launch.k), (24, 5, 1, 4));
    assert!(launch.graphsafe);
}

#[test]
fn a_batched_product_is_backed_by_its_strides() {
    let call = StridedGemmF32 {
        transpose_a: true,
        transpose_b: false,
        m: 2,
        n: 3,
        k: 4,
        a_len: 16,
        lda: 4,
        stride_a: 8,
        b_len: 24,
        ldb: 4,
        stride_b: 12,
        accumulate: false,
        c_len: 12,
        ldc: 2,
        stride_c: 6,
        batch: 2,
    };
    assert_eq!(gemm_strided_batched_f32(&call).unwrap().batch, 2);
    assert!(gemm_strided_batched_f32(&StridedGemmF32 { a_len: 15, ..call }).is_err());
    assert!(gemm_strided_batched_f32(&StridedGemmF32 { batch: 0, ..call }).is_err());
}

#[test]
fn a_per_token_projection_has_no_fallback() {
    let mut state = NumericPolicyState::initial();
    let overrides = StreamOverride::none();
    set_numeric_policy(&mut state, NumericPolicy::PerToken);
    assert!(matches!(path(launch_gemm(&state, &overrides, 4, true)), GemmPath::PerToken));
    assert!(matches!(
        gemm_launched(&mut state, &overrides, true, GemmPath::PerToken, 700),
        GemmStep::Failed(_)
    ));
    assert_eq!(per_token_served(&state), 0);
    assert!(matches!(
        gemm_launched(&mut state, &overrides, true, GemmPath::PerToken, 0),
        GemmStep::Served
    ));
    assert_eq!((pin_served(&state), per_token_served(&state)), (0, 1));
}

#[test]
fn a_pinned_projection_refuses_an_overridden_stream() {
    let mut state = NumericPolicyState::initial();
    set_numeric_policy(&mut state, NumericPolicy::Pin);
    let elsewhere = StreamOverride { stream: Some(1), prefill: false };
    assert!(matches!(launch_gemm(&state, &elsewhere, 4, true), GemmStep::Failed(_)));
}

#[test]
fn an_untuned_shape_falls_back_to_its_handle() {
    let mut state = NumericPolicyState::initial();
    let overrides = StreamOverride::none();
    assert!(matches!(path(launch_gemm(&state, &overrides, 4, true)), GemmPath::Lt));
    let graph = gemm_launched(&mut state, &overrides, true, GemmPath::Lt, -1);
    assert!(matches!(path(graph), GemmPath::GraphSafe));
    let plain = gemm_launched(&mut state, &overrides, false, GemmPath::Lt, -1);
    assert!(matches!(path(plain), GemmPath::Workspace));
    assert!(matches!(
        gemm_launched(&mut state, &overrides, true, GemmPath::Lt, 0),
        GemmStep::Served
    ));
    assert!(matches!(
        gemm_launched(&mut state, &overrides, true, GemmPath::GraphSafe, 100_013),
        GemmStep::Failed(_)
    ));
}
