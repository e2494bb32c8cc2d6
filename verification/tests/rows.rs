use pegainfer_kernels::error::KernelError;
use pegainfer_kernels::ops::elementwise::accumulate_bf16_token_scaled_to_f32_into;
use pegainfer_kernels::ops::elementwise::add_batch_into;
use pegainfer_kernels::ops::elementwise::bf16_hidden_to_f32_into;
use pegainfer_kernels::ops::elementwise::copy_hidden_rows_into;
use pegainfer_kernels::ops::elementwise::copy_hidden_token_range_into;
use pegainfer_kernels::ops::elementwise::extract_vec_into;
use pegainfer_kernels::ops::elementwise::extract_vec_ref;
use pegainfer_kernels::ops::elementwise::f32_to_bf16_hidden_into;
use pegainfer_kernels::ops::elementwise::gather_hidden_tokens_into;
use pegainfer_kernels::ops::elementwise::gelu_tanh_mul_batch_into;
use pegainfer_kernels::ops::elementwise::mask_position_zero_rows_into;
use pegainfer_kernels::ops::elementwise::repeat_f32_for_reduce_scatter_into;
use pegainfer_kernels::ops::elementwise::scale_bf16_in_place;
use pegainfer_kernels::ops::elementwise::scale_f32_in_place;
use pegainfer_kernels::ops::elementwise::scaled_add_batch_into;
use pegainfer_kernels::ops::elementwise::scaled_add_rows_indexed_into;
use pegainfer_kernels::ops::elementwise::scaled_add_rows_into;
use pegainfer_kernels::ops::elementwise::silu_mul_batch;
use pegainfer_kernels::ops::elementwise::silu_mul_batch_into;
use pegainfer_kernels::ops::elementwise::silu_mul_fused_batch_into;
use pegainfer_kernels::ops::elementwise::write_vec_into;
use pegainfer_kernels::ops::elementwise::IndexedRowAddLaunch;
use pegainfer_kernels::ops::elementwise::RowAddLaunch;
use pegainfer_kernels::ops::elementwise::RowCopyLaunch;
use pegainfer_kernels::ops::elementwise::TokenCopy;
use pegainfer_kernels::ops::elementwise::TokenRangeLaunch;
use pegainfer_kernels::ops::norm::dual_rms_norm_add_batch_into;
use pegainfer_kernels::ops::norm::fused_add_rms_norm_batch_into;
use pegainfer_kernels::ops::norm::fused_add_rms_norm_into;
use pegainfer_kernels::ops::norm::fused_add_rms_norm_round_batch_into;
use pegainfer_kernels::ops::norm::layer_norm_into;
use pegainfer_kernels::ops::norm::rms_norm;
use pegainfer_kernels::ops::norm::rms_norm_add_rms_norm_round_batch_into;
use pegainfer_kernels::ops::norm::rms_norm_batch_into;
use pegainfer_kernels::ops::norm::rms_norm_batch_offset_into;
use pegainfer_kernels::ops::norm::rms_norm_into;
use pegainfer_kernels::ops::norm::rms_norm_offset_into;
use pegainfer_kernels::ops::norm::rms_norm_rows_into;
use pegainfer_kernels::ops::norm::NormLaunch;
use pegainfer_kernels::shape::DeviceVec;
use pegainfer_kernels::shape::HiddenStates;

const ONE: u32 = 0x3f80_0000;

#[test]
fn scaled_adds_name_their_rows() {
    let out = HiddenStates::zeros(7, 3);
    let delta = HiddenStates::zeros(4, 3);
    assert_eq!(
        scaled_add_rows_into(&delta, ONE, &out, 3),
        RowAddLaunch { out_bytes: 0, out_dim: 7, row_offset: 3, rows: 4, tokens: 3 }
    );
    assert_eq!(
        scaled_add_batch_into(&out, ONE, &out),
        RowAddLaunch { out_bytes: 0, out_dim: 7, row_offset: 0, rows: 7, tokens: 3 }
    );
    let picked = HiddenStates::zeros(4, 2);
    assert_eq!(
        scaled_add_rows_indexed_into(&picked, ONE, 5, 2, &out, 1),
        IndexedRowAddLaunch { out_dim: 7, row_offset: 1, rows: 4, tokens: 2, out_tokens: 3 }
    );
}

#[test]
fn tokens_are_gathered_and_copied_by_range() {
    let src = HiddenStates::zeros(6, 5);
    let dst = HiddenStates::zeros(6, 2);
    assert_eq!(gather_hidden_tokens_into(&src, 4, 2, &dst), (6, 2, 5));
    assert_eq!(
        copy_hidden_token_range_into(&src, 3, &dst, 0, 2),
        TokenRangeLaunch {
            hidden_dim: 6,
            src_token_offset: 3,
            dst_token_offset: 0,
            token_count: 2,
            src_tokens: 5,
            dst_tokens: 2,
        }
    );
    assert_eq!(
        copy_hidden_rows_into(&HiddenStates::zeros(2, 5), &src, 4),
        RowCopyLaunch { src_dim: 2, dst_dim: 6, offset: 4, width: 2, tokens: 5 }
    );
    assert_eq!(mask_position_zero_rows_into(12, 2, 6, 2, 12), (6, 2));
}

#[test]
fn conversions_run_over_the_whole_allocation() {
    let padded = HiddenStates { data_len: 10, hidden_dim: 3, seq_len: 3 };
    assert_eq!(bf16_hidden_to_f32_into(&padded, 10), 10);
    assert_eq!(f32_to_bf16_hidden_into(12, &padded), 10);
    assert_eq!(scale_f32_in_place(12, 9), 9);
    assert_eq!(repeat_f32_for_reduce_scatter_into(8, 32, 8, 4), (8, 4));
    let token = HiddenStates::zeros(6, 1);
    assert_eq!(accumulate_bf16_token_scaled_to_f32_into(&token, ONE, 2, 3, 18), (6, 2, 3));
}

#[test]
fn activations_count_their_elements() {
    let gate = HiddenStates::zeros(6, 5);
    assert_eq!(add_batch_into(&gate, &gate, &gate), 30);
    assert_eq!(silu_mul_batch_into(&gate, &gate, &gate), 30);
    let (out, n) = silu_mul_batch(&gate, &gate);
    assert_eq!((out.data_len, out.hidden_dim, out.seq_len, n), (30, 6, 5, 30));
    assert_eq!(silu_mul_fused_batch_into(&gate, &HiddenStates::zeros(3, 5)), (3, 5));
    assert_eq!(gelu_tanh_mul_batch_into(&gate, &gate, &gate).unwrap(), 30);
    assert!(gelu_tanh_mul_batch_into(&gate, &HiddenStates::zeros(5, 6), &gate).is_err());
    let short = HiddenStates { data_len: 29, hidden_dim: 6, seq_len: 5 };
    assert!(matches!(
        gelu_tanh_mul_batch_into(&gate, &gate, &short).unwrap_err(),
        KernelError::Backing { len: 29, need: 30, .. }
    ));
    let wrapped = HiddenStates { data_len: 0, hidden_dim: usize::MAX, seq_len: 2 };
    assert!(matches!(
        gelu_tanh_mul_batch_into(&wrapped, &wrapped, &wrapped).unwrap_err(),
        KernelError::Overflow { .. }
    ));
    let wide = HiddenStates { data_len: 1 << 31, hidden_dim: 1 << 16, seq_len: 1 << 15 };
    assert!(matches!(
        gelu_tanh_mul_batch_into(&wide, &wide, &wide).unwrap_err(),
        KernelError::TooWide { value: 0x8000_0000, .. }
    ));
    assert_eq!(scale_bf16_in_place(&gate, ONE).unwrap(), 30);
    assert!(scale_bf16_in_place(&gate, 0x7f80_0000).is_err());
}

#[test]
fn a_vector_is_written_to_its_own_row() {
    let batch = HiddenStates::zeros(4, 3);
    let copy = TokenCopy { offset: 8, len: 4 };
    assert_eq!(write_vec_into(&DeviceVec::zeros(4), &batch, 2).unwrap(), copy);
    assert_eq!(extract_vec_into(&batch, 2, &DeviceVec::zeros(4)).unwrap(), copy);
    assert_eq!(extract_vec_ref(&batch, 2).unwrap().1, copy);
    assert!(write_vec_into(&DeviceVec::zeros(3), &batch, 2).is_err());
    assert!(extract_vec_into(&batch, 2, &DeviceVec::zeros(3)).is_err());
    assert!(extract_vec_ref(&batch, 3).unwrap_err().message().contains("out of bounds"));
}

#[test]
fn norms_of_vectors_count_their_elements() {
    let x = DeviceVec { data_len: 40, len: 32 };
    let (out, n) = rms_norm(&x);
    assert_eq!((out.data_len, out.len, n), (32, 32, 32));
    assert_eq!(rms_norm_into(&x, &out), 32);
    assert_eq!(rms_norm_offset_into(&x, &out), 32);
    assert_eq!(fused_add_rms_norm_into(&x, &x, &out), 32);
}

#[test]
fn norms_of_batches_name_dim_and_rows() {
    let x = HiddenStates::zeros(16, 4);
    let w = DeviceVec::zeros(16);
    let launch = NormLaunch { dim: 16, rows: 4 };
    assert_eq!(rms_norm_batch_into(&x, &w, &x), launch);
    assert_eq!(rms_norm_batch_offset_into(&x, &w, &x), launch);
    assert_eq!(fused_add_rms_norm_batch_into(&x, &x, &w, &x), launch);
    assert_eq!(fused_add_rms_norm_round_batch_into(&x, &x, &w, &x), launch);
    assert_eq!(dual_rms_norm_add_batch_into(&x, &w, &x, &w, &x).unwrap(), launch);
    assert_eq!(
        rms_norm_add_rms_norm_round_batch_into(&x, &w, &x, &w, &x, &x).unwrap(),
        launch
    );
    assert_eq!(rms_norm_rows_into(64, &w, 16, 4, 64).unwrap(), launch);
    assert_eq!(layer_norm_into(64, 16, 16, 16, 4, 64).unwrap(), launch);
}

#[test]
fn norms_refuse_what_does_not_fit() {
    let x = HiddenStates::zeros(16, 4);
    let other = HiddenStates::zeros(16, 3);
    let w = DeviceVec::zeros(16);
    assert!(dual_rms_norm_add_batch_into(&x, &w, &other, &w, &x).is_err());
    assert!(dual_rms_norm_add_batch_into(&x, &w, &x, &w, &other).is_err());
    let none = HiddenStates::zeros(16, 0);
    assert!(dual_rms_norm_add_batch_into(&none, &w, &none, &w, &none).is_err());
    assert!(rms_norm_add_rms_norm_round_batch_into(&x, &w, &x, &w, &other, &x).is_err());
    let label = DeviceVec { data_len: 15, len: 16 };
    assert!(rms_norm_add_rms_norm_round_batch_into(&x, &w, &x, &label, &x, &x)
        .unwrap_err()
        .message()
        .contains("weight_pre backing"));
    assert!(rms_norm_rows_into(63, &w, 16, 4, 64).is_err());
    assert!(rms_norm_rows_into(64, &w, 16, 0, 64).is_err());
    assert!(rms_norm_rows_into(64, &DeviceVec::zeros(8), 16, 4, 64).is_err());
    assert!(layer_norm_into(64, 15, 16, 16, 4, 64).is_err());
    assert!(layer_norm_into(64, 16, 16, 16, 4, 63).is_err());
}
