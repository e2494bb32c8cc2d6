use pegainfer_kernels::ops::elementwise::add_batch;
use pegainfer_kernels::ops::elementwise::add_into;
use pegainfer_kernels::ops::elementwise::add_scaled_bf16_into;
use pegainfer_kernels::ops::elementwise::advance_decode_metadata;
use pegainfer_kernels::ops::elementwise::bf16_bytes_to_f32_into;
use pegainfer_kernels::ops::elementwise::copy_hidden_rows_raw_into;
use pegainfer_kernels::ops::elementwise::extract_hidden_rows_raw_into;
use pegainfer_kernels::ops::elementwise::extract_vec;
use pegainfer_kernels::ops::elementwise::extract_vec_ref_into;
use pegainfer_kernels::ops::elementwise::scaled_add_rows_token_range_into;
use pegainfer_kernels::ops::elementwise::softcap_bf16_in_place;
use pegainfer_kernels::ops::elementwise::split_qkv_into;
use pegainfer_kernels::ops::elementwise::suppress_logits_bf16_in_place;
use pegainfer_kernels::ops::elementwise::SuppressIds;
use pegainfer_kernels::ops::norm::fused_add_rms_norm_round_into;
use pegainfer_kernels::ops::norm::rms_norm_add_scale_batch_into;
use pegainfer_kernels::ops::norm::rms_norm_batch_dual_into;
use pegainfer_kernels::ops::norm::rms_norm_gated_batch_into;
use pegainfer_kernels::shape::DeviceVec;
use pegainfer_kernels::shape::HiddenStates;

#[test]
fn split_qkv_rejects_mismatched_shapes_without_launching() {
    let qkv = HiddenStates::zeros(12, 1);
    let q = HiddenStates::zeros(5, 1);
    let k = HiddenStates::zeros(3, 1);
    let v = HiddenStates::zeros(3, 1);

    let error = split_qkv_into(&qkv, &q, &k, &v)
        .expect_err("mismatched QKV dimensions must fail before launch");
    assert!(
        error.message().contains("must equal Q + K + V"),
        "unexpected shape error: {}",
        error.message()
    );
}

#[test]
fn split_qkv_takes_a_row_that_is_the_three_parts() {
    let kv = HiddenStates::zeros(3, 2);
    assert_eq!(
        split_qkv_into(&HiddenStates::zeros(11, 2), &HiddenStates::zeros(5, 2), &kv, &kv).unwrap(),
        (5, 3, 2)
    );
    assert!(split_qkv_into(
        &HiddenStates::zeros(11, 2),
        &HiddenStates::zeros(5, 1),
        &kv,
        &kv
    )
    .is_err());
}

#[test]
fn extract_vec_ref_rejects_out_of_bounds_token() {
    let hidden = HiddenStates::from_host(2, 2, 1);
    let out = DeviceVec::zeros(2);

    let err = extract_vec_ref_into(&hidden, 1, &out).unwrap_err();

    assert!(
        err.message().contains("out of bounds"),
        "unexpected error: {}",
        err.message()
    );
}

#[test]
fn a_token_is_copied_from_its_own_row() {
    let hidden = HiddenStates::zeros(4, 3);
    let (out, copy) = extract_vec(&hidden, 2).unwrap();
    assert_eq!((out.len, copy.offset, copy.len), (4, 8, 4));
    assert!(extract_vec(&hidden, 3).is_err());
}

#[test]
fn suppression_ids_are_held_against_the_head() {
    let vocab = 8usize;
    let logits = HiddenStates::zeros(vocab, 2);
    let ids = SuppressIds::upload(&[3u32, 5], vocab).expect("ids");
    let launch = suppress_logits_bf16_in_place(&logits, &ids).unwrap().unwrap();
    assert_eq!((launch.vocab, launch.rows, launch.id_count), (8, 2, 2));
    assert_eq!(ids.ids(), &vec![3, 5]);
    assert!(
        SuppressIds::upload(&[vocab as u32], vocab).is_err(),
        "an id at the head's width must be refused at upload"
    );
    let other_head = SuppressIds::upload(&[1u32], vocab + 1).expect("ids");
    assert!(
        suppress_logits_bf16_in_place(&logits, &other_head).is_err(),
        "ids checked against a wider head must not be applied to these logits"
    );
    let none = SuppressIds::upload(&[], vocab + 1).unwrap();
    assert!(none.is_empty());
    assert_eq!(suppress_logits_bf16_in_place(&logits, &none).unwrap(), None);
}

#[test]
fn copies_and_extractions_name_one_window() {
    let copy = copy_hidden_rows_raw_into(12, 4, 30, 10, 3, 3);
    let back = extract_hidden_rows_raw_into(30, 10, 12, 4, 3, 3);
    assert_eq!((copy.src_dim, copy.dst_dim), (4, 10));
    assert_eq!((back.src_dim, back.dst_dim), (10, 4));
    assert_eq!((copy.offset, copy.width, copy.tokens), (back.offset, back.width, back.tokens));
}

#[test]
fn scalars_and_buffers_are_checked() {
    assert!(add_into(4, 4, 4, 4).is_ok());
    assert!(add_into(4, 3, 4, 4).is_err());
    assert!(add_scaled_bf16_into(4, 1.5f32.to_bits(), 4, 4, 4).is_ok());
    assert!(add_scaled_bf16_into(4, f32::NAN.to_bits(), 4, 4, 4).is_err());
    let buf = HiddenStates::zeros(4, 2);
    assert_eq!(softcap_bf16_in_place(&buf, 30.0f32.to_bits()).unwrap(), 8);
    assert!(softcap_bf16_in_place(&buf, 0.0f32.to_bits()).is_err());
    assert!(softcap_bf16_in_place(&buf, (-1.0f32).to_bits()).is_err());
    assert!(softcap_bf16_in_place(&buf, f32::INFINITY.to_bits()).is_err());
    assert_eq!(bf16_bytes_to_f32_into(9, 4).unwrap(), 4);
    assert!(bf16_bytes_to_f32_into(10, 4).is_err());
    let (out, n) = add_batch(&buf, &buf);
    assert_eq!((out.data_len, n), (8, 8));
    let launch = scaled_add_rows_token_range_into(
        &HiddenStates::zeros(3, 2),
        1.0f32.to_bits(),
        &HiddenStates::zeros(5, 6),
        1,
        4,
    );
    assert_eq!((launch.out_bytes, launch.row_offset, launch.tokens), (40, 1, 2));
}

#[test]
fn decode_tables_hold_every_pseudo_row() {
    assert_eq!(advance_decode_metadata(2, 2, 6, 2, 2, 3).unwrap(), (2, 3));
    assert!(advance_decode_metadata(2, 2, 5, 2, 2, 3).is_err());
    assert!(advance_decode_metadata(2, 2, 6, 2, 0, 3).is_err());
    assert!(advance_decode_metadata(2, 2, 6, 2, 2, 0).is_err());
    let huge = advance_decode_metadata(2, 2, 6, 2, usize::MAX, 2).unwrap_err();
    assert!(huge.message().contains("exceeds i32"));
}

#[test]
fn norms_check_shapes_before_they_launch() {
    let x = HiddenStates::zeros(16, 4);
    let w = DeviceVec::zeros(16);
    let launch = rms_norm_batch_dual_into(&x, &w, &w, 1.0f32.to_bits(), &x, &x).unwrap();
    assert_eq!((launch.dim, launch.rows), (16, 4));
    let narrow = DeviceVec::zeros(15);
    assert!(rms_norm_batch_dual_into(&x, &narrow, &w, 1.0f32.to_bits(), &x, &x).is_err());
    assert!(rms_norm_batch_dual_into(&x, &w, &w, f32::NAN.to_bits(), &x, &x).is_err());
    let label = DeviceVec { data_len: 8, len: 16 };
    assert!(rms_norm_add_scale_batch_into(&x, &label, &x, 1.0f32.to_bits(), &x).is_err());
    assert!(fused_add_rms_norm_round_into(64, 64, &w, 16, 4, 64).is_ok());
    assert!(fused_add_rms_norm_round_into(63, 64, &w, 16, 4, 64).is_err());
    let gated = rms_norm_gated_batch_into(&x, &x, &x, 2, 8);
    assert_eq!((gated.dim, gated.rows), (8, 8));
}
