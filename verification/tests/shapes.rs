use half::bf16;

use pegainfer_kernels::error::KernelError;
use pegainfer_kernels::shape::bf16_from_le_bytes;
use pegainfer_kernels::shape::CopyRange;
use pegainfer_kernels::shape::DeviceMatrix;
use pegainfer_kernels::shape::DeviceVec;
use pegainfer_kernels::shape::GpuRawSlice;
use pegainfer_kernels::shape::GpuTensor;
use pegainfer_kernels::shape::GpuWeight;
use pegainfer_kernels::shape::HiddenStates;
use pegainfer_kernels::shape::NormWeight;

#[test]
fn test_device_matrix_from_safetensors_matches_from_host() {
    let rows = 3;
    let cols = 2;
    let host = vec![
        bf16::from_f32(-8.0),
        bf16::from_f32(-0.25),
        bf16::from_f32(1.0),
        bf16::from_f32(3.5),
        bf16::from_f32(9.0),
        bf16::from_f32(10.75),
    ];
    let safetensor_bytes: Vec<u8> = host
        .iter()
        .flat_map(|v| v.to_bits().to_le_bytes())
        .collect();

    let from_host = DeviceMatrix::from_host(host.len(), rows, cols);
    let (from_safetensors, safetensors_out) =
        DeviceMatrix::from_safetensors(&safetensor_bytes, rows, cols)
            .expect("from_safetensors should succeed");

    assert_eq!(from_safetensors.rows, from_host.rows);
    assert_eq!(from_safetensors.cols, from_host.cols);
    assert_eq!(from_safetensors.data_len, from_host.data_len);

    assert_eq!(host.len(), safetensors_out.len());
    for (idx, (a, b)) in host.iter().zip(safetensors_out.iter()).enumerate() {
        assert_eq!(
            a.to_bits(),
            *b,
            "from_safetensors/from_host mismatch at index {}",
            idx
        );
    }
}

#[test]
fn safetensors_bytes_must_fit_the_shape() {
    assert!(DeviceMatrix::from_safetensors(&[0, 1, 2, 3], 3, 2).is_err());
    assert!(DeviceVec::from_safetensors(&[0, 1, 2]).is_err());
    let (vec, words) = DeviceVec::from_safetensors(&[0x80, 0x3f, 0x00, 0xc0]).unwrap();
    assert_eq!(vec.len, 2);
    assert_eq!(words, vec![0x3f80, 0xc000]);
    assert_eq!(bf16::from_bits(words[0]).to_f32(), 1.0);
    assert_eq!(bf16::from_bits(words[1]).to_f32(), -2.0);
    assert_eq!(bf16_from_le_bytes(&[0x34, 0x12]), vec![0x1234]);
}

#[test]
fn vstack_tiles_its_parts() {
    let a = DeviceMatrix::from_host(6, 3, 2);
    let b = DeviceMatrix::from_host(2, 1, 2);
    let c = DeviceMatrix::from_host(8, 4, 2);
    let (stacked, copies) = DeviceMatrix::vstack(&[a, b, c]);
    assert_eq!((stacked.rows, stacked.cols, stacked.data_len), (8, 2, 16));
    assert_eq!(
        copies,
        vec![
            CopyRange { offset: 0, count: 6 },
            CopyRange { offset: 6, count: 2 },
            CopyRange { offset: 8, count: 8 },
        ]
    );
}

#[test]
fn extents_are_held_against_the_allocation() {
    let t = HiddenStates::zeros(8, 4);
    assert_eq!(t.checked_extent("t").unwrap(), 32);
    let mut grown = t;
    grown.seq_len = 5;
    let error = grown.checked_extent("t").unwrap_err();
    assert_eq!(error, KernelError::Backing { what: "t", len: 32, need: 40 });
    assert_eq!(error.message(), "t backing len 32 < 40");
    let mut absurd = t;
    absurd.hidden_dim = usize::MAX;
    assert_eq!(
        absurd.checked_extent("t").unwrap_err(),
        KernelError::Overflow { what: "t" }
    );
}

#[test]
fn a_row_window_is_backed() {
    let t = HiddenStates::zeros(8, 4);
    assert_eq!(t.checked_row_offset(3, 1, "t").unwrap(), 48);
    assert!(t.checked_row_offset(3, 2, "t").is_err());
    assert!(t.checked_row_offset(usize::MAX, 1, "t").is_err());
}

#[test]
fn vectors_are_held_against_the_allocation() {
    let v = DeviceVec::from_host(4);
    assert!(v.ensure_backed("v").is_ok());
    let short = DeviceVec { data_len: 4, len: 5 };
    assert_eq!(
        short.ensure_backed("v").unwrap_err(),
        KernelError::Backing { what: "v", len: 4, need: 5 }
    );
}

#[test]
fn typed_shapes_take_only_their_own() {
    let m = DeviceMatrix::from_host(12, 3, 4);
    assert!(GpuWeight::<3, 4>::from_device_matrix(m).is_ok());
    assert!(GpuWeight::<4, 3>::from_device_matrix(m).is_err());
    assert!(NormWeight::<4>::from_device_vec(DeviceVec::zeros(4)).is_ok());
    assert!(NormWeight::<5>::from_device_vec(DeviceVec::zeros(4)).is_err());
    assert!(GpuTensor::<4>::from_device_matrix_rows(m).is_ok());
    assert!(GpuTensor::<3>::from_device_matrix_rows(m).is_err());
    let _ = GpuRawSlice::<16>::zeros(3);
}

#[test]
fn every_error_has_its_text() {
    assert_eq!(KernelError::Invalid { what: "no" }.message(), "no");
    assert_eq!(
        KernelError::Rejected { what: "rows", got: 3, want: 40 }.message(),
        "rows: got 3, need 40"
    );
    assert_eq!(KernelError::Overflow { what: "size" }.message(), "size overflows usize");
    assert_eq!(
        KernelError::TooWide { what: "n", value: 5_000_000_000 }.message(),
        "n 5000000000 does not fit the kernel's integer"
    );
    assert_eq!(
        KernelError::Status { what: "launch", code: -7 }.message(),
        "launch failed with status -7"
    );
    assert_eq!(
        KernelError::Exceeds { what: "rows", got: 41, max: 40 }.message(),
        "rows: got 41, at most 40"
    );
    assert_eq!(
        KernelError::NotBelow { what: "layer", got: 4, bound: 4 }.message(),
        "layer: got 4, need less than 4"
    );
    assert_eq!(KernelError::Unmet { what: "even", value: 3 }.message(), "even: 3");
    assert_eq!(KernelError::UnmetSigned { what: "scheme", number: -3 }.message(), "scheme: -3");
    assert_eq!(
        KernelError::Unfit { what: "whole pages", left: 250, right: 64 }.message(),
        "whole pages: 250 and 64"
    );
    assert_eq!(
        KernelError::Layout { what: "prep", part: "layer must fit", left: 4, right: 3 }.message(),
        "prep layer must fit: 4 and 3"
    );
    assert_eq!(
        KernelError::SizeQuery { what: "query", code: 2, bytes: 0 }.message(),
        "query failed: status 2, bytes=0"
    );
    assert_eq!(
        KernelError::NotInBuild { what: "prefill" }.message(),
        "prefill is not in this build: it fell back to the stub tier, so no TileLang and no \
         pre-generated directory were available when pegainfer-kernels was compiled"
    );
    assert_eq!(
        KernelError::CudaError { what: "prefill", code: 9 }.message(),
        "prefill failed: cudaError=9 (1 = the call is outside the extents, batch, page size or \
         shape the bodies were built for)"
    );
}
