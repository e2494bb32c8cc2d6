use pegainfer_kernels::tensor::active_cu_stream;
use pegainfer_kernels::tensor::has_prefill_stream_override;
use pegainfer_kernels::tensor::has_stream_override;
use pegainfer_kernels::tensor::memcpy_dtod_u32_from_i32;
use pegainfer_kernels::tensor::stream_spin_wait;
use pegainfer_kernels::tensor::Bf16;
use pegainfer_kernels::tensor::Batch;
use pegainfer_kernels::tensor::AxisSpec;
use pegainfer_kernels::tensor::Hidden;
use pegainfer_kernels::tensor::HiddenStatesLayout;
use pegainfer_kernels::tensor::KernelCall;
use pegainfer_kernels::tensor::SpinAction;
use pegainfer_kernels::tensor::StreamOverride;
use pegainfer_kernels::tensor::StreamOverrideGuard;
use pegainfer_kernels::tensor::StreamQuery;
use pegainfer_kernels::tensor::TensorSpec;

#[test]
fn stream_override_guard_restores_on_drop() {
    let outer = 0x10usize;
    let mut thread = StreamOverride::none();
    assert!(!has_stream_override(&thread));
    assert!(!has_prefill_stream_override(&thread));
    {
        let outer_guard = StreamOverrideGuard::activate_prefill(&mut thread, outer);
        assert!(has_prefill_stream_override(&thread));
        {
            let inner_guard = StreamOverrideGuard::activate(&mut thread, 0x20usize);
            assert!(!has_prefill_stream_override(&thread));
            inner_guard.restore(&mut thread);
        }
        assert_eq!(thread.stream, Some(outer));
        assert!(has_prefill_stream_override(&thread));
        outer_guard.restore(&mut thread);
    }
    assert!(!has_stream_override(&thread));
    assert!(!has_prefill_stream_override(&thread));
}

#[test]
fn an_override_takes_the_place_of_the_context_stream() {
    let mut thread = StreamOverride::none();
    assert_eq!(active_cu_stream(&thread, 7), 7);
    let guard = StreamOverrideGuard::activate(&mut thread, 9);
    assert_eq!(active_cu_stream(&thread, 7), 9);
    guard.restore(&mut thread);
    assert_eq!(active_cu_stream(&thread, 7), 7);
}

#[test]
fn a_wait_polls_and_then_synchronizes() {
    assert!(matches!(stream_spin_wait(StreamQuery::Ready, true), SpinAction::Done));
    assert!(matches!(stream_spin_wait(StreamQuery::NotReady, false), SpinAction::Spin));
    assert!(matches!(stream_spin_wait(StreamQuery::NotReady, true), SpinAction::Synchronize));
    assert!(matches!(stream_spin_wait(StreamQuery::Failed(700), false), SpinAction::Fail(_)));
}

#[test]
fn token_copies_are_bounded() {
    let thread = StreamOverride::none();
    assert_eq!(memcpy_dtod_u32_from_i32(&thread, 8, 8, 0).unwrap(), None);
    assert_eq!(memcpy_dtod_u32_from_i32(&thread, 8, 8, 8).unwrap(), Some(32));
    assert!(memcpy_dtod_u32_from_i32(&thread, 7, 8, 8).is_err());
    assert!(memcpy_dtod_u32_from_i32(&thread, 8, 7, 8).is_err());
}

#[test]
fn a_call_reads_in_one_line() {
    let spec = TensorSpec::new::<Bf16, HiddenStatesLayout>(vec![
        AxisSpec::new::<Batch>(4),
        AxisSpec::new::<Hidden>(4096),
    ]);
    let line = spec.compact();
    assert!(line.starts_with("bf16["), "{line}");
    assert!(line.contains("=4, "), "{line}");
    assert!(line.contains("=4096"), "{line}");
    let call = KernelCall::new("rms_norm", "layer 0")
        .input("x", spec.clone())
        .output("out", spec.clone())
        .attr("eps", String::from("1e-6"));
    assert_eq!(call.inputs.len(), 1);
    assert_eq!(call.inputs[0].compact(), format!("x: {line}"));
    assert_eq!(call.outputs[0].name, "out");
    assert_eq!(call.attrs[0].value, "1e-6");
    assert_eq!((call.op.as_str(), call.label.as_str()), ("rms_norm", "layer 0"));
}
