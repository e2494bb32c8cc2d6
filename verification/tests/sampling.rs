use pegainfer_kernels::ops::argmax::argmax_batch_bf16_into;
use pegainfer_kernels::ops::argmax::argmax_batch_bf16_split_partials_len;
use pegainfer_kernels::ops::argmax::argmax_bf16_split_into;
use pegainfer_kernels::ops::argmax::hedge_ladder_force_into;
use pegainfer_kernels::ops::argmax::markov_step_argmax_into;
use pegainfer_kernels::ops::argmax::markov_step_argmax_mapped_into;
use pegainfer_kernels::ops::argmax::markov_step_argmax_partials_len;
use pegainfer_kernels::ops::argmax::HedgeForceCall;
use pegainfer_kernels::ops::sampling::gpu_sample_batch_into;
use pegainfer_kernels::ops::sampling::merge_sampled_tokens;
use pegainfer_kernels::ops::sampling::read_sampled_tokens;
use pegainfer_kernels::ops::sampling::sample_uniform_batch_into;
use pegainfer_kernels::ops::sampling::BatchSamplingRow;
use pegainfer_kernels::ops::sampling::BatchSamplingScratch;
use pegainfer_kernels::ops::sampling::SamplingPlan;
use pegainfer_kernels::shape::HiddenStates;

const VOCAB: usize = 32768;
const ARENA_ROWS: usize = 8;

fn row(row: usize, temperature: f32, top_k: i32, top_p: f32, min_p: f32) -> BatchSamplingRow {
    BatchSamplingRow {
        row,
        temperature: temperature.to_bits(),
        top_k,
        top_p: top_p.to_bits(),
        min_p: min_p.to_bits(),
    }
}

#[test]
fn batch_sampling_rejects_greedy_rows() {
    let logits = HiddenStates::zeros(VOCAB, ARENA_ROWS);
    let scratch = BatchSamplingScratch::new(ARENA_ROWS, VOCAB, 0).expect("scratch");
    let rows = [row(0, 0.0, -1, 1.0, 0.0)];
    let SamplingPlan::Uniform { seed } = gpu_sample_batch_into(&rows, 1) else {
        panic!("one row is one pass");
    };
    assert!(
        sample_uniform_batch_into(&logits, &rows, seed, &scratch).is_err(),
        "temperature=0 must be rejected — greedy rows take the argmax path"
    );
}

#[test]
fn a_pass_lays_out_its_rows() {
    let logits = HiddenStates::zeros(VOCAB, ARENA_ROWS);
    let scratch = BatchSamplingScratch::new(ARENA_ROWS, VOCAB, 0).unwrap();
    assert_eq!(scratch.softmax_workspace_bytes, ARENA_ROWS * 4 * 8 + 256);
    assert_eq!(scratch.probs_len, ARENA_ROWS * VOCAB);
    let rows = [row(1, 1.0, 5, 1.0, 0.0), row(4, 1.0, -1, 0.5, 0.0), row(6, 0.05, 40_000, 1.0, 0.0)];
    let pass = sample_uniform_batch_into(&logits, &rows, 42, &scratch).unwrap();
    assert_eq!(pass.row_indices, vec![1, 4, 6]);
    assert_eq!(pass.top_k, vec![5, VOCAB as i32, VOCAB as i32]);
    assert_eq!(pass.top_p[1], 0.5f32.to_bits());
    assert!(pass.has_top_k_filter && pass.has_top_p_filter && !pass.has_min_p_filter);
    assert_eq!((pass.rows, pass.vocab, pass.seed), (3, VOCAB as i32, 42));
}

#[test]
fn a_pass_refuses_what_the_device_cannot_sample() {
    let logits = HiddenStates::zeros(VOCAB, ARENA_ROWS);
    let scratch = BatchSamplingScratch::new(2, VOCAB, 0).unwrap();
    let refused = |rows: &[BatchSamplingRow]| {
        sample_uniform_batch_into(&logits, rows, 0, &scratch).unwrap_err().message()
    };
    assert!(refused(&[]).contains("at least one row"));
    let good = row(0, 1.0, -1, 1.0, 0.0);
    assert!(refused(&[good, good, good]).contains("too small"));
    assert!(refused(&[row(8, 1.0, -1, 1.0, 0.0)]).contains("arena range"));
    assert!(refused(&[row(0, f32::INFINITY, -1, 1.0, 0.0)]).contains("temperature"));
    assert!(refused(&[row(0, f32::NAN, -1, 1.0, 0.0)]).contains("temperature"));
    assert!(refused(&[row(0, 1.0, -1, 0.0, 0.0)]).contains("top_p"));
    assert!(refused(&[row(0, 1.0, -1, 1.5, 0.0)]).contains("top_p"));
    assert!(refused(&[row(0, 1.0, -1, 1.0, 1.0)]).contains("min_p"));
    assert!(refused(&[row(0, 1.0, -1, 1.0, -0.5)]).contains("min_p"));
    // The first faulty row is the one that is reported.
    assert!(refused(&[row(0, 1.0, -1, 2.0, 0.0), row(9, 1.0, -1, 1.0, 0.0)]).contains("top_p"));
    let other = HiddenStates::zeros(100, 1);
    assert!(sample_uniform_batch_into(&other, &[good], 0, &scratch).is_err());
    assert!(BatchSamplingScratch::new(0, VOCAB, 0).is_err());
}

#[test]
fn mixed_rows_run_in_two_passes_and_come_back_in_order() {
    let rows = [
        row(0, 1.0, -1, 1.0, 0.0),
        row(1, 1.0, -1, 1.0, 0.5),
        row(2, 1.0, -1, 1.0, 0.25),
        row(3, 1.0, -1, 1.0, 0.0),
        row(4, 1.0, -1, 1.0, 0.1),
    ];
    let SamplingPlan::Split { plain, seed, min_p, min_p_seed } = gpu_sample_batch_into(&rows, 7)
    else {
        panic!("mixed rows are two passes");
    };
    assert_eq!(plain.iter().map(|r| r.row).collect::<Vec<_>>(), vec![0, 3]);
    assert_eq!(min_p.iter().map(|r| r.row).collect::<Vec<_>>(), vec![1, 2, 4]);
    assert_eq!(seed, 7);
    assert_eq!(min_p_seed, 7 ^ 0x9E37_79B9_7F4A_7C15);
    assert_eq!(
        merge_sampled_tokens(&rows, &[100, 103], &[201, 202, 204]),
        vec![100, 201, 202, 103, 204]
    );
    let thresholded = [rows[1], rows[2]];
    assert!(matches!(
        gpu_sample_batch_into(&thresholded, 7),
        SamplingPlan::Uniform { seed: 7 }
    ));
}

#[test]
fn returned_tokens_are_checked() {
    assert_eq!(read_sampled_tokens(2, &[1, 1, 0], &[3, 9, -1], 10).unwrap(), vec![3, 9]);
    assert!(read_sampled_tokens(2, &[1, 0], &[3, 9], 10).unwrap_err().message().contains("no valid"));
    assert!(read_sampled_tokens(1, &[1], &[10], 10).unwrap_err().message().contains("range"));
    assert!(read_sampled_tokens(1, &[1], &[-1], 10).is_err());
}

#[test]
fn partial_buffers_count_tiles() {
    assert_eq!(argmax_batch_bf16_split_partials_len(3, 4096), 3);
    assert_eq!(argmax_batch_bf16_split_partials_len(3, 4097), 6);
    assert_eq!(argmax_batch_bf16_split_partials_len(0, 4097), 0);
    assert_eq!(markov_step_argmax_partials_len(3, 4096), 12);
    assert_eq!(markov_step_argmax_partials_len(2, 1025), 4);
    assert_eq!(markov_step_argmax_partials_len(usize::MAX, 2048), usize::MAX);
}

#[test]
fn argmax_buffers_hold_every_row() {
    let logits = HiddenStates::zeros(5000, 2);
    let launch = argmax_batch_bf16_into(&logits, 2, 2).unwrap();
    assert_eq!((launch.rows, launch.vocab), (2, 5000));
    assert!(argmax_batch_bf16_into(&logits, 1, 2).is_err());
    assert!(argmax_batch_bf16_into(&HiddenStates::zeros(5000, 0), 2, 2).is_err());
    assert!(argmax_bf16_split_into(10_000, 2, 5000, 4, 4, 2, 2).is_ok());
    assert!(argmax_bf16_split_into(10_000, 2, 5000, 3, 4, 2, 2).is_err());
    assert!(argmax_bf16_split_into(9_999, 2, 5000, 4, 4, 2, 2).is_err());
    assert!(argmax_bf16_split_into(10_000, 0, 5000, 4, 4, 2, 2).is_err());
}

#[test]
fn markov_steps_read_their_own_blocks() {
    let base = HiddenStates::zeros(2000, 8);
    let bias = HiddenStates::zeros(2000, 2);
    let launch = markov_step_argmax_into(base, bias, 4, 3, 2, 4, 4, 2, 8).unwrap();
    assert_eq!((launch.block_size, launch.step, launch.chains), (4, 3, 1));
    assert_eq!((launch.rows, launch.vocab), (2, 2000));
    assert!(markov_step_argmax_into(base, bias, 4, 4, 2, 4, 4, 2, 8).is_err());
    assert!(markov_step_argmax_into(base, bias, 5, 3, 2, 4, 4, 2, 10).is_err());
    assert!(markov_step_argmax_into(base, bias, 4, 3, 2, 3, 4, 2, 8).is_err());
    // Two chains share the block that the map names, so a short map is refused
    // where the unmapped form would have asked for more logits.
    let wide = HiddenStates::zeros(2000, 4);
    assert!(markov_step_argmax_mapped_into(base, wide, 4, 3, 2, 2, 4, 8, 8, 4, 16).is_ok());
    assert!(markov_step_argmax_mapped_into(base, wide, 4, 3, 2, 1, 4, 8, 8, 4, 16).is_err());
    assert!(markov_step_argmax_mapped_into(base, wide, 4, 3, 3, 2, 4, 8, 8, 4, 16).is_err());
}

#[test]
fn a_hedge_force_backs_the_whole_stripe() {
    let call = HedgeForceCall {
        prev_tokens_len: 6,
        sampled_tokens_len: 24,
        runner_tokens_len: 10,
        req_map_len: 3,
        n: 3,
        c: 2,
        j: 1,
        runner_stride: 5,
        block_size: 4,
        step: 2,
    };
    assert!(hedge_ladder_force_into(&call).is_ok());
    assert!(hedge_ladder_force_into(&HedgeForceCall { runner_tokens_len: 9, ..call }).is_err());
    assert!(hedge_ladder_force_into(&HedgeForceCall { j: 2, ..call }).is_err());
    assert!(hedge_ladder_force_into(&HedgeForceCall { step: 4, ..call }).is_err());
    assert!(hedge_ladder_force_into(&HedgeForceCall { runner_stride: 2, ..call }).is_err());
}
