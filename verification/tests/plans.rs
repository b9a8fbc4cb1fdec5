//! What a layer does with its tensors.
use stage_forward_lab::layer_plan::{
    LayerActionKind, TensorNeed, decode_f32_matrix, decode_f32_vector, decode_numeric_matrix,
    entry_scalar_number, missing_tensor, plan_layer, shape_dims,
};
use stage_forward_lab::layer_run::{AttentionMixState, BlendSlot, LayerRun, ProjectionSlice};
use stage_forward_lab::quants::{
    DequantizedTensor, GGML_TYPE_F16, GGML_TYPE_F32, GGML_TYPE_Q4_K, GGML_TYPE_Q6_K, QK_K,
};
use stage_forward_lab::{
    ExecutionBinding, ExecutionOp, ExecutionOpKind, LayerExecutionProgram, PackedStageArtifact,
    PackedStageIndex, PackedTensorEntry, StageTensorStore,
};

/// The bit patterns of numbers.
fn bits(values: &[f32]) -> Vec<u32> {
    values.iter().map(|value| value.to_bits()).collect()
}

fn entry(
    name: &str,
    pack_offset: u64,
    byte_len: u64,
    dimensions: Vec<u64>,
    ggml_type: u32,
) -> PackedTensorEntry {
    PackedTensorEntry {
        name: name.into(),
        pack_offset,
        byte_len,
        source_file_offset: 0,
        dimensions,
        ggml_type,
    }
}

fn store(tensors: Vec<PackedTensorEntry>) -> StageTensorStore {
    StageTensorStore::load(PackedStageArtifact {
        pack_path: "stage-1-required.pack".into(),
        index_path: "stage-1-required.index.json".into(),
        index: PackedStageIndex {
            model_name: "Toy".into(),
            architecture: "toy".into(),
            stage_index: 0,
            role: "head".into(),
            total_bytes: tensors.iter().map(|entry| entry.byte_len).sum(),
            tensor_count: tensors.len(),
            tensors,
        },
    })
}

/// A stage of one matrix of two rows and two columns.
fn one_tensor(name: &str, values: &[f32; 4]) -> (StageTensorStore, Vec<u8>) {
    let mut bytes = Vec::new();
    for value in values {
        bytes.extend_from_slice(&value.to_le_bytes());
    }
    (store(vec![entry(name, 0, bytes.len() as u64, vec![2, 2], GGML_TYPE_F32)]), bytes)
}

/// A stage of one matrix of 256 rows and one column, all zero.
fn one_block(name: &str, size: usize, ggml_type: u32) -> (StageTensorStore, Vec<u8>) {
    let bytes = vec![0u8; size];
    (store(vec![entry(name, 0, bytes.len() as u64, vec![256, 1], ggml_type)]), bytes)
}

/// An input run through a stage's matrix.
fn projected(store: &StageTensorStore, pack: &[u8], name: &str, input: &[f32]) -> Vec<f32> {
    let entry = store.entry(name).unwrap();
    let bytes = store.read(name, pack).unwrap();
    let (rows, cols, matrix) = decode_numeric_matrix(entry, &bytes).unwrap().unwrap();
    let mut numbers = vec![0.0f32; matrix.element_count().unwrap()];
    match matrix {
        DequantizedTensor::Numbers(values) => {
            for (number, value) in numbers.iter_mut().zip(values) {
                *number = f32::from_bits(value);
            }
        }
        DequantizedTensor::Blocks(blocks) => {
            for (block, out) in blocks.iter().zip(numbers.chunks_mut(QK_K)) {
                let d = half::f16::from_bits(block.d).to_f32();
                let dmin = half::f16::from_bits(block.dmin).to_f32();
                for value in &block.values {
                    out[value.position] =
                        d * value.scale as f32 * value.quant as f32 - dmin * value.min as f32;
                }
            }
        }
        DequantizedTensor::Halves(_) => unreachable!(),
    }
    assert_eq!(rows * cols, numbers.len());
    numbers
        .chunks(cols)
        .map(|row| row.iter().zip(input).map(|(number, value)| number * value).sum())
        .collect()
}

fn op(kind: ExecutionOpKind, names: &[&str], binding: ExecutionBinding) -> ExecutionOp {
    ExecutionOp::new(kind, names.iter().map(|name| name.to_string()).collect(), binding, "")
}

fn program(ops: Vec<ExecutionOp>) -> LayerExecutionProgram {
    LayerExecutionProgram {
        layer_index: 0,
        hidden_dim: None,
        q_out_dim: None,
        k_out_dim: None,
        v_out_dim: None,
        ffn_inner_dim: None,
        runnable_sketch: true,
        ops,
    }
}

#[test]
fn decoded_attention_projection_uses_real_f32_matrix_from_pack() {
    let (store, pack) = one_tensor("blk.0.attn_q.weight", &[2.0, 0.0, 0.0, 3.0]);
    assert_eq!(projected(&store, &pack, "blk.0.attn_q.weight", &[4.0, 5.0]), vec![8.0, 15.0]);
}

#[test]
fn decoded_attention_projection_uses_real_q4_k_matrix_from_pack() {
    let (store, pack) = one_block("blk.0.attn_q.weight", 144, GGML_TYPE_Q4_K);
    let projected = projected(&store, &pack, "blk.0.attn_q.weight", &[42.0]);
    assert_eq!(projected.len(), QK_K);
    assert!(projected.iter().all(|value| *value == 0.0));
}

#[test]
fn decoded_attention_projection_uses_real_q6_k_matrix_from_pack() {
    let (store, pack) = one_block("blk.0.attn_q.weight", 210, GGML_TYPE_Q6_K);
    let projected = projected(&store, &pack, "blk.0.attn_q.weight", &[42.0]);
    assert_eq!(projected.len(), QK_K);
    assert!(projected.iter().all(|value| *value == 0.0));
}

#[test]
fn decoded_attention_output_uses_real_f32_matrix_from_pack() {
    let (store, pack) = one_tensor("blk.0.attn_output.weight", &[1.0, 0.0, 0.0, 1.0]);
    let mut run = LayerRun::start(0, None).unwrap();
    assert!(run.scratch.build_attention_state().is_none());
    let mix = AttentionMixState { scores: bits(&[4.0, 5.0]), values: bits(&[4.0, 5.0]) };
    run.take_mix(LayerActionKind::AttentionOut, mix);
    assert!(run.attention.is_none());
    assert!(run.mix.is_none());
    assert_eq!(projected(&store, &pack, "blk.0.attn_output.weight", &[4.0, 5.0]), vec![4.0, 5.0]);
}

#[test]
fn decoded_ffn_gate_uses_real_f32_matrix_from_pack() {
    let (store, pack) = one_tensor("blk.0.ffn_gate.weight", &[2.0, 0.0, 0.0, 3.0]);
    assert_eq!(projected(&store, &pack, "blk.0.ffn_gate.weight", &[4.0, 5.0]), vec![8.0, 15.0]);
}

#[test]
fn decoded_ffn_down_uses_real_f32_matrix_from_pack() {
    let (store, pack) = one_tensor("blk.0.ffn_down.weight", &[1.0, 0.0, 0.0, 1.0]);
    let mut run = LayerRun::start(0, None).unwrap();
    assert!(run.scratch.build_ffn_state().is_none());
    run.take_values(LayerActionKind::FfnDown, bits(&[4.0, 5.0]));
    assert!(run.ffn.is_none());
    assert!(run.ffn_mix.is_none());
    assert_eq!(projected(&store, &pack, "blk.0.ffn_down.weight", &[4.0, 5.0]), vec![4.0, 5.0]);
}

#[test]
fn decoded_input_gate_uses_real_f32_matrix_from_pack() {
    let (store, pack) = one_tensor("input_gate.weight", &[2.0, 0.0, 0.0, 3.0]);
    assert_eq!(projected(&store, &pack, "input_gate.weight", &[4.0, 5.0]), vec![8.0, 15.0]);
}

#[test]
fn decoded_projection_applies_real_input_gate_from_scratch() {
    let (store, pack) = one_tensor("output.weight", &[1.0, 0.0, 0.0, 1.0]);
    let mut run = LayerRun::start(0, None).unwrap();
    run.set_input_gate(bits(&[0.0, 1.0]));
    let gate = run.scratch.input_gate.unwrap();
    let mut projected = projected(&store, &pack, "output.weight", &[4.0, 5.0]);
    for (index, value) in projected.iter_mut().enumerate() {
        *value *= f32::from_bits(gate[index % gate.len()]).tanh();
    }
    assert_eq!(projected, vec![0.0, 5.0 * 1.0_f32.tanh()]);
}

#[test]
fn matrices_that_do_not_fit_their_bytes_are_refused() {
    let mut entry = entry("m", 0, 16, vec![2, 2], GGML_TYPE_F32);
    assert_eq!(
        decode_f32_matrix(&entry, &[0; 12]).unwrap_err().to_string(),
        "Packed tensor m byte size 12 did not match rows*cols*4 16"
    );
    assert_eq!(
        decode_numeric_matrix(&entry, &[0; 12]).unwrap_err().to_string(),
        "Decoded tensor m length 3 did not match rows*cols 4"
    );
    assert_eq!(
        decode_numeric_matrix(&entry, &[0; 13]).unwrap_err().to_string(),
        "F32 tensor length 13 is not divisible by 4"
    );
    entry.ggml_type = GGML_TYPE_F16;
    assert_eq!(decode_f32_matrix(&entry, &[0; 12]).unwrap(), None);
    assert!(decode_numeric_matrix(&entry, &[0; 12]).unwrap().is_none());
    entry.ggml_type = GGML_TYPE_F32;
    entry.dimensions = vec![4];
    assert_eq!(decode_f32_vector(&entry, &1.0f32.to_le_bytes().repeat(4)).unwrap().unwrap().len(), 4);
    assert_eq!(
        decode_f32_vector(&entry, &[0; 12]).unwrap_err().to_string(),
        "Packed tensor m length 12 did not match index length 16"
    );
    entry.dimensions = vec![2, 2];
    assert_eq!(decode_f32_vector(&entry, &[0; 16]).unwrap(), None);
}

#[test]
fn an_operation_does_what_its_kind_says_with_a_matrix() {
    let store = store(vec![
        entry("q", 0, 16, vec![2, 2], GGML_TYPE_F32),
        entry("n", 16, 8, vec![2], GGML_TYPE_F32),
        entry("s", 24, 4, vec![1], 7),
    ]);
    let actions = plan_layer(
        &store,
        &program(vec![
            op(ExecutionOpKind::AttentionNorm, &["n"], ExecutionBinding::F32Vector),
            op(ExecutionOpKind::AttentionQ, &["q"], ExecutionBinding::F32Matrix),
            op(ExecutionOpKind::Unknown, &["q"], ExecutionBinding::F32Matrix),
            op(ExecutionOpKind::LayerOutputScale, &["n"], ExecutionBinding::F32Vector),
            op(ExecutionOpKind::AttentionNorm, &["n", "s"], ExecutionBinding::F32Vector),
            op(ExecutionOpKind::FfnGate, &["s"], ExecutionBinding::Unsupported),
            op(ExecutionOpKind::FfnUp, &["gone"], ExecutionBinding::F32Matrix),
            op(ExecutionOpKind::FfnUp, &["s", "gone"], ExecutionBinding::Mixed),
        ]),
    );
    let told: Vec<(LayerActionKind, &str)> =
        actions.iter().map(|action| (action.kind, action.tensor.as_str())).collect();
    assert_eq!(
        told,
        [
            (LayerActionKind::ApplyNorm, "n"),
            (LayerActionKind::ProjectQuery, "q"),
            (LayerActionKind::DecodeMatrix, "q"),
            (LayerActionKind::ApplyMatrix, "q"),
            (LayerActionKind::ApplyVector, "n"),
            (LayerActionKind::DecodeVector, "n"),
            (LayerActionKind::ApplyScalar, "n"),
            (LayerActionKind::ApplyScalar, "s"),
            (LayerActionKind::ApplyScalar, "s"),
            (LayerActionKind::Missing, "gone"),
            (LayerActionKind::ApplyScalar, "s"),
            (LayerActionKind::Missing, "gone"),
        ]
    );
    assert_eq!(missing_tensor("gone").to_string(), "Tensor gone missing from stage store");
}

#[test]
fn tensors_are_fit_for_what_their_shape_allows() {
    let vector = entry("v", 0, 8, vec![2], GGML_TYPE_F32);
    let matrix = entry("m", 0, 144, vec![256, 1], GGML_TYPE_Q4_K);
    assert!(vector.is_fit(TensorNeed::PlainVector));
    assert!(!vector.is_fit(TensorNeed::PlainMatrix));
    assert!(!vector.is_fit(TensorNeed::NumericMatrix));
    assert!(matrix.is_fit(TensorNeed::NumericMatrix));
    assert!(!matrix.is_fit(TensorNeed::PlainMatrix));
    assert!(matrix.is_fit(TensorNeed::Anything));
}

#[test]
fn a_number_is_made_of_a_tensors_bytes() {
    let entry = entry("s", 0, 3, vec![5, 6], 7);
    let bytes: Vec<u8> = vec![9, 8, 7];
    let sum: u64 = bytes
        .iter()
        .enumerate()
        .map(|(index, byte)| *byte as u64 * (index as u64 % 13 + 1))
        .sum();
    assert_eq!(entry_scalar_number(&entry, &bytes), (sum + 5 + 6 + 7) % 4096);
}

#[test]
fn projections_are_blended_into_the_state_by_their_share() {
    assert_eq!(LayerActionKind::AttentionOut.share_milli(), Some(350));
    assert_eq!(LayerActionKind::FfnDown.share_milli(), Some(400));
    assert_eq!(LayerActionKind::Projection.share_milli(), Some(250));
    assert_eq!(LayerActionKind::ProjectQuery.share_milli(), None);
    assert_eq!(LayerActionKind::ApplyMatrix.share_milli(), None);
}

#[test]
fn unknown_dimensions_count_as_zero() {
    let mut layer = program(Vec::new());
    layer.hidden_dim = Some(4);
    layer.q_out_dim = Some(8);
    layer.k_out_dim = None;
    layer.v_out_dim = Some(2);
    layer.ffn_inner_dim = None;
    assert_eq!(shape_dims(&layer), [4, 8, 0, 2, 0]);
}

/// Every action that a plan can hold.
const EVERY_KIND: [LayerActionKind; 17] = [
    LayerActionKind::ProjectQuery,
    LayerActionKind::ProjectKey,
    LayerActionKind::ProjectValue,
    LayerActionKind::AttentionOut,
    LayerActionKind::FfnGate,
    LayerActionKind::FfnUp,
    LayerActionKind::FfnDown,
    LayerActionKind::InputGate,
    LayerActionKind::Projection,
    LayerActionKind::DecodeMatrix,
    LayerActionKind::DecodeVector,
    LayerActionKind::ApplyVector,
    LayerActionKind::ApplyNorm,
    LayerActionKind::ApplyMatrix,
    LayerActionKind::ApplyNumericMatrix,
    LayerActionKind::ApplyScalar,
    LayerActionKind::Missing,
];

/// A layer whose vectors are all known.
fn projected_run() -> LayerRun {
    let mut run = LayerRun::start(3, None).unwrap();
    run.project(ProjectionSlice::Query, vec![1]);
    run.project(ProjectionSlice::Key, vec![2]);
    run.project(ProjectionSlice::Value, vec![3]);
    run.set_gate(vec![4]);
    run.set_up(vec![5]);
    run.set_input_gate(vec![6]);
    run
}

/// The vectors that a layer knows.
fn vectors(run: &LayerRun) -> [Option<Vec<u32>>; 7] {
    [
        run.scratch.attn_q.clone(),
        run.scratch.attn_k.clone(),
        run.scratch.attn_v.clone(),
        run.scratch.ffn_gate.clone(),
        run.scratch.ffn_up.clone(),
        run.scratch.input_gate.clone(),
        run.ffn_mix.as_ref().map(|mix| mix.activations.clone()),
    ]
}

#[test]
fn each_action_hands_its_vector_to_its_own_place() {
    for kind in EVERY_KIND {
        let mut run = projected_run();
        let mut expected = vectors(&run);
        assert_eq!(expected[6], None);
        let place = match kind {
            LayerActionKind::ProjectQuery => Some(0),
            LayerActionKind::ProjectKey => Some(1),
            LayerActionKind::ProjectValue => Some(2),
            LayerActionKind::FfnGate => Some(3),
            LayerActionKind::FfnUp => Some(4),
            LayerActionKind::InputGate => Some(5),
            LayerActionKind::FfnDown => Some(6),
            _ => None,
        };
        if let Some(place) = place {
            expected[place] = Some(vec![9, 9]);
        }
        run.take_values(kind, vec![9, 9]);
        assert_eq!(vectors(&run), expected, "{:?}", kind);
        assert_eq!(run.ffn.is_some(), kind == LayerActionKind::FfnDown);
        let attention = run.attention.unwrap();
        assert_eq!(
            [Some(attention.q), Some(attention.k), Some(attention.v)],
            expected[..3]
        );
        assert!(run.mix.is_none());
    }
}

#[test]
fn only_the_attention_output_takes_a_mix() {
    for kind in EVERY_KIND {
        let mut run = projected_run();
        let before = vectors(&run);
        run.take_mix(kind, AttentionMixState { scores: vec![7], values: vec![8] });
        assert_eq!(vectors(&run), before);
        assert!(run.ffn.is_none());
        let attention = run.attention.unwrap();
        assert_eq!((attention.q, attention.k, attention.v), (vec![1], vec![2], vec![3]));
        if kind == LayerActionKind::AttentionOut {
            let mix = run.mix.unwrap();
            assert_eq!((mix.scores, mix.values), (vec![7], vec![8]));
        } else {
            assert!(run.mix.is_none());
        }
    }
}

#[test]
fn carried_vectors_are_blended_where_an_action_computes_them() {
    for kind in EVERY_KIND {
        let expected = match kind {
            LayerActionKind::ProjectQuery => Some(BlendSlot::Query),
            LayerActionKind::ProjectKey => Some(BlendSlot::Key),
            LayerActionKind::ProjectValue => Some(BlendSlot::Value),
            LayerActionKind::FfnGate => Some(BlendSlot::Gate),
            LayerActionKind::FfnUp => Some(BlendSlot::Up),
            LayerActionKind::FfnDown => Some(BlendSlot::Activation),
            _ => None,
        };
        assert_eq!(kind.blend_slot(), expected);
        let projects = expected.is_some() && kind != LayerActionKind::FfnDown
            || kind == LayerActionKind::InputGate;
        assert_eq!(kind.projects(), projects);
    }
}

#[test]
fn a_matrix_of_no_numeric_type_is_not_decoded_whatever_its_bytes() {
    let halves = entry("blk.0.attn_q.weight", 0, 3, vec![u64::MAX, u64::MAX], GGML_TYPE_F16);
    assert!(matches!(decode_numeric_matrix(&halves, &[1, 2, 3]), Ok(None)));
}

#[test]
fn an_operation_on_two_matrices_hands_its_layer_nothing() {
    let store = store(vec![
        entry("a.weight", 0, 16, vec![2, 2], GGML_TYPE_F32),
        entry("b.weight", 16, 16, vec![2, 2], GGML_TYPE_F32),
    ]);
    let one = op(ExecutionOpKind::AttentionQ, &["a.weight"], ExecutionBinding::F32Matrix);
    let two =
        op(ExecutionOpKind::AttentionQ, &["a.weight", "b.weight"], ExecutionBinding::F32Matrix);
    let mut run = LayerRun::start(0, None).unwrap();
    let actions = plan_layer(&store, &program(vec![two]));
    assert_eq!(actions.len(), 2);
    for action in actions {
        run.take_values(action.kind, vec![1, 2]);
    }
    assert_eq!(vectors(&run), [None, None, None, None, None, None, None]);
    for action in plan_layer(&store, &program(vec![one])) {
        run.take_values(action.kind, vec![1, 2]);
    }
    assert_eq!(run.scratch.attn_q, Some(vec![1, 2]));
}
