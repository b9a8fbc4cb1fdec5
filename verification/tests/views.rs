//! The model as a stage sees it.
use stage_forward_lab::model_view::{
    LayerTensorUse, PackedTensorClass, classify_binding, classify_layer_tensor,
    classify_packed_tensor, named_entries, norm_dim, weight_in_dim, weight_out_dim,
};
use stage_forward_lab::sketch::StageStep;
use stage_forward_lab::{
    ExecutionBinding, ExecutionOpKind, PackedResidencySketchBackend, PackedStageArtifact,
    PackedStageIndex, PackedTensorEntry, StageModelView, StageResumeCapabilities, StageTensorStore,
};

fn tensor(name: &str, dimensions: Vec<u64>, ggml_type: u32) -> PackedTensorEntry {
    PackedTensorEntry {
        name: name.into(),
        pack_offset: 0,
        byte_len: 64,
        source_file_offset: 0,
        dimensions,
        ggml_type,
    }
}

fn view_of(role: &str, tensors: Vec<PackedTensorEntry>) -> StageModelView {
    StageTensorStore::load(PackedStageArtifact {
        pack_path: "stage.pack".into(),
        index_path: "stage.index.json".into(),
        index: PackedStageIndex {
            model_name: "Toy".into(),
            architecture: "toy".into(),
            stage_index: 0,
            role: role.into(),
            total_bytes: 0,
            tensor_count: tensors.len(),
            tensors,
        },
    })
    .model_view()
}

/// A stage of one layer that has all that a layer needs.
fn full_view() -> StageModelView {
    view_of(
        "middle",
        vec![
            tensor("blk.3.attn_norm.weight", vec![4], 0),
            tensor("blk.3.attn_q.weight", vec![8, 4], 0),
            tensor("blk.3.attn_k.weight", vec![8, 4], 0),
            tensor("blk.3.attn_v.weight", vec![8, 4], 0),
            tensor("blk.3.attn_output.weight", vec![4, 8], 0),
            tensor("blk.3.ffn_norm.weight", vec![4], 0),
            tensor("blk.3.ffn_gate.weight", vec![16, 4], 12),
            tensor("blk.3.ffn_up.weight", vec![16, 4], 12),
            tensor("blk.3.ffn_down.weight", vec![4, 16], 14),
            tensor("blk.3.inp_gate.weight", vec![4, 4], 0),
            tensor("blk.3.proj.weight", vec![4, 4], 0),
        ],
    )
}

#[test]
fn tensors_are_placed_by_their_names() {
    assert_eq!(classify_packed_tensor("blk.7.attn_q.weight"), PackedTensorClass::Layer(7));
    assert_eq!(classify_packed_tensor("blk.+7.x"), PackedTensorClass::Layer(7));
    assert_eq!(classify_packed_tensor("blk.x.y"), PackedTensorClass::Unknown);
    assert_eq!(classify_packed_tensor("blk.4294967296.y"), PackedTensorClass::Unknown);
    assert_eq!(classify_packed_tensor("token_embd.weight"), PackedTensorClass::PromptIngress);
    assert_eq!(classify_packed_tensor("rope_freqs.weight"), PackedTensorClass::Positional);
    assert_eq!(
        classify_packed_tensor("per_layer_token_embd.weight"),
        PackedTensorClass::SharedAuxiliary
    );
    assert_eq!(classify_packed_tensor("output_norm.weight"), PackedTensorClass::TailOnly);
    assert_eq!(classify_packed_tensor("mystery"), PackedTensorClass::Unknown);
    assert_eq!(classify_layer_tensor("blk.1.attn_q.weight"), LayerTensorUse::AttnQ);
    assert_eq!(classify_layer_tensor("blk.1.attn_q_norm.weight"), LayerTensorUse::AttnQNorm);
    assert_eq!(classify_layer_tensor("blk.1.post_norm.weight"), LayerTensorUse::PostNorm);
    assert_eq!(classify_layer_tensor("blk.1.other"), LayerTensorUse::Unknown);
}

#[test]
fn a_full_layer_has_a_program_that_runs() {
    let view = full_view();
    assert_eq!(view.role, "middle");
    assert_eq!(view.layers.len(), 1);
    assert_eq!(view.layers[0].layer_index, 3);
    let spec = &view.execution_layers[0];
    assert!(spec.runnable_sketch);
    assert_eq!(spec.hidden_dim, Some(4));
    assert_eq!(spec.q_out_dim, Some(8));
    assert_eq!(spec.ffn_inner_dim, Some(16));
    let kinds: Vec<ExecutionOpKind> =
        view.execution_programs[0].ops.iter().map(|op| op.kind).collect();
    assert_eq!(
        kinds,
        [
            ExecutionOpKind::AttentionNorm,
            ExecutionOpKind::AttentionQ,
            ExecutionOpKind::AttentionK,
            ExecutionOpKind::AttentionV,
            ExecutionOpKind::AttentionOut,
            ExecutionOpKind::FfnNorm,
            ExecutionOpKind::FfnGate,
            ExecutionOpKind::FfnUp,
            ExecutionOpKind::FfnDown,
            ExecutionOpKind::InputGate,
            ExecutionOpKind::Projection,
        ]
    );
    assert_eq!(view.execution_programs[0].ops[0].binding, ExecutionBinding::F32Vector);
    assert_eq!(view.execution_programs[0].ops[1].binding, ExecutionBinding::F32Matrix);
    assert_eq!(view.execution_programs[0].ops[6].binding, ExecutionBinding::QuantizedMatrix);
}

#[test]
fn a_program_that_runs_resumes_everything() {
    let view = full_view();
    let capabilities =
        StageResumeCapabilities::from_execution_programs(&view.execution_programs, Some(3));
    assert!(capabilities.attention_path);
    assert!(capabilities.attention_q && capabilities.attention_k && capabilities.attention_v);
    assert!(capabilities.attention_projection && capabilities.attention_mix);
    assert!(capabilities.ffn_path && capabilities.projection_path);
}

#[test]
fn layers_are_in_order_and_every_tensor_has_a_place() {
    let names = ["blk.10.a", "x", "blk.2.b", "token_embd.weight", "output.weight", "blk.10.c"];
    let view = view_of("middle", names.iter().map(|name| tensor(name, vec![1], 0)).collect());
    let layers: Vec<u32> = view.layers.iter().map(|layer| layer.layer_index).collect();
    assert_eq!(layers, [2, 10]);
    assert_eq!(view.layers[1].tensors.len(), 2);
    assert_eq!(view.operator_layers[1].unknown.len(), 2);
    let placed = view.layers.iter().map(|layer| layer.tensors.len()).sum::<usize>()
        + view.prompt_ingress.len()
        + view.positional.len()
        + view.shared_auxiliary.len()
        + view.tail_only.len();
    assert_eq!(placed, names.len());
}

#[test]
fn an_empty_stage_has_an_empty_view() {
    let view = view_of("tail", Vec::new());
    assert!(view.layers.is_empty() && view.execution_programs.is_empty());
    assert_eq!(PackedResidencySketchBackend::expected_attention_carry_width(&view), None);
    assert_eq!(PackedResidencySketchBackend::expected_ffn_carry_width(&view), None);
}

#[test]
fn the_expected_carry_is_as_wide_as_the_programs() {
    let view = full_view();
    assert_eq!(PackedResidencySketchBackend::expected_attention_carry_width(&view), Some(8));
    assert_eq!(PackedResidencySketchBackend::expected_ffn_carry_width(&view), Some(16));
}

#[test]
fn tensors_stored_alike_are_bound_alike() {
    let vector = tensor("v", vec![4], 0);
    let matrix = tensor("m", vec![4, 4], 0);
    let quantized = tensor("q", vec![256, 1], 12);
    assert_eq!(classify_binding(&[&vector, &vector]).0, ExecutionBinding::F32Vector);
    assert_eq!(classify_binding(&[&matrix]).0, ExecutionBinding::F32Matrix);
    assert_eq!(classify_binding(&[&quantized]).0, ExecutionBinding::QuantizedMatrix);
    assert_eq!(classify_binding(&[&vector, &matrix]).0, ExecutionBinding::Mixed);
    assert_eq!(classify_binding(&[]).0, ExecutionBinding::Unsupported);
    assert_eq!(named_entries(&[&vector, &matrix]), ["v", "m"]);
}

#[test]
fn dimensions_are_read_off_a_tensor() {
    let matrix = Some(tensor("m", vec![4, 9], 0));
    assert_eq!(weight_in_dim(&matrix), Some(9));
    assert_eq!(weight_out_dim(&matrix), Some(4));
    assert_eq!(norm_dim(&matrix), Some(4));
    assert_eq!(weight_out_dim(&None), None);
}

#[test]
fn a_stage_works_through_its_tensors_and_layers_in_order() {
    let view = view_of(
        "head",
        vec![
            tensor("token_embd.weight", vec![8, 4], 0),
            tensor("rope_freqs.weight", vec![4], 0),
            tensor("per_layer_model_proj.weight", vec![4, 4], 0),
            tensor("blk.0.attn_norm.weight", vec![4], 0),
            tensor("blk.1.attn_norm.weight", vec![4], 0),
        ],
    );
    let stage = PackedResidencySketchBackend::new("stage.index.json".into());
    assert_eq!(
        stage.prompt_steps(&view),
        vec![
            StageStep::MixIngress(0),
            StageStep::MixPositional(0),
            StageStep::MixShared(0),
            StageStep::RunLayer(0),
            StageStep::RunLayer(1),
        ]
    );
    assert_eq!(
        stage.tensor_steps(&view),
        vec![
            StageStep::MixPositional(0),
            StageStep::MixShared(0),
            StageStep::RunLayer(0),
            StageStep::RunLayer(1),
        ]
    );
    let capped = stage.with_debug_layer_cap(1);
    assert_eq!(
        capped.tensor_steps(&view),
        vec![StageStep::MixPositional(0), StageStep::MixShared(0), StageStep::RunLayer(0)]
    );
    assert_eq!(PackedResidencySketchBackend::tail_steps(&view), vec![]);
}

#[test]
fn the_last_stage_mixes_its_tail_tensors() {
    let view = view_of(
        "tail",
        vec![
            tensor("output.weight", vec![8, 4], 0),
            tensor("output_norm.weight", vec![4], 0),
        ],
    );
    assert_eq!(
        PackedResidencySketchBackend::tail_steps(&view),
        vec![StageStep::MixTail(0), StageStep::MixTail(1)]
    );
    assert_eq!(PackedResidencySketchBackend::layer_salt("stage-1", 21), "stage-1:layer:21");
    assert_eq!(PackedResidencySketchBackend::tail_salt("stage-1"), "stage-1:tail");
}
