//! Packed stages at work: the library plans and keeps the books, the numbers are computed here.
use stage_forward_lab::frame::{PreviewStatistics, TransientStatistics};
use stage_forward_lab::hidden::{decode_hidden_state, encode_hidden_state};
use stage_forward_lab::layer_plan::{
    LayerActionKind, decode_f32_vector, decode_numeric_matrix, entry_scalar_number, plan_layer,
    shape_dims,
};
use stage_forward_lab::layer_run::{
    AttentionMixState, Blend, BlendSlot, LayerRun, blend_lane_steps,
};
use stage_forward_lab::quants::DequantizedTensor;
use stage_forward_lab::sketch::{LayerLoop, StageStep};
use stage_forward_lab::{
    AttentionContinuation, FfnContinuation, PackedResidencySketchBackend, PackedStageArtifact,
    PackedStageIndex, PackedTensorEntry, PayloadKind, StageCarryPolicy, StageCarryState,
    StageContinuation, StageForwardFrame, StageLayout, StageModelView, StageSample, StageTensor, StageTensorStore,
    StageTransientState,
};

fn bits(values: &[f32]) -> Vec<u32> {
    values.iter().map(|value| value.to_bits()).collect()
}

fn numbers(bits: &[u32]) -> Vec<f32> {
    bits.iter().map(|bits| f32::from_bits(*bits)).collect()
}

fn packed_head_layout() -> StageLayout {
    StageLayout {
        model_id: "Toy".into(),
        stage_id: "packed-head".into(),
        start_layer: 0,
        end_layer: 0,
        is_head: true,
        is_tail: false,
    }
}

fn packed_tail_layout() -> StageLayout {
    StageLayout {
        model_id: "Toy".into(),
        stage_id: "packed-tail".into(),
        start_layer: 1,
        end_layer: 1,
        is_head: false,
        is_tail: true,
    }
}

/// A stage with its pack.
struct Stage {
    backend: PackedResidencySketchBackend,
    pack: Vec<u8>,
}

/// A stage of tensors with the given bytes, one after the other in its pack.
fn stage(role: &str, layout: StageLayout, tensors: Vec<(&str, Vec<u8>, Vec<u64>)>) -> Stage {
    let mut pack = Vec::new();
    let mut entries = Vec::new();
    for (name, bytes, dimensions) in tensors {
        entries.push(PackedTensorEntry {
            name: name.into(),
            pack_offset: pack.len() as u64,
            byte_len: bytes.len() as u64,
            source_file_offset: pack.len() as u64,
            dimensions,
            ggml_type: 0,
        });
        pack.extend_from_slice(&bytes);
    }
    let store = StageTensorStore::load(PackedStageArtifact {
        pack_path: "stage.pack".into(),
        index_path: "stage.index.json".into(),
        index: PackedStageIndex {
            model_name: "Toy".into(),
            architecture: "toy".into(),
            stage_index: 1,
            role: role.into(),
            total_bytes: pack.len() as u64,
            tensor_count: entries.len(),
            tensors: entries,
        },
    });
    let mut backend = PackedResidencySketchBackend::new("stage.index.json".into());
    backend.load_stage(store, layout).unwrap();
    Stage { backend, pack }
}

fn salt_at(salt: &[u8], index: usize) -> f32 {
    salt[index % salt.len()] as f32 / 255.0
}

fn apply_scalar(state: &mut [f32], scalar: f32, salt: &[u8]) {
    let before = state.to_vec();
    let len = before.len();
    for (idx, value) in state.iter_mut().enumerate() {
        let mix = before[(idx + len - 1) % len] * 0.11 + before[(idx + 1) % len] * 0.07;
        *value = ((before[idx] * (1.0 + scalar * 0.05))
            + mix
            + salt_at(salt, idx) * 0.03
            + scalar * 0.1)
            .tanh();
    }
}

fn apply_vector(state: &mut [f32], vector: &[f32], salt: &[u8], norm: bool) {
    let len = state.len().min(vector.len());
    let mean_sq = state[..len].iter().map(|value| value * value).sum::<f32>() / len as f32;
    let rms = if norm { (mean_sq + 1.0e-6).sqrt() } else { 1.0 };
    for idx in 0..state.len() {
        state[idx] = if idx < len {
            (state[idx] / rms * vector[idx] + salt_at(salt, idx) * 0.01).tanh()
        } else {
            (state[idx] + salt_at(salt, idx) * 0.005).tanh()
        };
    }
}

fn project(matrix: &[Vec<f32>], state: &[f32]) -> Vec<f32> {
    matrix
        .iter()
        .map(|row| {
            row.iter().enumerate().map(|(col, weight)| weight * state[col % state.len()]).sum()
        })
        .collect()
}

fn blend_projection(state: &mut [f32], projection: &[f32], salt: &[u8], kind: LayerActionKind) {
    let weight = kind.share_milli().unwrap() as f32 / 1000.0;
    for (idx, value) in state.iter_mut().enumerate() {
        let projected = projection[idx % projection.len()].tanh();
        *value = (*value * (1.0 - weight) + projected * weight + salt_at(salt, idx) * 0.01).tanh();
    }
}

fn blend_into(current: &mut [f32], blend: Option<Blend>) {
    if let Some(blend) = blend {
        let carry = numbers(&blend.carry);
        let weight = blend.weight_milli as f32 / 1000.0;
        for (to, from) in blend_lane_steps(current.len(), carry.len(), blend.lanes.as_deref()) {
            current[to] = (current[to] * (1.0 - weight) + carry[from] * weight).tanh();
        }
    }
}

impl Stage {
    fn view(&self) -> &StageModelView {
        self.backend.model_view().unwrap()
    }

    fn bytes(&self, entry: &PackedTensorEntry) -> Vec<u8> {
        self.backend.store().unwrap().read(&entry.name, &self.pack).unwrap()
    }

    fn mix(&self, state: &mut [f32], entry: &PackedTensorEntry, salt: &[u8]) {
        let number = entry_scalar_number(entry, &self.bytes(entry));
        apply_scalar(state, (number as f32 / 4096.0) * 2.0 - 1.0, salt);
    }

    fn matrix(&self, entry: &PackedTensorEntry) -> Vec<Vec<f32>> {
        match decode_numeric_matrix(entry, &self.bytes(entry)).unwrap().unwrap() {
            (_, cols, DequantizedTensor::Numbers(values)) => {
                numbers(&values).chunks(cols).map(|row| row.to_vec()).collect()
            }
            _ => unreachable!(),
        }
    }

    fn finish_attention(&self, run: &mut LayerRun, state: &mut [f32], matrix: &[Vec<f32>], salt: &[u8]) {
        let mut merged = Vec::new();
        if let Some(attention) = run.scratch.build_attention_state() {
            let (q, k, v) = (numbers(&attention.q), numbers(&attention.k), numbers(&attention.v));
            let scale = (q.len() as f32).sqrt();
            let mut scores: Vec<f32> = (0..matrix.len())
                .map(|idx| {
                    ((q[idx % q.len()] * k[idx % k.len()]) / scale + salt_at(salt, idx) * 0.05)
                        .tanh()
                })
                .collect();
            let mut values: Vec<f32> = (0..matrix.len()).map(|idx| v[idx % v.len()]).collect();
            blend_into(&mut scores, run.scratch.blend_for(BlendSlot::Score));
            blend_into(&mut values, run.scratch.blend_for(BlendSlot::MixedValue));
            merged = (0..scores.len())
                .map(|idx| (scores[idx] * values[idx] + salt_at(salt, idx) * 0.01).tanh())
                .collect();
            let mix = AttentionMixState { scores: bits(&scores), values: bits(&values) };
            run.take_mix(LayerActionKind::AttentionOut, mix);
        }
        if merged.is_empty() {
            merged = project(matrix, state);
        }
        blend_projection(state, &project(matrix, &merged), salt, LayerActionKind::AttentionOut);
    }

    fn finish_ffn(&self, run: &mut LayerRun, state: &mut [f32], matrix: &[Vec<f32>], salt: &[u8]) {
        let mut input = state.to_vec();
        if let Some(ffn) = run.scratch.build_ffn_state() {
            let (gate, up) = (numbers(&ffn.gate), numbers(&ffn.up));
            let mut activations: Vec<f32> = (0..gate.len().max(up.len()))
                .map(|idx| gate[idx % gate.len()].tanh() * up[idx % up.len()])
                .collect();
            blend_into(&mut activations, run.scratch.blend_for(BlendSlot::Activation));
            input = activations
                .iter()
                .enumerate()
                .map(|(idx, value)| (value + salt_at(salt, idx) * 0.01).tanh())
                .collect();
            run.take_values(LayerActionKind::FfnDown, bits(&activations));
        }
        blend_projection(state, &project(matrix, &input), salt, LayerActionKind::FfnDown);
    }

    fn run_layer(
        &self,
        state: &mut [f32],
        place: usize,
        stage_id: &str,
        resume_carry: Option<&StageCarryState>,
        policy: &StageCarryPolicy,
    ) -> (Option<StageTransientState>, Option<StageCarryState>) {
        let store = self.backend.store().unwrap();
        let program = &self.view().execution_programs[place];
        let layer_index = self.view().operator_layers[place].layer_index;
        let salt = PackedResidencySketchBackend::layer_salt(stage_id, layer_index);
        let salt = salt.as_bytes();
        let mut run = LayerRun::start(layer_index, resume_carry).unwrap();
        for action in plan_layer(store, program) {
            let entry = store.entry(&action.tensor).unwrap();
            match action.kind {
                LayerActionKind::ApplyScalar => self.mix(state, entry, salt),
                LayerActionKind::ApplyVector | LayerActionKind::ApplyNorm => {
                    let vector = decode_f32_vector(entry, &self.bytes(entry)).unwrap().unwrap();
                    let norm = action.kind == LayerActionKind::ApplyNorm;
                    apply_vector(state, &numbers(&vector), salt, norm);
                }
                kind if kind.projects() => {
                    let mut projected = project(&self.matrix(entry), state);
                    let blend = kind.blend_slot().and_then(|slot| run.scratch.blend_for(slot));
                    blend_into(&mut projected, blend);
                    run.take_values(kind, bits(&projected));
                }
                LayerActionKind::AttentionOut => {
                    self.finish_attention(&mut run, state, &self.matrix(entry), salt);
                }
                LayerActionKind::FfnDown => {
                    self.finish_ffn(&mut run, state, &self.matrix(entry), salt);
                }
                kind => panic!("no tensor here asks for {:?}", kind),
            }
        }
        let shape = shape_dims(program).map(|dimension| dimension as f32);
        for (idx, value) in state.iter_mut().enumerate() {
            *value = (*value
                + ((shape[idx % shape.len()] % 4096.0) / 4096.0)
                + (layer_index as f32 * 0.001))
                .tanh();
        }
        run.finish(policy)
    }

    fn run_steps(
        &self,
        state: &mut [f32],
        steps: Vec<StageStep>,
        resume_carry: Option<StageCarryState>,
        policy: &StageCarryPolicy,
    ) -> LayerLoop {
        let view = self.view();
        let stage_id = &self.backend.layout().unwrap().stage_id;
        let salt = stage_id.as_bytes();
        let mut layers = LayerLoop::start(resume_carry);
        for step in steps {
            match step {
                StageStep::MixIngress(place) => self.mix(state, &view.prompt_ingress[place], salt),
                StageStep::MixPositional(place) => self.mix(state, &view.positional[place], salt),
                StageStep::MixShared(place) => self.mix(state, &view.shared_auxiliary[place], salt),
                StageStep::MixTail(place) => self.mix(state, &view.tail_only[place], salt),
                StageStep::RunLayer(place) => {
                    let (transient, carry) =
                        self.run_layer(state, place, stage_id, layers.resume_seed(), policy);
                    layers = layers.absorb(transient, carry);
                }
            }
        }
        layers
    }

    fn begin(&self, request_id: &str, prompt: &str, max_tokens: Option<u32>) -> StageTensor {
        self.backend.check_begin().unwrap();
        let layout = self.backend.layout().unwrap();
        let view = self.view();
        let width = PackedResidencySketchBackend::hidden_dim(view);
        let seed =
            PackedResidencySketchBackend::prompt_seed(prompt, view, &layout.stage_id, width);
        let mut state: Vec<f32> =
            seed.iter().map(|byte| ((*byte as f32) / 255.0) * 2.0 - 1.0).collect();
        let policy =
            StageCarryPolicy::for_execution_boundary(layout, None, &view.execution_programs);
        let steps = self.backend.prompt_steps(view);
        let layers = self.run_steps(&mut state, steps, None, &policy);
        let count = self.backend.execution_layer_count(view);
        StageTensor::from_prompt(
            request_id,
            &layout.stage_id,
            width,
            encode_hidden_state(&bits(&state)),
            prompt,
            max_tokens,
        )
        .with_left_state(self.backend.continuation_after(layout, view, count), layers)
    }

    fn proceed(&self, input: StageTensor) -> StageTensor {
        self.backend.check_continue(input.kind).unwrap();
        let layout = self.backend.layout().unwrap();
        let view = self.view();
        let salt = layout.stage_id.as_bytes();
        let mut state: Vec<f32> =
            numbers(&decode_hidden_state(&input.bytes, input.hidden_dim).unwrap())
                .iter()
                .enumerate()
                .map(|(idx, value)| {
                    (value + salt_at(salt, idx) + ((idx % 17) as f32 * 0.01)).tanh()
                })
                .collect();
        let count = self.backend.execution_layer_count(view);
        let resume_carry = PackedResidencySketchBackend::resume_carry(&input);
        let continuation = self.backend.continuation_after(layout, view, count);
        let policy = StageCarryPolicy::for_execution_boundary(
            layout,
            Some(&continuation),
            &view.execution_programs,
        );
        let steps = self.backend.tensor_steps(view);
        let layers = self.run_steps(&mut state, steps, resume_carry, &policy);
        let hidden_dim = input.hidden_dim;
        input
            .continue_with(&layout.stage_id, hidden_dim, encode_hidden_state(&bits(&state)))
            .with_left_state(continuation, layers)
    }

    fn sample(&self, input: StageTensor) -> StageSample {
        self.backend.check_tail(input.kind).unwrap();
        let layout = self.backend.layout().unwrap();
        let view = self.view();
        let mut state = numbers(&decode_hidden_state(&input.bytes, input.hidden_dim).unwrap());
        let salt = PackedResidencySketchBackend::tail_salt(&layout.stage_id);
        for step in PackedResidencySketchBackend::tail_steps(view) {
            if let StageStep::MixTail(place) = step {
                self.mix(&mut state, &view.tail_only[place], salt.as_bytes());
            }
        }
        let bytes = encode_hidden_state(&bits(&state));
        let text = PackedResidencySketchBackend::sample_text(&bytes, input.max_tokens);
        StageSample::from_text(input.request_id, layout.model_id.clone(), text)
    }
}

/// A head of one layer and a tail, out of a file of 300 bytes.
fn two_stages() -> (Stage, Stage) {
    let file: Vec<u8> = (0..=255u8).cycle().take(300).collect();
    let head = stage(
        "head",
        packed_head_layout(),
        vec![
            ("token_embd.weight", file[..100].to_vec(), vec![1]),
            ("blk.0.attn_q.weight", file[100..200].to_vec(), vec![1]),
        ],
    );
    let tail = stage(
        "tail",
        packed_tail_layout(),
        vec![("output_norm.weight", file[200..].to_vec(), vec![1])],
    );
    (head, tail)
}

/// The mean, the mean size and the root mean square of a preview, in thousandths.
fn preview_statistics(preview: &[u32]) -> PreviewStatistics {
    let values: Vec<f32> = preview.iter().map(|value| f32::from_bits(*value)).collect();
    if values.is_empty() {
        return PreviewStatistics { mean_milli: 0, mean_abs_milli: 0, rms_milli: 0 };
    }
    let count = values.len() as f32;
    let mean = values.iter().sum::<f32>() / count;
    let mean_abs = values.iter().map(|value| value.abs()).sum::<f32>() / count;
    let rms = (values.iter().map(|value| value * value).sum::<f32>() / count).sqrt();
    PreviewStatistics {
        mean_milli: (mean * 1000.0).round() as i32,
        mean_abs_milli: (mean_abs * 1000.0).round() as u32,
        rms_milli: (rms * 1000.0).round() as u32,
    }
}

/// The statistics of what a frame's state previews.
fn statistics(frame: &StageForwardFrame) -> TransientStatistics {
    let transient = frame.state.transient.as_ref();
    let attention = transient
        .and_then(|transient| transient.attention.as_ref())
        .map(|attention| attention.preview_values())
        .unwrap_or_default();
    let ffn = transient
        .and_then(|transient| transient.ffn.as_ref())
        .map(|ffn| ffn.preview_values())
        .unwrap_or_default();
    TransientStatistics {
        attention: preview_statistics(&attention),
        ffn: preview_statistics(&ffn),
    }
}

#[test]
fn packed_residency_backend_runs_two_stage_roundtrip() {
    let (head, tail) = two_stages();
    let stage1 = head.begin("packed-req", "reply exactly STAGE PACK", Some(12));
    let stage1_cont = stage1.continuation.clone().unwrap();
    assert_eq!(stage1_cont.version, 1);
    assert_eq!(stage1_cont.stage_role, "head");
    assert_eq!(stage1_cont.completed_layers, 1);
    assert_eq!(stage1_cont.operator_layers, 1);
    assert_eq!(stage1_cont.next_layer_index, None);
    assert!(stage1.transient.is_none());
    let stage2 = tail.proceed(stage1);
    let stage2_cont = stage2.continuation.clone().unwrap();
    assert_eq!(stage2_cont.version, 1);
    assert_eq!(stage2_cont.stage_role, "tail");
    assert_eq!(stage2_cont.completed_layers, stage2_cont.operator_layers as u32);
    assert_eq!(stage2_cont.next_layer_index, None);
    assert!(stage2.transient.is_none());
    let sample = tail.sample(stage2);

    assert!(!sample.text.is_empty());
    assert!(sample.completion_tokens > 0);
}

#[test]
fn packed_backend_debug_layer_cap_updates_continuation() {
    let (head, _) = two_stages();
    let head = Stage { backend: head.backend.with_debug_layer_cap(0), pack: head.pack };
    let stage1 = head.begin("packed-req", "reply exactly STAGE PACK", Some(12));
    let cont = stage1.continuation.unwrap();
    assert_eq!(cont.completed_layers, 0);
    assert_eq!(cont.next_layer_index, Some(0));
    assert!(stage1.transient.is_none());
}

#[test]
fn packed_backend_resume_forward_matches_direct_continue() {
    let (head, tail) = two_stages();
    let stage1 = head.begin("packed-req", "reply exactly STAGE PACK", Some(12));
    let direct = tail.proceed(stage1.clone());

    let frame = StageForwardFrame::from_tensor(
        "Toy",
        &packed_head_layout(),
        stage1,
        Some("packed-tail".into()),
    );
    let tail_view = tail.backend.store().unwrap().model_view();
    let boundary = frame.to_boundary_plan_for_execution_boundary(
        &packed_tail_layout(),
        &tail_view.execution_programs,
    );
    let transfer = frame.to_transfer_frame_for_execution_boundary(
        &packed_tail_layout(),
        &tail_view.execution_programs,
        &statistics(&frame),
    );
    let request = boundary.to_resume_request(transfer).unwrap();

    let (input, receipt) = tail.backend.resume_input(request).unwrap();
    let resumed = tail.proceed(input);
    assert!(receipt.accepted);
    assert_eq!(resumed.kind, direct.kind);
    assert_eq!(resumed.hidden_dim, direct.hidden_dim);
    assert_eq!(resumed.stage_trace, direct.stage_trace);
    assert_eq!(resumed.bytes, direct.bytes);
}

fn vector_bytes(values: &[f32]) -> Vec<u8> {
    values.iter().flat_map(|value| value.to_le_bytes()).collect()
}

/// A stage of one layer with an attention block and a feed-forward block.
fn full_stage() -> Stage {
    let diagonal = |value: f32| -> Vec<u8> {
        let values: Vec<f32> = (0..16).map(|at| if at % 5 == 0 { value } else { 0.0 }).collect();
        vector_bytes(&values)
    };
    stage(
        "tail",
        packed_tail_layout(),
        vec![
            ("blk.1.attn_norm.weight", vector_bytes(&[1.0, 0.9, 1.1, 1.05]), vec![4]),
            (
                "blk.1.attn_q.weight",
                vector_bytes(&[
                    1.0, 0.1, 0.0, 0.0, 0.0, 1.0, 0.1, 0.0, 0.0, 0.0, 1.0, 0.1, 0.1, 0.0, 0.0, 1.0,
                ]),
                vec![4, 4],
            ),
            (
                "blk.1.attn_k.weight",
                vector_bytes(&[
                    0.9, 0.0, 0.0, 0.1, 0.1, 0.9, 0.0, 0.0, 0.0, 0.1, 0.9, 0.0, 0.0, 0.0, 0.1, 0.9,
                ]),
                vec![4, 4],
            ),
            (
                "blk.1.attn_v.weight",
                vector_bytes(&[
                    1.1, 0.0, 0.1, 0.0, 0.0, 1.1, 0.0, 0.1, 0.1, 0.0, 1.1, 0.0, 0.0, 0.1, 0.0, 1.1,
                ]),
                vec![4, 4],
            ),
            ("blk.1.attn_output.weight", diagonal(0.8), vec![4, 4]),
            ("blk.1.ffn_norm.weight", vector_bytes(&[1.0, 1.0, 1.0, 1.0]), vec![4]),
            ("blk.1.ffn_gate.weight", diagonal(1.2), vec![4, 4]),
            (
                "blk.1.ffn_up.weight",
                vector_bytes(&[
                    0.7, 0.1, 0.0, 0.0, 0.0, 0.7, 0.1, 0.0, 0.0, 0.0, 0.7, 0.1, 0.1, 0.0, 0.0, 0.7,
                ]),
                vec![4, 4],
            ),
            ("blk.1.ffn_down.weight", diagonal(0.6), vec![4, 4]),
        ],
    )
}

fn carried_tensor() -> StageTensor {
    StageTensor {
        request_id: "packed-carry-req".into(),
        kind: PayloadKind::HiddenState,
        stage_trace: vec!["packed-head".into()],
        hidden_dim: 4,
        bytes: vec![0; 16],
        prompt_text: Some("reply exactly STAGE PACK".into()),
        max_tokens: Some(12),
        continuation: Some(StageContinuation {
            version: 1,
            stage_role: "head".into(),
            next_layer_index: Some(1),
            completed_layers: 1,
            operator_layers: 1,
            has_attention_path: true,
            has_ffn_path: true,
            has_projection_path: false,
        }),
        transient: Some(StageTransientState {
            attention: Some(AttentionContinuation {
                width: 4,
                lane_indices: vec![0, 1, 2, 3],
                q_preview: bits(&[0.8, -0.4, 0.2, 0.1]),
                k_preview: bits(&[0.2, 0.7, -0.3, 0.4]),
                v_preview: bits(&[0.6, 0.1, 0.5, -0.2]),
                score_preview: bits(&[0.3, 0.2, 0.1, 0.4]),
                value_preview: bits(&[0.5, -0.1, 0.4, 0.2]),
            }),
            ffn: Some(FfnContinuation {
                width: 4,
                lane_indices: vec![0, 1, 2, 3],
                gate_preview: bits(&[0.9, -0.7, 0.4, 0.2]),
                up_preview: bits(&[0.5, 0.3, -0.6, 0.7]),
                activation_preview: bits(&[0.4, -0.2, 0.3, 0.1]),
            }),
        }),
        carry: None,
    }
}

#[test]
fn packed_backend_resume_carry_changes_downstream_execution() {
    let tail = full_stage();
    let with_carry = carried_tensor();
    let mut without_carry = with_carry.clone();
    without_carry.transient = None;
    without_carry.carry = None;

    let carried = tail.proceed(with_carry);
    let stripped = tail.proceed(without_carry);

    assert_ne!(carried.bytes, stripped.bytes);
}

#[test]
fn a_full_layer_leaves_a_preview_of_both_its_blocks() {
    let tail = full_stage();
    let left = tail.proceed(carried_tensor());
    let transient = left.transient.unwrap();
    let attention = transient.attention.unwrap();
    assert_eq!(attention.width, 4);
    assert_eq!(attention.lane_indices, vec![0, 1, 2, 3]);
    assert_eq!(attention.score_preview.len(), 4);
    assert_eq!(transient.ffn.unwrap().activation_preview.len(), 4);
    assert_eq!(left.stage_trace, vec!["packed-head".to_string(), "packed-tail".to_string()]);
}
