//! Stages that run from a pack: what they accept, where they stand, what they sample.
use stage_forward_lab::frame::{PreviewStatistics, TransientStatistics};
use stage_forward_lab::sketch::LayerLoop;
use stage_forward_lab::{
    FfnContinuation, PackedResidencySketchBackend, PackedStageArtifact, PackedStageIndex,
    PackedTensorEntry, PayloadKind, STAGE_FORWARD_FRAME_VERSION, StageBoundaryPlan,
    StageCarryPolicy, StageCarryState, StageContinuation, StageForwardFrame, StageLayout,
    StageResumeContractSummary, StageResumeRequest, StageRoute, StageTensor, StageTensorStore,
    StageTransferFrame, StageTransferPayload, StageTransferStateEnvelope, StageTransientState,
};

/// The bit patterns of numbers.
fn bits(values: &[f32]) -> Vec<u32> {
    values.iter().map(|value| value.to_bits()).collect()
}

fn packed_head_layout() -> StageLayout {
    StageLayout {
        model_id: "Toy".into(),
        stage_id: "packed-head".into(),
        start_layer: 0,
        end_layer: 0,
        is_head: true,
        is_tail: false,
    }
}

fn packed_tail_layout() -> StageLayout {
    StageLayout {
        model_id: "Toy".into(),
        stage_id: "packed-tail".into(),
        start_layer: 1,
        end_layer: 1,
        is_head: false,
        is_tail: true,
    }
}

fn entry(name: &str, place: u64) -> PackedTensorEntry {
    PackedTensorEntry {
        name: name.into(),
        pack_offset: 100 * place,
        byte_len: 100,
        source_file_offset: 100 * place,
        dimensions: vec![1],
        ggml_type: 0,
    }
}

fn store(role: &str, tensors: Vec<PackedTensorEntry>) -> StageTensorStore {
    StageTensorStore::load(PackedStageArtifact {
        pack_path: "stage.pack".into(),
        index_path: "stage.index.json".into(),
        index: PackedStageIndex {
            model_name: "Toy".into(),
            architecture: "toy".into(),
            stage_index: 0,
            role: role.into(),
            total_bytes: 100 * tensors.len() as u64,
            tensor_count: tensors.len(),
            tensors,
        },
    })
}

fn head_backend() -> PackedResidencySketchBackend {
    let mut head = PackedResidencySketchBackend::new("stage-1-required.index.json".into());
    let tensors = vec![entry("token_embd.weight", 0), entry("blk.0.attn_q.weight", 1)];
    head.load_stage(store("head", tensors), packed_head_layout()).unwrap();
    head
}

fn tail_backend() -> PackedResidencySketchBackend {
    let mut tail = PackedResidencySketchBackend::new("stage-2-required.index.json".into());
    tail.load_stage(store("tail", vec![entry("output_norm.weight", 0)]), packed_tail_layout())
        .unwrap();
    tail
}

/// A request to resume at the second of two layers, with no carry.
fn plain_request(model_id: &str, target: Option<&str>, hidden_dim: usize) -> StageResumeRequest {
    let layout = StageLayout { model_id: model_id.into(), ..packed_head_layout() };
    let tensor = StageTensor::from_prompt(
        "req",
        "packed-head",
        hidden_dim,
        vec![0; 4 * hidden_dim],
        "hello",
        Some(8),
    )
    .with_left_state(
        StageContinuation {
            version: 1,
            stage_role: "head".into(),
            next_layer_index: Some(1),
            completed_layers: 1,
            operator_layers: 1,
            has_attention_path: false,
            has_ffn_path: false,
            has_projection_path: false,
        },
        LayerLoop::start(None),
    );
    let frame = StageForwardFrame::from_tensor(
        model_id,
        &layout,
        tensor,
        target.map(|target| target.to_string()),
    );
    let plan = frame.to_boundary_plan_for_execution_boundary(&layout, &[]);
    let transfer =
        frame.to_transfer_frame_for_execution_boundary(&layout, &[], &statistics(&frame));
    plan.to_resume_request(transfer).unwrap()
}

/// The mean, the mean size and the root mean square of a preview, in thousandths.
fn preview_statistics(preview: &[u32]) -> PreviewStatistics {
    let values: Vec<f32> = preview.iter().map(|value| f32::from_bits(*value)).collect();
    if values.is_empty() {
        return PreviewStatistics { mean_milli: 0, mean_abs_milli: 0, rms_milli: 0 };
    }
    let count = values.len() as f32;
    let mean = values.iter().sum::<f32>() / count;
    let mean_abs = values.iter().map(|value| value.abs()).sum::<f32>() / count;
    let rms = (values.iter().map(|value| value * value).sum::<f32>() / count).sqrt();
    PreviewStatistics {
        mean_milli: (mean * 1000.0).round() as i32,
        mean_abs_milli: (mean_abs * 1000.0).round() as u32,
        rms_milli: (rms * 1000.0).round() as u32,
    }
}

/// The statistics of what a frame's state previews.
fn statistics(frame: &StageForwardFrame) -> TransientStatistics {
    let transient = frame.state.transient.as_ref();
    let attention = transient
        .and_then(|transient| transient.attention.as_ref())
        .map(|attention| attention.preview_values())
        .unwrap_or_default();
    let ffn = transient
        .and_then(|transient| transient.ffn.as_ref())
        .map(|ffn| ffn.preview_values())
        .unwrap_or_default();
    TransientStatistics {
        attention: preview_statistics(&attention),
        ffn: preview_statistics(&ffn),
    }
}

#[test]
fn packed_backend_admits_matching_resume_request() {
    let tail = tail_backend();

    let request = StageResumeRequest {
        version: STAGE_FORWARD_FRAME_VERSION,
        model_id: "Toy".into(),
        target_stage_id: Some("packed-tail".into()),
        boundary: StageBoundaryPlan {
            source_stage_id: "packed-head".into(),
            source_stage_role: "head".into(),
            source_stage_start: 0,
            source_stage_end: 0,
            target_stage_id: Some("packed-tail".into()),
            next_layer_index: Some(1),
            expected_payload_kind: PayloadKind::HiddenState,
            expected_hidden_dim: 64,
            carry_policy: StageCarryPolicy {
                carry_attention: false,
                carry_ffn: false,
            },
            expects_attention_carry: false,
            expects_ffn_carry: false,
            expected_attention_width: None,
            expected_attention_lanes: None,
            expects_attention_projection_carry: false,
            expects_attention_mix_carry: false,
            expected_attention_q_lanes: None,
            expected_attention_k_lanes: None,
            expected_attention_v_lanes: None,
            expected_attention_score_lanes: None,
            expected_attention_value_lanes: None,
            expected_attention_q_distance: None,
            expected_attention_k_distance: None,
            expected_attention_v_distance: None,
            expected_attention_score_distance: None,
            expected_attention_value_distance: None,
            expected_attention_projection_lanes: None,
            expected_attention_mix_lanes: None,
            expected_ffn_width: None,
            expected_ffn_lanes: None,
            resumable_attention_path: false,
            resumable_attention_q: false,
            resumable_attention_k: false,
            resumable_attention_v: false,
            resumable_attention_q_lanes: None,
            resumable_attention_k_lanes: None,
            resumable_attention_v_lanes: None,
            resumable_attention_q_max_distance: None,
            resumable_attention_k_max_distance: None,
            resumable_attention_v_max_distance: None,
            resumable_attention_score_max_distance: None,
            resumable_attention_value_max_distance: None,
            resumable_attention_contract: StageResumeContractSummary::default(),
            resumable_attention_projection: false,
            resumable_attention_mix: false,
            resumable_ffn_path: false,
            resumable_projection_path: false,
            operator_layers: 0,
            completed_layers: Some(1),
        },
        transfer: StageTransferFrame {
            version: STAGE_FORWARD_FRAME_VERSION,
            model_id: "Toy".into(),
            route: StageRoute {
                source_stage_id: "packed-head".into(),
                source_stage_start: 0,
                source_stage_end: 0,
                source_stage_role: "head".into(),
                target_stage_id: Some("packed-tail".into()),
            },
            payload: StageTransferPayload {
                request_id: "req-8".into(),
                kind: PayloadKind::HiddenState,
                stage_trace: vec!["packed-head".into()],
                hidden_dim: 64,
                bytes: vec![0; 64 * 4],
                prompt_text: Some("hello".into()),
                max_tokens: Some(8),
            },
            state: StageTransferStateEnvelope {
                continuation: Some(StageContinuation {
                    version: 1,
                    stage_role: "head".into(),
                    next_layer_index: Some(1),
                    completed_layers: 1,
                    operator_layers: 1,
                    has_attention_path: false,
                    has_ffn_path: false,
                    has_projection_path: false,
                }),
                transient: None,
                carry: None,
            },
        },
    };

    let decision = tail.admit_resume_request(&request);
    assert!(decision.accepted);
    assert_eq!(decision.accepted_stage_id.as_deref(), Some("packed-tail"));
    assert_eq!(decision.accepted_next_layer_index, Some(1));
}

#[test]
fn packed_backend_rejects_resume_request_with_wrong_next_layer() {
    let tail = tail_backend();

    let request = StageResumeRequest {
        version: STAGE_FORWARD_FRAME_VERSION,
        model_id: "Toy".into(),
        target_stage_id: Some("packed-tail".into()),
        boundary: StageBoundaryPlan {
            source_stage_id: "packed-head".into(),
            source_stage_role: "head".into(),
            source_stage_start: 0,
            source_stage_end: 0,
            target_stage_id: Some("packed-tail".into()),
            next_layer_index: Some(999),
            expected_payload_kind: PayloadKind::HiddenState,
            expected_hidden_dim: 64,
            carry_policy: StageCarryPolicy {
                carry_attention: false,
                carry_ffn: false,
            },
            expects_attention_carry: false,
            expects_ffn_carry: false,
            expected_attention_width: None,
            expected_attention_lanes: None,
            expects_attention_projection_carry: false,
            expects_attention_mix_carry: false,
            expected_attention_q_lanes: None,
            expected_attention_k_lanes: None,
            expected_attention_v_lanes: None,
            expected_attention_score_lanes: None,
            expected_attention_value_lanes: None,
            expected_attention_q_distance: None,
            expected_attention_k_distance: None,
            expected_attention_v_distance: None,
            expected_attention_score_distance: None,
            expected_attention_value_distance: None,
            expected_attention_projection_lanes: None,
            expected_attention_mix_lanes: None,
            expected_ffn_width: None,
            expected_ffn_lanes: None,
            resumable_attention_path: false,
            resumable_attention_q: false,
            resumable_attention_k: false,
            resumable_attention_v: false,
            resumable_attention_q_lanes: None,
            resumable_attention_k_lanes: None,
            resumable_attention_v_lanes: None,
            resumable_attention_q_max_distance: None,
            resumable_attention_k_max_distance: None,
            resumable_attention_v_max_distance: None,
            resumable_attention_score_max_distance: None,
            resumable_attention_value_max_distance: None,
            resumable_attention_contract: StageResumeContractSummary::default(),
            resumable_attention_projection: false,
            resumable_attention_mix: false,
            resumable_ffn_path: false,
            resumable_projection_path: false,
            operator_layers: 0,
            completed_layers: Some(1),
        },
        transfer: StageTransferFrame {
            version: STAGE_FORWARD_FRAME_VERSION,
            model_id: "Toy".into(),
            route: StageRoute {
                source_stage_id: "packed-head".into(),
                source_stage_start: 0,
                source_stage_end: 0,
                source_stage_role: "head".into(),
                target_stage_id: Some("packed-tail".into()),
            },
            payload: StageTransferPayload {
                request_id: "req-9".into(),
                kind: PayloadKind::HiddenState,
                stage_trace: vec!["packed-head".into()],
                hidden_dim: 64,
                bytes: vec![0; 64 * 4],
                prompt_text: Some("hello".into()),
                max_tokens: Some(8),
            },
            state: StageTransferStateEnvelope {
                continuation: Some(StageContinuation {
                    version: 1,
                    stage_role: "head".into(),
                    next_layer_index: Some(999),
                    completed_layers: 1,
                    operator_layers: 1,
                    has_attention_path: false,
                    has_ffn_path: false,
                    has_projection_path: false,
                }),
                transient: None,
                carry: None,
            },
        },
    };

    let decision = tail.admit_resume_request(&request);
    assert!(!decision.accepted);
    assert!(
        decision
            .reason
            .as_deref()
            .unwrap_or_default()
            .contains("next-layer mismatch")
    );
}

#[test]
fn stages_that_have_run_tell_where_they_stand() {
    let head = head_backend();
    head.check_begin().unwrap();
    let view = head.model_view().unwrap();
    let count = head.execution_layer_count(view);
    let stage1_cont = head.continuation_after(&packed_head_layout(), view, count);
    assert_eq!(stage1_cont.version, 1);
    assert_eq!(stage1_cont.stage_role, "head");
    assert_eq!(stage1_cont.completed_layers, 1);
    assert_eq!(stage1_cont.operator_layers, 1);
    assert_eq!(stage1_cont.next_layer_index, None);

    let tail = tail_backend();
    tail.check_continue(PayloadKind::HiddenState).unwrap();
    let view = tail.model_view().unwrap();
    let count = tail.execution_layer_count(view);
    let stage2_cont = tail.continuation_after(&packed_tail_layout(), view, count);
    assert_eq!(stage2_cont.version, 1);
    assert_eq!(stage2_cont.stage_role, "tail");
    assert_eq!(stage2_cont.completed_layers, stage2_cont.operator_layers as u32);
    assert_eq!(stage2_cont.next_layer_index, None);
    tail.check_tail(PayloadKind::HiddenState).unwrap();
}

#[test]
fn a_refused_request_is_answered_with_its_reason() {
    let backend = PackedResidencySketchBackend::new("s.index.json".into());
    let request = plain_request("Toy", Some("packed-tail"), 64);
    let decision = backend.admit_resume_request(&request);
    assert!(!decision.accepted);
    assert_eq!(decision.reason.as_deref(), Some("backend not ready: No stage layout loaded"));
    assert_eq!(decision.accepted_payload_kind, PayloadKind::HiddenState);
    assert_eq!(decision.accepted_hidden_dim, 64);
    assert_eq!(
        backend.resume_input(request).unwrap_err().to_string(),
        "backend not ready: No stage layout loaded"
    );
}

#[test]
fn requests_for_other_models_and_stages_are_refused() {
    let tail = tail_backend();
    let reason = |request: &StageResumeRequest| {
        let decision = tail.admit_resume_request(request);
        assert!(!decision.accepted);
        decision.reason.unwrap()
    };
    assert!(tail.admit_resume_request(&plain_request("Toy", Some("packed-tail"), 64)).accepted);
    assert!(reason(&plain_request("Other", Some("packed-tail"), 64)).contains("Other"));
    assert!(reason(&plain_request("Toy", Some("elsewhere"), 64)).contains("elsewhere"));
    let mut request = plain_request("Toy", Some("packed-tail"), 64);
    request.version = 2;
    assert!(reason(&request).contains('2'));
    let (resumed, receipt) =
        tail.resume_input(plain_request("Toy", Some("packed-tail"), 64)).unwrap();
    assert_eq!(resumed.bytes, vec![0; 256]);
    receipt.validate_against_request(&plain_request("Toy", Some("packed-tail"), 64)).unwrap();
}

#[test]
fn stages_refuse_what_is_not_theirs() {
    let empty = PackedResidencySketchBackend::default();
    assert_eq!(empty.index_path, "stage-required.index.json");
    assert_eq!(empty.check_begin().unwrap_err().to_string(), "No stage layout loaded");
    assert_eq!(empty.layout().unwrap_err().to_string(), "No stage layout loaded");
    assert_eq!(empty.store().unwrap_err().to_string(), "No stage tensor store loaded");
    assert_eq!(empty.model_view().unwrap_err().to_string(), "No stage model view loaded");

    let head = head_backend();
    let tail = tail_backend();
    assert_eq!(
        tail.check_begin().unwrap_err().to_string(),
        "Only the head stage may accept prompt ingress"
    );
    assert_eq!(
        head.check_continue(PayloadKind::HiddenState).unwrap_err().to_string(),
        "Head stage should use begin_prompt, not continue_forward"
    );
    assert_eq!(
        tail.check_continue(PayloadKind::PromptIngress).unwrap_err().to_string(),
        "Stage forward requires hidden-state payloads"
    );
    assert_eq!(
        head.check_tail(PayloadKind::HiddenState).unwrap_err().to_string(),
        "Only the tail stage may sample output"
    );
    assert_eq!(
        tail.check_tail(PayloadKind::PromptIngress).unwrap_err().to_string(),
        "Tail sampling requires hidden-state payloads"
    );

    let mut backend = PackedResidencySketchBackend::new("s.index.json".into());
    let error = backend
        .load_stage(store("head", vec![entry("token_embd.weight", 0)]), packed_tail_layout())
        .unwrap_err();
    assert_eq!(
        error.to_string(),
        "Packed stage role head does not match layout head=false tail=true"
    );
    let mut backend = PackedResidencySketchBackend::new("s.index.json".into());
    backend
        .load_stage(store("tail", vec![entry("blk.1.attn_q.weight", 0)]), packed_tail_layout())
        .unwrap();
    assert_eq!(
        backend.check_tail(PayloadKind::HiddenState).unwrap_err().to_string(),
        "Tail packed stage is missing tail-only tensors"
    );
    let mut backend = PackedResidencySketchBackend::new("s.index.json".into());
    backend
        .load_stage(store("head", vec![entry("blk.0.attn_q.weight", 0)]), packed_head_layout())
        .unwrap();
    assert_eq!(
        backend.check_begin().unwrap_err().to_string(),
        "Head packed stage is missing prompt ingress tensors"
    );
}

#[test]
fn a_layer_cap_can_be_lifted() {
    let mut head = head_backend().with_debug_layer_cap(0);
    let view = head.store().unwrap().model_view();
    assert_eq!(head.execution_layer_count(&view), 0);
    head.set_debug_layer_cap(None);
    assert_eq!(head.execution_layer_count(&view), 1);
}

#[test]
fn the_state_is_wide_enough_for_the_stage() {
    let head = head_backend();
    let view = head.model_view().unwrap();
    assert_eq!(PackedResidencySketchBackend::hidden_dim(view), 64);
    let layers: Vec<PackedTensorEntry> =
        (0..9).map(|layer| entry(&format!("blk.{layer}.attn_q.weight"), layer)).collect();
    let view = store("middle", layers).model_view();
    assert_eq!(PackedResidencySketchBackend::hidden_dim(&view), 144);
    let layers: Vec<PackedTensorEntry> =
        (0..90).map(|layer| entry(&format!("blk.{layer}.attn_q.weight"), layer)).collect();
    let view = store("middle", layers).model_view();
    assert_eq!(PackedResidencySketchBackend::hidden_dim(&view), 512);
}

#[test]
fn a_prompt_is_mixed_with_the_stage() {
    let head = head_backend();
    let view = head.model_view().unwrap();
    let seed = PackedResidencySketchBackend::prompt_seed("hi", view, "ab", 9);
    let source: Vec<u8> = [
        b"hi".to_vec(),
        b"ab".to_vec(),
        1u64.to_le_bytes().to_vec(),
        1u64.to_le_bytes().to_vec(),
        0u64.to_le_bytes().to_vec(),
    ]
    .concat();
    let expected: Vec<u8> = (0..9usize)
        .map(|index| {
            source[index % source.len()]
                .wrapping_add(b"ab"[index % 2])
                .wrapping_add((index % 251) as u8)
                .rotate_left((index % 7) as u32)
        })
        .collect();
    assert_eq!(seed, expected);
}

#[test]
fn a_sample_has_a_character_for_each_byte() {
    assert_eq!(PackedResidencySketchBackend::sample_text(&[1, 2, 3, 40], Some(4)), "ABCA");
    assert_eq!(PackedResidencySketchBackend::sample_text(&[0, 1], Some(1)), "A A");
    assert_eq!(PackedResidencySketchBackend::sample_text(&[1], None), "A".repeat(16));
    assert_eq!(PackedResidencySketchBackend::sample_text(&[38], Some(99)), "-".repeat(32));
}

#[test]
fn a_layer_resumes_only_until_one_has_left_a_preview() {
    let carry = StageCarryState { attention: None, ffn: None };
    let layers = LayerLoop::start(Some(carry.clone()));
    assert_eq!(layers.resume_seed(), Some(&carry));
    let layers = layers.absorb(None, None);
    assert_eq!(layers.resume_seed(), Some(&carry));
    let preview = StageTransientState { attention: None, ffn: None };
    let layers = layers.absorb(Some(preview), None);
    assert_eq!(layers.resume_seed(), None);
}

#[test]
fn a_preview_handed_over_is_resumed_as_a_carry() {
    let mut tensor = StageTensor::from_prompt("r", "s", 1, vec![0; 4], "p", None);
    assert_eq!(PackedResidencySketchBackend::resume_carry(&tensor), None);
    tensor.transient = Some(StageTransientState {
        attention: None,
        ffn: Some(FfnContinuation {
            width: 2,
            lane_indices: vec![0, 1],
            gate_preview: bits(&[0.1, 0.2]),
            up_preview: bits(&[0.3, 0.4]),
            activation_preview: bits(&[0.5, 0.6]),
        }),
    });
    let carry = PackedResidencySketchBackend::resume_carry(&tensor).unwrap();
    assert_eq!(carry.ffn.as_ref().unwrap().up_head, bits(&[0.3, 0.4]));
    let own = StageCarryState { attention: None, ffn: None };
    tensor.carry = Some(own.clone());
    assert_eq!(PackedResidencySketchBackend::resume_carry(&tensor), Some(own));
}
