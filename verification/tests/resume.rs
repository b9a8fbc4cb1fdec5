//! Requests to resume, and how they are answered.
use stage_forward_lab::frame::{PreviewStatistics, TransientStatistics};
use stage_forward_lab::{
    AttentionCheckpointProvenance, AttentionContinuation, CarryableAttentionMixState,
    CarryableAttentionProjectionState, CarryableAttentionState, ExecutionBinding, ExecutionOp,
    ExecutionOpKind, FfnContinuation, LayerExecutionProgram, PackedResidencySketchBackend,
    PayloadKind, STAGE_FORWARD_FRAME_VERSION, StageAttentionResumeBlend,
    StageAttentionResumeContractSummary, StageAttentionResumePhase, StageBoundaryPlan,
    StageCarryPolicy, StageCarryState, StageContinuation, StageForwardFrame, StageLayout,
    StageModelView, StageResumeContractSummary, StageResumeDecision, StageResumeRequest,
    StageRoute, StageTensor, StageTransferFrame, StageTransferPayload, StageTransferStateEnvelope,
    StageTransientState,
};

/// The bit patterns of numbers.
fn bits(values: &[f32]) -> Vec<u32> {
    values.iter().map(|value| value.to_bits()).collect()
}

fn packed_tail_layout() -> StageLayout {
    StageLayout {
        model_id: "Toy".into(),
        stage_id: "packed-tail".into(),
        start_layer: 1,
        end_layer: 1,
        is_head: false,
        is_tail: true,
    }
}

/// The mean, the mean size and the root mean square of a preview, in thousandths.
fn preview_statistics(preview: &[u32]) -> PreviewStatistics {
    let values: Vec<f32> = preview.iter().map(|value| f32::from_bits(*value)).collect();
    if values.is_empty() {
        return PreviewStatistics { mean_milli: 0, mean_abs_milli: 0, rms_milli: 0 };
    }
    let count = values.len() as f32;
    let mean = values.iter().sum::<f32>() / count;
    let mean_abs = values.iter().map(|value| value.abs()).sum::<f32>() / count;
    let rms = (values.iter().map(|value| value * value).sum::<f32>() / count).sqrt();
    PreviewStatistics {
        mean_milli: (mean * 1000.0).round() as i32,
        mean_abs_milli: (mean_abs * 1000.0).round() as u32,
        rms_milli: (rms * 1000.0).round() as u32,
    }
}

/// The statistics of what a frame's state previews.
fn statistics(frame: &StageForwardFrame) -> TransientStatistics {
    let transient = frame.state.transient.as_ref();
    let attention = transient
        .and_then(|transient| transient.attention.as_ref())
        .map(|attention| attention.preview_values())
        .unwrap_or_default();
    let ffn = transient
        .and_then(|transient| transient.ffn.as_ref())
        .map(|ffn| ffn.preview_values())
        .unwrap_or_default();
    TransientStatistics {
        attention: preview_statistics(&attention),
        ffn: preview_statistics(&ffn),
    }
}

#[test]
fn resume_request_and_receipt_roundtrip_boundary_contract() {
    let layout = StageLayout {
        model_id: "gemma-4-e4b-q4".into(),
        stage_id: "0-20".into(),
        start_layer: 0,
        end_layer: 20,
        is_head: true,
        is_tail: false,
    };
    let tensor = StageTensor {
        request_id: "req-7".into(),
        kind: PayloadKind::HiddenState,
        stage_trace: vec!["0-20".into()],
        hidden_dim: 4,
        bytes: vec![0; 16],
        prompt_text: Some("hello".into()),
        max_tokens: Some(8),
        continuation: Some(StageContinuation {
            version: 1,
            stage_role: "head".into(),
            next_layer_index: Some(21),
            completed_layers: 21,
            operator_layers: 21,
            has_attention_path: true,
            has_ffn_path: true,
            has_projection_path: true,
        }),
        transient: Some(StageTransientState {
            attention: Some(AttentionContinuation {
                width: 8,
                lane_indices: vec![0, 1],
                q_preview: bits(&[0.1, -0.2]),
                k_preview: bits(&[0.3, -0.4]),
                v_preview: bits(&[0.5, -0.6]),
                score_preview: bits(&[0.7, -0.8]),
                value_preview: bits(&[0.9, -1.0]),
            }),
            ffn: Some(FfnContinuation {
                width: 8,
                lane_indices: vec![0, 1],
                gate_preview: bits(&[0.1, 0.2]),
                up_preview: bits(&[0.3, 0.4]),
                activation_preview: bits(&[0.5, 0.6]),
            }),
        }),
        carry: None,
    };
    let frame =
        StageForwardFrame::from_tensor("gemma-4-e4b-q4", &layout, tensor, Some("21-41".into()));
    let programs = vec![LayerExecutionProgram {
        layer_index: 0,
        hidden_dim: Some(2048),
        q_out_dim: Some(2560),
        k_out_dim: Some(2560),
        v_out_dim: Some(2560),
        ffn_inner_dim: Some(2560),
        runnable_sketch: true,
        ops: vec![
            ExecutionOp::new(
                ExecutionOpKind::AttentionQ,
                vec!["blk.0.attn_q.weight".into()],
                ExecutionBinding::QuantizedMatrix,
                "quantized matrix tensors",
            ),
            ExecutionOp::new(
                ExecutionOpKind::AttentionOut,
                vec!["blk.0.attn_output.weight".into()],
                ExecutionBinding::QuantizedMatrix,
                "quantized matrix tensors",
            ),
        ],
    }];
    let transfer =
        frame.to_transfer_frame_for_execution_boundary(&layout, &programs, &statistics(&frame));
    let plan = frame.to_boundary_plan_for_execution_boundary(&layout, &programs);
    let request = plan.to_resume_request(transfer).unwrap();
    request.validate().unwrap();

    let receipt = request.accept(Some("21-41".into()));
    receipt.validate_against_request(&request).unwrap();
    assert!(receipt.accepted);
    assert_eq!(receipt.accepted_stage_id.as_deref(), Some("21-41"));
    assert!(!receipt.accepted_attention_carry);
    assert!(!receipt.accepted_attention_projection_carry);
    assert!(!receipt.accepted_attention_mix_carry);
    assert_eq!(receipt.accepted_attention_projection_lanes, None);
    assert_eq!(receipt.accepted_attention_mix_lanes, None);
    assert!(!receipt.accepted_ffn_carry);

    let reject = request.reject("unsupported carry lane");
    assert!(!reject.accepted);
    assert_eq!(reject.reason.as_deref(), Some("unsupported carry lane"));
}

#[test]
fn packed_backend_rejects_attention_carry_that_is_too_stale_for_resume_policy() {
    let tail = PackedResidencySketchBackend {
        index_path: "synthetic-packed-tail".into(),
        layout: Some(packed_tail_layout()),
        store: None,
        model_view: Some(StageModelView {
            role: "tail".into(),
            prompt_ingress: Vec::new(),
            positional: Vec::new(),
            shared_auxiliary: Vec::new(),
            layers: Vec::new(),
            operator_layers: Vec::new(),
            execution_layers: Vec::new(),
            execution_programs: vec![LayerExecutionProgram {
                layer_index: 1,
                hidden_dim: Some(64),
                q_out_dim: Some(1),
                k_out_dim: Some(1),
                v_out_dim: Some(1),
                ffn_inner_dim: None,
                runnable_sketch: true,
                ops: vec![
                    ExecutionOp::new(
                        ExecutionOpKind::AttentionQ,
                        vec!["blk.1.attn_q.weight".into()],
                        ExecutionBinding::QuantizedMatrix,
                        "quantized matrix tensors",
                    ),
                    ExecutionOp::new(
                        ExecutionOpKind::AttentionK,
                        vec!["blk.1.attn_k.weight".into()],
                        ExecutionBinding::QuantizedMatrix,
                        "quantized matrix tensors",
                    ),
                    ExecutionOp::new(
                        ExecutionOpKind::AttentionV,
                        vec!["blk.1.attn_v.weight".into()],
                        ExecutionBinding::QuantizedMatrix,
                        "quantized matrix tensors",
                    ),
                    ExecutionOp::new(
                        ExecutionOpKind::AttentionOut,
                        vec!["blk.1.attn_output.weight".into()],
                        ExecutionBinding::QuantizedMatrix,
                        "quantized matrix tensors",
                    ),
                ],
            }],
            tail_only: Vec::new(),
        }),
        debug_layer_cap: None,
    };

    let request = StageResumeRequest {
        version: STAGE_FORWARD_FRAME_VERSION,
        model_id: "Toy".into(),
        target_stage_id: Some("packed-tail".into()),
        boundary: StageBoundaryPlan {
            source_stage_id: "packed-head".into(),
            source_stage_role: "head".into(),
            source_stage_start: 0,
            source_stage_end: 0,
            target_stage_id: Some("packed-tail".into()),
            next_layer_index: Some(1),
            expected_payload_kind: PayloadKind::HiddenState,
            expected_hidden_dim: 64,
            carry_policy: StageCarryPolicy {
                carry_attention: true,
                carry_ffn: false,
            },
            expects_attention_carry: true,
            expects_ffn_carry: false,
            expected_attention_width: Some(1),
            expected_attention_lanes: Some(1),
            expects_attention_projection_carry: true,
            expects_attention_mix_carry: true,
            expected_attention_q_lanes: Some(1),
            expected_attention_k_lanes: Some(1),
            expected_attention_v_lanes: Some(1),
            expected_attention_score_lanes: Some(1),
            expected_attention_value_lanes: Some(1),
            expected_attention_q_distance: Some(2),
            expected_attention_k_distance: Some(2),
            expected_attention_v_distance: Some(2),
            expected_attention_score_distance: Some(2),
            expected_attention_value_distance: Some(2),
            expected_attention_projection_lanes: Some(1),
            expected_attention_mix_lanes: Some(1),
            expected_ffn_width: None,
            expected_ffn_lanes: None,
            resumable_attention_path: true,
            resumable_attention_q: true,
            resumable_attention_k: true,
            resumable_attention_v: true,
            resumable_attention_q_lanes: Some(1),
            resumable_attention_k_lanes: Some(1),
            resumable_attention_v_lanes: Some(1),
            resumable_attention_q_max_distance: Some(2),
            resumable_attention_k_max_distance: Some(2),
            resumable_attention_v_max_distance: Some(2),
            resumable_attention_score_max_distance: Some(1),
            resumable_attention_value_max_distance: Some(1),
            resumable_attention_contract: StageResumeContractSummary::default(),
            resumable_attention_projection: true,
            resumable_attention_mix: true,
            resumable_ffn_path: false,
            resumable_projection_path: false,
            operator_layers: 1,
            completed_layers: Some(1),
        },
        transfer: StageTransferFrame {
            version: STAGE_FORWARD_FRAME_VERSION,
            model_id: "Toy".into(),
            route: StageRoute {
                source_stage_id: "packed-head".into(),
                source_stage_start: 0,
                source_stage_end: 0,
                source_stage_role: "head".into(),
                target_stage_id: Some("packed-tail".into()),
            },
            payload: StageTransferPayload {
                request_id: "req-stale".into(),
                kind: PayloadKind::HiddenState,
                stage_trace: vec!["packed-head".into()],
                hidden_dim: 64,
                bytes: vec![0; 64 * 4],
                prompt_text: Some("hello".into()),
                max_tokens: Some(8),
            },
            state: StageTransferStateEnvelope {
                continuation: Some(StageContinuation {
                    version: 1,
                    stage_role: "head".into(),
                    next_layer_index: Some(1),
                    completed_layers: 1,
                    operator_layers: 1,
                    has_attention_path: true,
                    has_ffn_path: false,
                    has_projection_path: false,
                }),
                transient: None,
                carry: Some(StageCarryState {
                    attention: Some(CarryableAttentionState {
                        contract: StageResumeContractSummary::default(),
                        projection: Some(CarryableAttentionProjectionState {
                            width: 1,
                            q_provenance: Some(AttentionCheckpointProvenance {
                                layer_index: 3,
                                operator_kind: "AttentionQ".into(),
                                layer_distance_to_boundary: 2,
                            }),
                            k_provenance: Some(AttentionCheckpointProvenance {
                                layer_index: 3,
                                operator_kind: "AttentionK".into(),
                                layer_distance_to_boundary: 2,
                            }),
                            v_provenance: Some(AttentionCheckpointProvenance {
                                layer_index: 3,
                                operator_kind: "AttentionV".into(),
                                layer_distance_to_boundary: 2,
                            }),
                            q_lane_indices: vec![0],
                            k_lane_indices: vec![0],
                            v_lane_indices: vec![0],
                            q: bits(&[0.1]),
                            k: bits(&[0.2]),
                            v: bits(&[0.3]),
                        }),
                        mix: Some(CarryableAttentionMixState {
                            width: 1,
                            score_provenance: Some(AttentionCheckpointProvenance {
                                layer_index: 3,
                                operator_kind: "AttentionOut".into(),
                                layer_distance_to_boundary: 2,
                            }),
                            value_provenance: Some(AttentionCheckpointProvenance {
                                layer_index: 3,
                                operator_kind: "AttentionOut".into(),
                                layer_distance_to_boundary: 2,
                            }),
                            score_lane_indices: vec![0],
                            value_lane_indices: vec![0],
                            scores: bits(&[0.4]),
                            values: bits(&[0.5]),
                        }),
                    }),
                    ffn: None,
                }),
            },
        },
    };

    let mut contract_mismatch_request = request.clone();
    contract_mismatch_request
        .boundary
        .resumable_attention_contract
        .attention_q = Some(StageAttentionResumeContractSummary {
        phase: StageAttentionResumePhase::AfterProjection,
        blend: StageAttentionResumeBlend::StrongBlend,
        blend_weight_milli: Some(350),
    });
    let contract_mismatch = tail.admit_resume_request(&contract_mismatch_request);
    assert!(!contract_mismatch.accepted);
    assert!(
        contract_mismatch
            .reason
            .as_deref()
            .unwrap_or_default()
            .contains("attention resume contract does not match target execution program")
    );

    let decision = tail.admit_resume_request(&request);
    assert!(!decision.accepted);
    assert!(
        decision
            .reason
            .as_deref()
            .unwrap_or_default()
            .contains("attention score freshness distance 2 exceeds target limit 1")
    );
}

/// A request as a plan makes it, with no carry.
fn plain_request() -> StageResumeRequest {
    let layout = StageLayout { is_head: true, is_tail: false, ..packed_tail_layout() };
    let tensor = StageTensor {
        request_id: "r".into(),
        kind: PayloadKind::HiddenState,
        stage_trace: vec!["packed-tail".into()],
        hidden_dim: 2,
        bytes: vec![0; 8],
        prompt_text: None,
        max_tokens: None,
        continuation: None,
        transient: None,
        carry: None,
    };
    let frame = StageForwardFrame::from_tensor("Toy", &layout, tensor, None);
    let plan = StageBoundaryPlan::from_frame(&frame, StageCarryPolicy::full());
    plan.to_resume_request(frame.to_transfer_frame(&statistics(&frame))).unwrap()
}

#[test]
fn a_planned_request_is_valid_and_both_answers_fit_it() {
    let request = plain_request();
    request.validate().unwrap();
    let accepted = request.accept(Some("x".into()));
    accepted.validate_against_request(&request).unwrap();
    let refused = request.reject("no");
    refused.validate_against_request(&request).unwrap();
    assert_eq!(refused.reason.as_deref(), Some("no"));
}

#[test]
fn requests_that_do_not_add_up_are_refused() {
    let mut request = plain_request();
    request.version = 7;
    assert_eq!(
        request.validate().unwrap_err().to_string(),
        "Unsupported stage resume request version 7"
    );
    let mut request = plain_request();
    request.transfer.version = 7;
    assert_eq!(
        request.validate().unwrap_err().to_string(),
        request.transfer.validate().unwrap_err().to_string()
    );
    let mut request = plain_request();
    request.boundary.expected_hidden_dim = 3;
    assert_eq!(
        request.validate().unwrap_err().to_string(),
        request.boundary.validate_against_transfer(&request.transfer).unwrap_err().to_string()
    );
}

#[test]
fn receipts_that_answer_another_request_are_refused() {
    let request = plain_request();
    let mut receipt = request.accept(None);
    receipt.accepted_hidden_dim += 1;
    assert!(receipt.validate_against_request(&request).is_err());
    let mut receipt = request.accept(None);
    receipt.accepted_attention_carry = !receipt.accepted_attention_carry;
    assert!(receipt.validate_against_request(&request).is_err());
    let mut receipt = request.accept(None);
    receipt.version += 1;
    assert!(receipt.validate_against_request(&request).is_err());
}

#[test]
fn a_decision_becomes_its_receipt() {
    let decision = StageResumeDecision::reject(
        Some("x".into()),
        PayloadKind::HiddenState,
        2,
        Some(4),
        "not now",
    );
    assert!(!decision.accepted);
    let receipt = decision.into_receipt(1);
    assert_eq!(receipt.version, 1);
    assert!(!receipt.accepted);
    assert_eq!(receipt.accepted_stage_id.as_deref(), Some("x"));
    assert_eq!(receipt.accepted_next_layer_index, Some(4));
    assert_eq!(receipt.reason.as_deref(), Some("not now"));
}
