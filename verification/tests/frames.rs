//! Frames: what one stage hands to the next.
use stage_forward_lab::frame::{PreviewStatistics, TransientStatistics};
use stage_forward_lab::{
    AttentionContinuation, CarryableAttentionMixState, CarryableAttentionProjectionState,
    CarryableAttentionState, CarryableFfnState, ExecutionBinding, ExecutionOp, ExecutionOpKind,
    FfnContinuation, LayerExecutionProgram, PayloadKind, STAGE_FORWARD_FRAME_VERSION,
    StageCarryPolicy, StageCarryState, StageContinuation, StageForwardFrame, StageLayout,
    StageResumeContractSummary, StageRoute, StageStateEnvelope, StageTensor, StageTransferFrame,
    StageTransferPayload, StageTransferStateEnvelope, StageTransientState, TransientSignature,
};

/// The bit patterns of numbers.
fn bits(values: &[f32]) -> Vec<u32> {
    values.iter().map(|value| value.to_bits()).collect()
}

/// The mean, the mean size and the root mean square of a preview, in thousandths.
fn preview_statistics(preview: &[u32]) -> PreviewStatistics {
    let values: Vec<f32> = preview.iter().map(|value| f32::from_bits(*value)).collect();
    if values.is_empty() {
        return PreviewStatistics { mean_milli: 0, mean_abs_milli: 0, rms_milli: 0 };
    }
    let count = values.len() as f32;
    let mean = values.iter().sum::<f32>() / count;
    let mean_abs = values.iter().map(|value| value.abs()).sum::<f32>() / count;
    let rms = (values.iter().map(|value| value * value).sum::<f32>() / count).sqrt();
    PreviewStatistics {
        mean_milli: (mean * 1000.0).round() as i32,
        mean_abs_milli: (mean_abs * 1000.0).round() as u32,
        rms_milli: (rms * 1000.0).round() as u32,
    }
}

/// The statistics of what a frame's state previews.
fn statistics(frame: &StageForwardFrame) -> TransientStatistics {
    let transient = frame.state.transient.as_ref();
    let attention = transient
        .and_then(|transient| transient.attention.as_ref())
        .map(|attention| attention.preview_values())
        .unwrap_or_default();
    let ffn = transient
        .and_then(|transient| transient.ffn.as_ref())
        .map(|ffn| ffn.preview_values())
        .unwrap_or_default();
    TransientStatistics {
        attention: preview_statistics(&attention),
        ffn: preview_statistics(&ffn),
    }
}

#[test]
fn stage_state_envelope_roundtrips_tensor_state() {
    let tensor = StageTensor {
        request_id: "req-1".into(),
        kind: PayloadKind::HiddenState,
        stage_trace: vec!["head".into()],
        hidden_dim: 4,
        bytes: vec![0; 16],
        prompt_text: Some("hello".into()),
        max_tokens: Some(8),
        continuation: Some(StageContinuation {
            version: 1,
            stage_role: "head".into(),
            next_layer_index: Some(1),
            completed_layers: 1,
            operator_layers: 2,
            has_attention_path: true,
            has_ffn_path: true,
            has_projection_path: false,
        }),
        transient: Some(StageTransientState {
            attention: Some(AttentionContinuation {
                width: 4,
                lane_indices: vec![0, 1],
                q_preview: bits(&[0.1, 0.2]),
                k_preview: bits(&[0.3, 0.4]),
                v_preview: bits(&[0.5, 0.6]),
                score_preview: bits(&[0.7, 0.8]),
                value_preview: bits(&[0.9, 1.0]),
            }),
            ffn: None,
        }),
        carry: None,
    };
    let envelope = StageStateEnvelope::from_tensor(&tensor);
    assert!(!envelope.is_empty());

    let mut stripped = tensor.clone();
    stripped.continuation = None;
    stripped.transient = None;
    stripped.carry = None;
    envelope.apply_to_tensor(&mut stripped);

    assert_eq!(stripped.continuation, tensor.continuation);
    assert_eq!(stripped.transient, tensor.transient);
    assert_eq!(stripped.carry, tensor.carry);
}

#[test]
fn stage_forward_frame_roundtrips_tensor_and_validates() {
    let layout = StageLayout {
        model_id: "gemma-4-e4b-q4".into(),
        stage_id: "0-20".into(),
        start_layer: 0,
        end_layer: 20,
        is_head: true,
        is_tail: false,
    };
    let tensor = StageTensor {
        request_id: "req-2".into(),
        kind: PayloadKind::HiddenState,
        stage_trace: vec!["0-20".into()],
        hidden_dim: 4,
        bytes: vec![0; 16],
        prompt_text: Some("hello".into()),
        max_tokens: Some(8),
        continuation: Some(StageContinuation {
            version: 1,
            stage_role: "head".into(),
            next_layer_index: Some(21),
            completed_layers: 21,
            operator_layers: 21,
            has_attention_path: true,
            has_ffn_path: true,
            has_projection_path: true,
        }),
        transient: Some(StageTransientState {
            attention: None,
            ffn: Some(FfnContinuation {
                width: 4,
                lane_indices: vec![0, 1],
                gate_preview: bits(&[0.1, 0.2]),
                up_preview: bits(&[0.3, 0.4]),
                activation_preview: bits(&[0.5, 0.6]),
            }),
        }),
        carry: None,
    };

    let frame = StageForwardFrame::from_tensor(
        "gemma-4-e4b-q4",
        &layout,
        tensor.clone(),
        Some("21-41".into()),
    );
    frame.validate().unwrap();
    let summary = frame.summary();
    assert_eq!(summary.request_id, "req-2");
    assert_eq!(summary.source_stage_role, "head");
    assert_eq!(summary.target_stage_id.as_deref(), Some("21-41"));
    assert_eq!(summary.completed_layers, Some(21));
    assert!(summary.has_transient);
    assert!(!summary.has_attention_transient);
    assert!(summary.has_ffn_transient);

    let roundtrip = frame.into_tensor();
    assert_eq!(roundtrip, tensor);
}

#[test]
fn transfer_frame_for_layout_uses_boundary_policy() {
    let layout = StageLayout {
        model_id: "gemma-4-e4b-q4".into(),
        stage_id: "0-20".into(),
        start_layer: 0,
        end_layer: 20,
        is_head: true,
        is_tail: false,
    };
    let tensor = StageTensor {
        request_id: "req-4".into(),
        kind: PayloadKind::HiddenState,
        stage_trace: vec!["0-20".into()],
        hidden_dim: 4,
        bytes: vec![0; 16],
        prompt_text: Some("hello".into()),
        max_tokens: Some(8),
        continuation: Some(StageContinuation {
            version: 1,
            stage_role: "head".into(),
            next_layer_index: Some(21),
            completed_layers: 21,
            operator_layers: 21,
            has_attention_path: true,
            has_ffn_path: true,
            has_projection_path: true,
        }),
        transient: Some(StageTransientState {
            attention: Some(AttentionContinuation {
                width: 8,
                lane_indices: vec![0, 1],
                q_preview: bits(&[0.1, -0.2]),
                k_preview: bits(&[0.3, -0.4]),
                v_preview: bits(&[0.5, -0.6]),
                score_preview: bits(&[0.7, -0.8]),
                value_preview: bits(&[0.9, -1.0]),
            }),
            ffn: Some(FfnContinuation {
                width: 8,
                lane_indices: vec![0, 1],
                gate_preview: bits(&[0.1, 0.2]),
                up_preview: bits(&[0.3, 0.4]),
                activation_preview: bits(&[0.5, 0.6]),
            }),
        }),
        carry: None,
    };

    let frame =
        StageForwardFrame::from_tensor("gemma-4-e4b-q4", &layout, tensor, Some("21-41".into()));
    let transfer = frame.to_transfer_frame_for_layout(&layout, &statistics(&frame));
    transfer.validate().unwrap();

    let carry = transfer.state.carry.as_ref().unwrap();
    assert!(carry.attention.is_some());
    assert!(carry.ffn.is_none());
}

#[test]
fn transfer_frame_for_execution_boundary_uses_program_aware_policy() {
    let layout = StageLayout {
        model_id: "gemma-4-e4b-q4".into(),
        stage_id: "21-30".into(),
        start_layer: 21,
        end_layer: 30,
        is_head: false,
        is_tail: false,
    };
    let tensor = StageTensor {
        request_id: "req-5".into(),
        kind: PayloadKind::HiddenState,
        stage_trace: vec!["21-30".into()],
        hidden_dim: 4,
        bytes: vec![0; 16],
        prompt_text: Some("hello".into()),
        max_tokens: Some(8),
        continuation: Some(StageContinuation {
            version: 1,
            stage_role: "middle".into(),
            next_layer_index: Some(31),
            completed_layers: 10,
            operator_layers: 10,
            has_attention_path: true,
            has_ffn_path: true,
            has_projection_path: true,
        }),
        transient: Some(StageTransientState {
            attention: Some(AttentionContinuation {
                width: 8,
                lane_indices: vec![0, 1],
                q_preview: bits(&[0.1, -0.2]),
                k_preview: bits(&[0.3, -0.4]),
                v_preview: bits(&[0.5, -0.6]),
                score_preview: bits(&[0.7, -0.8]),
                value_preview: bits(&[0.9, -1.0]),
            }),
            ffn: Some(FfnContinuation {
                width: 8,
                lane_indices: vec![0, 1],
                gate_preview: bits(&[0.1, 0.2]),
                up_preview: bits(&[0.3, 0.4]),
                activation_preview: bits(&[0.5, 0.6]),
            }),
        }),
        carry: None,
    };
    let frame =
        StageForwardFrame::from_tensor("gemma-4-e4b-q4", &layout, tensor, Some("31-41".into()));
    let programs = vec![LayerExecutionProgram {
        layer_index: 21,
        hidden_dim: Some(2048),
        q_out_dim: None,
        k_out_dim: None,
        v_out_dim: None,
        ffn_inner_dim: Some(2560),
        runnable_sketch: true,
        ops: vec![
            ExecutionOp::new(
                ExecutionOpKind::FfnGate,
                vec!["blk.21.ffn_gate.weight".into()],
                ExecutionBinding::QuantizedMatrix,
                "quantized matrix tensors",
            ),
            ExecutionOp::new(
                ExecutionOpKind::FfnUp,
                vec!["blk.21.ffn_up.weight".into()],
                ExecutionBinding::QuantizedMatrix,
                "quantized matrix tensors",
            ),
            ExecutionOp::new(
                ExecutionOpKind::FfnDown,
                vec!["blk.21.ffn_down.weight".into()],
                ExecutionBinding::QuantizedMatrix,
                "quantized matrix tensors",
            ),
        ],
    }];

    let transfer =
        frame.to_transfer_frame_for_execution_boundary(&layout, &programs, &statistics(&frame));
    transfer.validate().unwrap();
    let carry = transfer.state.carry.as_ref().unwrap();
    assert!(carry.attention.is_none());
    assert!(carry.ffn.is_some());
}

#[test]
fn transfer_frame_rejects_attention_carry_with_more_lanes_than_width() {
    let transfer = StageTransferFrame {
        version: STAGE_FORWARD_FRAME_VERSION,
        model_id: "gemma-4-e4b-q4".into(),
        route: StageRoute {
            source_stage_id: "0-20".into(),
            source_stage_start: 0,
            source_stage_end: 20,
            source_stage_role: "head".into(),
            target_stage_id: Some("21-41".into()),
        },
        payload: StageTransferPayload {
            request_id: "req-invalid-carry".into(),
            kind: PayloadKind::HiddenState,
            stage_trace: vec!["0-20".into()],
            hidden_dim: 4,
            bytes: vec![0; 16],
            prompt_text: None,
            max_tokens: Some(8),
        },
        state: StageTransferStateEnvelope {
            continuation: None,
            transient: None,
            carry: Some(StageCarryState {
                attention: Some(CarryableAttentionState {
                    contract: StageResumeContractSummary::default(),
                    projection: Some(CarryableAttentionProjectionState {
                        width: 2,
                        q_provenance: None,
                        k_provenance: None,
                        v_provenance: None,
                        q_lane_indices: vec![0, 1, 2],
                        k_lane_indices: vec![0, 1, 2],
                        v_lane_indices: vec![0, 1, 2],
                        q: bits(&[0.1, 0.2, 0.3]),
                        k: bits(&[0.0, 0.0, 0.0]),
                        v: bits(&[0.0, 0.0, 0.0]),
                    }),
                    mix: Some(CarryableAttentionMixState {
                        width: 2,
                        score_provenance: None,
                        value_provenance: None,
                        score_lane_indices: vec![0, 1, 2],
                        value_lane_indices: vec![0, 1, 2],
                        scores: bits(&[0.0, 0.0, 0.0]),
                        values: bits(&[0.0, 0.0, 0.0]),
                    }),
                }),
                ffn: None,
            }),
        },
    };

    let err = transfer.validate().unwrap_err().to_string();
    assert!(err.contains("Attention carry lane count"));
}

#[test]
fn transfer_frame_rehydrates_transient_from_carry() {
    let transfer = StageTransferFrame {
        version: STAGE_FORWARD_FRAME_VERSION,
        model_id: "gemma-4-e4b-q4".into(),
        route: StageRoute {
            source_stage_id: "0-20".into(),
            source_stage_start: 0,
            source_stage_end: 20,
            source_stage_role: "head".into(),
            target_stage_id: Some("21-41".into()),
        },
        payload: StageTransferPayload {
            request_id: "req-10".into(),
            kind: PayloadKind::HiddenState,
            stage_trace: vec!["0-20".into()],
            hidden_dim: 4,
            bytes: vec![0; 16],
            prompt_text: Some("hello".into()),
            max_tokens: Some(8),
        },
        state: StageTransferStateEnvelope {
            continuation: Some(StageContinuation {
                version: 1,
                stage_role: "head".into(),
                next_layer_index: Some(21),
                completed_layers: 21,
                operator_layers: 21,
                has_attention_path: true,
                has_ffn_path: true,
                has_projection_path: true,
            }),
            transient: None,
            carry: Some(StageCarryState {
                attention: Some(CarryableAttentionState {
                    contract: StageResumeContractSummary::default(),
                    projection: Some(CarryableAttentionProjectionState {
                        width: 8,
                        q_provenance: None,
                        k_provenance: None,
                        v_provenance: None,
                        q_lane_indices: vec![0, 1],
                        k_lane_indices: vec![0, 1],
                        v_lane_indices: vec![0, 1],
                        q: bits(&[0.1, -0.2]),
                        k: bits(&[0.3, -0.4]),
                        v: bits(&[0.5, -0.6]),
                    }),
                    mix: Some(CarryableAttentionMixState {
                        width: 8,
                        score_provenance: None,
                        value_provenance: None,
                        score_lane_indices: vec![0, 1],
                        value_lane_indices: vec![0, 1],
                        scores: bits(&[0.7, -0.8]),
                        values: bits(&[0.9, -1.0]),
                    }),
                }),
                ffn: Some(CarryableFfnState {
                    width: 8,
                    lane_indices: vec![0, 1],
                    gate_head: bits(&[0.1, 0.2]),
                    up_head: bits(&[0.3, 0.4]),
                    activation_head: bits(&[0.5, 0.6]),
                }),
            }),
        },
    };

    let tensor = transfer.into_stage_tensor();
    let transient = tensor.transient.unwrap();
    assert_eq!(
        transient.attention.as_ref().unwrap().q_preview,
        bits(&[0.1, -0.2])
    );
    assert_eq!(
        transient.ffn.as_ref().unwrap().activation_preview,
        bits(&[0.5, 0.6])
    );
}

#[test]
fn stage_transfer_frame_compacts_transient_state() {
    let layout = StageLayout {
        model_id: "gemma-4-e4b-q4".into(),
        stage_id: "0-20".into(),
        start_layer: 0,
        end_layer: 20,
        is_head: true,
        is_tail: false,
    };
    let tensor = StageTensor {
        request_id: "req-3".into(),
        kind: PayloadKind::HiddenState,
        stage_trace: vec!["0-20".into()],
        hidden_dim: 4,
        bytes: vec![0; 16],
        prompt_text: Some("hello".into()),
        max_tokens: Some(8),
        continuation: Some(StageContinuation {
            version: 1,
            stage_role: "head".into(),
            next_layer_index: Some(21),
            completed_layers: 21,
            operator_layers: 21,
            has_attention_path: true,
            has_ffn_path: true,
            has_projection_path: true,
        }),
        transient: Some(StageTransientState {
            attention: Some(AttentionContinuation {
                width: 8,
                lane_indices: vec![0, 1],
                q_preview: bits(&[0.1, -0.2]),
                k_preview: bits(&[0.3, -0.4]),
                v_preview: bits(&[0.5, -0.6]),
                score_preview: bits(&[0.7, -0.8]),
                value_preview: bits(&[0.9, -1.0]),
            }),
            ffn: Some(FfnContinuation {
                width: 8,
                lane_indices: vec![0, 1],
                gate_preview: bits(&[0.1, 0.2]),
                up_preview: bits(&[0.3, 0.4]),
                activation_preview: bits(&[0.5, 0.6]),
            }),
        }),
        carry: None,
    };

    let frame =
        StageForwardFrame::from_tensor("gemma-4-e4b-q4", &layout, tensor, Some("21-41".into()));
    let transfer = frame.to_transfer_frame(&statistics(&frame));
    transfer.validate().unwrap();

    let attention = transfer
        .state
        .transient
        .as_ref()
        .and_then(|transient| transient.attention.as_ref())
        .unwrap();
    let ffn = transfer
        .state
        .transient
        .as_ref()
        .and_then(|transient| transient.ffn.as_ref())
        .unwrap();

    assert_eq!(attention.width, 8);
    assert_eq!(attention.preview_len, 10);
    assert!(attention.rms_milli > 0);
    assert_ne!(attention.checksum, 0);
    assert_eq!(ffn.width, 8);
    assert_eq!(ffn.preview_len, 6);
    assert!(ffn.rms_milli > 0);
    assert_ne!(ffn.checksum, 0);

    let carry_attention = transfer
        .state
        .carry
        .as_ref()
        .and_then(|carry| carry.attention.as_ref())
        .unwrap();
    assert_eq!(carry_attention.width(), 8);
    assert_eq!(carry_attention.lane_count(), 2);
    assert_eq!(carry_attention.projection_lane_count(), 2);
    assert_eq!(carry_attention.mix_lane_count(), 2);
    assert_eq!(
        carry_attention.projection.as_ref().unwrap().q,
        bits(&[0.1, -0.2])
    );
    assert_eq!(
        carry_attention.mix.as_ref().unwrap().scores,
        bits(&[0.7, -0.8])
    );
    assert!(
        transfer
            .state
            .carry
            .as_ref()
            .and_then(|carry| carry.ffn.as_ref())
            .is_none()
    );

    let full_transfer = frame.to_transfer_frame_with_policy(&StageCarryPolicy::full(), &statistics(&frame));
    full_transfer.validate().unwrap();
    let carry_ffn = full_transfer
        .state
        .carry
        .as_ref()
        .and_then(|carry| carry.ffn.as_ref())
        .unwrap();
    assert_eq!(carry_ffn.width, 8);
    assert_eq!(carry_ffn.lane_count(), 2);
    assert_eq!(carry_ffn.gate_head, bits(&[0.1, 0.2]));
    assert_eq!(carry_ffn.activation_head, bits(&[0.5, 0.6]));
}

#[test]
fn transfer_frame_prefers_execution_captured_carry_over_transient_derivation() {
    let layout = StageLayout {
        model_id: "gemma-4-e4b-q4".into(),
        stage_id: "0-20".into(),
        start_layer: 0,
        end_layer: 20,
        is_head: true,
        is_tail: false,
    };
    let tensor = StageTensor {
        request_id: "req-carry-pref".into(),
        kind: PayloadKind::HiddenState,
        stage_trace: vec!["0-20".into()],
        hidden_dim: 4,
        bytes: vec![0; 16],
        prompt_text: Some("hello".into()),
        max_tokens: Some(8),
        continuation: Some(StageContinuation {
            version: 1,
            stage_role: "head".into(),
            next_layer_index: Some(21),
            completed_layers: 21,
            operator_layers: 21,
            has_attention_path: true,
            has_ffn_path: false,
            has_projection_path: false,
        }),
        transient: Some(StageTransientState {
            attention: Some(AttentionContinuation {
                width: 8,
                lane_indices: vec![0, 1, 2, 3, 4, 5, 6, 7],
                q_preview: bits(&[9.0; 8]),
                k_preview: bits(&[9.0; 8]),
                v_preview: bits(&[9.0; 8]),
                score_preview: bits(&[9.0; 8]),
                value_preview: bits(&[9.0; 8]),
            }),
            ffn: None,
        }),
        carry: Some(StageCarryState {
            attention: Some(CarryableAttentionState {
                contract: StageResumeContractSummary::default(),
                projection: Some(CarryableAttentionProjectionState {
                    width: 8,
                    q_provenance: None,
                    k_provenance: None,
                    v_provenance: None,
                    q_lane_indices: vec![1, 3],
                    k_lane_indices: vec![1, 3],
                    v_lane_indices: vec![1, 3],
                    q: bits(&[0.1, 0.2]),
                    k: bits(&[0.3, 0.4]),
                    v: bits(&[0.5, 0.6]),
                }),
                mix: Some(CarryableAttentionMixState {
                    width: 8,
                    score_provenance: None,
                    value_provenance: None,
                    score_lane_indices: vec![1, 3, 5],
                    value_lane_indices: vec![1, 3, 5],
                    scores: bits(&[0.7, 0.8, 0.9]),
                    values: bits(&[1.0, 1.1, 1.2]),
                }),
            }),
            ffn: None,
        }),
    };

    let frame =
        StageForwardFrame::from_tensor("gemma-4-e4b-q4", &layout, tensor, Some("21-41".into()));
    let transfer = frame.to_transfer_frame(&statistics(&frame));
    let carry = transfer
        .state
        .carry
        .as_ref()
        .and_then(|carry| carry.attention.as_ref())
        .unwrap();

    assert_eq!(
        carry.projection.as_ref().unwrap().q_lane_indices,
        vec![1, 3]
    );
    assert_eq!(
        carry.projection.as_ref().unwrap().k_lane_indices,
        vec![1, 3]
    );
    assert_eq!(
        carry.projection.as_ref().unwrap().v_lane_indices,
        vec![1, 3]
    );
    assert_eq!(
        carry.mix.as_ref().unwrap().score_lane_indices,
        vec![1, 3, 5]
    );
    assert_eq!(
        carry.mix.as_ref().unwrap().value_lane_indices,
        vec![1, 3, 5]
    );
    assert_eq!(carry.projection.as_ref().unwrap().q, bits(&[0.1, 0.2]));
    assert_eq!(carry.mix.as_ref().unwrap().scores, bits(&[0.7, 0.8, 0.9]));
}

fn layout_of(is_head: bool, is_tail: bool) -> StageLayout {
    StageLayout {
        model_id: "m".into(),
        stage_id: "s".into(),
        start_layer: 2,
        end_layer: 3,
        is_head,
        is_tail,
    }
}

fn small_tensor() -> StageTensor {
    StageTensor {
        request_id: "r".into(),
        kind: PayloadKind::HiddenState,
        stage_trace: vec!["s".into()],
        hidden_dim: 2,
        bytes: vec![0; 8],
        prompt_text: None,
        max_tokens: None,
        continuation: None,
        transient: None,
        carry: None,
    }
}

#[test]
fn a_frame_of_a_sound_tensor_is_valid_and_so_is_its_transfer() {
    let frame = StageForwardFrame::from_tensor("m", &layout_of(false, false), small_tensor(), None);
    frame.validate().unwrap();
    assert_eq!(frame.route.source_stage_role, "middle");
    let transfer = frame.to_transfer_frame(&statistics(&frame));
    transfer.validate().unwrap();
    assert_eq!(transfer.payload.bytes, frame.payload.bytes);
    assert_eq!(transfer.into_stage_tensor(), small_tensor());
}

#[test]
fn frames_that_do_not_add_up_are_refused() {
    let frame_of = |tensor: StageTensor| {
        StageForwardFrame::from_tensor("m", &layout_of(true, false), tensor, None)
    };
    let told = |frame: StageForwardFrame| frame.validate().unwrap_err().to_string();
    let mut frame = frame_of(small_tensor());
    frame.version = 9;
    assert_eq!(told(frame), "Unsupported stage forward frame version 9");
    let mut frame = frame_of(small_tensor());
    frame.route.source_stage_start = 4;
    assert_eq!(told(frame), "Invalid stage range 4..3");
    let mut tensor = small_tensor();
    tensor.hidden_dim = 0;
    assert_eq!(told(frame_of(tensor)), "Hidden-state frame must declare hidden_dim");
    let mut tensor = small_tensor();
    tensor.bytes.pop();
    assert_eq!(
        told(frame_of(tensor)),
        "Hidden-state frame bytes 7 do not match hidden_dim 2"
    );
    let mut tensor = small_tensor();
    tensor.stage_trace.clear();
    frame_of(tensor).validate().unwrap();
    let mut tensor = small_tensor();
    tensor.stage_trace = vec!["else\"where".into()];
    assert_eq!(
        told(frame_of(tensor.clone())),
        "Frame source stage s does not match payload trace tail Some(\"else\\\"where\")"
    );
    assert!(frame_of(tensor).to_transfer_frame(&no_statistics()).validate().is_err());
    let mut frame = frame_of(small_tensor());
    frame.state.carry = Some(StageCarryState { attention: None, ffn: None });
    assert_eq!(told(frame), "Frame payload carry and state envelope diverged");
    let mut frame = frame_of(small_tensor());
    frame.state.transient = Some(StageTransientState { attention: None, ffn: None });
    assert_eq!(told(frame), "Frame payload transient and state envelope diverged");
    let mut frame = frame_of(small_tensor());
    frame.payload.continuation = Some(StageContinuation {
        version: 1,
        stage_role: "head".into(),
        next_layer_index: None,
        completed_layers: 1,
        operator_layers: 1,
        has_attention_path: true,
        has_ffn_path: true,
        has_projection_path: true,
    });
    assert_eq!(told(frame), "Frame payload continuation and state envelope diverged");
}

fn no_statistics() -> TransientStatistics {
    let none = PreviewStatistics { mean_milli: 0, mean_abs_milli: 0, rms_milli: 0 };
    TransientStatistics { attention: none, ffn: none }
}

#[test]
fn an_empty_state_has_an_empty_envelope() {
    let envelope = StageStateEnvelope::from_tensor(&small_tensor());
    assert!(envelope.is_empty());
}

#[test]
fn a_signature_tells_previews_apart() {
    let preview = bits(&[0.5, -0.25]);
    let signature =
        TransientSignature::from_preview(8, &preview, preview_statistics(&preview));
    assert_eq!(signature.width, 8);
    assert_eq!(signature.preview_len, 2);
    assert_eq!(signature.mean_milli, 125);
    assert_eq!(signature.mean_abs_milli, 375);
    assert_eq!(signature.rms_milli, 395);
    assert_eq!(
        signature.checksum,
        (preview[0] as u64).wrapping_mul(16777619).wrapping_add(preview[1] as u64)
    );
    let empty = TransientSignature::from_preview(8, &[], preview_statistics(&preview));
    assert_eq!((empty.preview_len, empty.mean_milli, empty.checksum), (0, 0, 0));
}
