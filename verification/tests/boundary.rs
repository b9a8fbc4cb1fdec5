//! Plans for a boundary, held against what crosses it.
use stage_forward_lab::execution::ATTENTION_PROJECTION_CARRY_BUDGET;
use stage_forward_lab::frame::{PreviewStatistics, TransientStatistics};
use stage_forward_lab::layer_run::merge_stage_carry;
use stage_forward_lab::{
    AttentionCheckpointProvenance, AttentionContinuation, CarryableAttentionMixState,
    CarryableAttentionProjectionState, CarryableAttentionState, ExecutionBinding, ExecutionOp,
    ExecutionOpKind, FfnContinuation, LayerExecutionProgram, PayloadKind, StageBoundaryPlan,
    StageCarryPolicy, StageCarryState, StageContinuation, StageForwardFrame, StageLayout,
    StageResumeContractSummary, StageTensor, StageTransientState,
};

/// The bit patterns of numbers.
fn bits(values: &[f32]) -> Vec<u32> {
    values.iter().map(|value| value.to_bits()).collect()
}

/// The mean, the mean size and the root mean square of a preview, in thousandths.
fn preview_statistics(preview: &[u32]) -> PreviewStatistics {
    let values: Vec<f32> = preview.iter().map(|value| f32::from_bits(*value)).collect();
    if values.is_empty() {
        return PreviewStatistics { mean_milli: 0, mean_abs_milli: 0, rms_milli: 0 };
    }
    let count = values.len() as f32;
    let mean = values.iter().sum::<f32>() / count;
    let mean_abs = values.iter().map(|value| value.abs()).sum::<f32>() / count;
    let rms = (values.iter().map(|value| value * value).sum::<f32>() / count).sqrt();
    PreviewStatistics {
        mean_milli: (mean * 1000.0).round() as i32,
        mean_abs_milli: (mean_abs * 1000.0).round() as u32,
        rms_milli: (rms * 1000.0).round() as u32,
    }
}

/// The statistics of what a frame's state previews.
fn statistics(frame: &StageForwardFrame) -> TransientStatistics {
    let transient = frame.state.transient.as_ref();
    let attention = transient
        .and_then(|transient| transient.attention.as_ref())
        .map(|attention| attention.preview_values())
        .unwrap_or_default();
    let ffn = transient
        .and_then(|transient| transient.ffn.as_ref())
        .map(|ffn| ffn.preview_values())
        .unwrap_or_default();
    TransientStatistics {
        attention: preview_statistics(&attention),
        ffn: preview_statistics(&ffn),
    }
}

#[test]
fn boundary_plan_tracks_execution_boundary_expectations() {
    let layout = StageLayout {
        model_id: "gemma-4-e4b-q4".into(),
        stage_id: "0-20".into(),
        start_layer: 0,
        end_layer: 20,
        is_head: true,
        is_tail: false,
    };
    let tensor = StageTensor {
        request_id: "req-6".into(),
        kind: PayloadKind::HiddenState,
        stage_trace: vec!["0-20".into()],
        hidden_dim: 4,
        bytes: vec![0; 16],
        prompt_text: Some("hello".into()),
        max_tokens: Some(8),
        continuation: Some(StageContinuation {
            version: 1,
            stage_role: "head".into(),
            next_layer_index: Some(21),
            completed_layers: 21,
            operator_layers: 21,
            has_attention_path: true,
            has_ffn_path: true,
            has_projection_path: true,
        }),
        transient: Some(StageTransientState {
            attention: Some(AttentionContinuation {
                width: 8,
                lane_indices: vec![0, 1],
                q_preview: bits(&[0.1, -0.2]),
                k_preview: bits(&[0.3, -0.4]),
                v_preview: bits(&[0.5, -0.6]),
                score_preview: bits(&[0.7, -0.8]),
                value_preview: bits(&[0.9, -1.0]),
            }),
            ffn: Some(FfnContinuation {
                width: 8,
                lane_indices: vec![0, 1],
                gate_preview: bits(&[0.1, 0.2]),
                up_preview: bits(&[0.3, 0.4]),
                activation_preview: bits(&[0.5, 0.6]),
            }),
        }),
        carry: None,
    };
    let frame =
        StageForwardFrame::from_tensor("gemma-4-e4b-q4", &layout, tensor, Some("21-41".into()));
    let programs = vec![LayerExecutionProgram {
        layer_index: 0,
        hidden_dim: Some(2048),
        q_out_dim: Some(2560),
        k_out_dim: Some(2560),
        v_out_dim: Some(2560),
        ffn_inner_dim: Some(2560),
        runnable_sketch: true,
        ops: vec![
            ExecutionOp::new(
                ExecutionOpKind::AttentionQ,
                vec!["blk.0.attn_q.weight".into()],
                ExecutionBinding::QuantizedMatrix,
                "quantized matrix tensors",
            ),
            ExecutionOp::new(
                ExecutionOpKind::AttentionOut,
                vec!["blk.0.attn_output.weight".into()],
                ExecutionBinding::QuantizedMatrix,
                "quantized matrix tensors",
            ),
        ],
    }];

    let transfer =
        frame.to_transfer_frame_for_execution_boundary(&layout, &programs, &statistics(&frame));
    let plan = frame.to_boundary_plan_for_execution_boundary(&layout, &programs);
    transfer.validate().unwrap();
    plan.validate_against_transfer(&transfer).unwrap();
    assert_eq!(plan.next_layer_index, Some(21));
    assert!(!plan.expects_attention_carry);
    assert!(!plan.expects_ffn_carry);
    assert_eq!(plan.expected_attention_width, None);
    assert_eq!(plan.expected_attention_lanes, None);
    assert!(!plan.expects_attention_projection_carry);
    assert!(!plan.expects_attention_mix_carry);
    assert_eq!(plan.expected_attention_projection_lanes, None);
    assert_eq!(plan.expected_attention_mix_lanes, None);
    assert_eq!(plan.expected_ffn_width, None);
    assert_eq!(plan.expected_ffn_lanes, None);
    assert!(plan.resumable_attention_path);
    assert!(!plan.resumable_attention_projection);
    assert!(!plan.resumable_attention_mix);
    assert!(!plan.resumable_ffn_path);
    assert!(!plan.resumable_projection_path);
}

#[test]
fn boundary_plan_derives_attention_substate_capabilities_from_execution_program() {
    let layout = StageLayout {
        model_id: "gemma-4-e4b-q4".into(),
        stage_id: "21-30".into(),
        start_layer: 21,
        end_layer: 30,
        is_head: false,
        is_tail: false,
    };
    let tensor = StageTensor {
        request_id: "req-cap-shape".into(),
        kind: PayloadKind::HiddenState,
        stage_trace: vec!["0-20".into()],
        hidden_dim: 4,
        bytes: vec![0; 16],
        prompt_text: Some("hello".into()),
        max_tokens: Some(8),
        continuation: Some(StageContinuation {
            version: 1,
            stage_role: "head".into(),
            next_layer_index: Some(21),
            completed_layers: 21,
            operator_layers: 21,
            has_attention_path: true,
            has_ffn_path: true,
            has_projection_path: true,
        }),
        transient: Some(StageTransientState {
            attention: Some(AttentionContinuation {
                width: 8,
                lane_indices: vec![0, 1],
                q_preview: bits(&[0.1, -0.2]),
                k_preview: bits(&[0.3, -0.4]),
                v_preview: bits(&[0.5, -0.6]),
                score_preview: bits(&[0.7, -0.8]),
                value_preview: bits(&[0.9, -1.0]),
            }),
            ffn: None,
        }),
        carry: None,
    };
    let frame =
        StageForwardFrame::from_tensor("gemma-4-e4b-q4", &layout, tensor, Some("31-41".into()));
    let programs = vec![LayerExecutionProgram {
        layer_index: 21,
        hidden_dim: Some(2048),
        q_out_dim: Some(2560),
        k_out_dim: Some(2560),
        v_out_dim: Some(2560),
        ffn_inner_dim: None,
        runnable_sketch: true,
        ops: vec![ExecutionOp::new(
            ExecutionOpKind::AttentionOut,
            vec!["blk.21.attn_output.weight".into()],
            ExecutionBinding::QuantizedMatrix,
            "quantized matrix tensors",
        )],
    }];

    let plan = frame.to_boundary_plan_for_execution_boundary(&layout, &programs);
    assert!(plan.resumable_attention_path);
    assert!(!plan.resumable_attention_projection);
    assert!(!plan.resumable_attention_mix);
    assert!(!plan.resumable_ffn_path);
    assert!(!plan.resumable_projection_path);
}

#[test]
fn boundary_plan_advertises_attention_projection_slices_independently() {
    let layout = StageLayout {
        model_id: "gemma-4-e4b-q4".into(),
        stage_id: "21-30".into(),
        start_layer: 21,
        end_layer: 30,
        is_head: false,
        is_tail: false,
    };
    let tensor = StageTensor {
        request_id: "req-q-slice".into(),
        kind: PayloadKind::HiddenState,
        stage_trace: vec!["0-20".into()],
        hidden_dim: 4,
        bytes: vec![0; 16],
        prompt_text: Some("hello".into()),
        max_tokens: Some(8),
        continuation: Some(StageContinuation {
            version: 1,
            stage_role: "head".into(),
            next_layer_index: Some(21),
            completed_layers: 21,
            operator_layers: 21,
            has_attention_path: true,
            has_ffn_path: false,
            has_projection_path: false,
        }),
        transient: Some(StageTransientState {
            attention: Some(AttentionContinuation {
                width: 8,
                lane_indices: vec![0, 1],
                q_preview: bits(&[0.1, -0.2]),
                k_preview: bits(&[0.3, -0.4]),
                v_preview: bits(&[0.5, -0.6]),
                score_preview: bits(&[0.7, -0.8]),
                value_preview: bits(&[0.9, -1.0]),
            }),
            ffn: None,
        }),
        carry: None,
    };
    let frame =
        StageForwardFrame::from_tensor("gemma-4-e4b-q4", &layout, tensor, Some("31-41".into()));
    let programs = vec![LayerExecutionProgram {
        layer_index: 21,
        hidden_dim: Some(2048),
        q_out_dim: Some(2560),
        k_out_dim: Some(2560),
        v_out_dim: Some(2560),
        ffn_inner_dim: None,
        runnable_sketch: true,
        ops: vec![ExecutionOp::new(
            ExecutionOpKind::AttentionQ,
            vec!["blk.21.attn_q.weight".into()],
            ExecutionBinding::QuantizedMatrix,
            "quantized matrix tensors",
        )],
    }];

    let plan = frame.to_boundary_plan_for_execution_boundary(&layout, &programs);
    assert!(plan.resumable_attention_path);
    assert!(plan.resumable_attention_q);
    assert!(!plan.resumable_attention_k);
    assert!(!plan.resumable_attention_v);
    assert_eq!(
        plan.resumable_attention_q_lanes,
        Some(ATTENTION_PROJECTION_CARRY_BUDGET)
    );
    assert_eq!(plan.resumable_attention_k_lanes, None);
    assert_eq!(plan.resumable_attention_v_lanes, None);
    assert!(!plan.resumable_attention_projection);
    assert!(!plan.resumable_attention_mix);
}

#[test]
fn boundary_plan_uses_resume_entry_layer_not_later_stage_layers_for_capabilities() {
    let layout = StageLayout {
        model_id: "gemma-4-e4b-q4".into(),
        stage_id: "21-30".into(),
        start_layer: 21,
        end_layer: 30,
        is_head: false,
        is_tail: false,
    };
    let tensor = StageTensor {
        request_id: "req-entry-cap".into(),
        kind: PayloadKind::HiddenState,
        stage_trace: vec!["0-20".into()],
        hidden_dim: 4,
        bytes: vec![0; 16],
        prompt_text: Some("hello".into()),
        max_tokens: Some(8),
        continuation: Some(StageContinuation {
            version: 1,
            stage_role: "head".into(),
            next_layer_index: Some(21),
            completed_layers: 21,
            operator_layers: 21,
            has_attention_path: true,
            has_ffn_path: true,
            has_projection_path: true,
        }),
        transient: Some(StageTransientState {
            attention: Some(AttentionContinuation {
                width: 8,
                lane_indices: vec![0, 1],
                q_preview: bits(&[0.1, -0.2]),
                k_preview: bits(&[0.3, -0.4]),
                v_preview: bits(&[0.5, -0.6]),
                score_preview: bits(&[0.7, -0.8]),
                value_preview: bits(&[0.9, -1.0]),
            }),
            ffn: None,
        }),
        carry: None,
    };
    let frame =
        StageForwardFrame::from_tensor("gemma-4-e4b-q4", &layout, tensor, Some("31-41".into()));
    let programs = vec![
        LayerExecutionProgram {
            layer_index: 21,
            hidden_dim: Some(2048),
            q_out_dim: Some(2560),
            k_out_dim: Some(2560),
            v_out_dim: Some(2560),
            ffn_inner_dim: Some(2560),
            runnable_sketch: true,
            ops: vec![ExecutionOp::new(
                ExecutionOpKind::FfnGate,
                vec!["blk.21.ffn_gate.weight".into()],
                ExecutionBinding::QuantizedMatrix,
                "quantized matrix tensors",
            )],
        },
        LayerExecutionProgram {
            layer_index: 22,
            hidden_dim: Some(2048),
            q_out_dim: Some(2560),
            k_out_dim: Some(2560),
            v_out_dim: Some(2560),
            ffn_inner_dim: Some(2560),
            runnable_sketch: true,
            ops: vec![
                ExecutionOp::new(
                    ExecutionOpKind::AttentionQ,
                    vec!["blk.22.attn_q.weight".into()],
                    ExecutionBinding::QuantizedMatrix,
                    "quantized matrix tensors",
                ),
                ExecutionOp::new(
                    ExecutionOpKind::AttentionK,
                    vec!["blk.22.attn_k.weight".into()],
                    ExecutionBinding::QuantizedMatrix,
                    "quantized matrix tensors",
                ),
                ExecutionOp::new(
                    ExecutionOpKind::AttentionV,
                    vec!["blk.22.attn_v.weight".into()],
                    ExecutionBinding::QuantizedMatrix,
                    "quantized matrix tensors",
                ),
                ExecutionOp::new(
                    ExecutionOpKind::AttentionOut,
                    vec!["blk.22.attn_output.weight".into()],
                    ExecutionBinding::QuantizedMatrix,
                    "quantized matrix tensors",
                ),
            ],
        },
    ];

    let transfer =
        frame.to_transfer_frame_for_execution_boundary(&layout, &programs, &statistics(&frame));
    let plan = frame.to_boundary_plan_for_execution_boundary(&layout, &programs);
    assert!(transfer.state.carry.is_none());
    assert!(!plan.expects_attention_carry);
    assert!(!plan.expects_attention_projection_carry);
    assert!(!plan.expects_attention_mix_carry);
    assert!(!plan.resumable_attention_path);
    assert!(!plan.resumable_attention_projection);
    assert!(!plan.resumable_attention_mix);
}

#[test]
fn execution_boundary_clamps_attention_carry_to_entry_budget() {
    let layout = StageLayout {
        model_id: "gemma-4-e4b-q4".into(),
        stage_id: "0-20".into(),
        start_layer: 0,
        end_layer: 20,
        is_head: true,
        is_tail: false,
    };
    let tensor = StageTensor {
        request_id: "req-budget-clamp".into(),
        kind: PayloadKind::HiddenState,
        stage_trace: vec!["0-20".into()],
        hidden_dim: 4,
        bytes: vec![0; 16],
        prompt_text: Some("hello".into()),
        max_tokens: Some(8),
        continuation: Some(StageContinuation {
            version: 1,
            stage_role: "head".into(),
            next_layer_index: Some(21),
            completed_layers: 21,
            operator_layers: 21,
            has_attention_path: true,
            has_ffn_path: false,
            has_projection_path: false,
        }),
        transient: Some(StageTransientState {
            attention: Some(AttentionContinuation {
                width: 8,
                lane_indices: vec![0, 1, 2, 3, 4, 5, 6, 7],
                q_preview: bits(&[0.1, 0.2, 0.3, 0.4, 0.5, 0.6, 0.7, 0.8]),
                k_preview: bits(&[1.1, 1.2, 1.3, 1.4, 1.5, 1.6, 1.7, 1.8]),
                v_preview: bits(&[2.1, 2.2, 2.3, 2.4, 2.5, 2.6, 2.7, 2.8]),
                score_preview: bits(&[3.1, 3.2, 3.3, 3.4, 3.5, 3.6, 3.7, 3.8]),
                value_preview: bits(&[4.1, 4.2, 4.3, 4.4, 4.5, 4.6, 4.7, 4.8]),
            }),
            ffn: None,
        }),
        carry: None,
    };
    let frame =
        StageForwardFrame::from_tensor("gemma-4-e4b-q4", &layout, tensor, Some("21-41".into()));
    let programs = vec![LayerExecutionProgram {
        layer_index: 21,
        hidden_dim: Some(2),
        q_out_dim: Some(2),
        k_out_dim: Some(2),
        v_out_dim: Some(2),
        ffn_inner_dim: None,
        runnable_sketch: true,
        ops: vec![
            ExecutionOp::new(
                ExecutionOpKind::AttentionQ,
                vec!["blk.21.attn_q.weight".into()],
                ExecutionBinding::QuantizedMatrix,
                "quantized matrix tensors",
            ),
            ExecutionOp::new(
                ExecutionOpKind::AttentionK,
                vec!["blk.21.attn_k.weight".into()],
                ExecutionBinding::QuantizedMatrix,
                "quantized matrix tensors",
            ),
            ExecutionOp::new(
                ExecutionOpKind::AttentionV,
                vec!["blk.21.attn_v.weight".into()],
                ExecutionBinding::QuantizedMatrix,
                "quantized matrix tensors",
            ),
            ExecutionOp::new(
                ExecutionOpKind::AttentionOut,
                vec!["blk.21.attn_output.weight".into()],
                ExecutionBinding::QuantizedMatrix,
                "quantized matrix tensors",
            ),
        ],
    }];

    let transfer =
        frame.to_transfer_frame_for_execution_boundary(&layout, &programs, &statistics(&frame));
    let plan = frame.to_boundary_plan_for_execution_boundary(&layout, &programs);
    let carry = transfer
        .state
        .carry
        .as_ref()
        .and_then(|carry| carry.attention.as_ref())
        .unwrap();

    assert_eq!(carry.projection_lane_count(), 2);
    assert_eq!(carry.mix_lane_count(), 2);
    assert_eq!(
        carry.projection.as_ref().unwrap().q_lane_indices,
        vec![0, 1]
    );
    assert_eq!(
        carry.projection.as_ref().unwrap().k_lane_indices,
        vec![0, 1]
    );
    assert_eq!(
        carry.projection.as_ref().unwrap().v_lane_indices,
        vec![0, 1]
    );
    assert_eq!(carry.mix.as_ref().unwrap().score_lane_indices, vec![0, 1]);
    assert_eq!(carry.mix.as_ref().unwrap().value_lane_indices, vec![0, 1]);
    assert_eq!(plan.expected_attention_q_lanes, Some(2));
    assert_eq!(plan.expected_attention_k_lanes, Some(2));
    assert_eq!(plan.expected_attention_v_lanes, Some(2));
    assert_eq!(plan.expected_attention_score_lanes, Some(2));
    assert_eq!(plan.expected_attention_value_lanes, Some(2));
    assert_eq!(plan.resumable_attention_q_lanes, Some(2));
    assert_eq!(plan.resumable_attention_k_lanes, Some(2));
    assert_eq!(plan.resumable_attention_v_lanes, Some(2));
    assert_eq!(plan.expected_attention_projection_lanes, Some(2));
    assert_eq!(plan.expected_attention_mix_lanes, Some(2));
}

#[test]
fn execution_boundary_caps_attention_mix_budget_by_projection_budget() {
    let layout = StageLayout {
        model_id: "gemma-4-e4b-q4".into(),
        stage_id: "0-20".into(),
        start_layer: 0,
        end_layer: 20,
        is_head: true,
        is_tail: false,
    };
    let tensor = StageTensor {
        request_id: "req-mix-cap".into(),
        kind: PayloadKind::HiddenState,
        stage_trace: vec!["0-20".into()],
        hidden_dim: 4,
        bytes: vec![0; 16],
        prompt_text: Some("hello".into()),
        max_tokens: Some(8),
        continuation: Some(StageContinuation {
            version: 1,
            stage_role: "head".into(),
            next_layer_index: Some(21),
            completed_layers: 21,
            operator_layers: 21,
            has_attention_path: true,
            has_ffn_path: false,
            has_projection_path: false,
        }),
        transient: Some(StageTransientState {
            attention: Some(AttentionContinuation {
                width: 16,
                lane_indices: (0..8).collect(),
                q_preview: bits(&[0.1; 8]),
                k_preview: bits(&[0.2; 8]),
                v_preview: bits(&[0.3; 8]),
                score_preview: bits(&[0.4; 8]),
                value_preview: bits(&[0.5; 8]),
            }),
            ffn: None,
        }),
        carry: None,
    };
    let frame =
        StageForwardFrame::from_tensor("gemma-4-e4b-q4", &layout, tensor, Some("21-41".into()));
    let programs = vec![LayerExecutionProgram {
        layer_index: 21,
        hidden_dim: Some(16),
        q_out_dim: Some(16),
        k_out_dim: Some(16),
        v_out_dim: Some(16),
        ffn_inner_dim: None,
        runnable_sketch: true,
        ops: vec![
            ExecutionOp::new(
                ExecutionOpKind::AttentionQ,
                vec!["blk.21.attn_q.weight".into()],
                ExecutionBinding::QuantizedMatrix,
                "quantized matrix tensors",
            ),
            ExecutionOp::new(
                ExecutionOpKind::AttentionK,
                vec!["blk.21.attn_k.weight".into()],
                ExecutionBinding::QuantizedMatrix,
                "quantized matrix tensors",
            ),
            ExecutionOp::new(
                ExecutionOpKind::AttentionV,
                vec!["blk.21.attn_v.weight".into()],
                ExecutionBinding::QuantizedMatrix,
                "quantized matrix tensors",
            ),
            ExecutionOp::new(
                ExecutionOpKind::AttentionOut,
                vec!["blk.21.attn_output.weight".into()],
                ExecutionBinding::QuantizedMatrix,
                "quantized matrix tensors",
            ),
        ],
    }];

    let transfer =
        frame.to_transfer_frame_for_execution_boundary(&layout, &programs, &statistics(&frame));
    let plan = frame.to_boundary_plan_for_execution_boundary(&layout, &programs);
    let carry = transfer
        .state
        .carry
        .as_ref()
        .and_then(|carry| carry.attention.as_ref())
        .unwrap();

    assert_eq!(
        carry.projection_lane_count(),
        ATTENTION_PROJECTION_CARRY_BUDGET
    );
    assert_eq!(carry.mix_lane_count(), ATTENTION_PROJECTION_CARRY_BUDGET);
    assert_eq!(
        plan.expected_attention_mix_lanes,
        Some(ATTENTION_PROJECTION_CARRY_BUDGET)
    );
}

#[test]
fn execution_boundary_plan_surfaces_aged_attention_freshness() {
    let merged = merge_stage_carry(
        Some(StageCarryState {
            attention: Some(CarryableAttentionState {
                contract: StageResumeContractSummary::default(),
                projection: Some(CarryableAttentionProjectionState {
                    width: 8,
                    q_provenance: Some(AttentionCheckpointProvenance {
                        layer_index: 3,
                        operator_kind: "AttentionQ".into(),
                        layer_distance_to_boundary: 0,
                    }),
                    k_provenance: Some(AttentionCheckpointProvenance {
                        layer_index: 3,
                        operator_kind: "AttentionK".into(),
                        layer_distance_to_boundary: 0,
                    }),
                    v_provenance: Some(AttentionCheckpointProvenance {
                        layer_index: 3,
                        operator_kind: "AttentionV".into(),
                        layer_distance_to_boundary: 0,
                    }),
                    q_lane_indices: vec![0, 1],
                    k_lane_indices: vec![0, 1],
                    v_lane_indices: vec![0, 1],
                    q: bits(&[0.1, 0.2]),
                    k: bits(&[0.3, 0.4]),
                    v: bits(&[0.5, 0.6]),
                }),
                mix: Some(CarryableAttentionMixState {
                    width: 8,
                    score_provenance: Some(AttentionCheckpointProvenance {
                        layer_index: 3,
                        operator_kind: "AttentionOut".into(),
                        layer_distance_to_boundary: 0,
                    }),
                    value_provenance: Some(AttentionCheckpointProvenance {
                        layer_index: 3,
                        operator_kind: "AttentionOut".into(),
                        layer_distance_to_boundary: 0,
                    }),
                    score_lane_indices: vec![0, 1],
                    value_lane_indices: vec![0, 1],
                    scores: bits(&[0.7, 0.8]),
                    values: bits(&[0.9, 1.0]),
                }),
            }),
            ffn: None,
        }),
        None,
    )
    .unwrap();
    let layout = StageLayout {
        model_id: "Toy".into(),
        stage_id: "packed-head".into(),
        start_layer: 0,
        end_layer: 4,
        is_head: true,
        is_tail: false,
    };
    let frame = StageForwardFrame::from_tensor(
        "Toy",
        &layout,
        StageTensor {
            request_id: "req-aged-boundary".into(),
            kind: PayloadKind::HiddenState,
            stage_trace: vec!["packed-head".into()],
            hidden_dim: 8,
            bytes: vec![0; 32],
            prompt_text: None,
            max_tokens: None,
            continuation: Some(StageContinuation {
                version: 1,
                stage_role: "head".into(),
                next_layer_index: Some(5),
                completed_layers: 5,
                operator_layers: 5,
                has_attention_path: true,
                has_ffn_path: false,
                has_projection_path: true,
            }),
            transient: None,
            carry: Some(merged),
        },
        Some("packed-tail".into()),
    );
    let programs = vec![LayerExecutionProgram {
        layer_index: 5,
        hidden_dim: Some(8),
        q_out_dim: Some(8),
        k_out_dim: Some(8),
        v_out_dim: Some(8),
        ffn_inner_dim: None,
        runnable_sketch: true,
        ops: vec![
            ExecutionOp::new(
                ExecutionOpKind::AttentionQ,
                vec!["blk.5.attn_q.weight".into()],
                ExecutionBinding::QuantizedMatrix,
                "quantized matrix tensors",
            ),
            ExecutionOp::new(
                ExecutionOpKind::AttentionK,
                vec!["blk.5.attn_k.weight".into()],
                ExecutionBinding::QuantizedMatrix,
                "quantized matrix tensors",
            ),
            ExecutionOp::new(
                ExecutionOpKind::AttentionV,
                vec!["blk.5.attn_v.weight".into()],
                ExecutionBinding::QuantizedMatrix,
                "quantized matrix tensors",
            ),
            ExecutionOp::new(
                ExecutionOpKind::AttentionOut,
                vec!["blk.5.attn_output.weight".into()],
                ExecutionBinding::QuantizedMatrix,
                "quantized matrix tensors",
            ),
        ],
    }];

    let transfer =
        frame.to_transfer_frame_for_execution_boundary(&layout, &programs, &statistics(&frame));
    let plan = frame.to_boundary_plan_for_execution_boundary(&layout, &programs);

    plan.validate_against_transfer(&transfer).unwrap();
    assert_eq!(plan.expected_attention_q_distance, Some(1));
    assert_eq!(plan.expected_attention_k_distance, Some(1));
    assert_eq!(plan.expected_attention_v_distance, Some(1));
    assert_eq!(plan.expected_attention_score_distance, Some(1));
    assert_eq!(plan.expected_attention_value_distance, Some(1));
    assert_eq!(plan.resumable_attention_q_max_distance, Some(2));
    assert_eq!(plan.resumable_attention_k_max_distance, Some(2));
    assert_eq!(plan.resumable_attention_v_max_distance, Some(2));
    assert_eq!(plan.resumable_attention_score_max_distance, Some(1));
    assert_eq!(plan.resumable_attention_value_max_distance, Some(1));
}

#[test]
fn a_plan_fits_the_transfer_that_it_was_made_for() {
    for (carry_attention, carry_ffn) in [(false, false), (true, false), (false, true), (true, true)] {
        let policy = StageCarryPolicy { carry_attention, carry_ffn };
        let frame = previewed_frame();
        let plan = StageBoundaryPlan::from_frame(&frame, policy);
        let transfer = frame.to_transfer_frame_with_policy(&policy, &statistics(&frame));
        transfer.validate().unwrap();
        plan.validate_against_transfer(&transfer).unwrap();
        assert_eq!(plan.expects_attention_carry, carry_attention);
        assert_eq!(plan.expects_ffn_carry, carry_ffn);
        plan.to_resume_request(transfer).unwrap().validate().unwrap();
    }
}

#[test]
fn a_plan_refuses_another_transfer() {
    let frame = previewed_frame();
    let policy = StageCarryPolicy::full();
    let plan = StageBoundaryPlan::from_frame(&frame, policy);
    let good = frame.to_transfer_frame_with_policy(&policy, &statistics(&frame));

    let mut other = good.clone();
    other.route.source_stage_id = "elsewhere".into();
    assert!(plan.validate_against_transfer(&other).is_err());
    let mut other = good.clone();
    other.payload.hidden_dim = 5;
    assert!(plan.validate_against_transfer(&other).is_err());
    let mut other = good.clone();
    other.state.carry = None;
    assert!(plan.validate_against_transfer(&other).is_err());
    let mut other = good.clone();
    other.route.target_stage_id = Some("a \"b\"".into());
    let told = plan.validate_against_transfer(&other).unwrap_err().to_string();
    assert!(told.contains("Some(\"a \\\"b\\\"\")"), "{told}");
}

fn previewed_frame() -> StageForwardFrame {
    let layout = StageLayout {
        model_id: "m".into(),
        stage_id: "0-20".into(),
        start_layer: 0,
        end_layer: 20,
        is_head: true,
        is_tail: false,
    };
    let tensor = StageTensor {
        request_id: "r".into(),
        kind: PayloadKind::HiddenState,
        stage_trace: vec!["0-20".into()],
        hidden_dim: 4,
        bytes: vec![0; 16],
        prompt_text: None,
        max_tokens: None,
        continuation: Some(StageContinuation {
            version: 1,
            stage_role: "head".into(),
            next_layer_index: Some(21),
            completed_layers: 21,
            operator_layers: 21,
            has_attention_path: true,
            has_ffn_path: true,
            has_projection_path: true,
        }),
        transient: Some(StageTransientState {
            attention: Some(AttentionContinuation {
                width: 8,
                lane_indices: vec![0, 1],
                q_preview: bits(&[0.1, -0.2]),
                k_preview: bits(&[0.3, -0.4]),
                v_preview: bits(&[0.5, -0.6]),
                score_preview: bits(&[0.7, -0.8]),
                value_preview: bits(&[0.9, -1.0]),
            }),
            ffn: Some(FfnContinuation {
                width: 8,
                lane_indices: vec![0, 1],
                gate_preview: bits(&[0.1, 0.2]),
                up_preview: bits(&[0.3, 0.4]),
                activation_preview: bits(&[0.5, 0.6]),
            }),
        }),
        carry: None,
    };
    StageForwardFrame::from_tensor("m", &layout, tensor, Some("21-41".into()))
}
