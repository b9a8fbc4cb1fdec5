//! What of a stage's inner state is carried across a boundary.
use stage_forward_lab::execution::{ATTENTION_MIX_CARRY_BUDGET, ATTENTION_PROJECTION_CARRY_BUDGET};
use stage_forward_lab::{
    AttentionCheckpointProvenance, AttentionContinuation, CarryableAttentionMixState,
    CarryableAttentionState, CarryableFfnState, ExecutionBinding, ExecutionOp, ExecutionOpKind,
    LayerExecutionProgram, StageCarryPolicy, StageCarryState, StageContinuation, StageLayout,
    StageResumeBudgets, StageResumeCapabilities, StageResumeContractSummary,
};

/// The bit patterns of numbers.
fn bits(values: &[f32]) -> Vec<u32> {
    values.iter().map(|value| value.to_bits()).collect()
}

#[test]
fn stage_carry_policy_is_derived_from_boundary() {
    let head_layout = StageLayout {
        model_id: "gemma-4-e4b-q4".into(),
        stage_id: "0-20".into(),
        start_layer: 0,
        end_layer: 20,
        is_head: true,
        is_tail: false,
    };
    let middle_layout = StageLayout {
        model_id: "gemma-4-e4b-q4".into(),
        stage_id: "21-30".into(),
        start_layer: 21,
        end_layer: 30,
        is_head: false,
        is_tail: false,
    };
    let tail_layout = StageLayout {
        model_id: "gemma-4-e4b-q4".into(),
        stage_id: "31-41".into(),
        start_layer: 31,
        end_layer: 41,
        is_head: false,
        is_tail: true,
    };
    let continuation = StageContinuation {
        version: 1,
        stage_role: "head".into(),
        next_layer_index: Some(21),
        completed_layers: 21,
        operator_layers: 21,
        has_attention_path: true,
        has_ffn_path: true,
        has_projection_path: true,
    };

    let head = StageCarryPolicy::for_boundary(&head_layout, Some(&continuation));
    assert!(head.carry_attention);
    assert!(!head.carry_ffn);

    let middle = StageCarryPolicy::for_boundary(&middle_layout, Some(&continuation));
    assert!(middle.carry_attention);
    assert!(middle.carry_ffn);

    let tail = StageCarryPolicy::for_boundary(&tail_layout, Some(&continuation));
    assert!(!tail.carry_attention);
    assert!(!tail.carry_ffn);
}

#[test]
fn stage_carry_policy_is_constrained_by_execution_programs() {
    let middle_layout = StageLayout {
        model_id: "gemma-4-e4b-q4".into(),
        stage_id: "21-30".into(),
        start_layer: 21,
        end_layer: 30,
        is_head: false,
        is_tail: false,
    };
    let continuation = StageContinuation {
        version: 1,
        stage_role: "middle".into(),
        next_layer_index: Some(31),
        completed_layers: 10,
        operator_layers: 10,
        has_attention_path: true,
        has_ffn_path: true,
        has_projection_path: true,
    };
    let ffn_only_program = LayerExecutionProgram {
        layer_index: 21,
        hidden_dim: Some(2048),
        q_out_dim: None,
        k_out_dim: None,
        v_out_dim: None,
        ffn_inner_dim: Some(2560),
        runnable_sketch: true,
        ops: vec![
            ExecutionOp::new(
                ExecutionOpKind::FfnGate,
                vec!["blk.21.ffn_gate.weight".into()],
                ExecutionBinding::QuantizedMatrix,
                "quantized matrix tensors",
            ),
            ExecutionOp::new(
                ExecutionOpKind::FfnUp,
                vec!["blk.21.ffn_up.weight".into()],
                ExecutionBinding::QuantizedMatrix,
                "quantized matrix tensors",
            ),
            ExecutionOp::new(
                ExecutionOpKind::FfnDown,
                vec!["blk.21.ffn_down.weight".into()],
                ExecutionBinding::QuantizedMatrix,
                "quantized matrix tensors",
            ),
        ],
    };

    let policy = StageCarryPolicy::for_execution_boundary(
        &middle_layout,
        Some(&continuation),
        &[ffn_only_program],
    );
    assert!(!policy.carry_attention);
    assert!(policy.carry_ffn);
}

#[test]
fn attention_carry_uses_typed_budgeted_projection_and_mix_substates() {
    let attention = AttentionContinuation {
        width: 16,
        lane_indices: vec![0, 2, 4, 6, 8, 10, 12, 14],
        q_preview: bits(&[0.1, 0.2, 0.3, 0.4, 0.5, 0.6, 0.7, 0.8]),
        k_preview: bits(&[-0.1, -0.2, -0.3, -0.4, -0.5, -0.6, -0.7, -0.8]),
        v_preview: bits(&[1.1, 1.2, 1.3, 1.4, 1.5, 1.6, 1.7, 1.8]),
        score_preview: bits(&[2.1, 2.2, 2.3, 2.4, 2.5, 2.6, 2.7, 2.8]),
        value_preview: bits(&[3.1, 3.2, 3.3, 3.4, 3.5, 3.6, 3.7, 3.8]),
    };

    let carry = CarryableAttentionState::from_attention(&attention);
    assert_eq!(carry.width(), 16);
    assert_eq!(
        carry.projection_lane_count(),
        ATTENTION_PROJECTION_CARRY_BUDGET
    );
    assert_eq!(carry.mix_lane_count(), ATTENTION_MIX_CARRY_BUDGET);
    assert_eq!(
        carry.projection.as_ref().unwrap().q_lane_indices,
        vec![0, 2, 4, 6]
    );
    assert_eq!(
        carry.projection.as_ref().unwrap().k_lane_indices,
        vec![0, 2, 4, 6]
    );
    assert_eq!(
        carry.projection.as_ref().unwrap().v_lane_indices,
        vec![0, 2, 4, 6]
    );
    assert_eq!(
        carry.mix.as_ref().unwrap().score_lane_indices,
        vec![0, 2, 4, 6, 8, 10, 12, 14]
    );
    assert_eq!(
        carry.mix.as_ref().unwrap().value_lane_indices,
        vec![0, 2, 4, 6, 8, 10, 12, 14]
    );
    assert_eq!(
        carry.projection.as_ref().unwrap().q,
        bits(&[0.1, 0.2, 0.3, 0.4])
    );
    assert_eq!(
        carry.mix.as_ref().unwrap().scores,
        bits(&[2.1, 2.2, 2.3, 2.4, 2.5, 2.6, 2.7, 2.8])
    );

    let roundtrip = carry.to_attention_continuation().unwrap();
    assert_eq!(roundtrip.width, 16);
    assert_eq!(roundtrip.lane_indices, vec![0, 2, 4, 6, 8, 10, 12, 14]);
    assert_eq!(
        roundtrip.q_preview,
        bits(&[0.1, 0.2, 0.3, 0.4, 0.0, 0.0, 0.0, 0.0])
    );
    assert_eq!(
        roundtrip.score_preview,
        bits(&[2.1, 2.2, 2.3, 2.4, 2.5, 2.6, 2.7, 2.8])
    );
}

#[test]
fn resume_contract_drops_attention_mix_without_projection_resume() {
    let carry = StageCarryState {
        attention: Some(CarryableAttentionState {
            contract: StageResumeContractSummary::default(),
            projection: None,
            mix: Some(CarryableAttentionMixState {
                width: 8,
                score_provenance: None,
                value_provenance: None,
                score_lane_indices: vec![0, 2, 4],
                value_lane_indices: vec![0, 2, 4],
                scores: bits(&[0.1, 0.2, 0.3]),
                values: bits(&[0.4, 0.5, 0.6]),
            }),
        }),
        ffn: None,
    };
    let capabilities = StageResumeCapabilities {
        attention_path: true,
        attention_q: false,
        attention_k: false,
        attention_v: false,
        attention_projection: false,
        attention_mix: true,
        ffn_path: false,
        projection_path: false,
    };
    let budgets = StageResumeBudgets {
        attention_q_lanes: None,
        attention_k_lanes: None,
        attention_v_lanes: None,
        attention_projection_lanes: None,
        attention_mix_lanes: Some(3),
        ffn_lanes: None,
    };

    assert!(
        carry
            .with_resume_contract(&capabilities, &budgets)
            .is_none()
    );
    assert!(carry.with_resume_capabilities(&capabilities).is_none());
}

fn full_attention() -> AttentionContinuation {
    AttentionContinuation {
        width: 16,
        lane_indices: vec![0, 2, 4, 6, 8, 10, 12, 14],
        q_preview: bits(&[0.1, 0.2, 0.3, 0.4, 0.5, 0.6, 0.7, 0.8]),
        k_preview: bits(&[-0.1, -0.2, -0.3, -0.4, -0.5, -0.6, -0.7, -0.8]),
        v_preview: bits(&[1.1, 1.2, 1.3, 1.4, 1.5, 1.6, 1.7, 1.8]),
        score_preview: bits(&[2.1, 2.2, 2.3, 2.4, 2.5, 2.6, 2.7, 2.8]),
        value_preview: bits(&[3.1, 3.2, 3.3, 3.4, 3.5, 3.6, 3.7, 3.8]),
    }
}

fn full_carry() -> StageCarryState {
    StageCarryState {
        attention: Some(CarryableAttentionState::from_attention(&full_attention())),
        ffn: Some(CarryableFfnState {
            width: 8,
            lane_indices: vec![0, 1, 2],
            gate_head: bits(&[0.1, 0.2, 0.3]),
            up_head: bits(&[0.4, 0.5, 0.6]),
            activation_head: bits(&[0.7, 0.8, 0.9]),
        }),
    }
}

fn everything() -> StageResumeCapabilities {
    StageResumeCapabilities {
        attention_path: true,
        attention_q: true,
        attention_k: true,
        attention_v: true,
        attention_projection: true,
        attention_mix: true,
        ffn_path: true,
        projection_path: true,
    }
}

fn budgets_of(lanes: usize) -> StageResumeBudgets {
    StageResumeBudgets {
        attention_q_lanes: Some(lanes),
        attention_k_lanes: Some(lanes),
        attention_v_lanes: Some(lanes),
        attention_projection_lanes: Some(lanes),
        attention_mix_lanes: Some(lanes),
        ffn_lanes: Some(lanes),
    }
}

#[test]
fn narrowing_to_a_budget_twice_is_narrowing_once() {
    let narrowed = full_carry().with_resume_contract(&everything(), &budgets_of(2)).unwrap();
    let attention = narrowed.attention.as_ref().unwrap();
    assert_eq!(attention.projection_lane_count(), 2);
    assert_eq!(attention.mix_lane_count(), 2);
    assert_eq!(narrowed.ffn.as_ref().unwrap().lane_count(), 2);
    assert_eq!(
        narrowed.with_resume_contract(&everything(), &budgets_of(2)),
        Some(narrowed.clone())
    );
}

#[test]
fn narrowing_to_nothing_leaves_no_carry() {
    assert_eq!(full_carry().with_resume_contract(&everything(), &budgets_of(0)), None);
    assert_eq!(
        full_carry().with_resume_capabilities(&StageResumeCapabilities::default()),
        None
    );
}

#[test]
fn a_policy_applied_twice_is_applied_once() {
    for policy in [
        StageCarryPolicy::attention_only(),
        StageCarryPolicy::full(),
        StageCarryPolicy { carry_attention: false, carry_ffn: true },
    ] {
        let once = full_carry().with_policy(&policy);
        assert_eq!(once.attention.is_some(), policy.carry_attention);
        assert_eq!(once.ffn.is_some(), policy.carry_ffn);
        assert_eq!(once.with_policy(&policy), once);
    }
}

#[test]
fn ageing_adds_up_and_keeps_the_values() {
    let mut carry = full_carry();
    carry.attention.as_mut().unwrap().projection.as_mut().unwrap().q_provenance =
        Some(AttentionCheckpointProvenance {
            layer_index: 3,
            operator_kind: "AttentionQ".into(),
            layer_distance_to_boundary: 1,
        });
    let aged = carry.age_attention_by_layers(2).age_attention_by_layers(3);
    assert_eq!(aged, carry.age_attention_by_layers(5));
    let projection = aged.attention.as_ref().unwrap().projection.as_ref().unwrap();
    assert_eq!(projection.q_provenance.as_ref().unwrap().layer_distance_to_boundary, 6);
    assert_eq!(aged.to_transient_state(), carry.to_transient_state());
    let oldest = carry.age_attention_by_layers(u32::MAX);
    let projection = oldest.attention.as_ref().unwrap().projection.as_ref().unwrap();
    assert_eq!(projection.q_provenance.as_ref().unwrap().layer_distance_to_boundary, u32::MAX);
}

#[test]
fn merged_lanes_are_the_lanes_of_either_part() {
    let mut attention = CarryableAttentionState::from_attention(&full_attention());
    attention.projection.as_mut().unwrap().q_lane_indices = vec![1, 4];
    assert_eq!(attention.merged_lane_indices(), [0, 1, 2, 4, 6, 8, 10, 12, 14]);
    assert_eq!(
        CarryableAttentionState::align_to_lanes(&[1, 2, 4], &[4, 1], &[7, 9]),
        [9, 0, 7]
    );
    assert_eq!(CarryableAttentionState::truncate_values(&[7, 9], 5), [7, 9]);
    assert_eq!(CarryableAttentionState::clamp_lanes(&[1, 4, 6], &[7, 9], 5), [1, 4]);
}

#[test]
fn the_carry_of_a_preview_is_within_the_budgets() {
    let attention = CarryableAttentionState::from_attention(&full_attention());
    assert_eq!(attention.projection_lane_count(), ATTENTION_PROJECTION_CARRY_BUDGET);
    assert_eq!(attention.lane_count(), 8);
    let cut = attention.with_lane_budgets(Some(1), Some(2), Some(9), Some(3)).unwrap();
    let projection = cut.projection.as_ref().unwrap();
    assert_eq!(projection.q.len(), 1);
    assert_eq!(projection.k.len(), 2);
    assert_eq!(projection.v.len(), 4);
    assert_eq!(cut.mix.as_ref().unwrap().scores.len(), 3);
    assert_eq!(attention.with_lane_budgets(Some(0), Some(0), Some(0), Some(0)), None);
}

#[test]
fn contracts_are_kept_for_what_is_carried() {
    let mut attention = CarryableAttentionState::from_attention(&full_attention());
    attention.contract = StageResumeContractSummary::current_attention_defaults();
    assert_eq!(attention.contract_for_present_substates(), attention.contract);
    attention.validate_contract_for_present_substates().unwrap();
    assert_eq!(attention.blend_weight_for_q(), Some(350));
    assert_eq!(attention.blend_weight_for_score(), Some(250));
    attention.mix = None;
    let kept = attention.contract_for_present_substates();
    assert_eq!(kept.attention_score, None);
    assert!(kept.attention_q.is_some());
}

#[test]
fn without_a_continuation_the_role_decides_alone() {
    let layout = |is_head: bool, is_tail: bool| StageLayout {
        model_id: "m".into(),
        stage_id: "s".into(),
        start_layer: 0,
        end_layer: 1,
        is_head,
        is_tail,
    };
    let policy = |is_head, is_tail| StageCarryPolicy::for_boundary(&layout(is_head, is_tail), None);
    assert_eq!(policy(true, false), StageCarryPolicy::attention_only());
    assert_eq!(policy(false, false), StageCarryPolicy::full());
    let nothing = StageCarryPolicy { carry_attention: false, carry_ffn: false };
    assert_eq!(policy(false, true), nothing);
    assert_eq!(policy(true, true), nothing);
}
