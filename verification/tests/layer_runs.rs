//! One layer's run: what it resumes with and what it leaves behind.
use stage_forward_lab::execution::ATTENTION_PROJECTION_BLEND_WEIGHT_MILLI;
use stage_forward_lab::layer_run::{
    AttentionMixState, BlendSlot, FfnMixState, LayerRun, LayerScratch, ProjectionSlice,
    blend_lane_steps, merge_stage_carry, merge_transient_checkpoint, preview, scattered_values,
};
use stage_forward_lab::{
    AttentionCheckpointProvenance, CarryableAttentionMixState, CarryableAttentionProjectionState,
    CarryableAttentionState, FfnContinuation, StageAttentionResumeBlend,
    StageAttentionResumeContractSummary, StageAttentionResumePhase, StageCarryPolicy,
    StageCarryState, StageResumeContractSummary, StageTransientState,
};

/// The bit patterns of numbers.
fn bits(values: &[f32]) -> Vec<u32> {
    values.iter().map(|value| value.to_bits()).collect()
}

#[test]
fn resume_carry_rehydrates_attention_projection_and_mix_lanes_independently() {
    let scratch = LayerScratch::scratch_from_resume_carry(&StageCarryState {
        attention: Some(CarryableAttentionState {
            contract: StageResumeContractSummary::default(),
            projection: Some(CarryableAttentionProjectionState {
                width: 8,
                q_provenance: None,
                k_provenance: None,
                v_provenance: None,
                q_lane_indices: vec![1, 6],
                k_lane_indices: vec![1, 6],
                v_lane_indices: vec![1, 6],
                q: bits(&[0.1, 0.2]),
                k: bits(&[0.3, 0.4]),
                v: bits(&[0.5, 0.6]),
            }),
            mix: Some(CarryableAttentionMixState {
                width: 8,
                score_provenance: None,
                value_provenance: None,
                score_lane_indices: vec![0, 3, 7],
                value_lane_indices: vec![0, 3, 7],
                scores: bits(&[1.0, 1.1, 1.2]),
                values: bits(&[2.0, 2.1, 2.2]),
            }),
        }),
        ffn: None,
    })
    .unwrap();

    assert_eq!(scratch.attn_q_lane_indices, Some(vec![1, 6]));
    assert_eq!(scratch.attn_k_lane_indices, Some(vec![1, 6]));
    assert_eq!(scratch.attn_v_lane_indices, Some(vec![1, 6]));
    assert_eq!(scratch.attn_score_lane_indices, Some(vec![0, 3, 7]));
    assert_eq!(scratch.attn_value_lane_indices, Some(vec![0, 3, 7]));
    assert_eq!(
        scratch.attn_q,
        Some(bits(&[0.0, 0.1, 0.0, 0.0, 0.0, 0.0, 0.2, 0.0]))
    );
    assert_eq!(
        scratch.attn_score,
        Some(bits(&[1.0, 0.0, 0.0, 1.1, 0.0, 0.0, 0.0, 1.2]))
    );
    assert_eq!(
        scratch.attn_value,
        Some(bits(&[2.0, 0.0, 0.0, 2.1, 0.0, 0.0, 0.0, 2.2]))
    );
}

#[test]
fn resume_carry_rejects_attention_contract_phase_mismatch() {
    let err = LayerScratch::scratch_from_resume_carry(&StageCarryState {
        attention: Some(CarryableAttentionState {
            contract: StageResumeContractSummary {
                attention_q: Some(StageAttentionResumeContractSummary {
                    phase: StageAttentionResumePhase::AfterProjection,
                    blend: StageAttentionResumeBlend::StrongBlend,
                    blend_weight_milli: Some(350),
                }),
                ..StageResumeContractSummary::default()
            },
            projection: Some(CarryableAttentionProjectionState {
                width: 4,
                q_provenance: None,
                k_provenance: None,
                v_provenance: None,
                q_lane_indices: vec![0],
                k_lane_indices: Vec::new(),
                v_lane_indices: Vec::new(),
                q: bits(&[0.5]),
                k: Vec::new(),
                v: Vec::new(),
            }),
            mix: None,
        }),
        ffn: None,
    })
    .unwrap_err()
    .to_string();

    assert!(err.contains("attention carry q contract phase AfterProjection"));
}

#[test]
fn stage_carry_merge_ages_attention_provenance_across_later_layers() {
    let previous = StageCarryState {
        attention: Some(CarryableAttentionState {
            contract: StageResumeContractSummary::default(),
            projection: Some(CarryableAttentionProjectionState {
                width: 8,
                q_provenance: Some(AttentionCheckpointProvenance {
                    layer_index: 3,
                    operator_kind: "AttentionQ".into(),
                    layer_distance_to_boundary: 0,
                }),
                k_provenance: Some(AttentionCheckpointProvenance {
                    layer_index: 3,
                    operator_kind: "AttentionK".into(),
                    layer_distance_to_boundary: 0,
                }),
                v_provenance: Some(AttentionCheckpointProvenance {
                    layer_index: 3,
                    operator_kind: "AttentionV".into(),
                    layer_distance_to_boundary: 0,
                }),
                q_lane_indices: vec![0, 1],
                k_lane_indices: vec![0, 1],
                v_lane_indices: vec![0, 1],
                q: bits(&[0.1, 0.2]),
                k: bits(&[0.3, 0.4]),
                v: bits(&[0.5, 0.6]),
            }),
            mix: Some(CarryableAttentionMixState {
                width: 8,
                score_provenance: Some(AttentionCheckpointProvenance {
                    layer_index: 3,
                    operator_kind: "AttentionOut".into(),
                    layer_distance_to_boundary: 0,
                }),
                value_provenance: Some(AttentionCheckpointProvenance {
                    layer_index: 3,
                    operator_kind: "AttentionOut".into(),
                    layer_distance_to_boundary: 0,
                }),
                score_lane_indices: vec![0, 1],
                value_lane_indices: vec![0, 1],
                scores: bits(&[0.7, 0.8]),
                values: bits(&[0.9, 1.0]),
            }),
        }),
        ffn: None,
    };

    let merged = merge_stage_carry(Some(previous), None).unwrap();
    let projection = merged
        .attention
        .as_ref()
        .unwrap()
        .projection
        .as_ref()
        .unwrap();
    let mix = merged.attention.as_ref().unwrap().mix.as_ref().unwrap();

    assert_eq!(
        projection
            .q_provenance
            .as_ref()
            .unwrap()
            .layer_distance_to_boundary,
        1
    );
    assert_eq!(
        projection
            .k_provenance
            .as_ref()
            .unwrap()
            .layer_distance_to_boundary,
        1
    );
    assert_eq!(
        projection
            .v_provenance
            .as_ref()
            .unwrap()
            .layer_distance_to_boundary,
        1
    );
    assert_eq!(
        mix.score_provenance
            .as_ref()
            .unwrap()
            .layer_distance_to_boundary,
        1
    );
    assert_eq!(
        mix.value_provenance
            .as_ref()
            .unwrap()
            .layer_distance_to_boundary,
        1
    );
}

#[test]
fn typed_attention_overwrite_contract_disables_resume_blend() {
    let scratch = LayerScratch {
        attention_contract: StageResumeContractSummary {
            attention_q: Some(StageAttentionResumeContractSummary {
                phase: StageAttentionResumePhase::Direct,
                blend: StageAttentionResumeBlend::Overwrite,
                blend_weight_milli: None,
            }),
            ..StageResumeContractSummary::default()
        },
        attn_q_blend_weight: None,
        ..LayerScratch::default()
    };
    let mut current = vec![1.0f32, 1.0, 1.0, 1.0];
    if let Some(weight) = scratch.typed_or_legacy_attention_blend(
        scratch.attn_q_blend_weight,
        ATTENTION_PROJECTION_BLEND_WEIGHT_MILLI,
    ) {
        let weight = f32::from(weight) / 1000.0;
        let carry = [9.0f32, 9.0, 9.0, 9.0];
        for (to, from) in blend_lane_steps(current.len(), carry.len(), Some(&[1, 2])) {
            current[to] = current[to] * (1.0 - weight) + carry[from] * weight;
        }
    }
    assert_eq!(current, vec![1.0, 1.0, 1.0, 1.0]);
}

#[test]
fn without_a_contract_the_usual_weight_is_blended() {
    let scratch = LayerScratch::default();
    assert_eq!(scratch.typed_or_legacy_attention_blend(None, 350), Some(350));
    assert_eq!(scratch.typed_or_legacy_attention_blend(Some(7), 350), Some(350));
}

#[test]
fn carried_vectors_are_blended_lane_by_lane() {
    assert_eq!(blend_lane_steps(4, 4, Some(&[1, 3, 9])), [(1, 1), (3, 3)]);
    assert_eq!(blend_lane_steps(4, 2, Some(&[1, 3])), [(1, 1)]);
    assert_eq!(blend_lane_steps(5, 2, None), [(0, 0), (1, 1), (2, 0), (3, 1), (4, 0)]);
    assert_eq!(blend_lane_steps(0, 2, None), []);
    assert_eq!(blend_lane_steps(2, 0, None), []);
}

#[test]
fn carried_values_stand_at_their_lanes() {
    assert_eq!(scattered_values(&[7, 8], &[2, 0], 4), [8, 0, 7, 0]);
    assert_eq!(scattered_values(&[7, 8], &[1, 1], 3), [0, 8, 0]);
    assert_eq!(scattered_values(&[7, 8], &[5, 0], 2), [8, 0]);
    assert_eq!(scattered_values(&[7], &[0, 1], 2), [7, 0]);
    assert!(scattered_values(&[], &[0], 2).is_empty());
    assert!(scattered_values(&[7], &[], 2).is_empty());
    assert!(scattered_values(&[7], &[0], 0).is_empty());
}

#[test]
fn a_layer_hands_its_attention_on() {
    let mut run = LayerRun::start(5, None).unwrap();
    let q: Vec<u32> = (10..20).collect();
    let k: Vec<u32> = (30..40).collect();
    let v: Vec<u32> = (50..60).collect();
    run.project(ProjectionSlice::Query, q.clone());
    run.project(ProjectionSlice::Key, k);
    assert!(run.scratch.build_attention_state().is_none());
    run.project(ProjectionSlice::Value, v);
    let scores: Vec<u32> = (70..80).collect();
    let values: Vec<u32> = (90..100).collect();
    run.finish_attention(AttentionMixState { scores: scores.clone(), values: values.clone() });
    let (transient, carry) = run.finish(&StageCarryPolicy::full());

    let transient = transient.unwrap().attention.unwrap();
    assert_eq!(transient.width, 10);
    assert_eq!(transient.q_preview, q[..8]);
    assert_eq!(transient.score_preview, scores[..8]);

    let carry = carry.unwrap();
    let projection = carry.attention.as_ref().unwrap().projection.as_ref().unwrap();
    assert_eq!(projection.q, q[..4]);
    assert_eq!(projection.q_lane_indices, [0, 1, 2, 3]);
    assert_eq!(projection.q_provenance.as_ref().unwrap().layer_index, 5);
    assert_eq!(projection.q_provenance.as_ref().unwrap().operator_kind, "AttentionQ");
    let mix = carry.attention.as_ref().unwrap().mix.as_ref().unwrap();
    assert_eq!(mix.values, values[..8]);
    assert_eq!(mix.value_provenance.as_ref().unwrap().operator_kind, "AttentionOut");

    let next = LayerRun::start(6, Some(&carry)).unwrap();
    let blend = next.scratch.blend_for(BlendSlot::Query).unwrap();
    assert_eq!(blend.weight_milli, 350);
    assert_eq!(blend.lanes, Some(vec![0, 1, 2, 3]));
    assert_eq!(blend.carry[..4], q[..4]);
    assert_eq!(blend.carry[4..], [0; 6]);
    let blend = next.scratch.blend_for(BlendSlot::Score).unwrap();
    assert_eq!(blend.weight_milli, 250);
    assert_eq!(blend.carry[..8], scores[..8]);
}

#[test]
fn a_layer_hands_its_feed_forward_block_on() {
    let mut run = LayerRun::start(5, None).unwrap();
    run.set_gate(vec![1, 2, 3]);
    assert!(run.scratch.build_ffn_state().is_none());
    run.set_up(vec![4, 5, 6]);
    run.set_input_gate(vec![9]);
    run.finish_ffn(FfnMixState { activations: vec![7, 8, 9] });
    assert_eq!(run.scratch.input_gate, Some(vec![9]));
    let (transient, carry) = run.finish(&StageCarryPolicy::full());
    assert_eq!(transient.unwrap().ffn.unwrap().up_preview, [4, 5, 6]);
    let carry = carry.unwrap();
    assert_eq!(carry.ffn.as_ref().unwrap().activation_head, [7, 8, 9]);

    let next = LayerRun::start(6, Some(&carry)).unwrap();
    assert_eq!(next.scratch.blend_for(BlendSlot::Gate).unwrap().carry, [1, 2, 3]);
    assert_eq!(next.scratch.blend_for(BlendSlot::Up).unwrap().weight_milli, 350);
    assert_eq!(next.scratch.blend_for(BlendSlot::Activation).unwrap().weight_milli, 250);
    assert!(next.scratch.blend_for(BlendSlot::Key).is_none());
}

#[test]
fn a_layer_that_did_nothing_leaves_nothing() {
    let run = LayerRun::start(0, None).unwrap();
    assert_eq!(run.finish(&StageCarryPolicy::full()), (None, None));
}

#[test]
fn what_a_layer_leaves_replaces_what_was_left_before() {
    let left = |gate: u32| StageTransientState {
        attention: None,
        ffn: Some(FfnContinuation {
            width: 1,
            lane_indices: vec![0],
            gate_preview: vec![gate],
            up_preview: vec![gate],
            activation_preview: vec![gate],
        }),
    };
    assert_eq!(merge_transient_checkpoint(None, None), None);
    assert_eq!(merge_transient_checkpoint(Some(left(1)), None), Some(left(1)));
    assert_eq!(merge_transient_checkpoint(Some(left(1)), Some(left(2))), Some(left(2)));
    let nothing = StageTransientState { attention: None, ffn: None };
    assert_eq!(merge_transient_checkpoint(Some(left(1)), Some(nothing)), Some(left(1)));
}

#[test]
fn only_the_first_values_are_previewed() {
    assert_eq!(preview(&[1, 2, 3]), [1, 2, 3]);
    assert_eq!(preview(&[1, 2, 3, 4, 5, 6, 7, 8, 9]), [1, 2, 3, 4, 5, 6, 7, 8]);
}

#[test]
fn a_layer_tells_its_own_slices_from_those_it_was_handed() {
    let origin = |layer_index: u32, operator_kind: &str, distance: u32| {
        Some(AttentionCheckpointProvenance {
            layer_index,
            operator_kind: operator_kind.into(),
            layer_distance_to_boundary: distance,
        })
    };
    let carry = StageCarryState {
        attention: Some(CarryableAttentionState {
            contract: StageResumeContractSummary::default(),
            projection: Some(CarryableAttentionProjectionState {
                width: 2,
                q_provenance: origin(4, "AttentionQ", 1),
                k_provenance: origin(4, "AttentionK", 1),
                v_provenance: origin(4, "AttentionV", 1),
                q_lane_indices: vec![0],
                k_lane_indices: vec![0],
                v_lane_indices: vec![0],
                q: bits(&[1.0]),
                k: bits(&[2.0]),
                v: bits(&[3.0]),
            }),
            mix: None,
        }),
        ffn: None,
    };
    let mut run = LayerRun::start(9, Some(&carry)).unwrap();
    assert_eq!(run.origins.q, None);
    run.set_gate(vec![1]);
    run.project(ProjectionSlice::Key, bits(&[4.0, 5.0]));
    run.finish_attention(AttentionMixState { scores: vec![1], values: vec![2] });
    run.set_up(vec![1]);
    run.finish_ffn(FfnMixState { activations: vec![3] });
    assert_eq!(run.layer_index, 9);
    assert_eq!(run.origins.q, None);
    assert_eq!(run.origins.k, origin(9, "AttentionK", 0));
    assert_eq!(run.origins.v, None);
    assert_eq!(run.origins.score, origin(9, "AttentionOut", 0));
    assert_eq!(run.origins.value, origin(9, "AttentionOut", 0));
}
