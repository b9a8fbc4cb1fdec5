//! What a layer's program can resume with.
use stage_forward_lab::execution::{
    AttentionBlendStrength, AttentionResumeSlice, AttentionSliceRecomputePhase,
    AttentionSliceResumePath, ExecutionAttentionResumeContract, ExecutionResumeBlendMode,
    ExecutionResumeContract,
};
use stage_forward_lab::{
    ExecutionBinding, ExecutionOp, ExecutionOpKind, LayerExecutionProgram,
    StageAttentionResumeBlend, StageAttentionResumeContractSummary, StageAttentionResumePhase,
    StageResumeBudgets, StageResumeCapabilities, StageResumeContractSummary,
    StageResumeFreshnessPolicy,
};

#[test]
fn freshness_policy_derives_slice_limits_from_resume_semantics_not_op_order() {
    let capabilities = StageResumeCapabilities {
        attention_path: true,
        attention_q: true,
        attention_k: true,
        attention_v: true,
        attention_projection: true,
        attention_mix: true,
        ffn_path: false,
        projection_path: false,
    };
    let programs = vec![LayerExecutionProgram {
        layer_index: 21,
        hidden_dim: Some(8),
        q_out_dim: Some(8),
        k_out_dim: Some(8),
        v_out_dim: Some(8),
        ffn_inner_dim: None,
        runnable_sketch: true,
        ops: vec![
            ExecutionOp::new(
                ExecutionOpKind::AttentionQ,
                vec!["blk.21.attn_q.weight".into()],
                ExecutionBinding::QuantizedMatrix,
                "quantized matrix tensors",
            ),
            ExecutionOp::new(
                ExecutionOpKind::AttentionK,
                vec!["blk.21.attn_k.weight".into()],
                ExecutionBinding::QuantizedMatrix,
                "quantized matrix tensors",
            ),
            ExecutionOp::new(
                ExecutionOpKind::AttentionV,
                vec!["blk.21.attn_v.weight".into()],
                ExecutionBinding::QuantizedMatrix,
                "quantized matrix tensors",
            ),
            ExecutionOp::new(
                ExecutionOpKind::AttentionOut,
                vec!["blk.21.attn_output.weight".into()],
                ExecutionBinding::QuantizedMatrix,
                "quantized matrix tensors",
            ),
        ],
    }];

    let freshness =
        StageResumeFreshnessPolicy::from_execution_programs(&programs, Some(21), &capabilities);

    assert_eq!(freshness.attention_q_max_distance, Some(2));
    assert_eq!(freshness.attention_k_max_distance, Some(2));
    assert_eq!(freshness.attention_v_max_distance, Some(2));
    assert_eq!(freshness.attention_score_max_distance, Some(1));
    assert_eq!(freshness.attention_value_max_distance, Some(1));
}

#[test]
fn resume_path_without_entry_blend_is_treated_as_overwrite() {
    let direct = StageResumeFreshnessPolicy::direct_resume_path(true, None).unwrap();
    let after_projection =
        StageResumeFreshnessPolicy::after_projection_resume_path(true, true, None).unwrap();

    assert_eq!(direct.recompute_phase, AttentionSliceRecomputePhase::Direct);
    assert_eq!(direct.blend_strength, None);
    assert_eq!(
        StageResumeFreshnessPolicy::max_distance_for_resume_path(Some(direct)),
        Some(0)
    );

    assert_eq!(
        after_projection.recompute_phase,
        AttentionSliceRecomputePhase::AfterProjection
    );
    assert_eq!(after_projection.blend_strength, None);
    assert_eq!(
        StageResumeFreshnessPolicy::max_distance_for_resume_path(Some(after_projection)),
        Some(0)
    );
}

#[test]
fn execution_op_resume_descriptors_drive_attention_paths() {
    let program = LayerExecutionProgram {
        layer_index: 7,
        hidden_dim: Some(8),
        q_out_dim: Some(8),
        k_out_dim: Some(8),
        v_out_dim: Some(8),
        ffn_inner_dim: None,
        runnable_sketch: true,
        ops: vec![
            ExecutionOp::new(
                ExecutionOpKind::AttentionQ,
                vec!["blk.7.attn_q.weight".into()],
                ExecutionBinding::QuantizedMatrix,
                "quantized matrix tensors",
            ),
            ExecutionOp::new(
                ExecutionOpKind::AttentionOut,
                vec!["blk.7.attn_output.weight".into()],
                ExecutionBinding::QuantizedMatrix,
                "quantized matrix tensors",
            ),
        ],
    };

    let (q_path, k_path, v_path, score_path, value_path) =
        StageResumeFreshnessPolicy::attention_resume_paths(Some(&program));

    assert_eq!(
        q_path,
        Some(AttentionSliceResumePath {
            recompute_phase: AttentionSliceRecomputePhase::Direct,
            blend_strength: Some(AttentionBlendStrength::StrongBlend),
            blend_weight_milli: Some(350),
        })
    );
    assert_eq!(k_path, None);
    assert_eq!(v_path, None);
    assert_eq!(
        score_path,
        Some(AttentionSliceResumePath {
            recompute_phase: AttentionSliceRecomputePhase::AfterProjection,
            blend_strength: Some(AttentionBlendStrength::WeakBlend),
            blend_weight_milli: Some(250),
        })
    );
    assert_eq!(value_path, score_path);
}

#[test]
fn resume_contract_summary_preserves_typed_attention_weights() {
    let program = LayerExecutionProgram {
        layer_index: 7,
        hidden_dim: Some(8),
        q_out_dim: Some(8),
        k_out_dim: Some(8),
        v_out_dim: Some(8),
        ffn_inner_dim: None,
        runnable_sketch: true,
        ops: vec![
            ExecutionOp::new(
                ExecutionOpKind::AttentionQ,
                vec!["blk.7.attn_q.weight".into()],
                ExecutionBinding::QuantizedMatrix,
                "quantized matrix tensors",
            ),
            ExecutionOp::new(
                ExecutionOpKind::AttentionK,
                vec!["blk.7.attn_k.weight".into()],
                ExecutionBinding::QuantizedMatrix,
                "quantized matrix tensors",
            ),
            ExecutionOp::new(
                ExecutionOpKind::AttentionV,
                vec!["blk.7.attn_v.weight".into()],
                ExecutionBinding::QuantizedMatrix,
                "quantized matrix tensors",
            ),
            ExecutionOp::new(
                ExecutionOpKind::AttentionOut,
                vec!["blk.7.attn_output.weight".into()],
                ExecutionBinding::QuantizedMatrix,
                "quantized matrix tensors",
            ),
        ],
    };
    let capabilities = StageResumeCapabilities {
        attention_path: true,
        attention_q: true,
        attention_k: true,
        attention_v: true,
        attention_projection: true,
        attention_mix: true,
        ffn_path: false,
        projection_path: false,
    };

    let summary =
        StageResumeContractSummary::from_execution_programs(&[program], Some(7), &capabilities);

    let projection = Some(StageAttentionResumeContractSummary {
        phase: StageAttentionResumePhase::Direct,
        blend: StageAttentionResumeBlend::StrongBlend,
        blend_weight_milli: Some(350),
    });
    let mix = Some(StageAttentionResumeContractSummary {
        phase: StageAttentionResumePhase::AfterProjection,
        blend: StageAttentionResumeBlend::WeakBlend,
        blend_weight_milli: Some(250),
    });
    assert_eq!(summary.attention_q, projection);
    assert_eq!(summary.attention_k, projection);
    assert_eq!(summary.attention_v, projection);
    assert_eq!(summary.attention_score, mix);
    assert_eq!(summary.attention_value, mix);
}

#[test]
fn resume_contract_summary_rejects_inconsistent_freshness_limits() {
    let summary = StageResumeContractSummary {
        attention_q: Some(StageAttentionResumeContractSummary {
            phase: StageAttentionResumePhase::Direct,
            blend: StageAttentionResumeBlend::Overwrite,
            blend_weight_milli: None,
        }),
        ..StageResumeContractSummary::default()
    };
    let err = summary
        .validate_against_freshness(StageResumeFreshnessPolicy {
            attention_q_max_distance: Some(2),
            ..StageResumeFreshnessPolicy::default()
        })
        .unwrap_err()
        .to_string();

    assert!(err.contains("attention q contract implies max distance 0"));
}

#[test]
fn resume_contract_summary_rejects_blend_weight_strength_mismatch() {
    let summary = StageResumeContractSummary {
        attention_score: Some(StageAttentionResumeContractSummary {
            phase: StageAttentionResumePhase::AfterProjection,
            blend: StageAttentionResumeBlend::WeakBlend,
            blend_weight_milli: Some(350),
        }),
        ..StageResumeContractSummary::default()
    };
    let err = summary
        .validate_against_freshness(StageResumeFreshnessPolicy {
            attention_score_max_distance: Some(1),
            ..StageResumeFreshnessPolicy::default()
        })
        .unwrap_err()
        .to_string();

    assert!(err.contains("attention score weak blend contract has non-weak weight 350"));
}

#[test]
fn execution_op_stored_resume_contract_can_declare_overwrite_path() {
    let op = ExecutionOp::new(
        ExecutionOpKind::AttentionQ,
        vec!["blk.7.attn_q.weight".into()],
        ExecutionBinding::QuantizedMatrix,
        "quantized matrix tensors",
    )
    .with_resume_contract(ExecutionResumeContract {
        attention: vec![ExecutionAttentionResumeContract {
            slice: AttentionResumeSlice::Q,
            recompute_phase: AttentionSliceRecomputePhase::Direct,
            blend_mode: ExecutionResumeBlendMode::Overwrite,
        }],
    });
    let program = LayerExecutionProgram {
        layer_index: 7,
        hidden_dim: Some(8),
        q_out_dim: Some(8),
        k_out_dim: None,
        v_out_dim: None,
        ffn_inner_dim: None,
        runnable_sketch: true,
        ops: vec![op],
    };

    let (q_path, _, _, _, _) =
        StageResumeFreshnessPolicy::attention_resume_paths(Some(&program));

    assert_eq!(
        q_path,
        Some(AttentionSliceResumePath {
            recompute_phase: AttentionSliceRecomputePhase::Direct,
            blend_strength: None,
            blend_weight_milli: None,
        })
    );
    assert_eq!(
        StageResumeFreshnessPolicy::max_distance_for_resume_path(q_path),
        Some(0)
    );
}

fn runnable(layer_index: u32, kinds: &[ExecutionOpKind]) -> LayerExecutionProgram {
    LayerExecutionProgram {
        layer_index,
        hidden_dim: Some(8),
        q_out_dim: Some(3),
        k_out_dim: Some(8),
        v_out_dim: None,
        ffn_inner_dim: Some(6),
        runnable_sketch: true,
        ops: kinds
            .iter()
            .map(|kind| {
                ExecutionOp::new(*kind, vec!["t".into()], ExecutionBinding::F32Matrix, "")
            })
            .collect(),
    }
}

#[test]
fn a_derived_contract_fits_the_freshness_derived_beside_it() {
    for kinds in [
        &[][..],
        &[ExecutionOpKind::AttentionQ],
        &[ExecutionOpKind::AttentionOut],
        &[
            ExecutionOpKind::AttentionQ,
            ExecutionOpKind::AttentionK,
            ExecutionOpKind::AttentionV,
            ExecutionOpKind::AttentionOut,
        ],
    ] {
        let programs = [runnable(4, kinds)];
        for next in [None, Some(3), Some(4), Some(5)] {
            let capabilities = StageResumeCapabilities::from_execution_programs(&programs, next);
            let contract =
                StageResumeContractSummary::from_execution_programs(&programs, next, &capabilities);
            let freshness =
                StageResumeFreshnessPolicy::from_execution_programs(&programs, next, &capabilities);
            contract.validate_against_freshness(freshness).unwrap();
        }
    }
}

#[test]
fn budgets_are_cut_to_what_a_program_is_wide() {
    let kinds = [
        ExecutionOpKind::AttentionQ,
        ExecutionOpKind::AttentionK,
        ExecutionOpKind::AttentionV,
        ExecutionOpKind::AttentionOut,
        ExecutionOpKind::FfnDown,
        ExecutionOpKind::FfnGate,
        ExecutionOpKind::FfnUp,
    ];
    let programs = [runnable(4, &kinds)];
    let capabilities = StageResumeCapabilities::from_execution_programs(&programs, Some(4));
    let budgets = StageResumeBudgets::from_execution_programs(&programs, Some(4), &capabilities);
    assert_eq!(budgets.attention_q_lanes, Some(3));
    assert_eq!(budgets.attention_k_lanes, Some(4));
    assert_eq!(budgets.ffn_lanes, Some(6));
    let none = StageResumeBudgets::from_execution_programs(
        &programs,
        Some(4),
        &StageResumeCapabilities::default(),
    );
    assert_eq!(none, StageResumeBudgets::default());
}

#[test]
fn a_program_before_the_entry_is_passed_over() {
    let programs =
        [runnable(2, &[ExecutionOpKind::AttentionQ]), runnable(6, &[ExecutionOpKind::AttentionK])];
    let early = StageResumeCapabilities::from_execution_programs(&programs, Some(1));
    assert!(early.attention_q && !early.attention_k);
    let late = StageResumeCapabilities::from_execution_programs(&programs, Some(3));
    assert!(!late.attention_q && late.attention_k);
    let past = StageResumeCapabilities::from_execution_programs(&programs, Some(7));
    assert!(past.attention_q && !past.attention_k);
}

#[test]
fn blends_are_weak_or_strong_by_their_weight() {
    assert_eq!(
        StageResumeFreshnessPolicy::blend_strength_for_weight_milli(299),
        AttentionBlendStrength::WeakBlend
    );
    assert_eq!(
        StageResumeFreshnessPolicy::blend_strength_for_weight_milli(300),
        AttentionBlendStrength::StrongBlend
    );
    assert!(StageResumeContractSummary::default().is_empty());
    assert!(!StageResumeContractSummary::current_attention_defaults().is_empty());
    assert_eq!(StageResumeFreshnessPolicy::max_distance_for_resume_path(None), None);
    assert_eq!(StageResumeFreshnessPolicy::direct_resume_path(false, Some(350)), None);
    assert_eq!(
        StageResumeFreshnessPolicy::after_projection_resume_path(true, false, Some(250)),
        None
    );
}
