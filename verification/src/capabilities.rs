//! What a target stage can resume, derived from its execution programs.
use vstd::prelude::*;
use vstd::string::*;
use crate::execution::{
    AttentionBlendStrength, AttentionResumePaths, AttentionResumeSlice, AttentionSliceRecomputePhase,
    AttentionSliceResumePath, ExecutionAttentionResumeContract, ExecutionOp, ExecutionOpKind,
    ExecutionResumeContract, ExecutionResumeDescriptor, LayerExecutionProgram,
    StageAttentionResumeBlend, StageAttentionResumeContractSummary, StageAttentionResumePhase,
    StageResumeBudgets, StageResumeCapabilities, StageResumeContractSummary,
    StageResumeFreshnessPolicy, ATTENTION_MIX_BLEND_WEIGHT_MILLI, ATTENTION_MIX_CARRY_BUDGET,
    ATTENTION_PROJECTION_BLEND_WEIGHT_MILLI, ATTENTION_PROJECTION_CARRY_BUDGET,
    TRANSIENT_PREVIEW_LEN, WEAK_BLEND_LIMIT_MILLI,
};
use crate::model::{fail_with, StageError};
use crate::text::{decimal, debug_opt_u32};

verus! {

impl StageResumeCapabilities {
    /// Nothing can be resumed.
    pub open spec fn none() -> Self {
        StageResumeCapabilities {
            attention_path: false,
            attention_q: false,
            attention_k: false,
            attention_v: false,
            attention_projection: false,
            attention_mix: false,
            ffn_path: false,
            projection_path: false,
        }
    }

    /// What a stage whose entry program is `program` can resume. The projection needs all of
    /// query, key and value; the mix needs the projection and the output; the feed-forward path
    /// needs all three of its operations.
    pub open spec fn of_program(program: LayerExecutionProgram) -> Self {
        let q = program.has(ExecutionOpKind::AttentionQ);
        let k = program.has(ExecutionOpKind::AttentionK);
        let v = program.has(ExecutionOpKind::AttentionV);
        let out = program.has(ExecutionOpKind::AttentionOut);
        StageResumeCapabilities {
            attention_path: q || k || v || out,
            attention_q: q,
            attention_k: k,
            attention_v: v,
            attention_projection: q && k && v,
            attention_mix: q && k && v && out,
            ffn_path: program.has(ExecutionOpKind::FfnGate) && program.has(ExecutionOpKind::FfnUp)
                && program.has(ExecutionOpKind::FfnDown),
            projection_path: program.has(ExecutionOpKind::InputGate) && program.has(
                ExecutionOpKind::Projection,
            ),
        }
    }

    /// What a stage that runs `programs` can resume at the given entry layer.
    pub open spec fn of_programs(
        programs: Seq<LayerExecutionProgram>,
        resume_entry_layer: Option<u32>,
    ) -> Self {
        match LayerExecutionProgram::entry(programs, resume_entry_layer) {
            Some(index) => Self::of_program(programs[index]),
            None => Self::none(),
        }
    }

    /// What a stage that runs `execution_programs` can resume at the given entry layer.
    pub fn from_execution_programs(
        execution_programs: &[LayerExecutionProgram],
        resume_entry_layer: Option<u32>,
    ) -> (r: Self)
        ensures
            r == Self::of_programs(execution_programs@, resume_entry_layer),
    {
        let entry = match LayerExecutionProgram::find_entry(execution_programs, resume_entry_layer) {
            Some(index) => &execution_programs[index],
            None => return Self::default(),
        };
        let has_q = entry.has_kind(ExecutionOpKind::AttentionQ);
        let has_k = entry.has_kind(ExecutionOpKind::AttentionK);
        let has_v = entry.has_kind(ExecutionOpKind::AttentionV);
        let has_out = entry.has_kind(ExecutionOpKind::AttentionOut);
        let has_gate = entry.has_kind(ExecutionOpKind::FfnGate);
        let has_up = entry.has_kind(ExecutionOpKind::FfnUp);
        let has_down = entry.has_kind(ExecutionOpKind::FfnDown);
        let has_input_gate = entry.has_kind(ExecutionOpKind::InputGate);
        let has_projection = entry.has_kind(ExecutionOpKind::Projection);
        let attention_projection = has_q && has_k && has_v;
        StageResumeCapabilities {
            attention_path: has_q || has_k || has_v || has_out,
            attention_q: has_q,
            attention_k: has_k,
            attention_v: has_v,
            attention_projection,
            attention_mix: attention_projection && has_out,
            ffn_path: has_gate && has_up && has_down,
            projection_path: has_input_gate && has_projection,
        }
    }
}

impl Default for StageResumeCapabilities {
    fn default() -> (r: Self)
        ensures
            r == Self::none(),
    {
        StageResumeCapabilities {
            attention_path: false,
            attention_q: false,
            attention_k: false,
            attention_v: false,
            attention_projection: false,
            attention_mix: false,
            ffn_path: false,
            projection_path: false,
        }
    }
}

/// The smaller of two sizes.
pub open spec fn spec_min(a: usize, b: usize) -> usize {
    if a <= b {
        a
    } else {
        b
    }
}

/// The smaller of two sizes.
pub(crate) fn min_usize(a: usize, b: usize) -> (r: usize)
    ensures
        r == spec_min(a, b),
{
    if a <= b {
        a
    } else {
        b
    }
}

/// The larger of two sizes.
pub open spec fn spec_max(a: usize, b: usize) -> usize {
    if a >= b {
        a
    } else {
        b
    }
}

/// The larger of two sizes.
pub(crate) fn max_usize(a: usize, b: usize) -> (r: usize)
    ensures
        r == spec_max(a, b),
{
    if a >= b {
        a
    } else {
        b
    }
}

impl StageResumeBudgets {
    /// No budgets.
    pub open spec fn none() -> Self {
        StageResumeBudgets {
            attention_q_lanes: None,
            attention_k_lanes: None,
            attention_v_lanes: None,
            attention_projection_lanes: None,
            attention_mix_lanes: None,
            ffn_lanes: None,
        }
    }

    /// A slice's budget: none where the slice is not supported or its width not known, else the
    /// smaller of `budget` and the width.
    pub open spec fn slice_lanes(supported: bool, width: Option<u64>, budget: usize) -> Option<usize> {
        match width {
            Some(width) if supported => Some(spec_min(budget, width as usize)),
            _ => None,
        }
    }

    /// The first dimension that is known.
    pub open spec fn first_known(first: Option<u64>, second: Option<u64>) -> Option<u64> {
        if first is Some {
            first
        } else {
            second
        }
    }

    /// The budgets of a stage with the given capabilities whose entry program is `program`.
    pub open spec fn of_program(
        program: LayerExecutionProgram,
        capabilities: StageResumeCapabilities,
    ) -> Self {
        let q = Self::slice_lanes(
            capabilities.attention_q,
            program.q_out_dim,
            ATTENTION_PROJECTION_CARRY_BUDGET,
        );
        let k = Self::slice_lanes(
            capabilities.attention_k,
            program.k_out_dim,
            ATTENTION_PROJECTION_CARRY_BUDGET,
        );
        let v = Self::slice_lanes(
            capabilities.attention_v,
            program.v_out_dim,
            ATTENTION_PROJECTION_CARRY_BUDGET,
        );
        let projection: Option<usize> = match (q, k, v) {
            (Some(q), Some(k), Some(v)) => Some(spec_min(spec_min(q, k), v)),
            _ => None,
        };
        let mix_width = Self::first_known(
            Self::first_known(
                Self::first_known(program.q_out_dim, program.k_out_dim),
                program.v_out_dim,
            ),
            program.hidden_dim,
        );
        let ffn_width = Self::first_known(program.ffn_inner_dim, program.hidden_dim);
        StageResumeBudgets {
            attention_q_lanes: q,
            attention_k_lanes: k,
            attention_v_lanes: v,
            attention_projection_lanes: if capabilities.attention_projection {
                projection
            } else {
                None
            },
            attention_mix_lanes: match Self::slice_lanes(
                capabilities.attention_mix,
                mix_width,
                ATTENTION_MIX_CARRY_BUDGET,
            ) {
                Some(lanes) => Some(
                    spec_min(
                        lanes,
                        match projection {
                            Some(lanes) => lanes,
                            None => 0,
                        },
                    ),
                ),
                None => None,
            },
            ffn_lanes: Self::slice_lanes(capabilities.ffn_path, ffn_width, TRANSIENT_PREVIEW_LEN),
        }
    }

    /// The budgets of a stage that runs `programs`, at the given entry layer.
    pub open spec fn of_programs(
        programs: Seq<LayerExecutionProgram>,
        resume_entry_layer: Option<u32>,
        capabilities: StageResumeCapabilities,
    ) -> Self {
        match LayerExecutionProgram::entry(programs, resume_entry_layer) {
            Some(index) => Self::of_program(programs[index], capabilities),
            None => Self::none(),
        }
    }

    fn lanes_of(supported: bool, width: Option<u64>, budget: usize) -> (r: Option<usize>)
        ensures
            r == Self::slice_lanes(supported, width, budget),
    {
        match width {
            Some(width) => if supported {
                Some(min_usize(budget, width as usize))
            } else {
                None
            },
            None => None,
        }
    }

    fn known(first: Option<u64>, second: Option<u64>) -> (r: Option<u64>)
        ensures
            r == Self::first_known(first, second),
    {
        if first.is_some() {
            first
        } else {
            second
        }
    }

    /// The budgets of a stage that runs `execution_programs`, at the given entry layer.
    pub fn from_execution_programs(
        execution_programs: &[LayerExecutionProgram],
        resume_entry_layer: Option<u32>,
        capabilities: &StageResumeCapabilities,
    ) -> (r: Self)
        ensures
            r == Self::of_programs(execution_programs@, resume_entry_layer, *capabilities),
    {
        let entry = match LayerExecutionProgram::find_entry(execution_programs, resume_entry_layer) {
            Some(index) => &execution_programs[index],
            None => return Self::default(),
        };
        let q_lanes = Self::lanes_of(
            capabilities.attention_q,
            entry.q_out_dim,
            ATTENTION_PROJECTION_CARRY_BUDGET,
        );
        let k_lanes = Self::lanes_of(
            capabilities.attention_k,
            entry.k_out_dim,
            ATTENTION_PROJECTION_CARRY_BUDGET,
        );
        let v_lanes = Self::lanes_of(
            capabilities.attention_v,
            entry.v_out_dim,
            ATTENTION_PROJECTION_CARRY_BUDGET,
        );
        let projection_lanes: Option<usize> = match (q_lanes, k_lanes, v_lanes) {
            (Some(q), Some(k), Some(v)) => Some(min_usize(min_usize(q, k), v)),
            _ => None,
        };
        let mix_width = Self::known(
            Self::known(Self::known(entry.q_out_dim, entry.k_out_dim), entry.v_out_dim),
            entry.hidden_dim,
        );
        let ffn_width = Self::known(entry.ffn_inner_dim, entry.hidden_dim);
        let mix_lanes: Option<usize> = match Self::lanes_of(
            capabilities.attention_mix,
            mix_width,
            ATTENTION_MIX_CARRY_BUDGET,
        ) {
            Some(lanes) => Some(
                min_usize(
                    lanes,
                    match projection_lanes {
                        Some(lanes) => lanes,
                        None => 0,
                    },
                ),
            ),
            None => None,
        };
        StageResumeBudgets {
            attention_q_lanes: q_lanes,
            attention_k_lanes: k_lanes,
            attention_v_lanes: v_lanes,
            attention_projection_lanes: if capabilities.attention_projection {
                projection_lanes
            } else {
                None
            },
            attention_mix_lanes: mix_lanes,
            ffn_lanes: Self::lanes_of(capabilities.ffn_path, ffn_width, TRANSIENT_PREVIEW_LEN),
        }
    }
}

impl Default for StageResumeBudgets {
    fn default() -> (r: Self)
        ensures
            r == Self::none(),
    {
        StageResumeBudgets {
            attention_q_lanes: None,
            attention_k_lanes: None,
            attention_v_lanes: None,
            attention_projection_lanes: None,
            attention_mix_lanes: None,
            ffn_lanes: None,
        }
    }
}

impl StageResumeFreshnessPolicy {
    /// No limits.
    pub open spec fn none() -> Self {
        StageResumeFreshnessPolicy {
            attention_q_max_distance: None,
            attention_k_max_distance: None,
            attention_v_max_distance: None,
            attention_score_max_distance: None,
            attention_value_max_distance: None,
        }
    }

    /// Weights below the limit are weak, all others strong.
    pub open spec fn strength(weight_milli: u16) -> AttentionBlendStrength {
        if weight_milli < WEAK_BLEND_LIMIT_MILLI {
            AttentionBlendStrength::WeakBlend
        } else {
            AttentionBlendStrength::StrongBlend
        }
    }

    /// How many layers old a slice on the given path may be: a slice that is overwritten must
    /// be fresh, a weakly blended one may be one layer old, a strongly blended one two.
    pub open spec fn max_distance(path: Option<AttentionSliceResumePath>) -> Option<u32> {
        match path {
            Some(path) => match path.blend_strength {
                None => Some(0),
                Some(AttentionBlendStrength::WeakBlend) => Some(1),
                Some(AttentionBlendStrength::StrongBlend) => Some(2),
            },
            None => None,
        }
    }

    /// The resume path of `slice` in the runnable program of the next layer.
    pub open spec fn next_path(
        programs: Seq<LayerExecutionProgram>,
        next_layer_index: Option<u32>,
        slice: AttentionResumeSlice,
    ) -> Option<AttentionSliceResumePath> {
        match LayerExecutionProgram::next(programs, next_layer_index) {
            Some(index) => ExecutionOp::path_of(programs[index].ops@, slice),
            None => None,
        }
    }

    /// The resume paths of the next layer, without those that the capabilities rule out.
    pub open spec fn allowed_paths(
        programs: Seq<LayerExecutionProgram>,
        next_layer_index: Option<u32>,
        capabilities: StageResumeCapabilities,
    ) -> AttentionResumePaths {
        let mix = capabilities.attention_mix && capabilities.attention_projection;
        (
            if capabilities.attention_q {
                Self::next_path(programs, next_layer_index, AttentionResumeSlice::Q)
            } else {
                None
            },
            if capabilities.attention_k {
                Self::next_path(programs, next_layer_index, AttentionResumeSlice::K)
            } else {
                None
            },
            if capabilities.attention_v {
                Self::next_path(programs, next_layer_index, AttentionResumeSlice::V)
            } else {
                None
            },
            if mix {
                Self::next_path(programs, next_layer_index, AttentionResumeSlice::Score)
            } else {
                None
            },
            if mix {
                Self::next_path(programs, next_layer_index, AttentionResumeSlice::Value)
            } else {
                None
            },
        )
    }

    /// The freshness limits of a stage that runs `programs` next at the given layer.
    pub open spec fn of_programs(
        programs: Seq<LayerExecutionProgram>,
        next_layer_index: Option<u32>,
        capabilities: StageResumeCapabilities,
    ) -> Self {
        let paths = Self::allowed_paths(programs, next_layer_index, capabilities);
        StageResumeFreshnessPolicy {
            attention_q_max_distance: Self::max_distance(paths.0),
            attention_k_max_distance: Self::max_distance(paths.1),
            attention_v_max_distance: Self::max_distance(paths.2),
            attention_score_max_distance: Self::max_distance(paths.3),
            attention_value_max_distance: Self::max_distance(paths.4),
        }
    }

    /// Whether a blend weight, in thousandths, is weak or strong.
    pub fn blend_strength_for_weight_milli(weight_milli: u16) -> (r: AttentionBlendStrength)
        ensures
            r == Self::strength(weight_milli),
    {
        if weight_milli < WEAK_BLEND_LIMIT_MILLI {
            AttentionBlendStrength::WeakBlend
        } else {
            AttentionBlendStrength::StrongBlend
        }
    }

    /// How many layers old a slice on the given path may be.
    pub fn max_distance_for_resume_path(path: Option<AttentionSliceResumePath>) -> (r: Option<u32>)
        ensures
            r == Self::max_distance(path),
    {
        match path {
            Some(path) => match path.blend_strength {
                None => Some(0),
                Some(AttentionBlendStrength::WeakBlend) => Some(1),
                Some(AttentionBlendStrength::StrongBlend) => Some(2),
            },
            None => None,
        }
    }

    fn strength_of(blend_weight_milli: Option<u16>) -> (r: Option<AttentionBlendStrength>)
        ensures
            r == (match blend_weight_milli {
                Some(weight_milli) => Some(Self::strength(weight_milli)),
                None => None,
            }),
    {
        match blend_weight_milli {
            Some(weight_milli) => Some(Self::blend_strength_for_weight_milli(weight_milli)),
            None => None,
        }
    }

    /// The path of a slice that is recomputed directly, where it is supported.
    pub fn direct_resume_path(supported: bool, blend_weight_milli: Option<u16>) -> (r: Option<
        AttentionSliceResumePath,
    >)
        ensures
            r == (if supported {
                Some(
                    AttentionSliceResumePath {
                        recompute_phase: AttentionSliceRecomputePhase::Direct,
                        blend_strength: match blend_weight_milli {
                            Some(weight_milli) => Some(Self::strength(weight_milli)),
                            None => None,
                        },
                        blend_weight_milli,
                    },
                )
            } else {
                None
            }),
    {
        if supported {
            Some(
                AttentionSliceResumePath {
                    recompute_phase: AttentionSliceRecomputePhase::Direct,
                    blend_strength: Self::strength_of(blend_weight_milli),
                    blend_weight_milli,
                },
            )
        } else {
            None
        }
    }

    /// The path of a slice that is recomputed after the projection, where both are supported.
    pub fn after_projection_resume_path(
        supported: bool,
        projection_ready: bool,
        blend_weight_milli: Option<u16>,
    ) -> (r: Option<AttentionSliceResumePath>)
        ensures
            r == (if supported && projection_ready {
                Some(
                    AttentionSliceResumePath {
                        recompute_phase: AttentionSliceRecomputePhase::AfterProjection,
                        blend_strength: match blend_weight_milli {
                            Some(weight_milli) => Some(Self::strength(weight_milli)),
                            None => None,
                        },
                        blend_weight_milli,
                    },
                )
            } else {
                None
            }),
    {
        if supported && projection_ready {
            Some(
                AttentionSliceResumePath {
                    recompute_phase: AttentionSliceRecomputePhase::AfterProjection,
                    blend_strength: Self::strength_of(blend_weight_milli),
                    blend_weight_milli,
                },
            )
        } else {
            None
        }
    }

    /// The path of `slice` after the promises of `descriptors` on top of `before`.
    spec fn updated(
        before: Option<AttentionSliceResumePath>,
        promises: Seq<ExecutionAttentionResumeContract>,
        slice: AttentionResumeSlice,
    ) -> Option<AttentionSliceResumePath> {
        match ExecutionResumeContract::path_of(promises, slice) {
            Some(path) => Some(path),
            None => before,
        }
    }

    /// The resume paths of one more operation on top of those before it.
    fn absorb(op: &ExecutionOp, before: AttentionResumePaths) -> (r: AttentionResumePaths)
        ensures
            r.0 == Self::updated(before.0, op.resume_contract.attention@, AttentionResumeSlice::Q),
            r.1 == Self::updated(before.1, op.resume_contract.attention@, AttentionResumeSlice::K),
            r.2 == Self::updated(before.2, op.resume_contract.attention@, AttentionResumeSlice::V),
            r.3 == Self::updated(
                before.3,
                op.resume_contract.attention@,
                AttentionResumeSlice::Score,
            ),
            r.4 == Self::updated(
                before.4,
                op.resume_contract.attention@,
                AttentionResumeSlice::Value,
            ),
    {
        let descriptors = op.attention_resume_descriptors();
        let ghost promises = op.resume_contract.attention@;
        let (mut q, mut k, mut v, mut score, mut value) = before;
        let mut index: usize = 0;
        while index < descriptors.len()
            invariant
                index <= promises.len(),
                descriptors@ == promises.map_values(
                    |promise: ExecutionAttentionResumeContract| promise.descriptor(),
                ),
                q == Self::updated(before.0, promises.take(index as int), AttentionResumeSlice::Q),
                k == Self::updated(before.1, promises.take(index as int), AttentionResumeSlice::K),
                v == Self::updated(before.2, promises.take(index as int), AttentionResumeSlice::V),
                score == Self::updated(
                    before.3,
                    promises.take(index as int),
                    AttentionResumeSlice::Score,
                ),
                value == Self::updated(
                    before.4,
                    promises.take(index as int),
                    AttentionResumeSlice::Value,
                ),
            decreases descriptors.len() - index,
        {
            proof {
                assert(promises.take(index + 1).drop_last() =~= promises.take(index as int));
                assert(promises.take(index + 1).last() == promises[index as int]);
                assert(descriptors@[index as int] == promises[index as int].descriptor());
            }
            match descriptors[index] {
                ExecutionResumeDescriptor::AttentionQ(path) => {
                    q = Some(path);
                },
                ExecutionResumeDescriptor::AttentionK(path) => {
                    k = Some(path);
                },
                ExecutionResumeDescriptor::AttentionV(path) => {
                    v = Some(path);
                },
                ExecutionResumeDescriptor::AttentionScore(path) => {
                    score = Some(path);
                },
                ExecutionResumeDescriptor::AttentionValue(path) => {
                    value = Some(path);
                },
            }
            index += 1;
        }
        assert(promises.take(index as int) =~= promises);
        (q, k, v, score, value)
    }

    /// The resume paths of the five attention slices in `entry_program`; the last promise about
    /// a slice counts.
    pub fn attention_resume_paths(entry_program: Option<&LayerExecutionProgram>) -> (r:
        AttentionResumePaths)
        ensures
            match entry_program {
                Some(program) => {
                    &&& r.0 == ExecutionOp::path_of(program.ops@, AttentionResumeSlice::Q)
                    &&& r.1 == ExecutionOp::path_of(program.ops@, AttentionResumeSlice::K)
                    &&& r.2 == ExecutionOp::path_of(program.ops@, AttentionResumeSlice::V)
                    &&& r.3 == ExecutionOp::path_of(program.ops@, AttentionResumeSlice::Score)
                    &&& r.4 == ExecutionOp::path_of(program.ops@, AttentionResumeSlice::Value)
                },
                None => r.0 is None && r.1 is None && r.2 is None && r.3 is None && r.4 is None,
            },
    {
        let mut paths: AttentionResumePaths = (None, None, None, None, None);
        if let Some(program) = entry_program {
            let mut index: usize = 0;
            while index < program.ops.len()
                invariant
                    index <= program.ops@.len(),
                    paths.0 == ExecutionOp::path_of(
                        program.ops@.take(index as int),
                        AttentionResumeSlice::Q,
                    ),
                    paths.1 == ExecutionOp::path_of(
                        program.ops@.take(index as int),
                        AttentionResumeSlice::K,
                    ),
                    paths.2 == ExecutionOp::path_of(
                        program.ops@.take(index as int),
                        AttentionResumeSlice::V,
                    ),
                    paths.3 == ExecutionOp::path_of(
                        program.ops@.take(index as int),
                        AttentionResumeSlice::Score,
                    ),
                    paths.4 == ExecutionOp::path_of(
                        program.ops@.take(index as int),
                        AttentionResumeSlice::Value,
                    ),
                decreases program.ops.len() - index,
            {
                proof {
                    assert(program.ops@.take(index + 1).drop_last() =~= program.ops@.take(
                        index as int,
                    ));
                    assert(program.ops@.take(index + 1).last() == program.ops@[index as int]);
                }
                paths = Self::absorb(&program.ops[index], paths);
                index += 1;
            }
            assert(program.ops@.take(index as int) =~= program.ops@);
        }
        paths
    }

    /// The resume paths of the next layer, without those that the capabilities rule out.
    pub(crate) fn resume_paths(
        execution_programs: &[LayerExecutionProgram],
        next_layer_index: Option<u32>,
        capabilities: &StageResumeCapabilities,
    ) -> (r: AttentionResumePaths)
        ensures
            r == Self::allowed_paths(execution_programs@, next_layer_index, *capabilities),
    {
        let entry = match LayerExecutionProgram::find_next(execution_programs, next_layer_index) {
            Some(index) => Some(&execution_programs[index]),
            None => None,
        };
        let (mut q, mut k, mut v, mut score, mut value) = Self::attention_resume_paths(entry);
        if !capabilities.attention_q {
            q = None;
        }
        if !capabilities.attention_k {
            k = None;
        }
        if !capabilities.attention_v {
            v = None;
        }
        if !capabilities.attention_mix || !capabilities.attention_projection {
            score = None;
            value = None;
        }
        (q, k, v, score, value)
    }

    /// The freshness limits of a stage that runs `execution_programs` next at the given layer.
    pub fn from_execution_programs(
        execution_programs: &[LayerExecutionProgram],
        next_layer_index: Option<u32>,
        capabilities: &StageResumeCapabilities,
    ) -> (r: Self)
        ensures
            r == Self::of_programs(execution_programs@, next_layer_index, *capabilities),
    {
        let (q, k, v, score, value) = Self::resume_paths(
            execution_programs,
            next_layer_index,
            capabilities,
        );
        StageResumeFreshnessPolicy {
            attention_q_max_distance: Self::max_distance_for_resume_path(q),
            attention_k_max_distance: Self::max_distance_for_resume_path(k),
            attention_v_max_distance: Self::max_distance_for_resume_path(v),
            attention_score_max_distance: Self::max_distance_for_resume_path(score),
            attention_value_max_distance: Self::max_distance_for_resume_path(value),
        }
    }
}

impl Default for StageResumeFreshnessPolicy {
    fn default() -> (r: Self)
        ensures
            r == Self::none(),
    {
        StageResumeFreshnessPolicy {
            attention_q_max_distance: None,
            attention_k_max_distance: None,
            attention_v_max_distance: None,
            attention_score_max_distance: None,
            attention_value_max_distance: None,
        }
    }
}

impl StageAttentionResumeContractSummary {
    /// What is wrong with the blend of a contract of the slice `name`, apart from its age limit.
    /// `prefix` says where the contract stands.
    pub open spec fn blend_fault(
        self,
        prefix: Seq<char>,
        name: Seq<char>,
        overwrite_text: Seq<char>,
    ) -> Option<Seq<char>> {
        match (self.blend, self.blend_weight_milli) {
            (StageAttentionResumeBlend::Overwrite, Some(_)) => Some(prefix + name + overwrite_text),
            (StageAttentionResumeBlend::Overwrite, None) => None,
            (StageAttentionResumeBlend::WeakBlend, None) => Some(
                prefix + name + " weak blend contract is missing blend weight"@,
            ),
            (StageAttentionResumeBlend::WeakBlend, Some(weight)) => if weight
                >= WEAK_BLEND_LIMIT_MILLI {
                Some(
                    prefix + name + " weak blend contract has non-weak weight "@ + crate::text::dec(
                        weight as nat,
                    ),
                )
            } else {
                None
            },
            (StageAttentionResumeBlend::StrongBlend, None) => Some(
                prefix + name + " strong blend contract is missing blend weight"@,
            ),
            (StageAttentionResumeBlend::StrongBlend, Some(weight)) => if weight
                < WEAK_BLEND_LIMIT_MILLI {
                Some(
                    prefix + name + " strong blend contract has non-strong weight "@
                        + crate::text::dec(weight as nat),
                )
            } else {
                None
            },
        }
    }

    /// How many layers old a slice under this contract may be.
    pub open spec fn implied_distance(self) -> u32 {
        match self.blend {
            StageAttentionResumeBlend::Overwrite => 0,
            StageAttentionResumeBlend::WeakBlend => 1,
            StageAttentionResumeBlend::StrongBlend => 2,
        }
    }

    /// Checks the blend of a contract of the slice `name`.
    pub(crate) fn check_blend(&self, prefix: &str, name: &str, overwrite_text: &str) -> (r: Result<
        (),
        StageError,
    >)
        ensures
            crate::model::failure(r) == self.blend_fault(prefix@, name@, overwrite_text@),
    {
        let subject = prefix.to_owned().concat(name);
        match (self.blend, self.blend_weight_milli) {
            (StageAttentionResumeBlend::Overwrite, Some(_)) => fail_with(
                subject.concat(overwrite_text),
            ),
            (StageAttentionResumeBlend::Overwrite, None) => Ok(()),
            (StageAttentionResumeBlend::WeakBlend, None) => fail_with(
                subject.concat(" weak blend contract is missing blend weight"),
            ),
            (StageAttentionResumeBlend::WeakBlend, Some(weight)) => {
                if StageResumeFreshnessPolicy::blend_strength_for_weight_milli(weight)
                    != AttentionBlendStrength::WeakBlend {
                    fail_with(
                        subject.concat(" weak blend contract has non-weak weight ").concat(
                            decimal(weight as u64).as_str(),
                        ),
                    )
                } else {
                    Ok(())
                }
            },
            (StageAttentionResumeBlend::StrongBlend, None) => fail_with(
                subject.concat(" strong blend contract is missing blend weight"),
            ),
            (StageAttentionResumeBlend::StrongBlend, Some(weight)) => {
                if StageResumeFreshnessPolicy::blend_strength_for_weight_milli(weight)
                    != AttentionBlendStrength::StrongBlend {
                    fail_with(
                        subject.concat(" strong blend contract has non-strong weight ").concat(
                            decimal(weight as u64).as_str(),
                        ),
                    )
                } else {
                    Ok(())
                }
            },
        }
    }
}

impl StageResumeContractSummary {
    /// No contracts.
    pub open spec fn none() -> Self {
        StageResumeContractSummary {
            attention_q: None,
            attention_k: None,
            attention_v: None,
            attention_score: None,
            attention_value: None,
        }
    }

    /// The contract that a resume path amounts to.
    pub open spec fn summary_of(path: Option<AttentionSliceResumePath>) -> Option<
        StageAttentionResumeContractSummary,
    > {
        match path {
            None => None,
            Some(path) => Some(
                StageAttentionResumeContractSummary {
                    phase: match path.recompute_phase {
                        AttentionSliceRecomputePhase::Direct => StageAttentionResumePhase::Direct,
                        AttentionSliceRecomputePhase::AfterProjection => {
                            StageAttentionResumePhase::AfterProjection
                        },
                    },
                    blend: match path.blend_strength {
                        Some(AttentionBlendStrength::WeakBlend) => {
                            StageAttentionResumeBlend::WeakBlend
                        },
                        Some(AttentionBlendStrength::StrongBlend) => {
                            StageAttentionResumeBlend::StrongBlend
                        },
                        None => StageAttentionResumeBlend::Overwrite,
                    },
                    blend_weight_milli: path.blend_weight_milli,
                },
            ),
        }
    }

    /// The contracts of a stage that runs `programs` next at the given layer.
    pub open spec fn of_programs(
        programs: Seq<LayerExecutionProgram>,
        next_layer_index: Option<u32>,
        capabilities: StageResumeCapabilities,
    ) -> Self {
        let paths = StageResumeFreshnessPolicy::allowed_paths(
            programs,
            next_layer_index,
            capabilities,
        );
        StageResumeContractSummary {
            attention_q: Self::summary_of(paths.0),
            attention_k: Self::summary_of(paths.1),
            attention_v: Self::summary_of(paths.2),
            attention_score: Self::summary_of(paths.3),
            attention_value: Self::summary_of(paths.4),
        }
    }

    /// What is wrong with the contract of one slice, given the age limit advertised for it.
    pub open spec fn entry_fault(
        name: Seq<char>,
        entry: Option<StageAttentionResumeContractSummary>,
        max_distance: Option<u32>,
    ) -> Option<Seq<char>> {
        match entry {
            None => None,
            Some(entry) => crate::model::then_check(
                entry.blend_fault(
                    "attention "@,
                    name,
                    " overwrite contract must not carry a blend weight"@,
                ),
                if max_distance != Some(entry.implied_distance()) {
                    Some(
                        "attention "@ + name + " contract implies max distance "@
                            + crate::text::dec(entry.implied_distance() as nat)
                            + " but boundary advertises "@ + crate::text::debug_opt(max_distance),
                    )
                } else {
                    None
                },
            ),
        }
    }

    /// What is wrong with the contracts, given the advertised age limits: the first fault in
    /// the order query, key, value, score, mixed value.
    pub open spec fn freshness_fault(self, freshness: StageResumeFreshnessPolicy) -> Option<
        Seq<char>,
    > {
        crate::model::then_check(
            Self::entry_fault("q"@, self.attention_q, freshness.attention_q_max_distance),
            crate::model::then_check(
                Self::entry_fault("k"@, self.attention_k, freshness.attention_k_max_distance),
                crate::model::then_check(
                    Self::entry_fault("v"@, self.attention_v, freshness.attention_v_max_distance),
                    crate::model::then_check(
                        Self::entry_fault(
                            "score"@,
                            self.attention_score,
                            freshness.attention_score_max_distance,
                        ),
                        Self::entry_fault(
                            "value"@,
                            self.attention_value,
                            freshness.attention_value_max_distance,
                        ),
                    ),
                ),
            ),
        )
    }

    /// The contract of a query, key or value slice that is blended with the default weight.
    pub fn attention_projection_blend() -> (r: StageAttentionResumeContractSummary)
        ensures
            r.phase == StageAttentionResumePhase::Direct,
            r.blend == StageAttentionResumeBlend::StrongBlend,
            r.blend_weight_milli == Some(ATTENTION_PROJECTION_BLEND_WEIGHT_MILLI),
    {
        StageAttentionResumeContractSummary {
            phase: StageAttentionResumePhase::Direct,
            blend: StageAttentionResumeBlend::StrongBlend,
            blend_weight_milli: Some(ATTENTION_PROJECTION_BLEND_WEIGHT_MILLI),
        }
    }

    /// The contract of a score or mixed value slice that is blended with the default weight.
    pub fn attention_mix_blend() -> (r: StageAttentionResumeContractSummary)
        ensures
            r.phase == StageAttentionResumePhase::AfterProjection,
            r.blend == StageAttentionResumeBlend::WeakBlend,
            r.blend_weight_milli == Some(ATTENTION_MIX_BLEND_WEIGHT_MILLI),
    {
        StageAttentionResumeContractSummary {
            phase: StageAttentionResumePhase::AfterProjection,
            blend: StageAttentionResumeBlend::WeakBlend,
            blend_weight_milli: Some(ATTENTION_MIX_BLEND_WEIGHT_MILLI),
        }
    }

    /// The contracts of a full attention block with the default weights.
    pub open spec fn defaults() -> Self {
        let projection = Some(
            StageAttentionResumeContractSummary {
                phase: StageAttentionResumePhase::Direct,
                blend: StageAttentionResumeBlend::StrongBlend,
                blend_weight_milli: Some(ATTENTION_PROJECTION_BLEND_WEIGHT_MILLI),
            },
        );
        let mix = Some(
            StageAttentionResumeContractSummary {
                phase: StageAttentionResumePhase::AfterProjection,
                blend: StageAttentionResumeBlend::WeakBlend,
                blend_weight_milli: Some(ATTENTION_MIX_BLEND_WEIGHT_MILLI),
            },
        );
        StageResumeContractSummary {
            attention_q: projection,
            attention_k: projection,
            attention_v: projection,
            attention_score: mix,
            attention_value: mix,
        }
    }

    /// The contracts of a full attention block with the default weights.
    pub fn current_attention_defaults() -> (r: Self)
        ensures
            r == Self::defaults(),
    {
        let projection = Some(Self::attention_projection_blend());
        let mix = Some(Self::attention_mix_blend());
        StageResumeContractSummary {
            attention_q: projection,
            attention_k: projection,
            attention_v: projection,
            attention_score: mix,
            attention_value: mix,
        }
    }

    /// Whether no slice has a contract.
    pub fn is_empty(&self) -> (r: bool)
        ensures
            r == (*self == Self::none()),
    {
        self.attention_q.is_none() && self.attention_k.is_none() && self.attention_v.is_none()
            && self.attention_score.is_none() && self.attention_value.is_none()
    }

    /// Checks the contract of one slice against the age limit advertised for it.
    pub fn validate_entry(
        name: &str,
        entry: Option<StageAttentionResumeContractSummary>,
        max_distance: Option<u32>,
    ) -> (r: Result<(), StageError>)
        ensures
            crate::model::failure(r) == Self::entry_fault(name@, entry, max_distance),
    {
        let entry = match entry {
            Some(entry) => entry,
            None => return Ok(()),
        };
        let blend = entry.check_blend(
            "attention ",
            name,
            " overwrite contract must not carry a blend weight",
        );
        if blend.is_err() {
            return blend;
        }
        let implied: u32 = match entry.blend {
            StageAttentionResumeBlend::Overwrite => 0,
            StageAttentionResumeBlend::WeakBlend => 1,
            StageAttentionResumeBlend::StrongBlend => 2,
        };
        if max_distance != Some(implied) {
            return fail_with(
                "attention ".to_owned().concat(name).concat(
                    " contract implies max distance ",
                ).concat(decimal(implied as u64).as_str()).concat(
                    " but boundary advertises ",
                ).concat(debug_opt_u32(max_distance).as_str()),
            );
        }
        Ok(())
    }

    /// Checks every contract against the age limit advertised for its slice.
    pub fn validate_against_freshness(&self, freshness: StageResumeFreshnessPolicy) -> (r: Result<
        (),
        StageError,
    >)
        ensures
            crate::model::failure(r) == self.freshness_fault(freshness),
    {
        let q = Self::validate_entry("q", self.attention_q, freshness.attention_q_max_distance);
        if q.is_err() {
            return q;
        }
        let k = Self::validate_entry("k", self.attention_k, freshness.attention_k_max_distance);
        if k.is_err() {
            return k;
        }
        let v = Self::validate_entry("v", self.attention_v, freshness.attention_v_max_distance);
        if v.is_err() {
            return v;
        }
        let score = Self::validate_entry(
            "score",
            self.attention_score,
            freshness.attention_score_max_distance,
        );
        if score.is_err() {
            return score;
        }
        Self::validate_entry("value", self.attention_value, freshness.attention_value_max_distance)
    }

    /// The contract that a resume path amounts to.
    pub fn summarize_path(path: Option<AttentionSliceResumePath>) -> (r: Option<
        StageAttentionResumeContractSummary,
    >)
        ensures
            r == Self::summary_of(path),
    {
        let path = match path {
            Some(path) => path,
            None => return None,
        };
        Some(
            StageAttentionResumeContractSummary {
                phase: match path.recompute_phase {
                    AttentionSliceRecomputePhase::Direct => StageAttentionResumePhase::Direct,
                    AttentionSliceRecomputePhase::AfterProjection => {
                        StageAttentionResumePhase::AfterProjection
                    },
                },
                blend: match path.blend_strength {
                    Some(AttentionBlendStrength::WeakBlend) => StageAttentionResumeBlend::WeakBlend,
                    Some(AttentionBlendStrength::StrongBlend) => {
                        StageAttentionResumeBlend::StrongBlend
                    },
                    None => StageAttentionResumeBlend::Overwrite,
                },
                blend_weight_milli: path.blend_weight_milli,
            },
        )
    }

    /// The contracts of a stage that runs `execution_programs` next at the given layer.
    pub fn from_execution_programs(
        execution_programs: &[LayerExecutionProgram],
        next_layer_index: Option<u32>,
        capabilities: &StageResumeCapabilities,
    ) -> (r: Self)
        ensures
            r == Self::of_programs(execution_programs@, next_layer_index, *capabilities),
    {
        let (q, k, v, score, value) = StageResumeFreshnessPolicy::resume_paths(
            execution_programs,
            next_layer_index,
            capabilities,
        );
        StageResumeContractSummary {
            attention_q: Self::summarize_path(q),
            attention_k: Self::summarize_path(k),
            attention_v: Self::summarize_path(v),
            attention_score: Self::summarize_path(score),
            attention_value: Self::summarize_path(value),
        }
    }
}

impl Default for StageResumeContractSummary {
    fn default() -> (r: Self)
        ensures
            r == Self::none(),
    {
        StageResumeContractSummary {
            attention_q: None,
            attention_k: None,
            attention_v: None,
            attention_score: None,
            attention_value: None,
        }
    }
}

/// A path's strength agrees with its weight.
pub proof fn lemma_paths_are_consistent(
    programs: Seq<LayerExecutionProgram>,
    next_layer_index: Option<u32>,
    slice: AttentionResumeSlice,
)
    ensures
        match StageResumeFreshnessPolicy::next_path(programs, next_layer_index, slice) {
            Some(path) => path.blend_strength == (match path.blend_weight_milli {
                Some(weight) => Some(StageResumeFreshnessPolicy::strength(weight)),
                None => None,
            }),
            None => true,
        },
{
    if let Some(index) = LayerExecutionProgram::next(programs, next_layer_index) {
        lemma_ops_path_is_consistent(programs[index].ops@, slice);
    }
}

proof fn lemma_ops_path_is_consistent(ops: Seq<ExecutionOp>, slice: AttentionResumeSlice)
    ensures
        match ExecutionOp::path_of(ops, slice) {
            Some(path) => path.blend_strength == (match path.blend_weight_milli {
                Some(weight) => Some(StageResumeFreshnessPolicy::strength(weight)),
                None => None,
            }),
            None => true,
        },
    decreases ops.len(),
{
    if ops.len() > 0 {
        lemma_promises_path_is_consistent(ops.last().resume_contract.attention@, slice);
        lemma_ops_path_is_consistent(ops.drop_last(), slice);
    }
}

proof fn lemma_promises_path_is_consistent(
    promises: Seq<ExecutionAttentionResumeContract>,
    slice: AttentionResumeSlice,
)
    ensures
        match ExecutionResumeContract::path_of(promises, slice) {
            Some(path) => path.blend_strength == (match path.blend_weight_milli {
                Some(weight) => Some(StageResumeFreshnessPolicy::strength(weight)),
                None => None,
            }),
            None => true,
        },
    decreases promises.len(),
{
    if promises.len() > 0 {
        lemma_promises_path_is_consistent(promises.drop_last(), slice);
    }
}

/// The contracts and the freshness limits that a stage derives from the same programs agree:
/// the contracts pass the check against those limits.
pub proof fn lemma_derived_contract_matches_derived_freshness(
    programs: Seq<LayerExecutionProgram>,
    next_layer_index: Option<u32>,
    capabilities: StageResumeCapabilities,
)
    ensures
        StageResumeContractSummary::of_programs(
            programs,
            next_layer_index,
            capabilities,
        ).freshness_fault(
            StageResumeFreshnessPolicy::of_programs(programs, next_layer_index, capabilities),
        ) is None,
{
    lemma_paths_are_consistent(programs, next_layer_index, AttentionResumeSlice::Q);
    lemma_paths_are_consistent(programs, next_layer_index, AttentionResumeSlice::K);
    lemma_paths_are_consistent(programs, next_layer_index, AttentionResumeSlice::V);
    lemma_paths_are_consistent(programs, next_layer_index, AttentionResumeSlice::Score);
    lemma_paths_are_consistent(programs, next_layer_index, AttentionResumeSlice::Value);
}

} // verus!
