//! Boundary plans: what a target stage is told to expect of a transfer.
use vstd::prelude::*;
use vstd::string::*;
use crate::capabilities::{max_usize, spec_max};
use crate::carry::{
    AttentionCheckpointProvenance, AttentionCheckpointProvenanceModel,
    CarryableAttentionMixState, CarryableAttentionMixStateModel,
    CarryableAttentionProjectionState, CarryableAttentionProjectionStateModel,
    CarryableAttentionState, CarryableAttentionStateModel, CarryableFfnState,
    CarryableFfnStateModel, StageCarryPolicy, StageCarryState, StageCarryStateModel,
};
use crate::execution::{
    LayerExecutionProgram, StageResumeBudgets, StageResumeCapabilities, StageResumeContractSummary,
    StageResumeFreshnessPolicy,
};
use crate::frame::{
    StageForwardFrame, StageForwardFrameModel, StageTransferFrame, StageTransferFrameModel,
    STAGE_FORWARD_FRAME_VERSION,
};
use crate::model::{fail_with, same_opt_text, StageError};
use crate::resume::{StageResumeRequest, StageResumeRequestModel};
use crate::tensor::{
    kind_text, AttentionContinuation, AttentionContinuationModel, PayloadKind, StageLayout,
    StageLayoutModel, StageStateEnvelope, StageStateEnvelopeModel,
};
use crate::text::{debug_opt_str, debug_opt_u32, decimal, flag_text, size_text};

verus! {

/// What a target stage is told to expect of a transfer, and what it is known to resume.
#[derive(Debug, PartialEq, Eq)]
pub struct StageBoundaryPlan {
    pub source_stage_id: String,
    pub source_stage_role: String,
    pub source_stage_start: u32,
    pub source_stage_end: u32,
    pub target_stage_id: Option<String>,
    pub next_layer_index: Option<u32>,
    pub expected_payload_kind: PayloadKind,
    pub expected_hidden_dim: usize,
    pub carry_policy: StageCarryPolicy,
    pub expects_attention_carry: bool,
    pub expects_ffn_carry: bool,
    pub expected_attention_width: Option<usize>,
    pub expected_attention_lanes: Option<usize>,
    pub expects_attention_projection_carry: bool,
    pub expects_attention_mix_carry: bool,
    pub expected_attention_q_lanes: Option<usize>,
    pub expected_attention_k_lanes: Option<usize>,
    pub expected_attention_v_lanes: Option<usize>,
    pub expected_attention_score_lanes: Option<usize>,
    pub expected_attention_value_lanes: Option<usize>,
    pub expected_attention_q_distance: Option<u32>,
    pub expected_attention_k_distance: Option<u32>,
    pub expected_attention_v_distance: Option<u32>,
    pub expected_attention_score_distance: Option<u32>,
    pub expected_attention_value_distance: Option<u32>,
    pub expected_attention_projection_lanes: Option<usize>,
    pub expected_attention_mix_lanes: Option<usize>,
    pub expected_ffn_width: Option<usize>,
    pub expected_ffn_lanes: Option<usize>,
    pub resumable_attention_path: bool,
    pub resumable_attention_q: bool,
    pub resumable_attention_k: bool,
    pub resumable_attention_v: bool,
    pub resumable_attention_q_lanes: Option<usize>,
    pub resumable_attention_k_lanes: Option<usize>,
    pub resumable_attention_v_lanes: Option<usize>,
    pub resumable_attention_q_max_distance: Option<u32>,
    pub resumable_attention_k_max_distance: Option<u32>,
    pub resumable_attention_v_max_distance: Option<u32>,
    pub resumable_attention_score_max_distance: Option<u32>,
    pub resumable_attention_value_max_distance: Option<u32>,
    pub resumable_attention_contract: StageResumeContractSummary,
    pub resumable_attention_projection: bool,
    pub resumable_attention_mix: bool,
    pub resumable_ffn_path: bool,
    pub resumable_projection_path: bool,
    pub operator_layers: usize,
    pub completed_layers: Option<u32>,
}

/// What a [`StageBoundaryPlan`] holds, as mathematical values.
#[verifier::ext_equal]
pub struct StageBoundaryPlanModel {
    pub source_stage_id: Seq<char>,
    pub source_stage_role: Seq<char>,
    pub source_stage_start: u32,
    pub source_stage_end: u32,
    pub target_stage_id: Option<Seq<char>>,
    pub next_layer_index: Option<u32>,
    pub expected_payload_kind: PayloadKind,
    pub expected_hidden_dim: usize,
    pub carry_policy: StageCarryPolicy,
    pub expects_attention_carry: bool,
    pub expects_ffn_carry: bool,
    pub expected_attention_width: Option<usize>,
    pub expected_attention_lanes: Option<usize>,
    pub expects_attention_projection_carry: bool,
    pub expects_attention_mix_carry: bool,
    pub expected_attention_q_lanes: Option<usize>,
    pub expected_attention_k_lanes: Option<usize>,
    pub expected_attention_v_lanes: Option<usize>,
    pub expected_attention_score_lanes: Option<usize>,
    pub expected_attention_value_lanes: Option<usize>,
    pub expected_attention_q_distance: Option<u32>,
    pub expected_attention_k_distance: Option<u32>,
    pub expected_attention_v_distance: Option<u32>,
    pub expected_attention_score_distance: Option<u32>,
    pub expected_attention_value_distance: Option<u32>,
    pub expected_attention_projection_lanes: Option<usize>,
    pub expected_attention_mix_lanes: Option<usize>,
    pub expected_ffn_width: Option<usize>,
    pub expected_ffn_lanes: Option<usize>,
    pub resumable_attention_path: bool,
    pub resumable_attention_q: bool,
    pub resumable_attention_k: bool,
    pub resumable_attention_v: bool,
    pub resumable_attention_q_lanes: Option<usize>,
    pub resumable_attention_k_lanes: Option<usize>,
    pub resumable_attention_v_lanes: Option<usize>,
    pub resumable_attention_q_max_distance: Option<u32>,
    pub resumable_attention_k_max_distance: Option<u32>,
    pub resumable_attention_v_max_distance: Option<u32>,
    pub resumable_attention_score_max_distance: Option<u32>,
    pub resumable_attention_value_max_distance: Option<u32>,
    pub resumable_attention_contract: StageResumeContractSummary,
    pub resumable_attention_projection: bool,
    pub resumable_attention_mix: bool,
    pub resumable_ffn_path: bool,
    pub resumable_projection_path: bool,
    pub operator_layers: usize,
    pub completed_layers: Option<u32>,
}

impl View for StageBoundaryPlan {
    type V = StageBoundaryPlanModel;

    open spec fn view(&self) -> StageBoundaryPlanModel {
        StageBoundaryPlanModel {
            source_stage_id: self.source_stage_id@,
            source_stage_role: self.source_stage_role@,
            source_stage_start: self.source_stage_start,
            source_stage_end: self.source_stage_end,
            target_stage_id: crate::model::opt(self.target_stage_id),
            next_layer_index: self.next_layer_index,
            expected_payload_kind: self.expected_payload_kind,
            expected_hidden_dim: self.expected_hidden_dim,
            carry_policy: self.carry_policy,
            expects_attention_carry: self.expects_attention_carry,
            expects_ffn_carry: self.expects_ffn_carry,
            expected_attention_width: self.expected_attention_width,
            expected_attention_lanes: self.expected_attention_lanes,
            expects_attention_projection_carry: self.expects_attention_projection_carry,
            expects_attention_mix_carry: self.expects_attention_mix_carry,
            expected_attention_q_lanes: self.expected_attention_q_lanes,
            expected_attention_k_lanes: self.expected_attention_k_lanes,
            expected_attention_v_lanes: self.expected_attention_v_lanes,
            expected_attention_score_lanes: self.expected_attention_score_lanes,
            expected_attention_value_lanes: self.expected_attention_value_lanes,
            expected_attention_q_distance: self.expected_attention_q_distance,
            expected_attention_k_distance: self.expected_attention_k_distance,
            expected_attention_v_distance: self.expected_attention_v_distance,
            expected_attention_score_distance: self.expected_attention_score_distance,
            expected_attention_value_distance: self.expected_attention_value_distance,
            expected_attention_projection_lanes: self.expected_attention_projection_lanes,
            expected_attention_mix_lanes: self.expected_attention_mix_lanes,
            expected_ffn_width: self.expected_ffn_width,
            expected_ffn_lanes: self.expected_ffn_lanes,
            resumable_attention_path: self.resumable_attention_path,
            resumable_attention_q: self.resumable_attention_q,
            resumable_attention_k: self.resumable_attention_k,
            resumable_attention_v: self.resumable_attention_v,
            resumable_attention_q_lanes: self.resumable_attention_q_lanes,
            resumable_attention_k_lanes: self.resumable_attention_k_lanes,
            resumable_attention_v_lanes: self.resumable_attention_v_lanes,
            resumable_attention_q_max_distance: self.resumable_attention_q_max_distance,
            resumable_attention_k_max_distance: self.resumable_attention_k_max_distance,
            resumable_attention_v_max_distance: self.resumable_attention_v_max_distance,
            resumable_attention_score_max_distance: self.resumable_attention_score_max_distance,
            resumable_attention_value_max_distance: self.resumable_attention_value_max_distance,
            resumable_attention_contract: self.resumable_attention_contract,
            resumable_attention_projection: self.resumable_attention_projection,
            resumable_attention_mix: self.resumable_attention_mix,
            resumable_ffn_path: self.resumable_ffn_path,
            resumable_projection_path: self.resumable_projection_path,
            operator_layers: self.operator_layers,
            completed_layers: self.completed_layers,
        }
    }
}

impl StageBoundaryPlan {
    /// Whether two plans are equal.
    pub(crate) fn equal(&self, other: &Self) -> (r: bool)
        ensures
            r == (self@ == other@),
    {
        self.source_stage_id == other.source_stage_id
            && self.source_stage_role == other.source_stage_role
            && self.source_stage_start == other.source_stage_start
            && self.source_stage_end == other.source_stage_end
            && same_opt_text(&self.target_stage_id, &other.target_stage_id)
            && self.next_layer_index == other.next_layer_index
            && self.expected_payload_kind == other.expected_payload_kind
            && self.expected_hidden_dim == other.expected_hidden_dim
            && self.carry_policy == other.carry_policy
            && self.expects_attention_carry == other.expects_attention_carry
            && self.expects_ffn_carry == other.expects_ffn_carry
            && self.expected_attention_width == other.expected_attention_width
            && self.expected_attention_lanes == other.expected_attention_lanes
            && self.expects_attention_projection_carry == other.expects_attention_projection_carry
            && self.expects_attention_mix_carry == other.expects_attention_mix_carry
            && self.expected_attention_q_lanes == other.expected_attention_q_lanes
            && self.expected_attention_k_lanes == other.expected_attention_k_lanes
            && self.expected_attention_v_lanes == other.expected_attention_v_lanes
            && self.expected_attention_score_lanes == other.expected_attention_score_lanes
            && self.expected_attention_value_lanes == other.expected_attention_value_lanes
            && self.expected_attention_q_distance == other.expected_attention_q_distance
            && self.expected_attention_k_distance == other.expected_attention_k_distance
            && self.expected_attention_v_distance == other.expected_attention_v_distance
            && self.expected_attention_score_distance == other.expected_attention_score_distance
            && self.expected_attention_value_distance == other.expected_attention_value_distance
            && self.expected_attention_projection_lanes == other.expected_attention_projection_lanes
            && self.expected_attention_mix_lanes == other.expected_attention_mix_lanes
            && self.expected_ffn_width == other.expected_ffn_width
            && self.expected_ffn_lanes == other.expected_ffn_lanes
            && self.resumable_attention_path == other.resumable_attention_path
            && self.resumable_attention_q == other.resumable_attention_q
            && self.resumable_attention_k == other.resumable_attention_k
            && self.resumable_attention_v == other.resumable_attention_v
            && self.resumable_attention_q_lanes == other.resumable_attention_q_lanes
            && self.resumable_attention_k_lanes == other.resumable_attention_k_lanes
            && self.resumable_attention_v_lanes == other.resumable_attention_v_lanes
            && self.resumable_attention_q_max_distance == other.resumable_attention_q_max_distance
            && self.resumable_attention_k_max_distance == other.resumable_attention_k_max_distance
            && self.resumable_attention_v_max_distance == other.resumable_attention_v_max_distance
            && self.resumable_attention_score_max_distance == other.resumable_attention_score_max_distance
            && self.resumable_attention_value_max_distance == other.resumable_attention_value_max_distance
            && self.resumable_attention_contract == other.resumable_attention_contract
            && self.resumable_attention_projection == other.resumable_attention_projection
            && self.resumable_attention_mix == other.resumable_attention_mix
            && self.resumable_ffn_path == other.resumable_ffn_path
            && self.resumable_projection_path == other.resumable_projection_path
            && self.operator_layers == other.operator_layers
            && self.completed_layers == other.completed_layers
    }
}

impl Clone for StageBoundaryPlan {
    fn clone(&self) -> (r: Self)
        ensures
            r@ == self@,
    {
        StageBoundaryPlan {
            source_stage_id: self.source_stage_id.clone(),
            source_stage_role: self.source_stage_role.clone(),
            source_stage_start: self.source_stage_start,
            source_stage_end: self.source_stage_end,
            target_stage_id: self.target_stage_id.clone(),
            next_layer_index: self.next_layer_index,
            expected_payload_kind: self.expected_payload_kind,
            expected_hidden_dim: self.expected_hidden_dim,
            carry_policy: self.carry_policy,
            expects_attention_carry: self.expects_attention_carry,
            expects_ffn_carry: self.expects_ffn_carry,
            expected_attention_width: self.expected_attention_width,
            expected_attention_lanes: self.expected_attention_lanes,
            expects_attention_projection_carry: self.expects_attention_projection_carry,
            expects_attention_mix_carry: self.expects_attention_mix_carry,
            expected_attention_q_lanes: self.expected_attention_q_lanes,
            expected_attention_k_lanes: self.expected_attention_k_lanes,
            expected_attention_v_lanes: self.expected_attention_v_lanes,
            expected_attention_score_lanes: self.expected_attention_score_lanes,
            expected_attention_value_lanes: self.expected_attention_value_lanes,
            expected_attention_q_distance: self.expected_attention_q_distance,
            expected_attention_k_distance: self.expected_attention_k_distance,
            expected_attention_v_distance: self.expected_attention_v_distance,
            expected_attention_score_distance: self.expected_attention_score_distance,
            expected_attention_value_distance: self.expected_attention_value_distance,
            expected_attention_projection_lanes: self.expected_attention_projection_lanes,
            expected_attention_mix_lanes: self.expected_attention_mix_lanes,
            expected_ffn_width: self.expected_ffn_width,
            expected_ffn_lanes: self.expected_ffn_lanes,
            resumable_attention_path: self.resumable_attention_path,
            resumable_attention_q: self.resumable_attention_q,
            resumable_attention_k: self.resumable_attention_k,
            resumable_attention_v: self.resumable_attention_v,
            resumable_attention_q_lanes: self.resumable_attention_q_lanes,
            resumable_attention_k_lanes: self.resumable_attention_k_lanes,
            resumable_attention_v_lanes: self.resumable_attention_v_lanes,
            resumable_attention_q_max_distance: self.resumable_attention_q_max_distance,
            resumable_attention_k_max_distance: self.resumable_attention_k_max_distance,
            resumable_attention_v_max_distance: self.resumable_attention_v_max_distance,
            resumable_attention_score_max_distance: self.resumable_attention_score_max_distance,
            resumable_attention_value_max_distance: self.resumable_attention_value_max_distance,
            resumable_attention_contract: self.resumable_attention_contract,
            resumable_attention_projection: self.resumable_attention_projection,
            resumable_attention_mix: self.resumable_attention_mix,
            resumable_ffn_path: self.resumable_ffn_path,
            resumable_projection_path: self.resumable_projection_path,
            operator_layers: self.operator_layers,
            completed_layers: self.completed_layers,
        }
    }
}

/// The shape of an attention carry: its width, and the lanes of its slices.
#[derive(Debug, Clone, Copy, PartialEq, Eq, Structural)]
pub struct AttentionShape {
    pub width: usize,
    pub lanes: usize,
    pub q_lanes: Option<usize>,
    pub k_lanes: Option<usize>,
    pub v_lanes: Option<usize>,
    pub projection_lanes: Option<usize>,
    pub score_lanes: Option<usize>,
    pub value_lanes: Option<usize>,
    pub mix_lanes: Option<usize>,
}

/// The shape of a feed-forward carry.
#[derive(Debug, Clone, Copy, PartialEq, Eq, Structural)]
pub struct FfnShape {
    pub width: usize,
    pub lanes: usize,
}

/// How many layers ago each attention slice was captured, where it is known.
#[derive(Debug, Clone, Copy, PartialEq, Eq, Structural)]
pub struct AttentionDistances {
    pub q: Option<u32>,
    pub k: Option<u32>,
    pub v: Option<u32>,
    pub score: Option<u32>,
    pub value: Option<u32>,
}

/// What a plan expects of an attention carry: nothing, or a shape.
#[derive(Debug, Clone, Copy, PartialEq, Eq, Structural)]
pub struct ExpectedAttention {
    pub carry: bool,
    pub projection: bool,
    pub mix: bool,
    pub width: Option<usize>,
    pub lanes: Option<usize>,
    pub q_lanes: Option<usize>,
    pub k_lanes: Option<usize>,
    pub v_lanes: Option<usize>,
    pub projection_lanes: Option<usize>,
    pub score_lanes: Option<usize>,
    pub value_lanes: Option<usize>,
    pub mix_lanes: Option<usize>,
}

impl ExpectedAttention {
    /// What is expected where the carry has the given shape.
    pub open spec fn of_shape(shape: Option<AttentionShape>) -> Self {
        match shape {
            Some(shape) => ExpectedAttention {
                carry: true,
                projection: shape.projection_lanes is Some,
                mix: shape.mix_lanes is Some,
                width: Some(shape.width),
                lanes: Some(shape.lanes),
                q_lanes: shape.q_lanes,
                k_lanes: shape.k_lanes,
                v_lanes: shape.v_lanes,
                projection_lanes: shape.projection_lanes,
                score_lanes: shape.score_lanes,
                value_lanes: shape.value_lanes,
                mix_lanes: shape.mix_lanes,
            },
            None => ExpectedAttention {
                carry: false,
                projection: false,
                mix: false,
                width: None,
                lanes: None,
                q_lanes: None,
                k_lanes: None,
                v_lanes: None,
                projection_lanes: None,
                score_lanes: None,
                value_lanes: None,
                mix_lanes: None,
            },
        }
    }

    fn from_shape(shape: Option<AttentionShape>) -> (r: Self)
        ensures
            r == Self::of_shape(shape),
    {
        match shape {
            Some(shape) => ExpectedAttention {
                carry: true,
                projection: shape.projection_lanes.is_some(),
                mix: shape.mix_lanes.is_some(),
                width: Some(shape.width),
                lanes: Some(shape.lanes),
                q_lanes: shape.q_lanes,
                k_lanes: shape.k_lanes,
                v_lanes: shape.v_lanes,
                projection_lanes: shape.projection_lanes,
                score_lanes: shape.score_lanes,
                value_lanes: shape.value_lanes,
                mix_lanes: shape.mix_lanes,
            },
            None => ExpectedAttention {
                carry: false,
                projection: false,
                mix: false,
                width: None,
                lanes: None,
                q_lanes: None,
                k_lanes: None,
                v_lanes: None,
                projection_lanes: None,
                score_lanes: None,
                value_lanes: None,
                mix_lanes: None,
            },
        }
    }
}

/// What a plan expects of a feed-forward carry: nothing, or a shape.
#[derive(Debug, Clone, Copy, PartialEq, Eq, Structural)]
pub struct ExpectedFfn {
    pub carry: bool,
    pub width: Option<usize>,
    pub lanes: Option<usize>,
}

impl ExpectedFfn {
    /// What is expected where the carry has the given shape.
    pub open spec fn of_shape(shape: Option<FfnShape>) -> Self {
        match shape {
            Some(shape) => ExpectedFfn {
                carry: true,
                width: Some(shape.width),
                lanes: Some(shape.lanes),
            },
            None => ExpectedFfn { carry: false, width: None, lanes: None },
        }
    }

    fn from_shape(shape: Option<FfnShape>) -> (r: Self)
        ensures
            r == Self::of_shape(shape),
    {
        match shape {
            Some(shape) => ExpectedFfn {
                carry: true,
                width: Some(shape.width),
                lanes: Some(shape.lanes),
            },
            None => ExpectedFfn { carry: false, width: None, lanes: None },
        }
    }
}

impl AttentionShape {
    /// The shape of a carry.
    pub open spec fn of_carry(carry: CarryableAttentionStateModel) -> Self {
        AttentionShape {
            width: carry.width(),
            lanes: carry.lanes() as usize,
            q_lanes: match carry.projection {
                Some(p) => Some(p.q_lane_indices.len() as usize),
                None => None,
            },
            k_lanes: match carry.projection {
                Some(p) => Some(p.k_lane_indices.len() as usize),
                None => None,
            },
            v_lanes: match carry.projection {
                Some(p) => Some(p.v_lane_indices.len() as usize),
                None => None,
            },
            projection_lanes: match carry.projection {
                Some(p) => Some(p.lanes() as usize),
                None => None,
            },
            score_lanes: match carry.mix {
                Some(m) => Some(m.score_lane_indices.len() as usize),
                None => None,
            },
            value_lanes: match carry.mix {
                Some(m) => Some(m.value_lane_indices.len() as usize),
                None => None,
            },
            mix_lanes: match carry.mix {
                Some(m) => Some(m.lanes() as usize),
                None => None,
            },
        }
    }

    /// The shape of a preview: as many lanes as its vectors have entries.
    pub open spec fn of_preview(preview: AttentionContinuationModel) -> Self {
        let q = preview.q_preview.len() as usize;
        let k = preview.k_preview.len() as usize;
        let v = preview.v_preview.len() as usize;
        let score = preview.score_preview.len() as usize;
        let value = preview.value_preview.len() as usize;
        AttentionShape {
            width: preview.width,
            lanes: spec_max(spec_max(spec_max(spec_max(q, k), v), score), value),
            q_lanes: Some(q),
            k_lanes: Some(k),
            v_lanes: Some(v),
            projection_lanes: Some(spec_max(spec_max(q, k), v)),
            score_lanes: Some(score),
            value_lanes: Some(value),
            mix_lanes: Some(spec_max(score, value)),
        }
    }

    /// The shape of a state's attention: that of its carry, else that of its preview.
    pub open spec fn of_state(state: StageStateEnvelopeModel) -> Option<Self> {
        match (state.carry, state.transient) {
            (Some(carry), _) if carry.attention is Some => Some(Self::of_carry(carry.attention->0)),
            (_, Some(transient)) if transient.attention is Some => Some(
                Self::of_preview(transient.attention->0),
            ),
            _ => None,
        }
    }

    fn from_carry(carry: &CarryableAttentionState) -> (r: Self)
        ensures
            r == Self::of_carry(carry@),
    {
        let (q_lanes, k_lanes, v_lanes, projection_lanes) = match &carry.projection {
            Some(p) => (
                Some(p.q_lane_indices.len()),
                Some(p.k_lane_indices.len()),
                Some(p.v_lane_indices.len()),
                Some(carry.projection_lane_count()),
            ),
            None => (None, None, None, None),
        };
        let (score_lanes, value_lanes, mix_lanes) = match &carry.mix {
            Some(m) => (
                Some(m.score_lane_indices.len()),
                Some(m.value_lane_indices.len()),
                Some(carry.mix_lane_count()),
            ),
            None => (None, None, None),
        };
        AttentionShape {
            width: carry.width(),
            lanes: carry.lane_count(),
            q_lanes,
            k_lanes,
            v_lanes,
            projection_lanes,
            score_lanes,
            value_lanes,
            mix_lanes,
        }
    }

    fn from_preview(preview: &AttentionContinuation) -> (r: Self)
        ensures
            r == Self::of_preview(preview@),
    {
        let q: usize = preview.q_preview.len();
        let k: usize = preview.k_preview.len();
        let v: usize = preview.v_preview.len();
        let score: usize = preview.score_preview.len();
        let value: usize = preview.value_preview.len();
        AttentionShape {
            width: preview.width,
            lanes: max_usize(max_usize(max_usize(max_usize(q, k), v), score), value),
            q_lanes: Some(q),
            k_lanes: Some(k),
            v_lanes: Some(v),
            projection_lanes: Some(max_usize(max_usize(q, k), v)),
            score_lanes: Some(score),
            value_lanes: Some(value),
            mix_lanes: Some(max_usize(score, value)),
        }
    }

    fn from_state(state: &StageStateEnvelope) -> (r: Option<Self>)
        ensures
            r == Self::of_state(state@),
    {
        if let Some(carry) = &state.carry {
            if let Some(attention) = &carry.attention {
                return Some(Self::from_carry(attention));
            }
        }
        if let Some(transient) = &state.transient {
            if let Some(attention) = &transient.attention {
                return Some(Self::from_preview(attention));
            }
        }
        None
    }
}

impl FfnShape {
    /// The shape of a state's feed-forward part: that of its carry, else that of its preview.
    pub open spec fn of_state(state: StageStateEnvelopeModel) -> Option<Self> {
        match (state.carry, state.transient) {
            (Some(carry), _) if carry.ffn is Some => Some(
                FfnShape { width: carry.ffn->0.width, lanes: carry.ffn->0.lanes() as usize },
            ),
            (_, Some(transient)) if transient.ffn is Some => Some(
                FfnShape {
                    width: transient.ffn->0.width,
                    lanes: spec_max(
                        spec_max(
                            transient.ffn->0.gate_preview.len() as usize,
                            transient.ffn->0.up_preview.len() as usize,
                        ),
                        transient.ffn->0.activation_preview.len() as usize,
                    ),
                },
            ),
            _ => None,
        }
    }

    fn from_state(state: &StageStateEnvelope) -> (r: Option<Self>)
        ensures
            r == Self::of_state(state@),
    {
        if let Some(carry) = &state.carry {
            if let Some(ffn) = &carry.ffn {
                return Some(FfnShape { width: ffn.width, lanes: ffn.lane_count() });
            }
        }
        if let Some(transient) = &state.transient {
            if let Some(ffn) = &transient.ffn {
                return Some(
                    FfnShape {
                        width: ffn.width,
                        lanes: max_usize(
                            max_usize(ffn.gate_preview.len(), ffn.up_preview.len()),
                            ffn.activation_preview.len(),
                        ),
                    },
                );
            }
        }
        None
    }
}

impl AttentionDistances {
    /// The distances of a carry's attention slices.
    pub open spec fn of_carry(carry: Option<StageCarryStateModel>) -> Self {
        match carry {
            Some(carry) if carry.attention is Some => {
                let projection = carry.attention->0.projection;
                let mix = carry.attention->0.mix;
                AttentionDistances {
                    q: match projection {
                        Some(p) => AttentionCheckpointProvenanceModel::distance(p.q_provenance),
                        None => None,
                    },
                    k: match projection {
                        Some(p) => AttentionCheckpointProvenanceModel::distance(p.k_provenance),
                        None => None,
                    },
                    v: match projection {
                        Some(p) => AttentionCheckpointProvenanceModel::distance(p.v_provenance),
                        None => None,
                    },
                    score: match mix {
                        Some(m) => AttentionCheckpointProvenanceModel::distance(m.score_provenance),
                        None => None,
                    },
                    value: match mix {
                        Some(m) => AttentionCheckpointProvenanceModel::distance(m.value_provenance),
                        None => None,
                    },
                }
            },
            _ => AttentionDistances { q: None, k: None, v: None, score: None, value: None },
        }
    }

    fn from_carry(carry: &Option<StageCarryState>) -> (r: Self)
        ensures
            r == Self::of_carry(crate::model::opt(*carry)),
    {
        let mut distances = AttentionDistances { q: None, k: None, v: None, score: None, value: None };
        if let Some(carry) = carry {
            if let Some(attention) = &carry.attention {
                if let Some(p) = &attention.projection {
                    distances.q = StageBoundaryPlan::attention_provenance_distance(&p.q_provenance);
                    distances.k = StageBoundaryPlan::attention_provenance_distance(&p.k_provenance);
                    distances.v = StageBoundaryPlan::attention_provenance_distance(&p.v_provenance);
                }
                if let Some(m) = &attention.mix {
                    distances.score =
                    StageBoundaryPlan::attention_provenance_distance(&m.score_provenance);
                    distances.value =
                    StageBoundaryPlan::attention_provenance_distance(&m.value_provenance);
                }
            }
        }
        distances
    }
}

impl StageBoundaryPlanModel {
    /// The plan of a frame with the given expectations and the given knowledge of the target.
    pub open spec fn of_parts(
        frame: StageForwardFrameModel,
        carry_policy: StageCarryPolicy,
        expected: ExpectedAttention,
        distances: AttentionDistances,
        ffn: ExpectedFfn,
        capabilities: StageResumeCapabilities,
        budgets: StageResumeBudgets,
        freshness: StageResumeFreshnessPolicy,
        contract: StageResumeContractSummary,
    ) -> Self {
        StageBoundaryPlanModel {
            source_stage_id: frame.route.source_stage_id,
            source_stage_role: frame.route.source_stage_role,
            source_stage_start: frame.route.source_stage_start,
            source_stage_end: frame.route.source_stage_end,
            target_stage_id: frame.route.target_stage_id,
            next_layer_index: frame.next_layer(),
            expected_payload_kind: frame.payload.kind,
            expected_hidden_dim: frame.payload.hidden_dim,
            carry_policy,
            expects_attention_carry: expected.carry,
            expects_ffn_carry: ffn.carry,
            expected_attention_width: expected.width,
            expected_attention_lanes: expected.lanes,
            expects_attention_projection_carry: expected.projection,
            expects_attention_mix_carry: expected.mix,
            expected_attention_q_lanes: expected.q_lanes,
            expected_attention_k_lanes: expected.k_lanes,
            expected_attention_v_lanes: expected.v_lanes,
            expected_attention_score_lanes: expected.score_lanes,
            expected_attention_value_lanes: expected.value_lanes,
            expected_attention_q_distance: distances.q,
            expected_attention_k_distance: distances.k,
            expected_attention_v_distance: distances.v,
            expected_attention_score_distance: distances.score,
            expected_attention_value_distance: distances.value,
            expected_attention_projection_lanes: expected.projection_lanes,
            expected_attention_mix_lanes: expected.mix_lanes,
            expected_ffn_width: ffn.width,
            expected_ffn_lanes: ffn.lanes,
            resumable_attention_path: capabilities.attention_path,
            resumable_attention_q: capabilities.attention_q,
            resumable_attention_k: capabilities.attention_k,
            resumable_attention_v: capabilities.attention_v,
            resumable_attention_q_lanes: budgets.attention_q_lanes,
            resumable_attention_k_lanes: budgets.attention_k_lanes,
            resumable_attention_v_lanes: budgets.attention_v_lanes,
            resumable_attention_q_max_distance: freshness.attention_q_max_distance,
            resumable_attention_k_max_distance: freshness.attention_k_max_distance,
            resumable_attention_v_max_distance: freshness.attention_v_max_distance,
            resumable_attention_score_max_distance: freshness.attention_score_max_distance,
            resumable_attention_value_max_distance: freshness.attention_value_max_distance,
            resumable_attention_contract: contract,
            resumable_attention_projection: capabilities.attention_projection,
            resumable_attention_mix: capabilities.attention_mix,
            resumable_ffn_path: capabilities.ffn_path,
            resumable_projection_path: capabilities.projection_path,
            operator_layers: match frame.state.continuation {
                Some(continuation) => continuation.operator_layers,
                None => 0,
            },
            completed_layers: match frame.state.continuation {
                Some(continuation) => Some(continuation.completed_layers),
                None => None,
            },
        }
    }

    /// The plan of a frame: what `state` carries under the policy, and what the target is known
    /// to resume.
    pub open spec fn of_state(
        frame: StageForwardFrameModel,
        state: StageStateEnvelopeModel,
        carry_policy: StageCarryPolicy,
        capabilities: StageResumeCapabilities,
        budgets: StageResumeBudgets,
        freshness: StageResumeFreshnessPolicy,
        contract: StageResumeContractSummary,
    ) -> Self {
        Self::of_parts(
            frame,
            carry_policy,
            ExpectedAttention::of_shape(
                if carry_policy.carry_attention {
                    AttentionShape::of_state(state)
                } else {
                    None
                },
            ),
            AttentionDistances::of_carry(state.carry),
            ExpectedFfn::of_shape(
                if carry_policy.carry_ffn {
                    FfnShape::of_state(state)
                } else {
                    None
                },
            ),
            capabilities,
            budgets,
            freshness,
            contract,
        )
    }

    /// The plan of a frame for a target that runs `programs`.
    pub open spec fn of_execution(
        frame: StageForwardFrameModel,
        carry_policy: StageCarryPolicy,
        programs: Seq<LayerExecutionProgram>,
    ) -> Self {
        let capabilities = StageResumeCapabilities::of_programs(programs, frame.next_layer());
        Self::of_state(
            frame,
            StageStateEnvelopeModel {
                continuation: frame.state.continuation,
                transient: None,
                carry: frame.carry_to(carry_policy, programs),
            },
            carry_policy,
            capabilities,
            StageResumeBudgets::of_programs(programs, frame.next_layer(), capabilities),
            StageResumeFreshnessPolicy::of_programs(programs, frame.next_layer(), capabilities),
            StageResumeContractSummary::of_programs(programs, frame.next_layer(), capabilities),
        )
    }

    /// What a target is taken to resume where its programs are not known: what the continuation
    /// has a path for.
    pub open spec fn continuation_capabilities(frame: StageForwardFrameModel) -> StageResumeCapabilities {
        let attention = frame.state.continuation is Some
            && frame.state.continuation->0.has_attention_path;
        StageResumeCapabilities {
            attention_path: attention,
            attention_q: attention,
            attention_k: attention,
            attention_v: attention,
            attention_projection: attention,
            attention_mix: attention,
            ffn_path: frame.state.continuation is Some && frame.state.continuation->0.has_ffn_path,
            projection_path: frame.state.continuation is Some
                && frame.state.continuation->0.has_projection_path,
        }
    }

    /// The age limits that the plan advertises.
    pub open spec fn freshness(self) -> StageResumeFreshnessPolicy {
        StageResumeFreshnessPolicy {
            attention_q_max_distance: self.resumable_attention_q_max_distance,
            attention_k_max_distance: self.resumable_attention_k_max_distance,
            attention_v_max_distance: self.resumable_attention_v_max_distance,
            attention_score_max_distance: self.resumable_attention_score_max_distance,
            attention_value_max_distance: self.resumable_attention_value_max_distance,
        }
    }

    /// What is wrong with a transfer's route and payload under the plan.
    pub open spec fn route_fault(self, transfer: StageTransferFrameModel) -> Option<Seq<char>> {
        if self.source_stage_id != transfer.route.source_stage_id {
            Some(
                "Boundary plan source stage "@ + self.source_stage_id
                    + " does not match transfer source stage "@ + transfer.route.source_stage_id,
            )
        } else if self.source_stage_role != transfer.route.source_stage_role {
            Some(
                "Boundary plan source role "@ + self.source_stage_role
                    + " does not match transfer role "@ + transfer.route.source_stage_role,
            )
        } else if self.expected_payload_kind != transfer.payload.kind {
            Some(
                "Boundary plan payload kind "@ + crate::tensor::kind_name(self.expected_payload_kind)
                    + " does not match transfer kind "@ + crate::tensor::kind_name(
                    transfer.payload.kind,
                ),
            )
        } else if self.expected_hidden_dim != transfer.payload.hidden_dim {
            Some(
                "Boundary plan hidden_dim "@ + crate::text::dec(self.expected_hidden_dim as nat)
                    + " does not match transfer hidden_dim "@ + crate::text::dec(
                    transfer.payload.hidden_dim as nat,
                ),
            )
        } else if self.target_stage_id != transfer.route.target_stage_id {
            Some(
                "Boundary plan target "@ + crate::text::debug_opt_chars(self.target_stage_id)
                    + " does not match transfer target "@ + crate::text::debug_opt_chars(
                    transfer.route.target_stage_id,
                ),
            )
        } else {
            None
        }
    }

    /// What is wrong with the projection of a transfer's attention carry under the plan.
    pub open spec fn projection_fault(
        self,
        projection: CarryableAttentionProjectionStateModel,
    ) -> Option<Seq<char>> {
        crate::model::then_check(
            count_fault(
                "attention projection lanes "@,
                self.expected_attention_projection_lanes,
                projection.lanes(),
            ),
            crate::model::then_check(
                slice_fault(
                    "attention q "@,
                    self.expected_attention_q_lanes,
                    projection.q_lane_indices.len(),
                    self.expected_attention_q_distance,
                    AttentionCheckpointProvenanceModel::distance(projection.q_provenance),
                ),
                crate::model::then_check(
                    slice_fault(
                        "attention k "@,
                        self.expected_attention_k_lanes,
                        projection.k_lane_indices.len(),
                        self.expected_attention_k_distance,
                        AttentionCheckpointProvenanceModel::distance(projection.k_provenance),
                    ),
                    slice_fault(
                        "attention v "@,
                        self.expected_attention_v_lanes,
                        projection.v_lane_indices.len(),
                        self.expected_attention_v_distance,
                        AttentionCheckpointProvenanceModel::distance(projection.v_provenance),
                    ),
                ),
            ),
        )
    }

    /// What is wrong with the mix of a transfer's attention carry under the plan.
    pub open spec fn mix_fault(self, mix: CarryableAttentionMixStateModel) -> Option<Seq<char>> {
        crate::model::then_check(
            count_fault(
                "attention mix lanes "@,
                self.expected_attention_mix_lanes,
                mix.lanes(),
            ),
            crate::model::then_check(
                slice_fault(
                    "attention score "@,
                    self.expected_attention_score_lanes,
                    mix.score_lane_indices.len(),
                    self.expected_attention_score_distance,
                    AttentionCheckpointProvenanceModel::distance(mix.score_provenance),
                ),
                slice_fault(
                    "attention value "@,
                    self.expected_attention_value_lanes,
                    mix.value_lane_indices.len(),
                    self.expected_attention_value_distance,
                    AttentionCheckpointProvenanceModel::distance(mix.value_provenance),
                ),
            ),
        )
    }

    /// What is wrong with the feed-forward part of a transfer's carry under the plan.
    pub open spec fn ffn_fault(self, ffn: CarryableFfnStateModel) -> Option<Seq<char>> {
        crate::model::then_check(
            count_fault("ffn width "@, self.expected_ffn_width, ffn.width as nat),
            count_fault("ffn lanes "@, self.expected_ffn_lanes, ffn.lanes()),
        )
    }

    /// What is wrong with a transfer's carry under the plan.
    pub open spec fn carry_fault(
        self,
        attention: Option<CarryableAttentionStateModel>,
        ffn: Option<CarryableFfnStateModel>,
    ) -> Option<Seq<char>> {
        let projection = match attention {
            Some(attention) => attention.projection,
            None => None,
        };
        let mix = match attention {
            Some(attention) => attention.mix,
            None => None,
        };
        crate::model::then_check(
            presence_fault("attention carry="@, self.expects_attention_carry, attention is Some),
            crate::model::then_check(
                presence_fault("ffn carry="@, self.expects_ffn_carry, ffn is Some),
                crate::model::then_check(
                    match attention {
                        Some(attention) => crate::model::then_check(
                            count_fault(
                                "attention width "@,
                                self.expected_attention_width,
                                attention.width() as nat,
                            ),
                            count_fault(
                                "attention lanes "@,
                                self.expected_attention_lanes,
                                attention.lanes(),
                            ),
                        ),
                        None => None,
                    },
                    crate::model::then_check(
                        presence_fault(
                            "attention projection carry="@,
                            self.expects_attention_projection_carry,
                            projection is Some,
                        ),
                        crate::model::then_check(
                            presence_fault(
                                "attention mix carry="@,
                                self.expects_attention_mix_carry,
                                mix is Some,
                            ),
                            crate::model::then_check(
                                match projection {
                                    Some(projection) => self.projection_fault(projection),
                                    None => None,
                                },
                                crate::model::then_check(
                                    match mix {
                                        Some(mix) => self.mix_fault(mix),
                                        None => None,
                                    },
                                    match ffn {
                                        Some(ffn) => self.ffn_fault(ffn),
                                        None => None,
                                    },
                                ),
                            ),
                        ),
                    ),
                ),
            ),
        )
    }

    /// What is wrong with a transfer under the plan: the first rule that it breaks. The plan's
    /// contracts must fit its age limits, the route and payload must be those planned, and the
    /// carry must have the parts, widths, lanes and distances planned.
    pub open spec fn transfer_fault(self, transfer: StageTransferFrameModel) -> Option<Seq<char>> {
        crate::model::then_check(
            self.resumable_attention_contract.freshness_fault(self.freshness()),
            crate::model::then_check(
                self.route_fault(transfer),
                self.carry_fault(
                    match transfer.state.carry {
                        Some(carry) => carry.attention,
                        None => None,
                    },
                    match transfer.state.carry {
                        Some(carry) => carry.ffn,
                        None => None,
                    },
                ),
            ),
        )
    }
}

/// What is wrong where a part is planned and missing, or not planned and there.
pub open spec fn presence_fault(label: Seq<char>, expected: bool, actual: bool) -> Option<Seq<char>> {
    if expected != actual {
        Some(
            "Boundary plan expects "@ + label + crate::text::flag(expected) + " but transfer has "@
                + crate::text::flag(actual),
        )
    } else {
        None
    }
}

/// What is wrong where a planned count is not the actual one.
pub open spec fn count_fault(label: Seq<char>, expected: Option<usize>, actual: nat) -> Option<
    Seq<char>,
> {
    match expected {
        Some(expected) if actual != expected => Some(
            "Boundary plan expects "@ + label + crate::text::dec(expected as nat)
                + " but transfer has "@ + crate::text::dec(actual),
        ),
        _ => None,
    }
}

/// What is wrong where a planned distance is not the actual one.
pub open spec fn distance_fault(
    label: Seq<char>,
    expected: Option<u32>,
    actual: Option<u32>,
) -> Option<Seq<char>> {
    match expected {
        Some(distance) if actual != expected => Some(
            "Boundary plan expects "@ + label + crate::text::dec(distance as nat)
                + " but transfer has "@ + crate::text::debug_opt(actual),
        ),
        _ => None,
    }
}

/// What is wrong with the lanes, then with the distance, of one slice.
pub open spec fn slice_fault(
    label: Seq<char>,
    expected_lanes: Option<usize>,
    actual_lanes: nat,
    expected_distance: Option<u32>,
    actual_distance: Option<u32>,
) -> Option<Seq<char>> {
    crate::model::then_check(
        count_fault(label + "lanes "@, expected_lanes, actual_lanes),
        distance_fault(label + "distance "@, expected_distance, actual_distance),
    )
}

fn check_presence(label: &str, expected: bool, actual: bool) -> (r: Result<(), StageError>)
    ensures
        crate::model::failure(r) == presence_fault(label@, expected, actual),
{
    if expected != actual {
        return fail_with(
            "Boundary plan expects ".to_owned().concat(label).concat(flag_text(expected)).concat(
                " but transfer has ",
            ).concat(flag_text(actual)),
        );
    }
    Ok(())
}

fn check_count(label: &str, expected: Option<usize>, actual: usize) -> (r: Result<(), StageError>)
    ensures
        crate::model::failure(r) == count_fault(label@, expected, actual as nat),
{
    if let Some(expected) = expected {
        if actual != expected {
            return fail_with(
                "Boundary plan expects ".to_owned().concat(label).concat(
                    size_text(expected).as_str(),
                ).concat(" but transfer has ").concat(size_text(actual).as_str()),
            );
        }
    }
    Ok(())
}

fn check_slice(
    label: &str,
    expected_lanes: Option<usize>,
    actual_lanes: usize,
    expected_distance: Option<u32>,
    origin: &Option<AttentionCheckpointProvenance>,
) -> (r: Result<(), StageError>)
    ensures
        crate::model::failure(r) == slice_fault(
            label@,
            expected_lanes,
            actual_lanes as nat,
            expected_distance,
            AttentionCheckpointProvenanceModel::distance(crate::model::opt(*origin)),
        ),
{
    let lanes_label = label.to_owned().concat("lanes ");
    let lanes = check_count(lanes_label.as_str(), expected_lanes, actual_lanes);
    if lanes.is_err() {
        return lanes;
    }
    let actual_distance = StageBoundaryPlan::attention_provenance_distance(origin);
    if let Some(distance) = expected_distance {
        if actual_distance != expected_distance {
            let distance_label = label.to_owned().concat("distance ");
            return fail_with(
                "Boundary plan expects ".to_owned().concat(distance_label.as_str()).concat(
                    decimal(distance as u64).as_str(),
                ).concat(" but transfer has ").concat(debug_opt_u32(actual_distance).as_str()),
            );
        }
    }
    Ok(())
}

impl StageBoundaryPlan {
    /// How many layers ago a slice was captured, where it is known.
    pub fn attention_provenance_distance(provenance: &Option<AttentionCheckpointProvenance>) -> (r:
        Option<u32>)
        ensures
            r == AttentionCheckpointProvenanceModel::distance(crate::model::opt(*provenance)),
    {
        AttentionCheckpointProvenance::distance_of(provenance)
    }

    /// The plan of a frame for a target that runs `execution_programs`.
    pub fn from_frame_with_execution(
        frame: &StageForwardFrame,
        carry_policy: StageCarryPolicy,
        execution_programs: &[LayerExecutionProgram],
    ) -> (r: Self)
        ensures
            r@ == StageBoundaryPlanModel::of_execution(
                frame@,
                carry_policy,
                execution_programs@,
            ),
    {
        let next_layer = frame.next_layer_index();
        let capabilities = StageResumeCapabilities::from_execution_programs(
            execution_programs,
            next_layer,
        );
        let budgets = StageResumeBudgets::from_execution_programs(
            execution_programs,
            next_layer,
            &capabilities,
        );
        let freshness = StageResumeFreshnessPolicy::from_execution_programs(
            execution_programs,
            next_layer,
            &capabilities,
        );
        let contract = StageResumeContractSummary::from_execution_programs(
            execution_programs,
            next_layer,
            &capabilities,
        );
        let state = StageStateEnvelope {
            continuation: frame.state.continuation.clone(),
            transient: None,
            carry: frame.resumable_carry(&carry_policy, execution_programs),
        };
        Self::from_frame_with_capabilities(
            frame,
            &state,
            carry_policy,
            capabilities,
            budgets,
            freshness,
            contract,
        )
    }

    /// The plan of a frame for a target whose programs are not known.
    pub fn from_frame(frame: &StageForwardFrame, carry_policy: StageCarryPolicy) -> (r: Self)
        ensures
            r@ == StageBoundaryPlanModel::of_state(
                frame@,
                frame@.state,
                carry_policy,
                StageBoundaryPlanModel::continuation_capabilities(frame@),
                StageResumeBudgets::none(),
                StageResumeFreshnessPolicy::none(),
                StageResumeContractSummary::none(),
            ),
    {
        let (attention, ffn, projection) = match &frame.state.continuation {
            Some(continuation) => (
                continuation.has_attention_path,
                continuation.has_ffn_path,
                continuation.has_projection_path,
            ),
            None => (false, false, false),
        };
        Self::from_frame_with_capabilities(
            frame,
            &frame.state,
            carry_policy,
            StageResumeCapabilities {
                attention_path: attention,
                attention_q: attention,
                attention_k: attention,
                attention_v: attention,
                attention_projection: attention,
                attention_mix: attention,
                ffn_path: ffn,
                projection_path: projection,
            },
            StageResumeBudgets::default(),
            StageResumeFreshnessPolicy::default(),
            StageResumeContractSummary::default(),
        )
    }

    fn assemble(
        frame: &StageForwardFrame,
        carry_policy: StageCarryPolicy,
        expected: ExpectedAttention,
        distances: AttentionDistances,
        ffn: ExpectedFfn,
        capabilities: StageResumeCapabilities,
        budgets: StageResumeBudgets,
        freshness: StageResumeFreshnessPolicy,
        contract: StageResumeContractSummary,
    ) -> (r: Self)
        ensures
            r@ == StageBoundaryPlanModel::of_parts(
                frame@,
                carry_policy,
                expected,
                distances,
                ffn,
                capabilities,
                budgets,
                freshness,
                contract,
            ),
    {
        let (operator_layers, completed_layers): (usize, Option<u32>) =
            match &frame.state.continuation {
            Some(continuation) => (
                continuation.operator_layers,
                Some(continuation.completed_layers),
            ),
            None => (0, None),
        };
        StageBoundaryPlan {
            source_stage_id: frame.route.source_stage_id.clone(),
            source_stage_role: frame.route.source_stage_role.clone(),
            source_stage_start: frame.route.source_stage_start,
            source_stage_end: frame.route.source_stage_end,
            target_stage_id: frame.route.target_stage_id.clone(),
            next_layer_index: frame.next_layer_index(),
            expected_payload_kind: frame.payload.kind,
            expected_hidden_dim: frame.payload.hidden_dim,
            carry_policy,
            expects_attention_carry: expected.carry,
            expects_ffn_carry: ffn.carry,
            expected_attention_width: expected.width,
            expected_attention_lanes: expected.lanes,
            expects_attention_projection_carry: expected.projection,
            expects_attention_mix_carry: expected.mix,
            expected_attention_q_lanes: expected.q_lanes,
            expected_attention_k_lanes: expected.k_lanes,
            expected_attention_v_lanes: expected.v_lanes,
            expected_attention_score_lanes: expected.score_lanes,
            expected_attention_value_lanes: expected.value_lanes,
            expected_attention_q_distance: distances.q,
            expected_attention_k_distance: distances.k,
            expected_attention_v_distance: distances.v,
            expected_attention_score_distance: distances.score,
            expected_attention_value_distance: distances.value,
            expected_attention_projection_lanes: expected.projection_lanes,
            expected_attention_mix_lanes: expected.mix_lanes,
            expected_ffn_width: ffn.width,
            expected_ffn_lanes: ffn.lanes,
            resumable_attention_path: capabilities.attention_path,
            resumable_attention_q: capabilities.attention_q,
            resumable_attention_k: capabilities.attention_k,
            resumable_attention_v: capabilities.attention_v,
            resumable_attention_q_lanes: budgets.attention_q_lanes,
            resumable_attention_k_lanes: budgets.attention_k_lanes,
            resumable_attention_v_lanes: budgets.attention_v_lanes,
            resumable_attention_q_max_distance: freshness.attention_q_max_distance,
            resumable_attention_k_max_distance: freshness.attention_k_max_distance,
            resumable_attention_v_max_distance: freshness.attention_v_max_distance,
            resumable_attention_score_max_distance: freshness.attention_score_max_distance,
            resumable_attention_value_max_distance: freshness.attention_value_max_distance,
            resumable_attention_contract: contract,
            resumable_attention_projection: capabilities.attention_projection,
            resumable_attention_mix: capabilities.attention_mix,
            resumable_ffn_path: capabilities.ffn_path,
            resumable_projection_path: capabilities.projection_path,
            operator_layers,
            completed_layers,
        }
    }

    /// The plan of a frame: what `state` carries under the policy, and what the target is known
    /// to resume.
    pub fn from_frame_with_capabilities(
        frame: &StageForwardFrame,
        state: &StageStateEnvelope,
        carry_policy: StageCarryPolicy,
        capabilities: StageResumeCapabilities,
        budgets: StageResumeBudgets,
        freshness: StageResumeFreshnessPolicy,
        contract: StageResumeContractSummary,
    ) -> (r: Self)
        ensures
            r@ == StageBoundaryPlanModel::of_state(
                frame@,
                state@,
                carry_policy,
                capabilities,
                budgets,
                freshness,
                contract,
            ),
    {
        let distances = AttentionDistances::from_carry(&state.carry);
        let shape = if carry_policy.carry_attention {
            AttentionShape::from_state(state)
        } else {
            None
        };
        let expected = ExpectedAttention::from_shape(shape);
        let ffn = if carry_policy.carry_ffn {
            FfnShape::from_state(state)
        } else {
            None
        };
        Self::assemble(
            frame,
            carry_policy,
            expected,
            distances,
            ExpectedFfn::from_shape(ffn),
            capabilities,
            budgets,
            freshness,
            contract,
        )
    }

    fn check_route(&self, transfer: &StageTransferFrame) -> (r: Result<(), StageError>)
        ensures
            crate::model::failure(r) == self@.route_fault(transfer@),
    {
        if self.source_stage_id != transfer.route.source_stage_id {
            return fail_with(
                "Boundary plan source stage ".to_owned().concat(
                    self.source_stage_id.as_str(),
                ).concat(" does not match transfer source stage ").concat(
                    transfer.route.source_stage_id.as_str(),
                ),
            );
        }
        if self.source_stage_role != transfer.route.source_stage_role {
            return fail_with(
                "Boundary plan source role ".to_owned().concat(
                    self.source_stage_role.as_str(),
                ).concat(" does not match transfer role ").concat(
                    transfer.route.source_stage_role.as_str(),
                ),
            );
        }
        if self.expected_payload_kind != transfer.payload.kind {
            return fail_with(
                "Boundary plan payload kind ".to_owned().concat(
                    kind_text(self.expected_payload_kind),
                ).concat(" does not match transfer kind ").concat(kind_text(transfer.payload.kind)),
            );
        }
        if self.expected_hidden_dim != transfer.payload.hidden_dim {
            return fail_with(
                "Boundary plan hidden_dim ".to_owned().concat(
                    size_text(self.expected_hidden_dim).as_str(),
                ).concat(" does not match transfer hidden_dim ").concat(
                    size_text(transfer.payload.hidden_dim).as_str(),
                ),
            );
        }
        if !same_opt_text(&self.target_stage_id, &transfer.route.target_stage_id) {
            return fail_with(
                "Boundary plan target ".to_owned().concat(
                    debug_opt_str(self.target_stage_id.as_ref()).as_str(),
                ).concat(" does not match transfer target ").concat(
                    debug_opt_str(transfer.route.target_stage_id.as_ref()).as_str(),
                ),
            );
        }
        Ok(())
    }

    fn check_projection(&self, projection: &CarryableAttentionProjectionState) -> (r: Result<
        (),
        StageError,
    >)
        ensures
            crate::model::failure(r) == self@.projection_fault(projection@),
    {
        let lanes = check_count(
            "attention projection lanes ",
            self.expected_attention_projection_lanes,
            max_usize(
                max_usize(projection.q_lane_indices.len(), projection.k_lane_indices.len()),
                projection.v_lane_indices.len(),
            ),
        );
        if lanes.is_err() {
            return lanes;
        }
        let q = check_slice(
            "attention q ",
            self.expected_attention_q_lanes,
            projection.q_lane_indices.len(),
            self.expected_attention_q_distance,
            &projection.q_provenance,
        );
        if q.is_err() {
            return q;
        }
        let k = check_slice(
            "attention k ",
            self.expected_attention_k_lanes,
            projection.k_lane_indices.len(),
            self.expected_attention_k_distance,
            &projection.k_provenance,
        );
        if k.is_err() {
            return k;
        }
        check_slice(
            "attention v ",
            self.expected_attention_v_lanes,
            projection.v_lane_indices.len(),
            self.expected_attention_v_distance,
            &projection.v_provenance,
        )
    }

    fn check_mix(&self, mix: &CarryableAttentionMixState) -> (r: Result<(), StageError>)
        ensures
            crate::model::failure(r) == self@.mix_fault(mix@),
    {
        let lanes = check_count(
            "attention mix lanes ",
            self.expected_attention_mix_lanes,
            max_usize(mix.score_lane_indices.len(), mix.value_lane_indices.len()),
        );
        if lanes.is_err() {
            return lanes;
        }
        let score = check_slice(
            "attention score ",
            self.expected_attention_score_lanes,
            mix.score_lane_indices.len(),
            self.expected_attention_score_distance,
            &mix.score_provenance,
        );
        if score.is_err() {
            return score;
        }
        check_slice(
            "attention value ",
            self.expected_attention_value_lanes,
            mix.value_lane_indices.len(),
            self.expected_attention_value_distance,
            &mix.value_provenance,
        )
    }

    fn check_ffn(&self, ffn: &CarryableFfnState) -> (r: Result<(), StageError>)
        ensures
            crate::model::failure(r) == self@.ffn_fault(ffn@),
    {
        let width = check_count("ffn width ", self.expected_ffn_width, ffn.width);
        if width.is_err() {
            return width;
        }
        check_count("ffn lanes ", self.expected_ffn_lanes, ffn.lane_count())
    }

    fn check_carry(
        &self,
        attention: Option<&CarryableAttentionState>,
        ffn: Option<&CarryableFfnState>,
    ) -> (r: Result<(), StageError>)
        ensures
            crate::model::failure(r) == self@.carry_fault(
                match attention {
                    Some(attention) => Some(attention@),
                    None => None,
                },
                match ffn {
                    Some(ffn) => Some(ffn@),
                    None => None,
                },
            ),
    {
        let attention_presence = check_presence(
            "attention carry=",
            self.expects_attention_carry,
            attention.is_some(),
        );
        if attention_presence.is_err() {
            return attention_presence;
        }
        let ffn_presence = check_presence("ffn carry=", self.expects_ffn_carry, ffn.is_some());
        if ffn_presence.is_err() {
            return ffn_presence;
        }
        if let Some(attention) = attention {
            let width = check_count(
                "attention width ",
                self.expected_attention_width,
                attention.width(),
            );
            if width.is_err() {
                return width;
            }
            let lanes = check_count(
                "attention lanes ",
                self.expected_attention_lanes,
                attention.lane_count(),
            );
            if lanes.is_err() {
                return lanes;
            }
        }
        let projection = match attention {
            Some(attention) => attention.projection.as_ref(),
            None => None,
        };
        let mix = match attention {
            Some(attention) => attention.mix.as_ref(),
            None => None,
        };
        let projection_presence = check_presence(
            "attention projection carry=",
            self.expects_attention_projection_carry,
            projection.is_some(),
        );
        if projection_presence.is_err() {
            return projection_presence;
        }
        let mix_presence = check_presence(
            "attention mix carry=",
            self.expects_attention_mix_carry,
            mix.is_some(),
        );
        if mix_presence.is_err() {
            return mix_presence;
        }
        if let Some(projection) = projection {
            let result = self.check_projection(projection);
            if result.is_err() {
                return result;
            }
        }
        if let Some(mix) = mix {
            let result = self.check_mix(mix);
            if result.is_err() {
                return result;
            }
        }
        if let Some(ffn) = ffn {
            return self.check_ffn(ffn);
        }
        Ok(())
    }

    /// Checks a transfer against the plan.
    pub fn validate_against_transfer(&self, transfer: &StageTransferFrame) -> (r: Result<
        (),
        StageError,
    >)
        ensures
            crate::model::failure(r) == self@.transfer_fault(transfer@),
    {
        let contract = self.resumable_attention_contract.validate_against_freshness(
            StageResumeFreshnessPolicy {
                attention_q_max_distance: self.resumable_attention_q_max_distance,
                attention_k_max_distance: self.resumable_attention_k_max_distance,
                attention_v_max_distance: self.resumable_attention_v_max_distance,
                attention_score_max_distance: self.resumable_attention_score_max_distance,
                attention_value_max_distance: self.resumable_attention_value_max_distance,
            },
        );
        if contract.is_err() {
            return contract;
        }
        let route = self.check_route(transfer);
        if route.is_err() {
            return route;
        }
        match &transfer.state.carry {
            Some(carry) => self.check_carry(carry.attention.as_ref(), carry.ffn.as_ref()),
            None => self.check_carry(None, None),
        }
    }

    /// A request to resume a transfer under this plan; the transfer must pass the plan's check.
    pub fn to_resume_request(&self, transfer: StageTransferFrame) -> (r: Result<
        StageResumeRequest,
        StageError,
    >)
        ensures
            crate::model::failure(r) == self@.transfer_fault(transfer@),
            match r {
                Ok(request) => request@ == StageResumeRequestModel::of_plan(self@, transfer@),
                Err(_) => true,
            },
    {
        match self.validate_against_transfer(&transfer) {
            Err(error) => Err(error),
            Ok(_) => Ok(
                StageResumeRequest {
                    version: STAGE_FORWARD_FRAME_VERSION,
                    model_id: transfer.model_id.clone(),
                    target_stage_id: self.target_stage_id.clone(),
                    boundary: self.clone(),
                    transfer,
                },
            ),
        }
    }
}

impl StageForwardFrame {
    /// The plan for the boundary to a target with the given layout and programs.
    pub fn to_boundary_plan_for_execution_boundary(
        &self,
        layout: &StageLayout,
        execution_programs: &[LayerExecutionProgram],
    ) -> (r: StageBoundaryPlan)
        ensures
            r@ == StageBoundaryPlanModel::of_boundary(self@, layout@, execution_programs@),
    {
        let carry_policy = StageCarryPolicy::for_execution_boundary(
            layout,
            self.state.continuation.as_ref(),
            execution_programs,
        );
        StageBoundaryPlan::from_frame_with_execution(self, carry_policy, execution_programs)
    }
}

impl StageBoundaryPlanModel {
    /// The plan for the boundary to a target with the given layout and programs.
    pub open spec fn of_boundary(
        frame: StageForwardFrameModel,
        layout: StageLayoutModel,
        programs: Seq<LayerExecutionProgram>,
    ) -> Self {
        Self::of_execution(
            frame,
            StageCarryPolicy::execution_boundary(
                layout.is_head,
                layout.is_tail,
                frame.state.continuation,
                programs,
            ),
            programs,
        )
    }
}

/// A plan and a transfer that are made from the same frame, layout and programs fit: the
/// transfer passes the plan's check.
pub proof fn lemma_plan_fits_its_transfer(
    frame: StageForwardFrameModel,
    layout: StageLayoutModel,
    programs: Seq<LayerExecutionProgram>,
    statistics: crate::frame::TransientStatistics,
)
    ensures
        StageBoundaryPlanModel::of_boundary(frame, layout, programs).transfer_fault(
            frame.transfer_to(layout, programs, statistics),
        ) is None,
{
    let capabilities = StageResumeCapabilities::of_programs(programs, frame.next_layer());
    crate::capabilities::lemma_derived_contract_matches_derived_freshness(
        programs,
        frame.next_layer(),
        capabilities,
    );
}

} // verus!
