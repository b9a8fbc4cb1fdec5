//! State carried over a stage boundary.
use vstd::prelude::*;
use vstd::string::*;
use crate::capabilities::{max_usize, min_usize, spec_max, spec_min};
use crate::execution::{
    ExecutionOpKind, LayerExecutionProgram, StageAttentionResumeContractSummary,
    StageAttentionResumePhase, StageResumeBudgets, StageResumeCapabilities,
    StageResumeContractSummary, ATTENTION_MIX_CARRY_BUDGET, ATTENTION_PROJECTION_CARRY_BUDGET,
};
use crate::lanes::{align, any_exceeds, count_lanes, put_lanes, take_prefix, zero_values};
use crate::model::{fail, fail_with, StageError};
use crate::number::{equal_numbers, equal_sizes};
use crate::text::size_text;
use crate::tensor::{
    AttentionContinuation, AttentionContinuationModel, FfnContinuation, FfnContinuationModel,
    StageContinuation, StageContinuationModel, StageLayout, StageTransientState,
    StageTransientStateModel,
};

verus! {

/// Where a carried attention slice was captured.
#[derive(Debug, PartialEq)]
pub struct AttentionCheckpointProvenance {
    pub layer_index: u32,
    pub operator_kind: String,
    pub layer_distance_to_boundary: u32,
}

/// What a [`AttentionCheckpointProvenance`] holds, as mathematical values.
#[verifier::ext_equal]
pub struct AttentionCheckpointProvenanceModel {
    pub layer_index: u32,
    pub operator_kind: Seq<char>,
    pub layer_distance_to_boundary: u32,
}

impl View for AttentionCheckpointProvenance {
    type V = AttentionCheckpointProvenanceModel;

    open spec fn view(&self) -> AttentionCheckpointProvenanceModel {
        AttentionCheckpointProvenanceModel {
            layer_index: self.layer_index,
            operator_kind: self.operator_kind@,
            layer_distance_to_boundary: self.layer_distance_to_boundary,
        }
    }
}

impl Clone for AttentionCheckpointProvenance {
    fn clone(&self) -> (r: Self)
        ensures
            r@ == self@,
    {
        AttentionCheckpointProvenance {
            layer_index: self.layer_index,
            operator_kind: self.operator_kind.clone(),
            layer_distance_to_boundary: self.layer_distance_to_boundary,
        }
    }
}

/// Carried query, key and value lanes. Values are bit patterns of single-precision numbers.
#[derive(Debug)]
pub struct CarryableAttentionProjectionState {
    pub width: usize,
    pub q_provenance: Option<AttentionCheckpointProvenance>,
    pub k_provenance: Option<AttentionCheckpointProvenance>,
    pub v_provenance: Option<AttentionCheckpointProvenance>,
    pub q_lane_indices: Vec<usize>,
    pub k_lane_indices: Vec<usize>,
    pub v_lane_indices: Vec<usize>,
    pub q: Vec<u32>,
    pub k: Vec<u32>,
    pub v: Vec<u32>,
}

/// What a [`CarryableAttentionProjectionState`] holds, as mathematical values.
#[verifier::ext_equal]
pub struct CarryableAttentionProjectionStateModel {
    pub width: usize,
    pub q_provenance: Option<AttentionCheckpointProvenanceModel>,
    pub k_provenance: Option<AttentionCheckpointProvenanceModel>,
    pub v_provenance: Option<AttentionCheckpointProvenanceModel>,
    pub q_lane_indices: Seq<usize>,
    pub k_lane_indices: Seq<usize>,
    pub v_lane_indices: Seq<usize>,
    pub q: Seq<u32>,
    pub k: Seq<u32>,
    pub v: Seq<u32>,
}

impl View for CarryableAttentionProjectionState {
    type V = CarryableAttentionProjectionStateModel;

    open spec fn view(&self) -> CarryableAttentionProjectionStateModel {
        CarryableAttentionProjectionStateModel {
            width: self.width,
            q_provenance: crate::model::opt(self.q_provenance),
            k_provenance: crate::model::opt(self.k_provenance),
            v_provenance: crate::model::opt(self.v_provenance),
            q_lane_indices: self.q_lane_indices@,
            k_lane_indices: self.k_lane_indices@,
            v_lane_indices: self.v_lane_indices@,
            q: self.q@,
            k: self.k@,
            v: self.v@,
        }
    }
}

impl Clone for CarryableAttentionProjectionState {
    fn clone(&self) -> (r: Self)
        ensures
            r@ == self@,
    {
        CarryableAttentionProjectionState {
            width: self.width,
            q_provenance: self.q_provenance.clone(),
            k_provenance: self.k_provenance.clone(),
            v_provenance: self.v_provenance.clone(),
            q_lane_indices: self.q_lane_indices.clone(),
            k_lane_indices: self.k_lane_indices.clone(),
            v_lane_indices: self.v_lane_indices.clone(),
            q: self.q.clone(),
            k: self.k.clone(),
            v: self.v.clone(),
        }
    }
}

/// Carried score and value lanes. Values are bit patterns of single-precision numbers.
#[derive(Debug)]
pub struct CarryableAttentionMixState {
    pub width: usize,
    pub score_provenance: Option<AttentionCheckpointProvenance>,
    pub value_provenance: Option<AttentionCheckpointProvenance>,
    pub score_lane_indices: Vec<usize>,
    pub value_lane_indices: Vec<usize>,
    pub scores: Vec<u32>,
    pub values: Vec<u32>,
}

/// What a [`CarryableAttentionMixState`] holds, as mathematical values.
#[verifier::ext_equal]
pub struct CarryableAttentionMixStateModel {
    pub width: usize,
    pub score_provenance: Option<AttentionCheckpointProvenanceModel>,
    pub value_provenance: Option<AttentionCheckpointProvenanceModel>,
    pub score_lane_indices: Seq<usize>,
    pub value_lane_indices: Seq<usize>,
    pub scores: Seq<u32>,
    pub values: Seq<u32>,
}

impl View for CarryableAttentionMixState {
    type V = CarryableAttentionMixStateModel;

    open spec fn view(&self) -> CarryableAttentionMixStateModel {
        CarryableAttentionMixStateModel {
            width: self.width,
            score_provenance: crate::model::opt(self.score_provenance),
            value_provenance: crate::model::opt(self.value_provenance),
            score_lane_indices: self.score_lane_indices@,
            value_lane_indices: self.value_lane_indices@,
            scores: self.scores@,
            values: self.values@,
        }
    }
}

impl Clone for CarryableAttentionMixState {
    fn clone(&self) -> (r: Self)
        ensures
            r@ == self@,
    {
        CarryableAttentionMixState {
            width: self.width,
            score_provenance: self.score_provenance.clone(),
            value_provenance: self.value_provenance.clone(),
            score_lane_indices: self.score_lane_indices.clone(),
            value_lane_indices: self.value_lane_indices.clone(),
            scores: self.scores.clone(),
            values: self.values.clone(),
        }
    }
}

/// The attention part of a carry.
#[derive(Debug)]
pub struct CarryableAttentionState {
    pub contract: StageResumeContractSummary,
    pub projection: Option<CarryableAttentionProjectionState>,
    pub mix: Option<CarryableAttentionMixState>,
}

/// What a [`CarryableAttentionState`] holds, as mathematical values.
#[verifier::ext_equal]
pub struct CarryableAttentionStateModel {
    pub contract: StageResumeContractSummary,
    pub projection: Option<CarryableAttentionProjectionStateModel>,
    pub mix: Option<CarryableAttentionMixStateModel>,
}

impl View for CarryableAttentionState {
    type V = CarryableAttentionStateModel;

    open spec fn view(&self) -> CarryableAttentionStateModel {
        CarryableAttentionStateModel {
            contract: self.contract,
            projection: crate::model::opt(self.projection),
            mix: crate::model::opt(self.mix),
        }
    }
}

impl Clone for CarryableAttentionState {
    fn clone(&self) -> (r: Self)
        ensures
            r@ == self@,
    {
        CarryableAttentionState {
            contract: self.contract,
            projection: self.projection.clone(),
            mix: self.mix.clone(),
        }
    }
}

/// The feed-forward part of a carry. Values are bit patterns of single-precision numbers.
#[derive(Debug)]
pub struct CarryableFfnState {
    pub width: usize,
    pub lane_indices: Vec<usize>,
    pub gate_head: Vec<u32>,
    pub up_head: Vec<u32>,
    pub activation_head: Vec<u32>,
}

/// What a [`CarryableFfnState`] holds, as mathematical values.
#[verifier::ext_equal]
pub struct CarryableFfnStateModel {
    pub width: usize,
    pub lane_indices: Seq<usize>,
    pub gate_head: Seq<u32>,
    pub up_head: Seq<u32>,
    pub activation_head: Seq<u32>,
}

impl View for CarryableFfnState {
    type V = CarryableFfnStateModel;

    open spec fn view(&self) -> CarryableFfnStateModel {
        CarryableFfnStateModel {
            width: self.width,
            lane_indices: self.lane_indices@,
            gate_head: self.gate_head@,
            up_head: self.up_head@,
            activation_head: self.activation_head@,
        }
    }
}

impl Clone for CarryableFfnState {
    fn clone(&self) -> (r: Self)
        ensures
            r@ == self@,
    {
        CarryableFfnState {
            width: self.width,
            lane_indices: self.lane_indices.clone(),
            gate_head: self.gate_head.clone(),
            up_head: self.up_head.clone(),
            activation_head: self.activation_head.clone(),
        }
    }
}

/// What crosses a stage boundary to be resumed.
#[derive(Debug)]
pub struct StageCarryState {
    pub attention: Option<CarryableAttentionState>,
    pub ffn: Option<CarryableFfnState>,
}

/// What a [`StageCarryState`] holds, as mathematical values.
#[verifier::ext_equal]
pub struct StageCarryStateModel {
    pub attention: Option<CarryableAttentionStateModel>,
    pub ffn: Option<CarryableFfnStateModel>,
}

impl View for StageCarryState {
    type V = StageCarryStateModel;

    open spec fn view(&self) -> StageCarryStateModel {
        StageCarryStateModel {
            attention: crate::model::opt(self.attention),
            ffn: crate::model::opt(self.ffn),
        }
    }
}

impl Clone for StageCarryState {
    fn clone(&self) -> (r: Self)
        ensures
            r@ == self@,
    {
        StageCarryState {
            attention: self.attention.clone(),
            ffn: self.ffn.clone(),
        }
    }
}

impl AttentionCheckpointProvenanceModel {
    /// The same origin, `layers` layers further from the boundary (at most the largest count).
    pub open spec fn aged(self, layers: u32) -> Self {
        AttentionCheckpointProvenanceModel {
            layer_distance_to_boundary: if self.layer_distance_to_boundary + layers > u32::MAX {
                u32::MAX
            } else {
                (self.layer_distance_to_boundary + layers) as u32
            },
            ..self
        }
    }

    /// As [`Self::aged`], where there is an origin.
    pub open spec fn aged_opt(value: Option<Self>, layers: u32) -> Option<Self> {
        match value {
            Some(origin) => Some(origin.aged(layers)),
            None => None,
        }
    }

    /// Whether the origin, where there is one, claims to be further away than its layer allows.
    pub open spec fn invalid(value: Option<Self>) -> bool {
        match value {
            Some(origin) => origin.layer_distance_to_boundary > origin.layer_index,
            None => false,
        }
    }

    /// The distance of the origin, where there is one.
    pub open spec fn distance(value: Option<Self>) -> Option<u32> {
        match value {
            Some(origin) => Some(origin.layer_distance_to_boundary),
            None => None,
        }
    }
}

impl AttentionCheckpointProvenance {
    /// The same origin, `layers` layers further from the boundary.
    pub fn age_by_layers(&self, layers: u32) -> (r: Self)
        ensures
            r@ == self@.aged(layers),
    {
        AttentionCheckpointProvenance {
            layer_index: self.layer_index,
            operator_kind: self.operator_kind.clone(),
            layer_distance_to_boundary: self.layer_distance_to_boundary.saturating_add(layers),
        }
    }

    fn age_opt(value: &Option<Self>, layers: u32) -> (r: Option<Self>)
        ensures
            crate::model::opt(r) == AttentionCheckpointProvenanceModel::aged_opt(
                crate::model::opt(*value),
                layers,
            ),
    {
        match value {
            Some(origin) => Some(origin.age_by_layers(layers)),
            None => None,
        }
    }

    /// Whether the origin, where there is one, claims to be further away than its layer allows.
    pub(crate) fn is_invalid(value: &Option<Self>) -> (r: bool)
        ensures
            r == AttentionCheckpointProvenanceModel::invalid(crate::model::opt(*value)),
    {
        match value {
            Some(origin) => origin.layer_distance_to_boundary > origin.layer_index,
            None => false,
        }
    }

    /// The distance of the origin, where there is one.
    pub(crate) fn distance_of(value: &Option<Self>) -> (r: Option<u32>)
        ensures
            r == AttentionCheckpointProvenanceModel::distance(crate::model::opt(*value)),
    {
        match value {
            Some(origin) => Some(origin.layer_distance_to_boundary),
            None => None,
        }
    }
}

impl CarryableAttentionProjectionStateModel {
    /// The most lanes that one of the three slices has.
    pub open spec fn lanes(self) -> nat {
        let qk = if self.q_lane_indices.len() >= self.k_lane_indices.len() {
            self.q_lane_indices.len()
        } else {
            self.k_lane_indices.len()
        };
        if qk >= self.v_lane_indices.len() {
            qk
        } else {
            self.v_lane_indices.len()
        }
    }

    /// The three slices cut to their budgets; nothing where no lane is left.
    pub open spec fn cut(self, q: Option<usize>, k: Option<usize>, v: Option<usize>) -> Option<
        Self,
    > {
        let q = cut_lanes(self.q_lane_indices.len(), q);
        let k = cut_lanes(self.k_lane_indices.len(), k);
        let v = cut_lanes(self.v_lane_indices.len(), v);
        if q == 0 && k == 0 && v == 0 {
            None
        } else {
            Some(
                CarryableAttentionProjectionStateModel {
                    q_lane_indices: crate::lanes::prefix(self.q_lane_indices, q),
                    k_lane_indices: crate::lanes::prefix(self.k_lane_indices, k),
                    v_lane_indices: crate::lanes::prefix(self.v_lane_indices, v),
                    q: crate::lanes::prefix(self.q, q),
                    k: crate::lanes::prefix(self.k, k),
                    v: crate::lanes::prefix(self.v, v),
                    ..self
                },
            )
        }
    }

    /// The same slices, captured `layers` layers further from the boundary.
    pub open spec fn aged(self, layers: u32) -> Self {
        CarryableAttentionProjectionStateModel {
            q_provenance: AttentionCheckpointProvenanceModel::aged_opt(self.q_provenance, layers),
            k_provenance: AttentionCheckpointProvenanceModel::aged_opt(self.k_provenance, layers),
            v_provenance: AttentionCheckpointProvenanceModel::aged_opt(self.v_provenance, layers),
            ..self
        }
    }
}

impl CarryableAttentionMixStateModel {
    /// The most lanes that one of the two slices has.
    pub open spec fn lanes(self) -> nat {
        if self.score_lane_indices.len() >= self.value_lane_indices.len() {
            self.score_lane_indices.len()
        } else {
            self.value_lane_indices.len()
        }
    }

    /// Both slices cut to the budget; nothing where no lane is left.
    pub open spec fn cut(self, budget: Option<usize>) -> Option<Self> {
        let score = cut_lanes(self.score_lane_indices.len(), budget);
        let value = cut_lanes(self.value_lane_indices.len(), budget);
        if score == 0 && value == 0 {
            None
        } else {
            Some(
                CarryableAttentionMixStateModel {
                    score_lane_indices: crate::lanes::prefix(self.score_lane_indices, score),
                    value_lane_indices: crate::lanes::prefix(self.value_lane_indices, value),
                    scores: crate::lanes::prefix(self.scores, score),
                    values: crate::lanes::prefix(self.values, value),
                    ..self
                },
            )
        }
    }

    /// The same slices, captured `layers` layers further from the boundary.
    pub open spec fn aged(self, layers: u32) -> Self {
        CarryableAttentionMixStateModel {
            score_provenance: AttentionCheckpointProvenanceModel::aged_opt(
                self.score_provenance,
                layers,
            ),
            value_provenance: AttentionCheckpointProvenanceModel::aged_opt(
                self.value_provenance,
                layers,
            ),
            ..self
        }
    }
}

/// How many of `available` lanes a budget leaves; no budget leaves all.
pub open spec fn cut_lanes(available: nat, budget: Option<usize>) -> usize {
    match budget {
        Some(budget) => if available <= budget {
            available as usize
        } else {
            budget
        },
        None => available as usize,
    }
}

fn lanes_left(available: usize, budget: Option<usize>) -> (r: usize)
    ensures
        r == cut_lanes(available as nat, budget),
{
    match budget {
        Some(budget) => min_usize(available, budget),
        None => available,
    }
}

impl CarryableAttentionStateModel {
    /// The contracts of the slices of `projection` and `mix` that have lanes.
    pub open spec fn present_contract(
        contract: StageResumeContractSummary,
        projection: Option<CarryableAttentionProjectionStateModel>,
        mix: Option<CarryableAttentionMixStateModel>,
    ) -> StageResumeContractSummary {
        StageResumeContractSummary {
            attention_q: match projection {
                Some(p) if p.q_lane_indices.len() > 0 => contract.attention_q,
                _ => None,
            },
            attention_k: match projection {
                Some(p) if p.k_lane_indices.len() > 0 => contract.attention_k,
                _ => None,
            },
            attention_v: match projection {
                Some(p) if p.v_lane_indices.len() > 0 => contract.attention_v,
                _ => None,
            },
            attention_score: match mix {
                Some(m) if m.score_lane_indices.len() > 0 => contract.attention_score,
                _ => None,
            },
            attention_value: match mix {
                Some(m) if m.value_lane_indices.len() > 0 => contract.attention_value,
                _ => None,
            },
        }
    }

    /// An attention carry of the given parts, with the contracts of those parts only.
    pub open spec fn of_parts(
        contract: StageResumeContractSummary,
        projection: Option<CarryableAttentionProjectionStateModel>,
        mix: Option<CarryableAttentionMixStateModel>,
    ) -> Self {
        CarryableAttentionStateModel {
            contract: Self::present_contract(contract, projection, mix),
            projection,
            mix,
        }
    }

    /// What is wrong with one carried contract.
    pub open spec fn contract_entry_fault(
        name: Seq<char>,
        entry: Option<StageAttentionResumeContractSummary>,
        expected_phase: StageAttentionResumePhase,
    ) -> Option<Seq<char>> {
        match entry {
            None => None,
            Some(entry) => if entry.phase != expected_phase {
                Some(
                    "attention carry "@ + name + " contract phase "@ + phase_name(entry.phase)
                        + " does not match required "@ + phase_name(expected_phase),
                )
            } else {
                entry.blend_fault(
                    "attention carry "@,
                    name,
                    " overwrite contract must not carry blend weight"@,
                )
            },
        }
    }

    /// What is wrong with the carried contracts: nothing where there are none; else they must be
    /// about carried slices only, and each must be in its slice's phase with a fitting weight.
    pub open spec fn contract_fault(self) -> Option<Seq<char>> {
        if self.contract == StageResumeContractSummary::none() {
            None
        } else if Self::present_contract(self.contract, self.projection, self.mix)
            != self.contract {
            Some("attention carry contract does not match carried substates"@)
        } else {
            crate::model::then_check(
                Self::contract_entry_fault(
                    "q"@,
                    self.contract.attention_q,
                    StageAttentionResumePhase::Direct,
                ),
                crate::model::then_check(
                    Self::contract_entry_fault(
                        "k"@,
                        self.contract.attention_k,
                        StageAttentionResumePhase::Direct,
                    ),
                    crate::model::then_check(
                        Self::contract_entry_fault(
                            "v"@,
                            self.contract.attention_v,
                            StageAttentionResumePhase::Direct,
                        ),
                        crate::model::then_check(
                            Self::contract_entry_fault(
                                "score"@,
                                self.contract.attention_score,
                                StageAttentionResumePhase::AfterProjection,
                            ),
                            Self::contract_entry_fault(
                                "value"@,
                                self.contract.attention_value,
                                StageAttentionResumePhase::AfterProjection,
                            ),
                        ),
                    ),
                ),
            )
        }
    }

    /// Every slice cut to its budget; nothing where no lane is left.
    pub open spec fn cut(
        self,
        q: Option<usize>,
        k: Option<usize>,
        v: Option<usize>,
        mix: Option<usize>,
    ) -> Option<Self> {
        let projection = match self.projection {
            Some(projection) => projection.cut(q, k, v),
            None => None,
        };
        let mix = match self.mix {
            Some(part) => part.cut(mix),
            None => None,
        };
        if projection is None && mix is None {
            None
        } else {
            Some(Self::of_parts(self.contract, projection, mix))
        }
    }

    /// The width of the attention state: that of the projection, else that of the mix.
    pub open spec fn width(self) -> usize {
        match (self.projection, self.mix) {
            (Some(projection), _) => projection.width,
            (None, Some(mix)) => mix.width,
            (None, None) => 0,
        }
    }

    /// The most lanes that a slice of the projection has.
    pub open spec fn projection_lanes(self) -> nat {
        match self.projection {
            Some(projection) => projection.lanes(),
            None => 0,
        }
    }

    /// The most lanes that a slice of the mix has.
    pub open spec fn mix_lanes(self) -> nat {
        match self.mix {
            Some(mix) => mix.lanes(),
            None => 0,
        }
    }

    /// The most lanes that a slice has.
    pub open spec fn lanes(self) -> nat {
        if self.projection_lanes() >= self.mix_lanes() {
            self.projection_lanes()
        } else {
            self.mix_lanes()
        }
    }

    /// Whether some slice carries `lane`.
    pub open spec fn has_lane(self, lane: usize) -> bool {
        ||| match self.projection {
            Some(p) => p.q_lane_indices.contains(lane) || p.k_lane_indices.contains(lane)
                || p.v_lane_indices.contains(lane),
            None => false,
        }
        ||| match self.mix {
            Some(m) => m.score_lane_indices.contains(lane) || m.value_lane_indices.contains(lane),
            None => false,
        }
    }

    /// The lanes of all slices, ascending, each once.
    pub open spec fn merged_lanes(self) -> Seq<usize> {
        let projection = match self.projection {
            Some(p) => crate::lanes::insert_lanes(
                crate::lanes::insert_lanes(
                    crate::lanes::insert_lanes(Seq::empty(), p.q_lane_indices),
                    p.k_lane_indices,
                ),
                p.v_lane_indices,
            ),
            None => Seq::empty(),
        };
        match self.mix {
            Some(m) => crate::lanes::insert_lanes(
                crate::lanes::insert_lanes(projection, m.score_lane_indices),
                m.value_lane_indices,
            ),
            None => projection,
        }
    }

    /// The lanes that a preview stands for: those it names, else as many as its longest vector
    /// has entries.
    pub open spec fn preview_lanes(value: AttentionContinuationModel) -> Seq<usize> {
        if value.lane_indices.len() == 0 {
            crate::lanes::first_lanes(
                spec_max(
                    spec_max(
                        spec_max(
                            spec_max(
                                value.q_preview.len() as usize,
                                value.k_preview.len() as usize,
                            ),
                            value.v_preview.len() as usize,
                        ),
                        value.score_preview.len() as usize,
                    ),
                    value.value_preview.len() as usize,
                ),
            )
        } else {
            value.lane_indices
        }
    }

    /// The first lanes of `lanes` that `values` has entries for, at most `budget`.
    pub open spec fn clamped(lanes: Seq<usize>, values: Seq<u32>, budget: usize) -> Seq<usize> {
        crate::lanes::prefix(lanes, spec_min(spec_min(values.len() as usize, lanes.len() as usize), budget))
    }

    /// The carry of a preview: the first lanes of each vector, within the carry budgets.
    pub open spec fn of_attention(value: AttentionContinuationModel) -> Self {
        let lanes = Self::preview_lanes(value);
        let q = Self::clamped(lanes, value.q_preview, ATTENTION_PROJECTION_CARRY_BUDGET);
        let k = Self::clamped(lanes, value.k_preview, ATTENTION_PROJECTION_CARRY_BUDGET);
        let v = Self::clamped(lanes, value.v_preview, ATTENTION_PROJECTION_CARRY_BUDGET);
        let score = Self::clamped(lanes, value.score_preview, ATTENTION_MIX_CARRY_BUDGET);
        let mixed = Self::clamped(lanes, value.value_preview, ATTENTION_MIX_CARRY_BUDGET);
        CarryableAttentionStateModel {
            contract: StageResumeContractSummary::none(),
            projection: if q.len() == 0 && k.len() == 0 && v.len() == 0 {
                None
            } else {
                Some(
                    CarryableAttentionProjectionStateModel {
                        width: value.width,
                        q_provenance: None,
                        k_provenance: None,
                        v_provenance: None,
                        q_lane_indices: q,
                        k_lane_indices: k,
                        v_lane_indices: v,
                        q: crate::lanes::prefix(value.q_preview, q.len() as usize),
                        k: crate::lanes::prefix(value.k_preview, k.len() as usize),
                        v: crate::lanes::prefix(value.v_preview, v.len() as usize),
                    },
                )
            },
            mix: if score.len() == 0 && mixed.len() == 0 {
                None
            } else {
                Some(
                    CarryableAttentionMixStateModel {
                        width: value.width,
                        score_provenance: None,
                        value_provenance: None,
                        score_lane_indices: score,
                        value_lane_indices: mixed,
                        scores: crate::lanes::prefix(value.score_preview, score.len() as usize),
                        values: crate::lanes::prefix(value.value_preview, mixed.len() as usize),
                    },
                )
            },
        }
    }

    /// The preview that the carry stands for: all carried lanes, each vector aligned to them,
    /// zero where a vector has no such lane; nothing where no lane is carried.
    pub open spec fn to_attention(self) -> Option<AttentionContinuationModel> {
        let lanes = self.merged_lanes();
        if lanes.len() == 0 {
            None
        } else {
            Some(
                AttentionContinuationModel {
                    width: self.width(),
                    lane_indices: lanes,
                    q_preview: match self.projection {
                        Some(p) => crate::lanes::aligned(lanes, p.q_lane_indices, p.q),
                        None => crate::lanes::zeros(lanes.len()),
                    },
                    k_preview: match self.projection {
                        Some(p) => crate::lanes::aligned(lanes, p.k_lane_indices, p.k),
                        None => crate::lanes::zeros(lanes.len()),
                    },
                    v_preview: match self.projection {
                        Some(p) => crate::lanes::aligned(lanes, p.v_lane_indices, p.v),
                        None => crate::lanes::zeros(lanes.len()),
                    },
                    score_preview: match self.mix {
                        Some(m) => crate::lanes::aligned(lanes, m.score_lane_indices, m.scores),
                        None => crate::lanes::zeros(lanes.len()),
                    },
                    value_preview: match self.mix {
                        Some(m) => crate::lanes::aligned(lanes, m.value_lane_indices, m.values),
                        None => crate::lanes::zeros(lanes.len()),
                    },
                },
            )
        }
    }

    /// The same carry, captured `layers` layers further from the boundary.
    pub open spec fn aged(self, layers: u32) -> Self {
        CarryableAttentionStateModel {
            contract: self.contract,
            projection: match self.projection {
                Some(projection) => Some(projection.aged(layers)),
                None => None,
            },
            mix: match self.mix {
                Some(mix) => Some(mix.aged(layers)),
                None => None,
            },
        }
    }

    /// The blend weight, in thousandths, of one contract.
    pub open spec fn weight_of(entry: Option<StageAttentionResumeContractSummary>) -> Option<u16> {
        match entry {
            Some(entry) => entry.blend_weight_milli,
            None => None,
        }
    }
}

/// The name of a resume phase.
pub open spec fn phase_name(phase: StageAttentionResumePhase) -> Seq<char> {
    match phase {
        StageAttentionResumePhase::Direct => "Direct"@,
        StageAttentionResumePhase::AfterProjection => "AfterProjection"@,
    }
}

fn phase_text(phase: StageAttentionResumePhase) -> (r: &'static str)
    ensures
        r@ == phase_name(phase),
{
    match phase {
        StageAttentionResumePhase::Direct => "Direct",
        StageAttentionResumePhase::AfterProjection => "AfterProjection",
    }
}

impl CarryableAttentionState {
    /// The contracts of the parts' slices that have lanes.
    pub fn contract_for_parts(
        contract: StageResumeContractSummary,
        projection: Option<&CarryableAttentionProjectionState>,
        mix: Option<&CarryableAttentionMixState>,
    ) -> (r: StageResumeContractSummary)
        ensures
            r == CarryableAttentionStateModel::present_contract(
                contract,
                match projection {
                    Some(projection) => Some(projection@),
                    None => None,
                },
                match mix {
                    Some(mix) => Some(mix@),
                    None => None,
                },
            ),
    {
        let mut present = StageResumeContractSummary::default();
        if let Some(projection) = projection {
            if projection.q_lane_indices.len() > 0 {
                present.attention_q = contract.attention_q;
            }
            if projection.k_lane_indices.len() > 0 {
                present.attention_k = contract.attention_k;
            }
            if projection.v_lane_indices.len() > 0 {
                present.attention_v = contract.attention_v;
            }
        }
        if let Some(mix) = mix {
            if mix.score_lane_indices.len() > 0 {
                present.attention_score = contract.attention_score;
            }
            if mix.value_lane_indices.len() > 0 {
                present.attention_value = contract.attention_value;
            }
        }
        present
    }

    /// The contracts of the carried slices that have lanes.
    pub fn contract_for_present_substates(&self) -> (r: StageResumeContractSummary)
        ensures
            r == CarryableAttentionStateModel::present_contract(
                self.contract,
                self@.projection,
                self@.mix,
            ),
    {
        Self::contract_for_parts(self.contract, self.projection.as_ref(), self.mix.as_ref())
    }

    /// Checks one carried contract.
    pub fn validate_contract_entry(
        name: &str,
        entry: Option<StageAttentionResumeContractSummary>,
        expected_phase: StageAttentionResumePhase,
    ) -> (r: Result<(), StageError>)
        ensures
            crate::model::failure(r) == CarryableAttentionStateModel::contract_entry_fault(
                name@,
                entry,
                expected_phase,
            ),
    {
        let entry = match entry {
            Some(entry) => entry,
            None => return Ok(()),
        };
        if entry.phase != expected_phase {
            return fail_with(
                "attention carry ".to_owned().concat(name).concat(" contract phase ").concat(
                    phase_text(entry.phase),
                ).concat(" does not match required ").concat(phase_text(expected_phase)),
            );
        }
        entry.check_blend(
            "attention carry ",
            name,
            " overwrite contract must not carry blend weight",
        )
    }

    /// Checks the carried contracts.
    pub fn validate_contract_for_present_substates(&self) -> (r: Result<(), StageError>)
        ensures
            crate::model::failure(r) == self@.contract_fault(),
    {
        if self.contract.is_empty() {
            return Ok(());
        }
        if self.contract_for_present_substates() != self.contract {
            return fail("attention carry contract does not match carried substates");
        }
        let q = Self::validate_contract_entry(
            "q",
            self.contract.attention_q,
            StageAttentionResumePhase::Direct,
        );
        if q.is_err() {
            return q;
        }
        let k = Self::validate_contract_entry(
            "k",
            self.contract.attention_k,
            StageAttentionResumePhase::Direct,
        );
        if k.is_err() {
            return k;
        }
        let v = Self::validate_contract_entry(
            "v",
            self.contract.attention_v,
            StageAttentionResumePhase::Direct,
        );
        if v.is_err() {
            return v;
        }
        let score = Self::validate_contract_entry(
            "score",
            self.contract.attention_score,
            StageAttentionResumePhase::AfterProjection,
        );
        if score.is_err() {
            return score;
        }
        Self::validate_contract_entry(
            "value",
            self.contract.attention_value,
            StageAttentionResumePhase::AfterProjection,
        )
    }

    fn weight(entry: Option<StageAttentionResumeContractSummary>) -> (r: Option<u16>)
        ensures
            r == CarryableAttentionStateModel::weight_of(entry),
    {
        match entry {
            Some(entry) => entry.blend_weight_milli,
            None => None,
        }
    }

    /// The blend weight of the query slice, in thousandths.
    pub fn blend_weight_for_q(&self) -> (r: Option<u16>)
        ensures
            r == CarryableAttentionStateModel::weight_of(self.contract.attention_q),
    {
        Self::weight(self.contract.attention_q)
    }

    /// The blend weight of the key slice, in thousandths.
    pub fn blend_weight_for_k(&self) -> (r: Option<u16>)
        ensures
            r == CarryableAttentionStateModel::weight_of(self.contract.attention_k),
    {
        Self::weight(self.contract.attention_k)
    }

    /// The blend weight of the value slice, in thousandths.
    pub fn blend_weight_for_v(&self) -> (r: Option<u16>)
        ensures
            r == CarryableAttentionStateModel::weight_of(self.contract.attention_v),
    {
        Self::weight(self.contract.attention_v)
    }

    /// The blend weight of the score slice, in thousandths.
    pub fn blend_weight_for_score(&self) -> (r: Option<u16>)
        ensures
            r == CarryableAttentionStateModel::weight_of(self.contract.attention_score),
    {
        Self::weight(self.contract.attention_score)
    }

    /// The blend weight of the mixed value slice, in thousandths.
    pub fn blend_weight_for_value(&self) -> (r: Option<u16>)
        ensures
            r == CarryableAttentionStateModel::weight_of(self.contract.attention_value),
    {
        Self::weight(self.contract.attention_value)
    }

    /// The first `lane_count` values.
    pub fn truncate_values(values: &[u32], lane_count: usize) -> (r: Vec<u32>)
        ensures
            r@ == crate::lanes::prefix(values@, lane_count),
    {
        take_prefix(values, lane_count)
    }

    /// The carry with every slice cut to its budget; nothing where no lane is left.
    pub fn with_lane_budgets(
        &self,
        q_budget: Option<usize>,
        k_budget: Option<usize>,
        v_budget: Option<usize>,
        mix_budget: Option<usize>,
    ) -> (r: Option<Self>)
        ensures
            crate::model::opt(r) == self@.cut(q_budget, k_budget, v_budget, mix_budget),
    {
        let projection = match &self.projection {
            Some(projection) => {
                let q_lane_count: usize = lanes_left(projection.q_lane_indices.len(), q_budget);
                let k_lane_count: usize = lanes_left(projection.k_lane_indices.len(), k_budget);
                let v_lane_count: usize = lanes_left(projection.v_lane_indices.len(), v_budget);
                if q_lane_count == 0 && k_lane_count == 0 && v_lane_count == 0 {
                    None
                } else {
                    Some(
                        CarryableAttentionProjectionState {
                            width: projection.width,
                            q_provenance: projection.q_provenance.clone(),
                            k_provenance: projection.k_provenance.clone(),
                            v_provenance: projection.v_provenance.clone(),
                            q_lane_indices: take_prefix(&projection.q_lane_indices, q_lane_count),
                            k_lane_indices: take_prefix(&projection.k_lane_indices, k_lane_count),
                            v_lane_indices: take_prefix(&projection.v_lane_indices, v_lane_count),
                            q: Self::truncate_values(&projection.q, q_lane_count),
                            k: Self::truncate_values(&projection.k, k_lane_count),
                            v: Self::truncate_values(&projection.v, v_lane_count),
                        },
                    )
                }
            },
            None => None,
        };
        let mix = match &self.mix {
            Some(mix) => {
                let score_lane_count: usize = lanes_left(mix.score_lane_indices.len(), mix_budget);
                let value_lane_count: usize = lanes_left(mix.value_lane_indices.len(), mix_budget);
                if score_lane_count == 0 && value_lane_count == 0 {
                    None
                } else {
                    Some(
                        CarryableAttentionMixState {
                            width: mix.width,
                            score_provenance: mix.score_provenance.clone(),
                            value_provenance: mix.value_provenance.clone(),
                            score_lane_indices: take_prefix(
                                &mix.score_lane_indices,
                                score_lane_count,
                            ),
                            value_lane_indices: take_prefix(
                                &mix.value_lane_indices,
                                value_lane_count,
                            ),
                            scores: Self::truncate_values(&mix.scores, score_lane_count),
                            values: Self::truncate_values(&mix.values, value_lane_count),
                        },
                    )
                }
            },
            None => None,
        };
        if projection.is_none() && mix.is_none() {
            None
        } else {
            Some(
                CarryableAttentionState {
                    contract: Self::contract_for_parts(
                        self.contract,
                        projection.as_ref(),
                        mix.as_ref(),
                    ),
                    projection,
                    mix,
                },
            )
        }
    }

    /// The first lanes of `lane_indices` that `values` has entries for, at most `budget`.
    pub fn clamp_lanes(lane_indices: &[usize], values: &[u32], budget: usize) -> (r: Vec<usize>)
        ensures
            r@ == CarryableAttentionStateModel::clamped(lane_indices@, values@, budget),
    {
        let available: usize = min_usize(values.len(), lane_indices.len());
        take_prefix(lane_indices, min_usize(available, budget))
    }

    /// The lanes of all slices, ascending, each once.
    pub fn merged_lane_indices(&self) -> (r: Vec<usize>)
        ensures
            r@ == self@.merged_lanes(),
            crate::lanes::ascending(r@),
            forall|lane: usize| #[trigger] r@.contains(lane) <==> self@.has_lane(lane),
    {
        proof {
            lemma_merged_lanes(self@);
        }
        let mut lanes: Vec<usize> = Vec::new();
        if let Some(projection) = &self.projection {
            put_lanes(&mut lanes, &projection.q_lane_indices);
            put_lanes(&mut lanes, &projection.k_lane_indices);
            put_lanes(&mut lanes, &projection.v_lane_indices);
        }
        if let Some(mix) = &self.mix {
            put_lanes(&mut lanes, &mix.score_lane_indices);
            put_lanes(&mut lanes, &mix.value_lane_indices);
        }
        lanes
    }

    /// The values carried for each of `lanes`; zero where there is none.
    pub fn align_to_lanes(lanes: &[usize], substate_lanes: &[usize], values: &[u32]) -> (r: Vec<
        u32,
    >)
        ensures
            r@ == crate::lanes::aligned(lanes@, substate_lanes@, values@),
    {
        align(lanes, substate_lanes, values)
    }

    /// The carry of a preview.
    pub fn from_attention(value: &AttentionContinuation) -> (r: Self)
        ensures
            r@ == CarryableAttentionStateModel::of_attention(value@),
    {
        let lane_indices: Vec<usize> = if value.lane_indices.is_empty() {
            count_lanes(
                max_usize(
                    max_usize(
                        max_usize(
                            max_usize(value.q_preview.len(), value.k_preview.len()),
                            value.v_preview.len(),
                        ),
                        value.score_preview.len(),
                    ),
                    value.value_preview.len(),
                ),
            )
        } else {
            value.lane_indices.clone()
        };
        assert(lane_indices@ =~= CarryableAttentionStateModel::preview_lanes(value@));
        let q_lanes = Self::clamp_lanes(
            &lane_indices,
            &value.q_preview,
            ATTENTION_PROJECTION_CARRY_BUDGET,
        );
        let k_lanes = Self::clamp_lanes(
            &lane_indices,
            &value.k_preview,
            ATTENTION_PROJECTION_CARRY_BUDGET,
        );
        let v_lanes = Self::clamp_lanes(
            &lane_indices,
            &value.v_preview,
            ATTENTION_PROJECTION_CARRY_BUDGET,
        );
        let projection = if q_lanes.is_empty() && k_lanes.is_empty() && v_lanes.is_empty() {
            None
        } else {
            let q = take_prefix(&value.q_preview, q_lanes.len());
            let k = take_prefix(&value.k_preview, k_lanes.len());
            let v = take_prefix(&value.v_preview, v_lanes.len());
            Some(
                CarryableAttentionProjectionState {
                    width: value.width,
                    q_provenance: None,
                    k_provenance: None,
                    v_provenance: None,
                    q_lane_indices: q_lanes,
                    k_lane_indices: k_lanes,
                    v_lane_indices: v_lanes,
                    q,
                    k,
                    v,
                },
            )
        };
        let score_lanes = Self::clamp_lanes(
            &lane_indices,
            &value.score_preview,
            ATTENTION_MIX_CARRY_BUDGET,
        );
        let value_lanes = Self::clamp_lanes(
            &lane_indices,
            &value.value_preview,
            ATTENTION_MIX_CARRY_BUDGET,
        );
        let mix = if score_lanes.is_empty() && value_lanes.is_empty() {
            None
        } else {
            let scores = take_prefix(&value.score_preview, score_lanes.len());
            let values = take_prefix(&value.value_preview, value_lanes.len());
            Some(
                CarryableAttentionMixState {
                    width: value.width,
                    score_provenance: None,
                    value_provenance: None,
                    score_lane_indices: score_lanes,
                    value_lane_indices: value_lanes,
                    scores,
                    values,
                },
            )
        };
        CarryableAttentionState { contract: StageResumeContractSummary::default(), projection, mix }
    }

    /// The width of the attention state.
    pub fn width(&self) -> (r: usize)
        ensures
            r == self@.width(),
    {
        match &self.projection {
            Some(projection) => projection.width,
            None => match &self.mix {
                Some(mix) => mix.width,
                None => 0,
            },
        }
    }

    /// The most lanes that a slice has.
    pub fn lane_count(&self) -> (r: usize)
        ensures
            r == self@.lanes(),
    {
        max_usize(self.projection_lane_count(), self.mix_lane_count())
    }

    /// The most lanes that a slice of the projection has.
    pub fn projection_lane_count(&self) -> (r: usize)
        ensures
            r == self@.projection_lanes(),
    {
        match &self.projection {
            Some(projection) => max_usize(
                max_usize(projection.q_lane_indices.len(), projection.k_lane_indices.len()),
                projection.v_lane_indices.len(),
            ),
            None => 0,
        }
    }

    /// The most lanes that a slice of the mix has.
    pub fn mix_lane_count(&self) -> (r: usize)
        ensures
            r == self@.mix_lanes(),
    {
        match &self.mix {
            Some(mix) => max_usize(mix.score_lane_indices.len(), mix.value_lane_indices.len()),
            None => 0,
        }
    }

    /// The preview that the carry stands for.
    pub fn to_attention_continuation(&self) -> (r: Option<AttentionContinuation>)
        ensures
            crate::model::opt(r) == self@.to_attention(),
    {
        let lane_indices = self.merged_lane_indices();
        if lane_indices.is_empty() {
            return None;
        }
        let count: usize = lane_indices.len();
        let (q_preview, k_preview, v_preview) = match &self.projection {
            Some(projection) => (
                Self::align_to_lanes(&lane_indices, &projection.q_lane_indices, &projection.q),
                Self::align_to_lanes(&lane_indices, &projection.k_lane_indices, &projection.k),
                Self::align_to_lanes(&lane_indices, &projection.v_lane_indices, &projection.v),
            ),
            None => (zero_values(count), zero_values(count), zero_values(count)),
        };
        let (score_preview, value_preview) = match &self.mix {
            Some(mix) => (
                Self::align_to_lanes(&lane_indices, &mix.score_lane_indices, &mix.scores),
                Self::align_to_lanes(&lane_indices, &mix.value_lane_indices, &mix.values),
            ),
            None => (zero_values(count), zero_values(count)),
        };
        Some(
            AttentionContinuation {
                width: self.width(),
                lane_indices,
                q_preview,
                k_preview,
                v_preview,
                score_preview,
                value_preview,
            },
        )
    }
}

/// The merged lanes are ascending and are exactly the carried lanes.
pub proof fn lemma_merged_lanes(carry: CarryableAttentionStateModel)
    ensures
        crate::lanes::ascending(carry.merged_lanes()),
        forall|lane: usize| #[trigger]
            carry.merged_lanes().contains(lane) <==> carry.has_lane(lane),
{
    let none = Seq::<usize>::empty();
    assert forall|lane: usize| !none.contains(lane) by {}
    let projection = match carry.projection {
        Some(p) => {
            let q = crate::lanes::insert_lanes(none, p.q_lane_indices);
            let qk = crate::lanes::insert_lanes(q, p.k_lane_indices);
            crate::lanes::lemma_insert_lanes(none, p.q_lane_indices);
            crate::lanes::lemma_insert_lanes(q, p.k_lane_indices);
            crate::lanes::lemma_insert_lanes(qk, p.v_lane_indices);
            crate::lanes::insert_lanes(qk, p.v_lane_indices)
        },
        None => none,
    };
    if let Some(m) = carry.mix {
        crate::lanes::lemma_insert_lanes(projection, m.score_lane_indices);
        crate::lanes::lemma_insert_lanes(
            crate::lanes::insert_lanes(projection, m.score_lane_indices),
            m.value_lane_indices,
        );
    }
}

impl CarryableFfnStateModel {
    /// The lanes cut to the budget; nothing where no lane is left.
    pub open spec fn cut(self, budget: Option<usize>) -> Option<Self> {
        let count = cut_lanes(self.lane_indices.len(), budget);
        if count == 0 {
            None
        } else {
            Some(
                CarryableFfnStateModel {
                    width: self.width,
                    lane_indices: crate::lanes::prefix(self.lane_indices, count),
                    gate_head: crate::lanes::prefix(self.gate_head, count),
                    up_head: crate::lanes::prefix(self.up_head, count),
                    activation_head: crate::lanes::prefix(self.activation_head, count),
                },
            )
        }
    }

    /// The carry of a preview; where it names no lanes, as many as its longest vector has.
    pub open spec fn of_ffn(value: FfnContinuationModel) -> Self {
        CarryableFfnStateModel {
            width: value.width,
            lane_indices: if value.lane_indices.len() == 0 {
                crate::lanes::first_lanes(
                    spec_max(
                        spec_max(
                            value.gate_preview.len() as usize,
                            value.up_preview.len() as usize,
                        ),
                        value.activation_preview.len() as usize,
                    ),
                )
            } else {
                value.lane_indices
            },
            gate_head: value.gate_preview,
            up_head: value.up_preview,
            activation_head: value.activation_preview,
        }
    }

    /// The number of lanes: those named, else as many as the longest vector has.
    pub open spec fn lanes(self) -> nat {
        if self.lane_indices.len() == 0 {
            spec_max(
                spec_max(self.gate_head.len() as usize, self.up_head.len() as usize),
                self.activation_head.len() as usize,
            ) as nat
        } else {
            self.lane_indices.len()
        }
    }

    /// The preview that the carry stands for.
    pub open spec fn to_ffn(self) -> FfnContinuationModel {
        FfnContinuationModel {
            width: self.width,
            lane_indices: self.lane_indices,
            gate_preview: self.gate_head,
            up_preview: self.up_head,
            activation_preview: self.activation_head,
        }
    }
}

impl CarryableFfnState {
    /// The carry cut to the budget; nothing where no lane is left.
    pub fn with_lane_budget(&self, lane_budget: Option<usize>) -> (r: Option<Self>)
        ensures
            crate::model::opt(r) == self@.cut(lane_budget),
    {
        let lane_count: usize = lanes_left(self.lane_indices.len(), lane_budget);
        if lane_count == 0 {
            None
        } else {
            Some(
                CarryableFfnState {
                    width: self.width,
                    lane_indices: take_prefix(&self.lane_indices, lane_count),
                    gate_head: take_prefix(&self.gate_head, lane_count),
                    up_head: take_prefix(&self.up_head, lane_count),
                    activation_head: take_prefix(&self.activation_head, lane_count),
                },
            )
        }
    }

    /// The carry of a preview.
    pub fn from_ffn(value: &FfnContinuation) -> (r: Self)
        ensures
            r@ == CarryableFfnStateModel::of_ffn(value@),
    {
        let lane_indices: Vec<usize> = if value.lane_indices.is_empty() {
            count_lanes(
                max_usize(
                    max_usize(value.gate_preview.len(), value.up_preview.len()),
                    value.activation_preview.len(),
                ),
            )
        } else {
            value.lane_indices.clone()
        };
        CarryableFfnState {
            width: value.width,
            lane_indices,
            gate_head: value.gate_preview.clone(),
            up_head: value.up_preview.clone(),
            activation_head: value.activation_preview.clone(),
        }
    }

    /// The number of lanes.
    pub fn lane_count(&self) -> (r: usize)
        ensures
            r == self@.lanes(),
    {
        if self.lane_indices.is_empty() {
            max_usize(
                max_usize(self.gate_head.len(), self.up_head.len()),
                self.activation_head.len(),
            )
        } else {
            self.lane_indices.len()
        }
    }

    /// The preview that the carry stands for.
    pub(crate) fn to_ffn_continuation(&self) -> (r: FfnContinuation)
        ensures
            r@ == self@.to_ffn(),
    {
        FfnContinuation {
            width: self.width,
            lane_indices: self.lane_indices.clone(),
            gate_preview: self.gate_head.clone(),
            up_preview: self.up_head.clone(),
            activation_preview: self.activation_head.clone(),
        }
    }
}

impl StageCarryStateModel {
    /// The same carry, its attention captured `layers` layers further from the boundary.
    pub open spec fn aged(self, layers: u32) -> Self {
        StageCarryStateModel {
            attention: match self.attention {
                Some(attention) => Some(attention.aged(layers)),
                None => None,
            },
            ffn: self.ffn,
        }
    }

    /// Both parts, unless there is neither.
    pub open spec fn of_parts(
        attention: Option<CarryableAttentionStateModel>,
        ffn: Option<CarryableFfnStateModel>,
    ) -> Option<Self> {
        if attention is None && ffn is None {
            None
        } else {
            Some(StageCarryStateModel { attention, ffn })
        }
    }

    /// The attention part that a target with these capabilities and budgets resumes: the slices
    /// cut to their budgets, with the mix only where the target supports it, and nothing at all
    /// without a projection.
    pub open spec fn narrowed_attention(
        attention: CarryableAttentionStateModel,
        capabilities: StageResumeCapabilities,
        budgets: StageResumeBudgets,
    ) -> Option<CarryableAttentionStateModel> {
        if capabilities.attention_projection || capabilities.attention_mix {
            match attention.cut(
                budgets.attention_q_lanes,
                budgets.attention_k_lanes,
                budgets.attention_v_lanes,
                budgets.attention_mix_lanes,
            ) {
                Some(cut) if cut.projection is Some => Some(
                    CarryableAttentionStateModel::of_parts(
                        cut.contract,
                        cut.projection,
                        if capabilities.attention_mix {
                            cut.mix
                        } else {
                            None
                        },
                    ),
                ),
                _ => None,
            }
        } else {
            None
        }
    }

    /// What a target with these capabilities and budgets resumes.
    pub open spec fn narrowed(
        self,
        capabilities: StageResumeCapabilities,
        budgets: StageResumeBudgets,
    ) -> Option<Self> {
        Self::of_parts(
            match self.attention {
                Some(attention) => Self::narrowed_attention(attention, capabilities, budgets),
                None => None,
            },
            match self.ffn {
                Some(ffn) if capabilities.ffn_path => ffn.cut(budgets.ffn_lanes),
                _ => None,
            },
        )
    }

    /// What a target with these capabilities resumes, without regard to budgets.
    pub open spec fn supported(self, capabilities: StageResumeCapabilities) -> Option<Self> {
        Self::of_parts(
            match self.attention {
                Some(attention) if capabilities.attention_projection
                    && attention.projection is Some => Some(
                    CarryableAttentionStateModel::of_parts(
                        attention.contract,
                        attention.projection,
                        if capabilities.attention_mix {
                            attention.mix
                        } else {
                            None
                        },
                    ),
                ),
                _ => None,
            },
            if capabilities.ffn_path {
                self.ffn
            } else {
                None
            },
        )
    }

    /// The parts that the policy lets across.
    pub open spec fn under_policy(self, policy: StageCarryPolicy) -> Self {
        StageCarryStateModel {
            attention: if policy.carry_attention {
                self.attention
            } else {
                None
            },
            ffn: if policy.carry_ffn {
                self.ffn
            } else {
                None
            },
        }
    }

    /// The carry of the previews that the policy lets across.
    pub open spec fn of_transient(value: StageTransientStateModel, policy: StageCarryPolicy) -> Self {
        StageCarryStateModel {
            attention: match value.attention {
                Some(attention) if policy.carry_attention => Some(
                    CarryableAttentionStateModel::of_attention(attention),
                ),
                _ => None,
            },
            ffn: match value.ffn {
                Some(ffn) if policy.carry_ffn => Some(CarryableFfnStateModel::of_ffn(ffn)),
                _ => None,
            },
        }
    }

    /// The previews that the carry stands for; nothing where neither part has one.
    pub open spec fn to_transient(self) -> Option<StageTransientStateModel> {
        let attention = match self.attention {
            Some(attention) => attention.to_attention(),
            None => None,
        };
        let ffn = match self.ffn {
            Some(ffn) => Some(ffn.to_ffn()),
            None => None,
        };
        if attention is None && ffn is None {
            None
        } else {
            Some(StageTransientStateModel { attention, ffn })
        }
    }
}

impl StageCarryState {
    /// The same carry, its attention captured `layers` layers further from the boundary.
    pub fn age_attention_by_layers(&self, layers: u32) -> (r: Self)
        ensures
            r@ == self@.aged(layers),
    {
        let attention = match &self.attention {
            Some(attention) => {
                let projection = match &attention.projection {
                    Some(projection) => {
                        let mut aged = projection.clone();
                        aged.q_provenance =
                        AttentionCheckpointProvenance::age_opt(&projection.q_provenance, layers);
                        aged.k_provenance =
                        AttentionCheckpointProvenance::age_opt(&projection.k_provenance, layers);
                        aged.v_provenance =
                        AttentionCheckpointProvenance::age_opt(&projection.v_provenance, layers);
                        Some(aged)
                    },
                    None => None,
                };
                let mix = match &attention.mix {
                    Some(mix) => {
                        let mut aged = mix.clone();
                        aged.score_provenance =
                        AttentionCheckpointProvenance::age_opt(&mix.score_provenance, layers);
                        aged.value_provenance =
                        AttentionCheckpointProvenance::age_opt(&mix.value_provenance, layers);
                        Some(aged)
                    },
                    None => None,
                };
                Some(CarryableAttentionState { contract: attention.contract, projection, mix })
            },
            None => None,
        };
        StageCarryState { attention, ffn: self.ffn.clone() }
    }

    fn narrow_attention(
        attention: &CarryableAttentionState,
        capabilities: &StageResumeCapabilities,
        budgets: &StageResumeBudgets,
    ) -> (r: Option<CarryableAttentionState>)
        ensures
            crate::model::opt(r) == StageCarryStateModel::narrowed_attention(
                attention@,
                *capabilities,
                *budgets,
            ),
    {
        if capabilities.attention_projection || capabilities.attention_mix {
            let narrowed = attention.with_lane_budgets(
                budgets.attention_q_lanes,
                budgets.attention_k_lanes,
                budgets.attention_v_lanes,
                budgets.attention_mix_lanes,
            );
            let narrowed = match narrowed {
                Some(narrowed) => narrowed,
                None => return None,
            };
            let projection = match narrowed.projection {
                Some(projection) => projection,
                None => return None,
            };
            let mix = if capabilities.attention_mix {
                narrowed.mix
            } else {
                None
            };
            Some(
                CarryableAttentionState {
                    contract: CarryableAttentionState::contract_for_parts(
                        narrowed.contract,
                        Some(&projection),
                        mix.as_ref(),
                    ),
                    projection: Some(projection),
                    mix,
                },
            )
        } else {
            None
        }
    }

    /// What a target with these capabilities and budgets resumes.
    pub fn with_resume_contract(
        &self,
        capabilities: &StageResumeCapabilities,
        budgets: &StageResumeBudgets,
    ) -> (r: Option<Self>)
        ensures
            crate::model::opt(r) == self@.narrowed(*capabilities, *budgets),
    {
        let attention = match &self.attention {
            Some(attention) => Self::narrow_attention(attention, capabilities, budgets),
            None => None,
        };
        let ffn = match &self.ffn {
            Some(ffn) => if capabilities.ffn_path {
                ffn.with_lane_budget(budgets.ffn_lanes)
            } else {
                None
            },
            None => None,
        };
        if attention.is_none() && ffn.is_none() {
            None
        } else {
            Some(StageCarryState { attention, ffn })
        }
    }

    /// What a target with these capabilities resumes, without regard to budgets.
    pub fn with_resume_capabilities(&self, capabilities: &StageResumeCapabilities) -> (r: Option<
        Self,
    >)
        ensures
            crate::model::opt(r) == self@.supported(*capabilities),
    {
        let attention = match &self.attention {
            Some(attention) => {
                let projection = if capabilities.attention_projection {
                    attention.projection.clone()
                } else {
                    None
                };
                let mix = if capabilities.attention_mix {
                    attention.mix.clone()
                } else {
                    None
                };
                if projection.is_none() {
                    None
                } else {
                    Some(
                        CarryableAttentionState {
                            contract: CarryableAttentionState::contract_for_parts(
                                attention.contract,
                                projection.as_ref(),
                                mix.as_ref(),
                            ),
                            projection,
                            mix,
                        },
                    )
                }
            },
            None => None,
        };
        let ffn = if capabilities.ffn_path {
            self.ffn.clone()
        } else {
            None
        };
        if attention.is_none() && ffn.is_none() {
            None
        } else {
            Some(StageCarryState { attention, ffn })
        }
    }

    /// The parts that the policy lets across.
    pub fn with_policy(&self, policy: &StageCarryPolicy) -> (r: Self)
        ensures
            r@ == self@.under_policy(*policy),
    {
        StageCarryState {
            attention: if policy.carry_attention {
                self.attention.clone()
            } else {
                None
            },
            ffn: if policy.carry_ffn {
                self.ffn.clone()
            } else {
                None
            },
        }
    }

    /// The carry of the previews that the policy lets across.
    pub fn from_transient(value: &StageTransientState, policy: &StageCarryPolicy) -> (r: Self)
        ensures
            r@ == StageCarryStateModel::of_transient(value@, *policy),
    {
        let attention = match &value.attention {
            Some(attention) => if policy.carry_attention {
                Some(CarryableAttentionState::from_attention(attention))
            } else {
                None
            },
            None => None,
        };
        let ffn = match &value.ffn {
            Some(ffn) => if policy.carry_ffn {
                Some(CarryableFfnState::from_ffn(ffn))
            } else {
                None
            },
            None => None,
        };
        StageCarryState { attention, ffn }
    }

    /// The previews that the carry stands for.
    pub fn to_transient_state(&self) -> (r: Option<StageTransientState>)
        ensures
            crate::model::opt(r) == self@.to_transient(),
    {
        let attention = match &self.attention {
            Some(attention) => attention.to_attention_continuation(),
            None => None,
        };
        let ffn = match &self.ffn {
            Some(ffn) => Some(ffn.to_ffn_continuation()),
            None => None,
        };
        if attention.is_none() && ffn.is_none() {
            None
        } else {
            Some(StageTransientState { attention, ffn })
        }
    }
}

impl AttentionCheckpointProvenance {
    fn equal_opt(a: &Option<Self>, b: &Option<Self>) -> (r: bool)
        ensures
            r == (crate::model::opt(*a) == crate::model::opt(*b)),
    {
        match (a, b) {
            (None, None) => true,
            (Some(x), Some(y)) => x.layer_index == y.layer_index && x.operator_kind
                == y.operator_kind && x.layer_distance_to_boundary == y.layer_distance_to_boundary,
            _ => false,
        }
    }
}

impl CarryableAttentionProjectionStateModel {
    /// Whether two projections compare equal, number by number.
    pub open spec fn agrees(self, other: Self) -> bool {
        &&& self == (CarryableAttentionProjectionStateModel {
            q: self.q,
            k: self.k,
            v: self.v,
            ..other
        })
        &&& crate::number::same_numbers(self.q, other.q)
        &&& crate::number::same_numbers(self.k, other.k)
        &&& crate::number::same_numbers(self.v, other.v)
    }

    /// Whether each carried value is a number.
    pub open spec fn all_numbers(self) -> bool {
        &&& crate::number::all_numbers(self.q)
        &&& crate::number::all_numbers(self.k)
        &&& crate::number::all_numbers(self.v)
    }
}

impl CarryableAttentionProjectionState {
    fn equal(&self, other: &Self) -> (r: bool)
        ensures
            r == self@.agrees(other@),
    {
        self.width == other.width && AttentionCheckpointProvenance::equal_opt(
            &self.q_provenance,
            &other.q_provenance,
        ) && AttentionCheckpointProvenance::equal_opt(&self.k_provenance, &other.k_provenance)
            && AttentionCheckpointProvenance::equal_opt(&self.v_provenance, &other.v_provenance)
            && equal_sizes(&self.q_lane_indices, &other.q_lane_indices) && equal_sizes(
            &self.k_lane_indices,
            &other.k_lane_indices,
        ) && equal_sizes(&self.v_lane_indices, &other.v_lane_indices) && equal_numbers(
            &self.q,
            &other.q,
        ) && equal_numbers(&self.k, &other.k) && equal_numbers(&self.v, &other.v)
    }
}

impl PartialEq for CarryableAttentionProjectionState {
    fn eq(&self, other: &Self) -> (r: bool) {
        self.equal(other)
    }
}

impl vstd::std_specs::cmp::PartialEqSpecImpl for CarryableAttentionProjectionState {
    open spec fn obeys_eq_spec() -> bool {
        true
    }

    open spec fn eq_spec(&self, other: &Self) -> bool {
        self@.agrees(other@)
    }
}

impl CarryableAttentionMixStateModel {
    /// Whether two mixes compare equal, number by number.
    pub open spec fn agrees(self, other: Self) -> bool {
        &&& self == (CarryableAttentionMixStateModel {
            scores: self.scores,
            values: self.values,
            ..other
        })
        &&& crate::number::same_numbers(self.scores, other.scores)
        &&& crate::number::same_numbers(self.values, other.values)
    }

    /// Whether each carried value is a number.
    pub open spec fn all_numbers(self) -> bool {
        &&& crate::number::all_numbers(self.scores)
        &&& crate::number::all_numbers(self.values)
    }
}

impl CarryableAttentionMixState {
    fn equal(&self, other: &Self) -> (r: bool)
        ensures
            r == self@.agrees(other@),
    {
        self.width == other.width && AttentionCheckpointProvenance::equal_opt(
            &self.score_provenance,
            &other.score_provenance,
        ) && AttentionCheckpointProvenance::equal_opt(
            &self.value_provenance,
            &other.value_provenance,
        ) && equal_sizes(&self.score_lane_indices, &other.score_lane_indices) && equal_sizes(
            &self.value_lane_indices,
            &other.value_lane_indices,
        ) && equal_numbers(&self.scores, &other.scores) && equal_numbers(
            &self.values,
            &other.values,
        )
    }
}

impl PartialEq for CarryableAttentionMixState {
    fn eq(&self, other: &Self) -> (r: bool) {
        self.equal(other)
    }
}

impl vstd::std_specs::cmp::PartialEqSpecImpl for CarryableAttentionMixState {
    open spec fn obeys_eq_spec() -> bool {
        true
    }

    open spec fn eq_spec(&self, other: &Self) -> bool {
        self@.agrees(other@)
    }
}

impl CarryableAttentionStateModel {
    /// Whether two attention carries compare equal, number by number.
    pub open spec fn agrees(self, other: Self) -> bool {
        &&& self.contract == other.contract
        &&& match (self.projection, other.projection) {
            (None, None) => true,
            (Some(x), Some(y)) => x.agrees(y),
            _ => false,
        }
        &&& match (self.mix, other.mix) {
            (None, None) => true,
            (Some(x), Some(y)) => x.agrees(y),
            _ => false,
        }
    }

    /// Whether each carried value is a number.
    pub open spec fn all_numbers(self) -> bool {
        &&& match self.projection {
            Some(projection) => projection.all_numbers(),
            None => true,
        }
        &&& match self.mix {
            Some(mix) => mix.all_numbers(),
            None => true,
        }
    }
}

impl CarryableAttentionState {
    fn equal(&self, other: &Self) -> (r: bool)
        ensures
            r == self@.agrees(other@),
    {
        let projection = match (&self.projection, &other.projection) {
            (None, None) => true,
            (Some(x), Some(y)) => x.equal(y),
            _ => false,
        };
        let mix = match (&self.mix, &other.mix) {
            (None, None) => true,
            (Some(x), Some(y)) => x.equal(y),
            _ => false,
        };
        self.contract == other.contract && projection && mix
    }
}

impl PartialEq for CarryableAttentionState {
    fn eq(&self, other: &Self) -> (r: bool) {
        self.equal(other)
    }
}

impl vstd::std_specs::cmp::PartialEqSpecImpl for CarryableAttentionState {
    open spec fn obeys_eq_spec() -> bool {
        true
    }

    open spec fn eq_spec(&self, other: &Self) -> bool {
        self@.agrees(other@)
    }
}

impl CarryableFfnStateModel {
    /// Whether two feed-forward carries compare equal, number by number.
    pub open spec fn agrees(self, other: Self) -> bool {
        &&& self.width == other.width
        &&& self.lane_indices == other.lane_indices
        &&& crate::number::same_numbers(self.gate_head, other.gate_head)
        &&& crate::number::same_numbers(self.up_head, other.up_head)
        &&& crate::number::same_numbers(self.activation_head, other.activation_head)
    }

    /// Whether each carried value is a number.
    pub open spec fn all_numbers(self) -> bool {
        &&& crate::number::all_numbers(self.gate_head)
        &&& crate::number::all_numbers(self.up_head)
        &&& crate::number::all_numbers(self.activation_head)
    }
}

impl CarryableFfnState {
    fn equal(&self, other: &Self) -> (r: bool)
        ensures
            r == self@.agrees(other@),
    {
        self.width == other.width && equal_sizes(&self.lane_indices, &other.lane_indices)
            && equal_numbers(&self.gate_head, &other.gate_head) && equal_numbers(
            &self.up_head,
            &other.up_head,
        ) && equal_numbers(&self.activation_head, &other.activation_head)
    }
}

impl PartialEq for CarryableFfnState {
    fn eq(&self, other: &Self) -> (r: bool) {
        self.equal(other)
    }
}

impl vstd::std_specs::cmp::PartialEqSpecImpl for CarryableFfnState {
    open spec fn obeys_eq_spec() -> bool {
        true
    }

    open spec fn eq_spec(&self, other: &Self) -> bool {
        self@.agrees(other@)
    }
}

impl StageCarryStateModel {
    /// Whether two carries compare equal, number by number.
    pub open spec fn agrees(self, other: Self) -> bool {
        &&& match (self.attention, other.attention) {
            (None, None) => true,
            (Some(x), Some(y)) => x.agrees(y),
            _ => false,
        }
        &&& match (self.ffn, other.ffn) {
            (None, None) => true,
            (Some(x), Some(y)) => x.agrees(y),
            _ => false,
        }
    }

    /// Whether two optional carries compare equal, number by number.
    pub open spec fn agree(a: Option<Self>, b: Option<Self>) -> bool {
        match (a, b) {
            (None, None) => true,
            (Some(x), Some(y)) => x.agrees(y),
            _ => false,
        }
    }

    /// Whether each carried value is a number.
    pub open spec fn all_numbers(self) -> bool {
        &&& match self.attention {
            Some(attention) => attention.all_numbers(),
            None => true,
        }
        &&& match self.ffn {
            Some(ffn) => ffn.all_numbers(),
            None => true,
        }
    }
}

impl StageCarryState {
    fn equal(&self, other: &Self) -> (r: bool)
        ensures
            r == self@.agrees(other@),
    {
        let attention = match (&self.attention, &other.attention) {
            (None, None) => true,
            (Some(x), Some(y)) => x.equal(y),
            _ => false,
        };
        let ffn = match (&self.ffn, &other.ffn) {
            (None, None) => true,
            (Some(x), Some(y)) => x.equal(y),
            _ => false,
        };
        attention && ffn
    }

    /// Whether two optional carries compare equal, number by number.
    pub(crate) fn equal_opt(a: &Option<Self>, b: &Option<Self>) -> (r: bool)
        ensures
            r == StageCarryStateModel::agree(crate::model::opt(*a), crate::model::opt(*b)),
    {
        match (a, b) {
            (None, None) => true,
            (Some(x), Some(y)) => x.equal(y),
            _ => false,
        }
    }
}

impl PartialEq for StageCarryState {
    fn eq(&self, other: &Self) -> (r: bool) {
        self.equal(other)
    }
}

impl vstd::std_specs::cmp::PartialEqSpecImpl for StageCarryState {
    open spec fn obeys_eq_spec() -> bool {
        true
    }

    open spec fn eq_spec(&self, other: &Self) -> bool {
        self@.agrees(other@)
    }
}

impl CarryableAttentionProjectionStateModel {
    /// What is wrong with the projection of an attention carry of the given width.
    pub open spec fn fault(self, width: usize) -> Option<Seq<char>> {
        if self.width != width {
            Some("Attention projection carry width diverged from attention carry width"@)
        } else if AttentionCheckpointProvenanceModel::invalid(self.q_provenance)
            || AttentionCheckpointProvenanceModel::invalid(self.k_provenance)
            || AttentionCheckpointProvenanceModel::invalid(self.v_provenance) {
            Some("Attention projection carry provenance has invalid layer distance"@)
        } else if self.q.len() != self.q_lane_indices.len() || self.k.len()
            != self.k_lane_indices.len() || self.v.len() != self.v_lane_indices.len() {
            Some("Attention projection carry vectors must match projection lane count"@)
        } else if crate::lanes::exceeds(self.q_lane_indices, self.width) {
            Some("Attention q carry lane index exceeds width"@)
        } else if crate::lanes::exceeds(self.k_lane_indices, self.width) {
            Some("Attention k carry lane index exceeds width"@)
        } else if crate::lanes::exceeds(self.v_lane_indices, self.width) {
            Some("Attention projection carry lane index exceeds width"@)
        } else {
            None
        }
    }
}

impl CarryableAttentionProjectionState {
    fn check(&self, width: usize) -> (r: Result<(), StageError>)
        ensures
            crate::model::failure(r) == self@.fault(width),
    {
        if self.width != width {
            return fail("Attention projection carry width diverged from attention carry width");
        }
        if AttentionCheckpointProvenance::is_invalid(&self.q_provenance)
            || AttentionCheckpointProvenance::is_invalid(&self.k_provenance)
            || AttentionCheckpointProvenance::is_invalid(&self.v_provenance) {
            return fail("Attention projection carry provenance has invalid layer distance");
        }
        if self.q.len() != self.q_lane_indices.len() || self.k.len() != self.k_lane_indices.len()
            || self.v.len() != self.v_lane_indices.len() {
            return fail("Attention projection carry vectors must match projection lane count");
        }
        if any_exceeds(&self.q_lane_indices, self.width) {
            return fail("Attention q carry lane index exceeds width");
        }
        if any_exceeds(&self.k_lane_indices, self.width) {
            return fail("Attention k carry lane index exceeds width");
        }
        if any_exceeds(&self.v_lane_indices, self.width) {
            return fail("Attention projection carry lane index exceeds width");
        }
        Ok(())
    }
}

impl CarryableAttentionMixStateModel {
    /// What is wrong with the mix of an attention carry of the given width.
    pub open spec fn fault(self, width: usize) -> Option<Seq<char>> {
        if self.width != width {
            Some("Attention mix carry width diverged from attention carry width"@)
        } else if AttentionCheckpointProvenanceModel::invalid(self.score_provenance)
            || AttentionCheckpointProvenanceModel::invalid(self.value_provenance) {
            Some("Attention mix carry provenance has invalid layer distance"@)
        } else if self.scores.len() != self.score_lane_indices.len() || self.values.len()
            != self.value_lane_indices.len() {
            Some("Attention mix carry vectors must match mix lane count"@)
        } else if crate::lanes::exceeds(self.score_lane_indices, self.width) {
            Some("Attention score carry lane index exceeds width"@)
        } else if crate::lanes::exceeds(self.value_lane_indices, self.width) {
            Some("Attention value carry lane index exceeds width"@)
        } else {
            None
        }
    }
}

impl CarryableAttentionMixState {
    fn check(&self, width: usize) -> (r: Result<(), StageError>)
        ensures
            crate::model::failure(r) == self@.fault(width),
    {
        if self.width != width {
            return fail("Attention mix carry width diverged from attention carry width");
        }
        if AttentionCheckpointProvenance::is_invalid(&self.score_provenance)
            || AttentionCheckpointProvenance::is_invalid(&self.value_provenance) {
            return fail("Attention mix carry provenance has invalid layer distance");
        }
        if self.scores.len() != self.score_lane_indices.len() || self.values.len()
            != self.value_lane_indices.len() {
            return fail("Attention mix carry vectors must match mix lane count");
        }
        if any_exceeds(&self.score_lane_indices, self.width) {
            return fail("Attention score carry lane index exceeds width");
        }
        if any_exceeds(&self.value_lane_indices, self.width) {
            return fail("Attention value carry lane index exceeds width");
        }
        Ok(())
    }
}

impl CarryableAttentionStateModel {
    /// What is wrong with the attention part of a carry: the first rule that it breaks.
    pub open spec fn fault(self) -> Option<Seq<char>> {
        if self.width() == 0 {
            Some("Attention carry width must be non-zero"@)
        } else if self.lanes() == 0 {
            Some("Attention carry must include at least one lane"@)
        } else if self.lanes() > self.width() {
            Some(
                "Attention carry lane count "@ + crate::text::dec(self.lanes()) + " exceeds width "@
                    + crate::text::dec(self.width() as nat),
            )
        } else {
            crate::model::then_check(
                match self.projection {
                    Some(projection) => projection.fault(self.width()),
                    None => None,
                },
                match self.mix {
                    Some(mix) => mix.fault(self.width()),
                    None => None,
                },
            )
        }
    }
}

impl CarryableAttentionState {
    /// Checks the attention part of a carry.
    pub(crate) fn check(&self) -> (r: Result<(), StageError>)
        ensures
            crate::model::failure(r) == self@.fault(),
    {
        let width: usize = self.width();
        let lanes: usize = self.lane_count();
        if width == 0 {
            return fail("Attention carry width must be non-zero");
        }
        if lanes == 0 {
            return fail("Attention carry must include at least one lane");
        }
        if lanes > width {
            return fail_with(
                "Attention carry lane count ".to_owned().concat(size_text(lanes).as_str()).concat(
                    " exceeds width ",
                ).concat(size_text(width).as_str()),
            );
        }
        if let Some(projection) = &self.projection {
            let result = projection.check(width);
            if result.is_err() {
                return result;
            }
        }
        if let Some(mix) = &self.mix {
            let result = mix.check(width);
            if result.is_err() {
                return result;
            }
        }
        Ok(())
    }
}

impl CarryableFfnStateModel {
    /// What is wrong with the feed-forward part of a carry: the first rule that it breaks.
    pub open spec fn fault(self) -> Option<Seq<char>> {
        if self.width == 0 {
            Some("FFN carry width must be non-zero"@)
        } else if self.lanes() == 0 {
            Some("FFN carry must include at least one lane"@)
        } else if self.lanes() > self.width {
            Some(
                "FFN carry lane count "@ + crate::text::dec(self.lanes()) + " exceeds width "@
                    + crate::text::dec(self.width as nat),
            )
        } else if self.gate_head.len() != self.lanes() || self.up_head.len() != self.lanes()
            || self.activation_head.len() != self.lanes() {
            Some("FFN carry vectors must match lane count"@)
        } else if crate::lanes::exceeds(self.lane_indices, self.width) {
            Some("FFN carry lane index exceeds width"@)
        } else {
            None
        }
    }
}

impl CarryableFfnState {
    /// Checks the feed-forward part of a carry.
    pub(crate) fn check(&self) -> (r: Result<(), StageError>)
        ensures
            crate::model::failure(r) == self@.fault(),
    {
        let lanes: usize = self.lane_count();
        if self.width == 0 {
            return fail("FFN carry width must be non-zero");
        }
        if lanes == 0 {
            return fail("FFN carry must include at least one lane");
        }
        if lanes > self.width {
            return fail_with(
                "FFN carry lane count ".to_owned().concat(size_text(lanes).as_str()).concat(
                    " exceeds width ",
                ).concat(size_text(self.width).as_str()),
            );
        }
        if self.gate_head.len() != lanes || self.up_head.len() != lanes
            || self.activation_head.len() != lanes {
            return fail("FFN carry vectors must match lane count");
        }
        if any_exceeds(&self.lane_indices, self.width) {
            return fail("FFN carry lane index exceeds width");
        }
        Ok(())
    }
}

impl StageCarryStateModel {
    /// What is wrong with a carry: the attention part's fault, else the feed-forward part's.
    pub open spec fn fault(self) -> Option<Seq<char>> {
        crate::model::then_check(
            match self.attention {
                Some(attention) => attention.fault(),
                None => None,
            },
            match self.ffn {
                Some(ffn) => ffn.fault(),
                None => None,
            },
        )
    }
}

impl StageCarryState {
    /// Checks a carry.
    pub(crate) fn check(&self) -> (r: Result<(), StageError>)
        ensures
            crate::model::failure(r) == self@.fault(),
    {
        if let Some(attention) = &self.attention {
            let result = attention.check();
            if result.is_err() {
                return result;
            }
        }
        if let Some(ffn) = &self.ffn {
            return ffn.check();
        }
        Ok(())
    }
}

/// Cutting a sound attention carry to budgets leaves a sound one, or nothing.
pub proof fn lemma_cut_keeps_attention_sound(
    carry: CarryableAttentionStateModel,
    q: Option<usize>,
    k: Option<usize>,
    v: Option<usize>,
    mix: Option<usize>,
)
    requires
        carry.fault() is None,
    ensures
        match carry.cut(q, k, v, mix) {
            Some(cut) => cut.fault() is None && cut.width() == carry.width(),
            None => true,
        },
{
}

/// What a target resumes of a sound carry is sound.
pub proof fn lemma_narrowed_is_sound(
    carry: StageCarryStateModel,
    capabilities: StageResumeCapabilities,
    budgets: StageResumeBudgets,
)
    requires
        carry.fault() is None,
    ensures
        match carry.narrowed(capabilities, budgets) {
            Some(narrowed) => narrowed.fault() is None,
            None => true,
        },
{
    if let Some(attention) = carry.attention {
        lemma_cut_keeps_attention_sound(
            attention,
            budgets.attention_q_lanes,
            budgets.attention_k_lanes,
            budgets.attention_v_lanes,
            budgets.attention_mix_lanes,
        );
    }
}

/// What a target resumes stays within its budgets, slice by slice.
pub proof fn lemma_narrowed_within_budgets(
    carry: StageCarryStateModel,
    capabilities: StageResumeCapabilities,
    budgets: StageResumeBudgets,
)
    ensures
        match carry.narrowed(capabilities, budgets) {
            Some(narrowed) => {
                &&& narrowed.attention matches Some(attention) ==> {
                    &&& capabilities.attention_projection || capabilities.attention_mix
                    &&& attention.projection is Some
                    &&& attention.mix is Some ==> capabilities.attention_mix
                    &&& within(attention.projection->0.q_lane_indices.len(), budgets.attention_q_lanes)
                    &&& within(attention.projection->0.k_lane_indices.len(), budgets.attention_k_lanes)
                    &&& within(attention.projection->0.v_lane_indices.len(), budgets.attention_v_lanes)
                    &&& attention.mix matches Some(mix) ==> within(
                        mix.lanes(),
                        budgets.attention_mix_lanes,
                    )
                }
                &&& narrowed.ffn matches Some(ffn) ==> capabilities.ffn_path && within(
                    ffn.lane_indices.len(),
                    budgets.ffn_lanes,
                )
            },
            None => true,
        },
{
}

/// Whether a count is within a budget.
pub open spec fn within(count: nat, budget: Option<usize>) -> bool {
    match budget {
        Some(budget) => count <= budget,
        None => true,
    }
}

/// Narrowing twice to the same capabilities and budgets is narrowing once.
pub proof fn lemma_narrowing_is_idempotent(
    carry: StageCarryStateModel,
    capabilities: StageResumeCapabilities,
    budgets: StageResumeBudgets,
)
    ensures
        match carry.narrowed(capabilities, budgets) {
            Some(narrowed) => narrowed.narrowed(capabilities, budgets) == Some(narrowed),
            None => true,
        },
{
    if let Some(narrowed) = carry.narrowed(capabilities, budgets) {
        let again = narrowed.narrowed(capabilities, budgets);
        assert(again is Some);
        if let Some(attention) = narrowed.attention {
            let projection = attention.projection->0;
            let next = again->0.attention->0.projection->0;
            assert(next.q_lane_indices =~= projection.q_lane_indices);
            assert(next.k_lane_indices =~= projection.k_lane_indices);
            assert(next.v_lane_indices =~= projection.v_lane_indices);
            assert(next.q =~= projection.q);
            assert(next.k =~= projection.k);
            assert(next.v =~= projection.v);
            assert(next =~= projection);
            if let Some(mix) = attention.mix {
                let next = again->0.attention->0.mix->0;
                assert(next.score_lane_indices =~= mix.score_lane_indices);
                assert(next.value_lane_indices =~= mix.value_lane_indices);
                assert(next.scores =~= mix.scores);
                assert(next.values =~= mix.values);
                assert(next =~= mix);
            }
            assert(again->0.attention->0 =~= attention);
        }
        if let Some(ffn) = narrowed.ffn {
            assert(again->0.ffn->0 =~= ffn);
        }
        assert(again->0 =~= narrowed);
    }
}

/// A policy applied twice is the policy applied once, and the full policy changes nothing.
pub proof fn lemma_policy_is_idempotent(carry: StageCarryStateModel, policy: StageCarryPolicy)
    ensures
        carry.under_policy(policy).under_policy(policy) == carry.under_policy(policy),
        carry.under_policy(StageCarryPolicy { carry_attention: true, carry_ffn: true }) == carry,
{
}

/// Ageing in two steps is ageing by the sum, with the distance held at the largest count.
pub proof fn lemma_ageing_adds_up(carry: StageCarryStateModel, first: u32, second: u32)
    requires
        first + second <= u32::MAX,
    ensures
        carry.aged(first).aged(second) == carry.aged((first + second) as u32),
{
    if let Some(attention) = carry.attention {
        if let Some(projection) = attention.projection {
            assert(projection.aged(first).aged(second) =~= projection.aged(
                (first + second) as u32,
            ));
        }
        if let Some(mix) = attention.mix {
            assert(mix.aged(first).aged(second) =~= mix.aged((first + second) as u32));
        }
    }
}

/// Ageing changes nothing but distances: the carry's lanes, values and contracts stay, so the
/// previews that it stands for stay.
pub proof fn lemma_ageing_keeps_previews(carry: StageCarryStateModel, layers: u32)
    ensures
        carry.aged(layers).to_transient() == carry.to_transient(),
{
}

/// The carry of a preview never exceeds the carry budgets.
pub proof fn lemma_preview_carry_within_budgets(value: AttentionContinuationModel)
    ensures
        CarryableAttentionStateModel::of_attention(value).projection_lanes()
            <= ATTENTION_PROJECTION_CARRY_BUDGET,
        CarryableAttentionStateModel::of_attention(value).mix_lanes() <= ATTENTION_MIX_CARRY_BUDGET,
{
}

/// Which parts of a carry cross a boundary.
#[derive(Debug, Clone, Copy, PartialEq, Eq, Structural)]
pub struct StageCarryPolicy {
    pub carry_attention: bool,
    pub carry_ffn: bool,
}

impl StageCarryPolicy {
    /// The policy of a boundary behind a stage: a head hands on attention, a middle stage both
    /// parts, a tail nothing; and only what the continuation has a path for.
    pub open spec fn boundary(
        is_head: bool,
        is_tail: bool,
        continuation: Option<StageContinuationModel>,
    ) -> Self {
        StageCarryPolicy {
            carry_attention: !is_tail && (match continuation {
                Some(continuation) => continuation.has_attention_path,
                None => true,
            }),
            carry_ffn: !is_head && !is_tail && (match continuation {
                Some(continuation) => continuation.has_ffn_path,
                None => true,
            }),
        }
    }

    /// The policy of a boundary, narrowed to what the programs behind it run.
    pub open spec fn execution_boundary(
        is_head: bool,
        is_tail: bool,
        continuation: Option<StageContinuationModel>,
        programs: Seq<LayerExecutionProgram>,
    ) -> Self {
        let policy = Self::boundary(is_head, is_tail, continuation);
        StageCarryPolicy {
            carry_attention: policy.carry_attention && exists|i: int|
                0 <= i < programs.len() && #[trigger] programs[i].runs_attention(),
            carry_ffn: policy.carry_ffn && exists|i: int|
                0 <= i < programs.len() && #[trigger] programs[i].runs_ffn(),
        }
    }

    /// Carries attention and nothing else.
    pub fn attention_only() -> (r: Self)
        ensures
            r == (StageCarryPolicy { carry_attention: true, carry_ffn: false }),
    {
        StageCarryPolicy { carry_attention: true, carry_ffn: false }
    }

    /// Carries everything.
    pub fn full() -> (r: Self)
        ensures
            r == (StageCarryPolicy { carry_attention: true, carry_ffn: true }),
    {
        StageCarryPolicy { carry_attention: true, carry_ffn: true }
    }

    /// The policy of the boundary behind `layout`.
    pub fn for_boundary(layout: &StageLayout, continuation: Option<&StageContinuation>) -> (r: Self)
        ensures
            r == Self::boundary(
                layout.is_head,
                layout.is_tail,
                match continuation {
                    Some(continuation) => Some(continuation@),
                    None => None,
                },
            ),
    {
        let mut policy = if layout.is_head && !layout.is_tail {
            Self::attention_only()
        } else if !layout.is_head && !layout.is_tail {
            Self::full()
        } else {
            StageCarryPolicy { carry_attention: false, carry_ffn: false }
        };
        if let Some(continuation) = continuation {
            policy.carry_attention = policy.carry_attention && continuation.has_attention_path;
            policy.carry_ffn = policy.carry_ffn && continuation.has_ffn_path;
        }
        policy
    }

    /// Whether some runnable program has an attention operation.
    fn any_runs_attention(programs: &[LayerExecutionProgram]) -> (r: bool)
        ensures
            r == exists|i: int| 0 <= i < programs@.len() && #[trigger] programs@[i].runs_attention(),
    {
        let mut index: usize = 0;
        while index < programs.len()
            invariant
                index <= programs@.len(),
                forall|i: int| 0 <= i < index ==> !(#[trigger] programs@[i].runs_attention()),
            decreases programs.len() - index,
        {
            let program = &programs[index];
            if program.runnable_sketch {
                let mut op: usize = 0;
                while op < program.ops.len()
                    invariant
                        op <= program.ops@.len(),
                        index < programs@.len(),
                        *program == programs@[index as int],
                        program.runnable_sketch,
                        forall|i: int|
                            0 <= i < op ==> !(#[trigger] program.ops@[i]).kind.is_attention(),
                    decreases program.ops.len() - op,
                {
                    if matches!(
                        program.ops[op].kind,
                        ExecutionOpKind::AttentionQ | ExecutionOpKind::AttentionK
                            | ExecutionOpKind::AttentionV | ExecutionOpKind::AttentionOut
                    ) {
                        assert(programs@[index as int].ops@[op as int].kind.is_attention());
                        assert(programs@[index as int].runs_attention());
                        return true;
                    }
                    op += 1;
                }
            }
            index += 1;
        }
        false
    }

    /// Whether some runnable program has a feed-forward operation.
    fn any_runs_ffn(programs: &[LayerExecutionProgram]) -> (r: bool)
        ensures
            r == exists|i: int| 0 <= i < programs@.len() && #[trigger] programs@[i].runs_ffn(),
    {
        let mut index: usize = 0;
        while index < programs.len()
            invariant
                index <= programs@.len(),
                forall|i: int| 0 <= i < index ==> !(#[trigger] programs@[i].runs_ffn()),
            decreases programs.len() - index,
        {
            let program = &programs[index];
            if program.runnable_sketch {
                let mut op: usize = 0;
                while op < program.ops.len()
                    invariant
                        op <= program.ops@.len(),
                        index < programs@.len(),
                        *program == programs@[index as int],
                        program.runnable_sketch,
                        forall|i: int| 0 <= i < op ==> !(#[trigger] program.ops@[i]).kind.is_ffn(),
                    decreases program.ops.len() - op,
                {
                    if matches!(
                        program.ops[op].kind,
                        ExecutionOpKind::FfnGate | ExecutionOpKind::FfnUp | ExecutionOpKind::FfnDown
                    ) {
                        assert(programs@[index as int].ops@[op as int].kind.is_ffn());
                        assert(programs@[index as int].runs_ffn());
                        return true;
                    }
                    op += 1;
                }
            }
            index += 1;
        }
        false
    }

    /// The policy of the boundary behind `layout`, narrowed to what the programs behind it run.
    pub fn for_execution_boundary(
        layout: &StageLayout,
        continuation: Option<&StageContinuation>,
        execution_programs: &[LayerExecutionProgram],
    ) -> (r: Self)
        ensures
            r == Self::execution_boundary(
                layout.is_head,
                layout.is_tail,
                match continuation {
                    Some(continuation) => Some(continuation@),
                    None => None,
                },
                execution_programs@,
            ),
    {
        let policy = Self::for_boundary(layout, continuation);
        let has_runnable_attention = Self::any_runs_attention(execution_programs);
        let has_runnable_ffn = Self::any_runs_ffn(execution_programs);
        StageCarryPolicy {
            carry_attention: policy.carry_attention && has_runnable_attention,
            carry_ffn: policy.carry_ffn && has_runnable_ffn,
        }
    }
}

impl Default for StageCarryPolicy {
    fn default() -> (r: Self)
        ensures
            r == (StageCarryPolicy { carry_attention: true, carry_ffn: false }),
    {
        Self::attention_only()
    }
}

} // verus!
