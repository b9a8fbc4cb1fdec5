//! One layer at work: what it takes over from a carried state, what it leaves behind, and what it
//! hands on. The numbers themselves are computed elsewhere; here they are bit patterns, and blend
//! weights are thousandths.
use vstd::prelude::*;
use vstd::string::*;
use crate::capabilities::max_usize;
use crate::carry::{
    AttentionCheckpointProvenance, AttentionCheckpointProvenanceModel, CarryableAttentionMixState,
    CarryableAttentionMixStateModel, CarryableAttentionProjectionState,
    CarryableAttentionProjectionStateModel, CarryableAttentionState, CarryableAttentionStateModel,
    CarryableFfnState, CarryableFfnStateModel, StageCarryPolicy, StageCarryState,
    StageCarryStateModel,
};
use crate::execution::{
    StageResumeContractSummary, ATTENTION_MIX_BLEND_WEIGHT_MILLI, ATTENTION_MIX_CARRY_BUDGET,
    ATTENTION_PROJECTION_BLEND_WEIGHT_MILLI, ATTENTION_PROJECTION_CARRY_BUDGET,
    TRANSIENT_PREVIEW_LEN,
};
use crate::lanes::{align, count_lanes, take_prefix};
use crate::model::StageError;
use crate::tensor::{
    AttentionContinuation, AttentionContinuationModel, FfnContinuation, FfnContinuationModel,
    StageTransientState, StageTransientStateModel,
};

verus! {

/// The vectors that a layer works with, and what of them was carried over.
#[derive(Debug)]
pub struct LayerScratch {
    pub attention_contract: StageResumeContractSummary,
    pub attn_q: Option<Vec<u32>>,
    pub attn_k: Option<Vec<u32>>,
    pub attn_v: Option<Vec<u32>>,
    pub attn_score: Option<Vec<u32>>,
    pub attn_value: Option<Vec<u32>>,
    pub attn_q_blend_weight: Option<u16>,
    pub attn_k_blend_weight: Option<u16>,
    pub attn_v_blend_weight: Option<u16>,
    pub attn_score_blend_weight: Option<u16>,
    pub attn_value_blend_weight: Option<u16>,
    pub attn_q_lane_indices: Option<Vec<usize>>,
    pub attn_k_lane_indices: Option<Vec<usize>>,
    pub attn_v_lane_indices: Option<Vec<usize>>,
    pub attn_score_lane_indices: Option<Vec<usize>>,
    pub attn_value_lane_indices: Option<Vec<usize>>,
    pub ffn_gate: Option<Vec<u32>>,
    pub ffn_up: Option<Vec<u32>>,
    pub ffn_activation: Option<Vec<u32>>,
    pub ffn_lane_indices: Option<Vec<usize>>,
    pub input_gate: Option<Vec<u32>>,
}

/// What a [`LayerScratch`] holds, as mathematical values.
#[verifier::ext_equal]
pub struct LayerScratchModel {
    pub attention_contract: StageResumeContractSummary,
    pub attn_q: Option<Seq<u32>>,
    pub attn_k: Option<Seq<u32>>,
    pub attn_v: Option<Seq<u32>>,
    pub attn_score: Option<Seq<u32>>,
    pub attn_value: Option<Seq<u32>>,
    pub attn_q_blend_weight: Option<u16>,
    pub attn_k_blend_weight: Option<u16>,
    pub attn_v_blend_weight: Option<u16>,
    pub attn_score_blend_weight: Option<u16>,
    pub attn_value_blend_weight: Option<u16>,
    pub attn_q_lane_indices: Option<Seq<usize>>,
    pub attn_k_lane_indices: Option<Seq<usize>>,
    pub attn_v_lane_indices: Option<Seq<usize>>,
    pub attn_score_lane_indices: Option<Seq<usize>>,
    pub attn_value_lane_indices: Option<Seq<usize>>,
    pub ffn_gate: Option<Seq<u32>>,
    pub ffn_up: Option<Seq<u32>>,
    pub ffn_activation: Option<Seq<u32>>,
    pub ffn_lane_indices: Option<Seq<usize>>,
    pub input_gate: Option<Seq<u32>>,
}

impl View for LayerScratch {
    type V = LayerScratchModel;

    open spec fn view(&self) -> LayerScratchModel {
        LayerScratchModel {
            attention_contract: self.attention_contract,
            attn_q: crate::model::opt(self.attn_q),
            attn_k: crate::model::opt(self.attn_k),
            attn_v: crate::model::opt(self.attn_v),
            attn_score: crate::model::opt(self.attn_score),
            attn_value: crate::model::opt(self.attn_value),
            attn_q_blend_weight: self.attn_q_blend_weight,
            attn_k_blend_weight: self.attn_k_blend_weight,
            attn_v_blend_weight: self.attn_v_blend_weight,
            attn_score_blend_weight: self.attn_score_blend_weight,
            attn_value_blend_weight: self.attn_value_blend_weight,
            attn_q_lane_indices: crate::model::opt(self.attn_q_lane_indices),
            attn_k_lane_indices: crate::model::opt(self.attn_k_lane_indices),
            attn_v_lane_indices: crate::model::opt(self.attn_v_lane_indices),
            attn_score_lane_indices: crate::model::opt(self.attn_score_lane_indices),
            attn_value_lane_indices: crate::model::opt(self.attn_value_lane_indices),
            ffn_gate: crate::model::opt(self.ffn_gate),
            ffn_up: crate::model::opt(self.ffn_up),
            ffn_activation: crate::model::opt(self.ffn_activation),
            ffn_lane_indices: crate::model::opt(self.ffn_lane_indices),
            input_gate: crate::model::opt(self.input_gate),
        }
    }
}

impl LayerScratchModel {
    /// Nothing was carried over.
    pub open spec fn empty() -> Self {
        LayerScratchModel {
            attention_contract: StageResumeContractSummary::none(),
            attn_q: None,
            attn_k: None,
            attn_v: None,
            attn_score: None,
            attn_value: None,
            attn_q_blend_weight: None,
            attn_k_blend_weight: None,
            attn_v_blend_weight: None,
            attn_score_blend_weight: None,
            attn_value_blend_weight: None,
            attn_q_lane_indices: None,
            attn_k_lane_indices: None,
            attn_v_lane_indices: None,
            attn_score_lane_indices: None,
            attn_value_lane_indices: None,
            ffn_gate: None,
            ffn_up: None,
            ffn_activation: None,
            ffn_lane_indices: None,
            input_gate: None,
        }
    }
}

impl Default for LayerScratch {
    fn default() -> (r: Self)
        ensures
            r@ == LayerScratchModel::empty(),
    {
        LayerScratch {
            attention_contract: StageResumeContractSummary::default(),
            attn_q: None,
            attn_k: None,
            attn_v: None,
            attn_score: None,
            attn_value: None,
            attn_q_blend_weight: None,
            attn_k_blend_weight: None,
            attn_v_blend_weight: None,
            attn_score_blend_weight: None,
            attn_value_blend_weight: None,
            attn_q_lane_indices: None,
            attn_k_lane_indices: None,
            attn_v_lane_indices: None,
            attn_score_lane_indices: None,
            attn_value_lane_indices: None,
            ffn_gate: None,
            ffn_up: None,
            ffn_activation: None,
            ffn_lane_indices: None,
            input_gate: None,
        }
    }
}

/// Carried values at their lanes in a vector of the given width, with zeros elsewhere. A lane that
/// is named twice gets its last value; one outside the width gets lost. Nothing at all where
/// there are no values, no lanes or no width.
pub open spec fn scattered(values: Seq<u32>, lanes: Seq<usize>, width: usize) -> Seq<u32> {
    if values.len() == 0 || lanes.len() == 0 || width == 0 {
        Seq::empty()
    } else {
        crate::lanes::aligned(
            crate::lanes::first_lanes(width),
            crate::lanes::prefix(lanes, values.len() as usize),
            values,
        )
    }
}

/// Carried values at their lanes in a vector of the given width.
pub fn scattered_values(preview: &[u32], lane_indices: &[usize], width: usize) -> (r: Vec<u32>)
    ensures
        r@ == scattered(preview@, lane_indices@, width),
{
    if preview.len() == 0 || lane_indices.len() == 0 || width == 0 {
        return Vec::new();
    }
    let targets = count_lanes(width);
    let lanes = take_prefix(lane_indices, preview.len());
    align(&targets, &lanes, preview)
}

impl LayerScratchModel {
    /// What the attention part of a carry leaves in the scratch.
    pub open spec fn with_attention(self, attention: CarryableAttentionStateModel) -> Self {
        LayerScratchModel {
            attention_contract: attention.contract,
            attn_q_blend_weight: CarryableAttentionStateModel::weight_of(
                attention.contract.attention_q,
            ),
            attn_k_blend_weight: CarryableAttentionStateModel::weight_of(
                attention.contract.attention_k,
            ),
            attn_v_blend_weight: CarryableAttentionStateModel::weight_of(
                attention.contract.attention_v,
            ),
            attn_score_blend_weight: CarryableAttentionStateModel::weight_of(
                attention.contract.attention_score,
            ),
            attn_value_blend_weight: CarryableAttentionStateModel::weight_of(
                attention.contract.attention_value,
            ),
            attn_q_lane_indices: match attention.projection {
                Some(projection) => Some(projection.q_lane_indices),
                None => self.attn_q_lane_indices,
            },
            attn_q: match attention.projection {
                Some(projection) => Some(
                    scattered(projection.q, projection.q_lane_indices, projection.width),
                ),
                None => self.attn_q,
            },
            attn_k_lane_indices: match attention.projection {
                Some(projection) => Some(projection.k_lane_indices),
                None => self.attn_k_lane_indices,
            },
            attn_k: match attention.projection {
                Some(projection) => Some(
                    scattered(projection.k, projection.k_lane_indices, projection.width),
                ),
                None => self.attn_k,
            },
            attn_v_lane_indices: match attention.projection {
                Some(projection) => Some(projection.v_lane_indices),
                None => self.attn_v_lane_indices,
            },
            attn_v: match attention.projection {
                Some(projection) => Some(
                    scattered(projection.v, projection.v_lane_indices, projection.width),
                ),
                None => self.attn_v,
            },
            attn_score_lane_indices: match attention.mix {
                Some(mix) => Some(mix.score_lane_indices),
                None => self.attn_score_lane_indices,
            },
            attn_score: match attention.mix {
                Some(mix) => Some(scattered(mix.scores, mix.score_lane_indices, mix.width)),
                None => self.attn_score,
            },
            attn_value_lane_indices: match attention.mix {
                Some(mix) => Some(mix.value_lane_indices),
                None => self.attn_value_lane_indices,
            },
            attn_value: match attention.mix {
                Some(mix) => Some(scattered(mix.values, mix.value_lane_indices, mix.width)),
                None => self.attn_value,
            },
            ffn_gate: self.ffn_gate,
            ffn_up: self.ffn_up,
            ffn_activation: self.ffn_activation,
            ffn_lane_indices: self.ffn_lane_indices,
            input_gate: self.input_gate,
        }
    }

    /// What the feed-forward part of a carry leaves in the scratch.
    pub open spec fn with_ffn(self, ffn: CarryableFfnStateModel) -> Self {
        LayerScratchModel {
            ffn_lane_indices: Some(ffn.lane_indices),
            ffn_gate: Some(scattered(ffn.gate_head, ffn.lane_indices, ffn.width)),
            ffn_up: Some(scattered(ffn.up_head, ffn.lane_indices, ffn.width)),
            ffn_activation: Some(scattered(ffn.activation_head, ffn.lane_indices, ffn.width)),
            ..self
        }
    }

    /// What a carry leaves in the scratch.
    pub open spec fn of_carry(carry: StageCarryStateModel) -> Self {
        let attended = match carry.attention {
            Some(attention) => Self::empty().with_attention(attention),
            None => Self::empty(),
        };
        match carry.ffn {
            Some(ffn) => attended.with_ffn(ffn),
            None => attended,
        }
    }

    /// What is wrong with a carry that is to be taken over: its attention contracts.
    pub open spec fn carry_fault(carry: StageCarryStateModel) -> Option<Seq<char>> {
        match carry.attention {
            Some(attention) => attention.contract_fault(),
            None => None,
        }
    }

    /// The weight that a carried attention vector is blended with: that of its contract, or the
    /// usual one where nothing was contracted.
    pub open spec fn blend(self, typed: Option<u16>, usual: u16) -> Option<u16> {
        if self.attention_contract == StageResumeContractSummary::none() {
            Some(usual)
        } else {
            typed
        }
    }
}

/// A vector of a layer that a carried one can be blended into.
#[derive(Debug, Clone, Copy, PartialEq, Eq, Structural)]
pub enum BlendSlot {
    Query,
    Key,
    Value,
    Score,
    MixedValue,
    Gate,
    Up,
    Activation,
}

/// What is blended into a vector: the carried one, the lanes that it was carried for, and the
/// weight in thousandths.
#[derive(Debug)]
pub struct Blend {
    pub carry: Vec<u32>,
    pub lanes: Option<Vec<usize>>,
    pub weight_milli: u16,
}

/// What a [`Blend`] holds, as mathematical values.
#[verifier::ext_equal]
pub struct BlendModel {
    pub carry: Seq<u32>,
    pub lanes: Option<Seq<usize>>,
    pub weight_milli: u16,
}

impl View for Blend {
    type V = BlendModel;

    open spec fn view(&self) -> BlendModel {
        BlendModel {
            carry: self.carry@,
            lanes: crate::model::opt(self.lanes),
            weight_milli: self.weight_milli,
        }
    }
}

impl BlendModel {
    /// A blend, where there is both a carried vector and a weight.
    pub open spec fn of_parts(
        carry: Option<Seq<u32>>,
        lanes: Option<Seq<usize>>,
        weight_milli: Option<u16>,
    ) -> Option<Self> {
        match (carry, weight_milli) {
            (Some(carry), Some(weight_milli)) => Some(BlendModel { carry, lanes, weight_milli }),
            _ => None,
        }
    }
}

fn clone_sizes(values: &Option<Vec<usize>>) -> (r: Option<Vec<usize>>)
    ensures
        crate::model::opt(r) == crate::model::opt(*values),
{
    match values {
        Some(values) => {
            let copy = values.clone();
            assert(copy@ =~= values@);
            Some(copy)
        },
        None => None,
    }
}

fn copy_numbers(values: &Vec<u32>) -> (r: Vec<u32>)
    ensures
        r@ == values@,
{
    let copy = values.clone();
    assert(copy@ =~= values@);
    copy
}

fn copy_sizes(values: &Vec<usize>) -> (r: Vec<usize>)
    ensures
        r@ == values@,
{
    let copy = values.clone();
    assert(copy@ =~= values@);
    copy
}

/// The weight that a carried gate, up or attention projection vector is blended with.
pub open spec fn projection_weight() -> u16 {
    ATTENTION_PROJECTION_BLEND_WEIGHT_MILLI
}

/// The weight that a carried activation or attention mix vector is blended with.
pub open spec fn mix_weight() -> u16 {
    ATTENTION_MIX_BLEND_WEIGHT_MILLI
}

impl LayerScratchModel {
    /// What is blended into the given vector.
    pub open spec fn blend_into(self, slot: BlendSlot) -> Option<BlendModel> {
        match slot {
            BlendSlot::Query => BlendModel::of_parts(
                self.attn_q,
                self.attn_q_lane_indices,
                self.blend(self.attn_q_blend_weight, projection_weight()),
            ),
            BlendSlot::Key => BlendModel::of_parts(
                self.attn_k,
                self.attn_k_lane_indices,
                self.blend(self.attn_k_blend_weight, projection_weight()),
            ),
            BlendSlot::Value => BlendModel::of_parts(
                self.attn_v,
                self.attn_v_lane_indices,
                self.blend(self.attn_v_blend_weight, projection_weight()),
            ),
            BlendSlot::Score => BlendModel::of_parts(
                self.attn_score,
                self.attn_score_lane_indices,
                self.blend(self.attn_score_blend_weight, mix_weight()),
            ),
            BlendSlot::MixedValue => BlendModel::of_parts(
                self.attn_value,
                self.attn_value_lane_indices,
                self.blend(self.attn_value_blend_weight, mix_weight()),
            ),
            BlendSlot::Gate => BlendModel::of_parts(
                self.ffn_gate,
                self.ffn_lane_indices,
                Some(projection_weight()),
            ),
            BlendSlot::Up => BlendModel::of_parts(
                self.ffn_up,
                self.ffn_lane_indices,
                Some(projection_weight()),
            ),
            BlendSlot::Activation => BlendModel::of_parts(
                self.ffn_activation,
                self.ffn_lane_indices,
                Some(mix_weight()),
            ),
        }
    }
}

impl Blend {
    fn from_parts(
        carry: &Option<Vec<u32>>,
        lanes: &Option<Vec<usize>>,
        weight_milli: Option<u16>,
    ) -> (r: Option<Self>)
        ensures
            crate::model::opt(r) == BlendModel::of_parts(
                crate::model::opt(*carry),
                crate::model::opt(*lanes),
                weight_milli,
            ),
    {
        match (carry, weight_milli) {
            (Some(carry), Some(weight_milli)) => Some(
                Blend { carry: copy_numbers(carry), lanes: clone_sizes(lanes), weight_milli },
            ),
            _ => None,
        }
    }
}

impl LayerScratch {
    /// The weight that a carried attention vector is blended with.
    pub fn typed_or_legacy_attention_blend(
        &self,
        typed_weight: Option<u16>,
        legacy_weight: u16,
    ) -> (r: Option<u16>)
        ensures
            r == self@.blend(typed_weight, legacy_weight),
    {
        if self.attention_contract.is_empty() {
            Some(legacy_weight)
        } else {
            typed_weight
        }
    }

    fn take_attention(&mut self, attention: &CarryableAttentionState)
        ensures
            final(self)@ == old(self)@.with_attention(attention@),
    {
        self.attention_contract = attention.contract;
        self.attn_q_blend_weight = attention.blend_weight_for_q();
        self.attn_k_blend_weight = attention.blend_weight_for_k();
        self.attn_v_blend_weight = attention.blend_weight_for_v();
        self.attn_score_blend_weight = attention.blend_weight_for_score();
        self.attn_value_blend_weight = attention.blend_weight_for_value();
        if let Some(projection) = &attention.projection {
            self.attn_q_lane_indices = Some(copy_sizes(&projection.q_lane_indices));
            self.attn_q = Some(
                scattered_values(&projection.q, &projection.q_lane_indices, projection.width),
            );
            self.attn_k_lane_indices = Some(copy_sizes(&projection.k_lane_indices));
            self.attn_k = Some(
                scattered_values(&projection.k, &projection.k_lane_indices, projection.width),
            );
            self.attn_v_lane_indices = Some(copy_sizes(&projection.v_lane_indices));
            self.attn_v = Some(
                scattered_values(&projection.v, &projection.v_lane_indices, projection.width),
            );
        }
        if let Some(mix) = &attention.mix {
            self.attn_score_lane_indices = Some(copy_sizes(&mix.score_lane_indices));
            self.attn_score = Some(scattered_values(&mix.scores, &mix.score_lane_indices, mix.width));
            self.attn_value_lane_indices = Some(copy_sizes(&mix.value_lane_indices));
            self.attn_value = Some(scattered_values(&mix.values, &mix.value_lane_indices, mix.width));
        }
    }

    fn take_ffn(&mut self, ffn: &CarryableFfnState)
        ensures
            final(self)@ == old(self)@.with_ffn(ffn@),
    {
        self.ffn_lane_indices = Some(copy_sizes(&ffn.lane_indices));
        self.ffn_gate = Some(scattered_values(&ffn.gate_head, &ffn.lane_indices, ffn.width));
        self.ffn_up = Some(scattered_values(&ffn.up_head, &ffn.lane_indices, ffn.width));
        self.ffn_activation = Some(
            scattered_values(&ffn.activation_head, &ffn.lane_indices, ffn.width),
        );
    }

    /// What a carry leaves in the scratch; an error where its attention contracts do not hold.
    pub fn scratch_from_resume_carry(carry: &StageCarryState) -> (r: Result<Self, StageError>)
        ensures
            crate::model::failure(r) == LayerScratchModel::carry_fault(carry@),
            r matches Ok(scratch) ==> scratch@ == LayerScratchModel::of_carry(carry@),
    {
        let mut scratch = LayerScratch::default();
        if let Some(attention) = &carry.attention {
            if let Err(error) = attention.validate_contract_for_present_substates() {
                return Err(error);
            }
            scratch.take_attention(attention);
        }
        if let Some(ffn) = &carry.ffn {
            scratch.take_ffn(ffn);
        }
        Ok(scratch)
    }

    /// What is blended into the given vector.
    pub fn blend_for(&self, slot: BlendSlot) -> (r: Option<Blend>)
        ensures
            crate::model::opt(r) == self@.blend_into(slot),
    {
        match slot {
            BlendSlot::Query => Blend::from_parts(
                &self.attn_q,
                &self.attn_q_lane_indices,
                self.typed_or_legacy_attention_blend(
                    self.attn_q_blend_weight,
                    ATTENTION_PROJECTION_BLEND_WEIGHT_MILLI,
                ),
            ),
            BlendSlot::Key => Blend::from_parts(
                &self.attn_k,
                &self.attn_k_lane_indices,
                self.typed_or_legacy_attention_blend(
                    self.attn_k_blend_weight,
                    ATTENTION_PROJECTION_BLEND_WEIGHT_MILLI,
                ),
            ),
            BlendSlot::Value => Blend::from_parts(
                &self.attn_v,
                &self.attn_v_lane_indices,
                self.typed_or_legacy_attention_blend(
                    self.attn_v_blend_weight,
                    ATTENTION_PROJECTION_BLEND_WEIGHT_MILLI,
                ),
            ),
            BlendSlot::Score => Blend::from_parts(
                &self.attn_score,
                &self.attn_score_lane_indices,
                self.typed_or_legacy_attention_blend(
                    self.attn_score_blend_weight,
                    ATTENTION_MIX_BLEND_WEIGHT_MILLI,
                ),
            ),
            BlendSlot::MixedValue => Blend::from_parts(
                &self.attn_value,
                &self.attn_value_lane_indices,
                self.typed_or_legacy_attention_blend(
                    self.attn_value_blend_weight,
                    ATTENTION_MIX_BLEND_WEIGHT_MILLI,
                ),
            ),
            BlendSlot::Gate => Blend::from_parts(
                &self.ffn_gate,
                &self.ffn_lane_indices,
                Some(ATTENTION_PROJECTION_BLEND_WEIGHT_MILLI),
            ),
            BlendSlot::Up => Blend::from_parts(
                &self.ffn_up,
                &self.ffn_lane_indices,
                Some(ATTENTION_PROJECTION_BLEND_WEIGHT_MILLI),
            ),
            BlendSlot::Activation => Blend::from_parts(
                &self.ffn_activation,
                &self.ffn_lane_indices,
                Some(ATTENTION_MIX_BLEND_WEIGHT_MILLI),
            ),
        }
    }
}

/// The lanes among `lanes` that both vectors have, in order.
pub open spec fn shared_lanes(current_len: nat, carry_len: nat, lanes: Seq<usize>) -> Seq<
    (usize, usize),
>
    decreases lanes.len(),
{
    if lanes.len() == 0 {
        Seq::empty()
    } else {
        let front = shared_lanes(current_len, carry_len, lanes.drop_last());
        if lanes.last() < current_len && lanes.last() < carry_len {
            front.push((lanes.last(), lanes.last()))
        } else {
            front
        }
    }
}

/// Which entry of a carried vector is blended into which entry of the current one, in order: at
/// the lanes given, else everywhere, with the carried vector over and over.
pub open spec fn blend_steps(current_len: nat, carry_len: nat, lanes: Option<Seq<usize>>) -> Seq<
    (usize, usize),
> {
    if current_len == 0 || carry_len == 0 {
        Seq::empty()
    } else {
        match lanes {
            Some(lanes) => shared_lanes(current_len, carry_len, lanes),
            None => Seq::new(
                current_len,
                |i: int| (i as usize, (i % carry_len as int) as usize),
            ),
        }
    }
}

/// Which entry of a carried vector is blended into which entry of the current one, in order.
pub fn blend_lane_steps(current_len: usize, carry_len: usize, lanes: Option<&[usize]>) -> (r: Vec<
    (usize, usize),
>)
    ensures
        r@ == blend_steps(
            current_len as nat,
            carry_len as nat,
            match lanes {
                Some(lanes) => Some(lanes@),
                None => None,
            },
        ),
{
    let mut steps: Vec<(usize, usize)> = Vec::new();
    if current_len == 0 || carry_len == 0 {
        return steps;
    }
    let mut index: usize = 0;
    match lanes {
        Some(lanes) => {
            assert(lanes@.take(0) =~= Seq::empty());
            while index < lanes.len()
                invariant
                    index <= lanes@.len(),
                    steps@ == shared_lanes(
                        current_len as nat,
                        carry_len as nat,
                        lanes@.take(index as int),
                    ),
                decreases lanes.len() - index,
            {
                proof {
                    assert(lanes@.take(index + 1).drop_last() =~= lanes@.take(index as int));
                    assert(lanes@.take(index + 1).last() == lanes@[index as int]);
                }
                let lane: usize = lanes[index];
                if lane < current_len && lane < carry_len {
                    steps.push((lane, lane));
                }
                index += 1;
            }
            assert(lanes@.take(index as int) =~= lanes@);
        },
        None => {
            while index < current_len
                invariant
                    index <= current_len,
                    carry_len > 0,
                    steps@.len() == index,
                    forall|i: int|
                        0 <= i < index ==> #[trigger] steps@[i] == (
                            i as usize,
                            (i % carry_len as int) as usize,
                        ),
                decreases current_len - index,
            {
                steps.push((index, index % carry_len));
                index += 1;
            }
            assert(steps@ =~= blend_steps(current_len as nat, carry_len as nat, None));
        },
    }
    steps
}

/// The three vectors of an attention projection.
#[derive(Debug)]
pub struct AttentionScratchState {
    pub q: Vec<u32>,
    pub k: Vec<u32>,
    pub v: Vec<u32>,
}

/// What an [`AttentionScratchState`] holds, as mathematical values.
#[verifier::ext_equal]
pub struct AttentionScratchStateModel {
    pub q: Seq<u32>,
    pub k: Seq<u32>,
    pub v: Seq<u32>,
}

impl View for AttentionScratchState {
    type V = AttentionScratchStateModel;

    open spec fn view(&self) -> AttentionScratchStateModel {
        AttentionScratchStateModel { q: self.q@, k: self.k@, v: self.v@ }
    }
}

/// The two vectors of an attention mix.
#[derive(Debug)]
pub struct AttentionMixState {
    pub scores: Vec<u32>,
    pub values: Vec<u32>,
}

/// What an [`AttentionMixState`] holds, as mathematical values.
#[verifier::ext_equal]
pub struct AttentionMixStateModel {
    pub scores: Seq<u32>,
    pub values: Seq<u32>,
}

impl View for AttentionMixState {
    type V = AttentionMixStateModel;

    open spec fn view(&self) -> AttentionMixStateModel {
        AttentionMixStateModel { scores: self.scores@, values: self.values@ }
    }
}

/// The two vectors of a feed-forward projection.
#[derive(Debug)]
pub struct FfnScratchState {
    pub gate: Vec<u32>,
    pub up: Vec<u32>,
}

/// What a [`FfnScratchState`] holds, as mathematical values.
#[verifier::ext_equal]
pub struct FfnScratchStateModel {
    pub gate: Seq<u32>,
    pub up: Seq<u32>,
}

impl View for FfnScratchState {
    type V = FfnScratchStateModel;

    open spec fn view(&self) -> FfnScratchStateModel {
        FfnScratchStateModel { gate: self.gate@, up: self.up@ }
    }
}

/// The activations of a feed-forward block.
#[derive(Debug)]
pub struct FfnMixState {
    pub activations: Vec<u32>,
}

impl View for FfnMixState {
    type V = Seq<u32>;

    open spec fn view(&self) -> Seq<u32> {
        self.activations@
    }
}

impl LayerScratchModel {
    /// The attention projection, once all three vectors are there.
    pub open spec fn attention_state(self) -> Option<AttentionScratchStateModel> {
        match (self.attn_q, self.attn_k, self.attn_v) {
            (Some(q), Some(k), Some(v)) => Some(AttentionScratchStateModel { q, k, v }),
            _ => None,
        }
    }

    /// The feed-forward projection, once both vectors are there.
    pub open spec fn ffn_state(self) -> Option<FfnScratchStateModel> {
        match (self.ffn_gate, self.ffn_up) {
            (Some(gate), Some(up)) => Some(FfnScratchStateModel { gate, up }),
            _ => None,
        }
    }
}

impl LayerScratch {
    /// The attention projection, once all three vectors are there.
    pub fn build_attention_state(&self) -> (r: Option<AttentionScratchState>)
        ensures
            crate::model::opt(r) == self@.attention_state(),
    {
        match (&self.attn_q, &self.attn_k, &self.attn_v) {
            (Some(q), Some(k), Some(v)) => Some(
                AttentionScratchState {
                    q: copy_numbers(q),
                    k: copy_numbers(k),
                    v: copy_numbers(v),
                },
            ),
            _ => None,
        }
    }

    /// The feed-forward projection, once both vectors are there.
    pub fn build_ffn_state(&self) -> (r: Option<FfnScratchState>)
        ensures
            crate::model::opt(r) == self@.ffn_state(),
    {
        match (&self.ffn_gate, &self.ffn_up) {
            (Some(gate), Some(up)) => Some(
                FfnScratchState { gate: copy_numbers(gate), up: copy_numbers(up) },
            ),
            _ => None,
        }
    }
}

/// The first entries of a vector, as a preview shows them.
pub open spec fn preview_of(values: Seq<u32>) -> Seq<u32> {
    crate::lanes::prefix(values, TRANSIENT_PREVIEW_LEN)
}

/// The first entries of a vector, as a preview shows them.
pub fn preview(values: &[u32]) -> (r: Vec<u32>)
    ensures
        r@ == preview_of(values@),
{
    take_prefix(values, TRANSIENT_PREVIEW_LEN)
}

/// The larger of three lengths.
pub open spec fn longest(a: nat, b: nat, c: nat) -> usize {
    crate::capabilities::spec_max(crate::capabilities::spec_max(a as usize, b as usize), c as usize)
}

impl AttentionContinuationModel {
    /// The preview of an attention block.
    pub open spec fn of_block(state: AttentionScratchStateModel, mix: AttentionMixStateModel) -> Self {
        AttentionContinuationModel {
            width: longest(state.q.len(), state.k.len(), state.v.len()),
            lane_indices: crate::lanes::first_lanes(preview_of(state.q).len() as usize),
            q_preview: preview_of(state.q),
            k_preview: preview_of(state.k),
            v_preview: preview_of(state.v),
            score_preview: preview_of(mix.scores),
            value_preview: preview_of(mix.values),
        }
    }
}

impl FfnContinuationModel {
    /// The preview of a feed-forward block.
    pub open spec fn of_block(state: FfnScratchStateModel, activations: Seq<u32>) -> Self {
        FfnContinuationModel {
            width: crate::capabilities::spec_max(
                state.gate.len() as usize,
                state.up.len() as usize,
            ),
            lane_indices: crate::lanes::first_lanes(preview_of(state.gate).len() as usize),
            gate_preview: preview_of(state.gate),
            up_preview: preview_of(state.up),
            activation_preview: preview_of(activations),
        }
    }

    /// The whole of a feed-forward block, as a carry is made of it.
    pub open spec fn whole_block(state: FfnScratchStateModel, activations: Seq<u32>) -> Self {
        FfnContinuationModel {
            width: crate::capabilities::spec_max(
                state.gate.len() as usize,
                state.up.len() as usize,
            ),
            lane_indices: crate::lanes::first_lanes(
                longest(state.gate.len(), state.up.len(), activations.len()),
            ),
            gate_preview: state.gate,
            up_preview: state.up,
            activation_preview: activations,
        }
    }
}

/// Where the slices of an attention block were computed.
#[derive(Debug, PartialEq)]
pub struct AttentionOrigins {
    pub q: Option<AttentionCheckpointProvenance>,
    pub k: Option<AttentionCheckpointProvenance>,
    pub v: Option<AttentionCheckpointProvenance>,
    pub score: Option<AttentionCheckpointProvenance>,
    pub value: Option<AttentionCheckpointProvenance>,
}

/// What an [`AttentionOrigins`] holds, as mathematical values.
#[verifier::ext_equal]
pub struct AttentionOriginsModel {
    pub q: Option<AttentionCheckpointProvenanceModel>,
    pub k: Option<AttentionCheckpointProvenanceModel>,
    pub v: Option<AttentionCheckpointProvenanceModel>,
    pub score: Option<AttentionCheckpointProvenanceModel>,
    pub value: Option<AttentionCheckpointProvenanceModel>,
}

impl View for AttentionOrigins {
    type V = AttentionOriginsModel;

    open spec fn view(&self) -> AttentionOriginsModel {
        AttentionOriginsModel {
            q: crate::model::opt(self.q),
            k: crate::model::opt(self.k),
            v: crate::model::opt(self.v),
            score: crate::model::opt(self.score),
            value: crate::model::opt(self.value),
        }
    }
}

impl CarryableAttentionStateModel {
    /// The carry of an attention block: its first lanes, within the carry budgets, under the
    /// usual contracts.
    pub open spec fn of_block(
        state: AttentionScratchStateModel,
        mix: AttentionMixStateModel,
        origins: AttentionOriginsModel,
    ) -> Self {
        let width = longest(state.q.len(), state.k.len(), state.v.len());
        let q = crate::lanes::prefix(state.q, ATTENTION_PROJECTION_CARRY_BUDGET);
        let k = crate::lanes::prefix(state.k, ATTENTION_PROJECTION_CARRY_BUDGET);
        let v = crate::lanes::prefix(state.v, ATTENTION_PROJECTION_CARRY_BUDGET);
        let scores = crate::lanes::prefix(mix.scores, ATTENTION_MIX_CARRY_BUDGET);
        let values = crate::lanes::prefix(mix.values, ATTENTION_MIX_CARRY_BUDGET);
        CarryableAttentionStateModel {
            contract: StageResumeContractSummary::defaults(),
            projection: Some(
                CarryableAttentionProjectionStateModel {
                    width,
                    q_provenance: origins.q,
                    k_provenance: origins.k,
                    v_provenance: origins.v,
                    q_lane_indices: crate::lanes::first_lanes(q.len() as usize),
                    k_lane_indices: crate::lanes::first_lanes(k.len() as usize),
                    v_lane_indices: crate::lanes::first_lanes(v.len() as usize),
                    q,
                    k,
                    v,
                },
            ),
            mix: Some(
                CarryableAttentionMixStateModel {
                    width,
                    score_provenance: origins.score,
                    value_provenance: origins.value,
                    score_lane_indices: crate::lanes::first_lanes(scores.len() as usize),
                    value_lane_indices: crate::lanes::first_lanes(values.len() as usize),
                    scores,
                    values,
                },
            ),
        }
    }
}

fn attention_preview(state: &AttentionScratchState, mix: &AttentionMixState) -> (r:
    AttentionContinuation)
    ensures
        r@ == AttentionContinuationModel::of_block(state@, mix@),
{
    let q_preview = preview(&state.q);
    let lane_indices = count_lanes(q_preview.len());
    AttentionContinuation {
        width: max_usize(max_usize(state.q.len(), state.k.len()), state.v.len()),
        lane_indices,
        q_preview,
        k_preview: preview(&state.k),
        v_preview: preview(&state.v),
        score_preview: preview(&mix.scores),
        value_preview: preview(&mix.values),
    }
}

fn ffn_preview(state: &FfnScratchState, mix: &FfnMixState) -> (r: FfnContinuation)
    ensures
        r@ == FfnContinuationModel::of_block(state@, mix@),
{
    let gate_preview = preview(&state.gate);
    let lane_indices = count_lanes(gate_preview.len());
    FfnContinuation {
        width: max_usize(state.gate.len(), state.up.len()),
        lane_indices,
        gate_preview,
        up_preview: preview(&state.up),
        activation_preview: preview(&mix.activations),
    }
}

fn ffn_carry(state: &FfnScratchState, mix: &FfnMixState) -> (r: CarryableFfnState)
    ensures
        r@ == CarryableFfnStateModel::of_ffn(FfnContinuationModel::whole_block(state@, mix@)),
{
    let count: usize = max_usize(
        max_usize(state.gate.len(), state.up.len()),
        mix.activations.len(),
    );
    let whole = FfnContinuation {
        width: max_usize(state.gate.len(), state.up.len()),
        lane_indices: count_lanes(count),
        gate_preview: copy_numbers(&state.gate),
        up_preview: copy_numbers(&state.up),
        activation_preview: copy_numbers(&mix.activations),
    };
    CarryableFfnState::from_ffn(&whole)
}

/// The carry of an attention block.
pub fn carry_for_attention_checkpoint(
    state: &AttentionScratchState,
    mix: &AttentionMixState,
    origins: AttentionOrigins,
) -> (r: CarryableAttentionState)
    ensures
        r@ == CarryableAttentionStateModel::of_block(state@, mix@, origins@),
{
    let width: usize = max_usize(max_usize(state.q.len(), state.k.len()), state.v.len());
    let q = take_prefix(&state.q, ATTENTION_PROJECTION_CARRY_BUDGET);
    let k = take_prefix(&state.k, ATTENTION_PROJECTION_CARRY_BUDGET);
    let v = take_prefix(&state.v, ATTENTION_PROJECTION_CARRY_BUDGET);
    let scores = take_prefix(&mix.scores, ATTENTION_MIX_CARRY_BUDGET);
    let values = take_prefix(&mix.values, ATTENTION_MIX_CARRY_BUDGET);
    CarryableAttentionState {
        contract: StageResumeContractSummary::current_attention_defaults(),
        projection: Some(
            CarryableAttentionProjectionState {
                width,
                q_provenance: origins.q,
                k_provenance: origins.k,
                v_provenance: origins.v,
                q_lane_indices: count_lanes(q.len()),
                k_lane_indices: count_lanes(k.len()),
                v_lane_indices: count_lanes(v.len()),
                q,
                k,
                v,
            },
        ),
        mix: Some(
            CarryableAttentionMixState {
                width,
                score_provenance: origins.score,
                value_provenance: origins.value,
                score_lane_indices: count_lanes(scores.len()),
                value_lane_indices: count_lanes(values.len()),
                scores,
                values,
            },
        ),
    }
}

/// One layer at work.
#[derive(Debug)]
pub struct LayerRun {
    pub layer_index: u32,
    pub scratch: LayerScratch,
    pub attention: Option<AttentionScratchState>,
    pub mix: Option<AttentionMixState>,
    pub origins: AttentionOrigins,
    pub ffn: Option<FfnScratchState>,
    pub ffn_mix: Option<FfnMixState>,
}

/// What a [`LayerRun`] holds, as mathematical values.
#[verifier::ext_equal]
pub struct LayerRunModel {
    pub layer_index: u32,
    pub scratch: LayerScratchModel,
    pub attention: Option<AttentionScratchStateModel>,
    pub mix: Option<AttentionMixStateModel>,
    pub origins: AttentionOriginsModel,
    pub ffn: Option<FfnScratchStateModel>,
    pub ffn_mix: Option<Seq<u32>>,
}

impl View for LayerRun {
    type V = LayerRunModel;

    open spec fn view(&self) -> LayerRunModel {
        LayerRunModel {
            layer_index: self.layer_index,
            scratch: self.scratch@,
            attention: crate::model::opt(self.attention),
            mix: crate::model::opt(self.mix),
            origins: self.origins@,
            ffn: crate::model::opt(self.ffn),
            ffn_mix: crate::model::opt(self.ffn_mix),
        }
    }
}

/// A slice of an attention projection.
#[derive(Debug, Clone, Copy, PartialEq, Eq, Structural)]
pub enum ProjectionSlice {
    Query,
    Key,
    Value,
}

impl ProjectionSlice {
    /// The name of the operation that computes the slice.
    pub open spec fn operator(self) -> Seq<char> {
        match self {
            ProjectionSlice::Query => "AttentionQ"@,
            ProjectionSlice::Key => "AttentionK"@,
            ProjectionSlice::Value => "AttentionV"@,
        }
    }

    fn operator_name(self) -> (r: &'static str)
        ensures
            r@ == self.operator(),
    {
        match self {
            ProjectionSlice::Query => "AttentionQ",
            ProjectionSlice::Key => "AttentionK",
            ProjectionSlice::Value => "AttentionV",
        }
    }
}

impl AttentionCheckpointProvenanceModel {
    /// The origin of a slice that was computed just now.
    pub open spec fn fresh(layer_index: u32, operator_kind: Seq<char>) -> Self {
        AttentionCheckpointProvenanceModel {
            layer_index,
            operator_kind,
            layer_distance_to_boundary: 0,
        }
    }
}

fn fresh_origin(layer_index: u32, operator_kind: &str) -> (r: AttentionCheckpointProvenance)
    ensures
        r@ == AttentionCheckpointProvenanceModel::fresh(layer_index, operator_kind@),
{
    AttentionCheckpointProvenance {
        layer_index,
        operator_kind: operator_kind.to_owned(),
        layer_distance_to_boundary: 0,
    }
}

impl LayerRunModel {
    /// A layer that starts with what a carry left it, or with nothing.
    pub open spec fn starting(layer_index: u32, carry: Option<StageCarryStateModel>) -> Self {
        LayerRunModel {
            layer_index,
            scratch: match carry {
                Some(carry) => LayerScratchModel::of_carry(carry),
                None => LayerScratchModel::empty(),
            },
            attention: None,
            mix: None,
            origins: AttentionOriginsModel { q: None, k: None, v: None, score: None, value: None },
            ffn: None,
            ffn_mix: None,
        }
    }

    /// The layer after it projected an attention slice. Once all three are there, they are the
    /// layer's attention state.
    pub open spec fn projected(self, slice: ProjectionSlice, values: Seq<u32>) -> Self {
        let origin = Some(
            AttentionCheckpointProvenanceModel::fresh(self.layer_index, slice.operator()),
        );
        let scratch = match slice {
            ProjectionSlice::Query => LayerScratchModel { attn_q: Some(values), ..self.scratch },
            ProjectionSlice::Key => LayerScratchModel { attn_k: Some(values), ..self.scratch },
            ProjectionSlice::Value => LayerScratchModel { attn_v: Some(values), ..self.scratch },
        };
        LayerRunModel {
            scratch,
            attention: if scratch.attention_state() is Some {
                scratch.attention_state()
            } else {
                self.attention
            },
            origins: match slice {
                ProjectionSlice::Query => AttentionOriginsModel { q: origin, ..self.origins },
                ProjectionSlice::Key => AttentionOriginsModel { k: origin, ..self.origins },
                ProjectionSlice::Value => AttentionOriginsModel { v: origin, ..self.origins },
            },
            ..self
        }
    }

    /// The layer after it mixed its attention. Without an attention projection nothing changes.
    pub open spec fn mixed(self, mix: AttentionMixStateModel) -> Self {
        let origin = Some(
            AttentionCheckpointProvenanceModel::fresh(self.layer_index, "AttentionOut"@),
        );
        if self.scratch.attention_state() is Some {
            LayerRunModel {
                attention: self.scratch.attention_state(),
                mix: Some(mix),
                origins: AttentionOriginsModel { score: origin, value: origin, ..self.origins },
                ..self
            }
        } else {
            self
        }
    }

    /// The layer once one half of its feed-forward block is projected.
    pub open spec fn with_gate(self, values: Seq<u32>) -> Self {
        LayerRunModel {
            scratch: LayerScratchModel { ffn_gate: Some(values), ..self.scratch },
            ..self
        }
    }

    /// The layer once the other half of its feed-forward block is projected.
    pub open spec fn with_up(self, values: Seq<u32>) -> Self {
        LayerRunModel {
            scratch: LayerScratchModel { ffn_up: Some(values), ..self.scratch },
            ..self
        }
    }

    /// The layer once its input gate is projected.
    pub open spec fn with_input_gate(self, values: Seq<u32>) -> Self {
        LayerRunModel {
            scratch: LayerScratchModel { input_gate: Some(values), ..self.scratch },
            ..self
        }
    }

    /// The layer after it mixed its feed-forward block. Without a projection nothing changes.
    pub open spec fn ffn_mixed(self, activations: Seq<u32>) -> Self {
        if self.scratch.ffn_state() is Some {
            LayerRunModel {
                ffn: self.scratch.ffn_state(),
                ffn_mix: Some(activations),
                ..self
            }
        } else {
            self
        }
    }

    /// The preview that the layer leaves: of the attention block where it was mixed, and of the
    /// feed-forward block where that was.
    pub open spec fn transient(self) -> Option<StageTransientStateModel> {
        let attention = match (self.attention, self.mix) {
            (Some(state), Some(mix)) => Some(AttentionContinuationModel::of_block(state, mix)),
            _ => None,
        };
        let ffn = match (self.ffn, self.ffn_mix) {
            (Some(state), Some(mix)) => Some(FfnContinuationModel::of_block(state, mix)),
            _ => None,
        };
        if attention is None && ffn is None {
            None
        } else {
            Some(StageTransientStateModel { attention, ffn })
        }
    }

    /// The carry that the layer leaves under a policy.
    pub open spec fn carry(self, policy: StageCarryPolicy) -> Option<StageCarryStateModel> {
        StageCarryStateModel::of_parts(
            match (self.attention, self.mix) {
                (Some(state), Some(mix)) if policy.carry_attention => Some(
                    CarryableAttentionStateModel::of_block(state, mix, self.origins),
                ),
                _ => None,
            },
            match (self.ffn, self.ffn_mix) {
                (Some(state), Some(mix)) if policy.carry_ffn => Some(
                    CarryableFfnStateModel::of_ffn(FfnContinuationModel::whole_block(state, mix)),
                ),
                _ => None,
            },
        )
    }
}

impl LayerRun {
    /// A layer that starts with what a carry left it, or with nothing; an error where the carry's
    /// attention contracts do not hold.
    pub fn start(layer_index: u32, resume_carry: Option<&StageCarryState>) -> (r: Result<
        Self,
        StageError,
    >)
        ensures
            crate::model::failure(r) == (match resume_carry {
                Some(carry) => LayerScratchModel::carry_fault(carry@),
                None => None,
            }),
            r matches Ok(run) ==> run@ == LayerRunModel::starting(
                layer_index,
                match resume_carry {
                    Some(carry) => Some(carry@),
                    None => None,
                },
            ),
    {
        let scratch = match resume_carry {
            Some(carry) => match LayerScratch::scratch_from_resume_carry(carry) {
                Ok(scratch) => scratch,
                Err(error) => return Err(error),
            },
            None => LayerScratch::default(),
        };
        Ok(
            LayerRun {
                layer_index,
                scratch,
                attention: None,
                mix: None,
                origins: AttentionOrigins { q: None, k: None, v: None, score: None, value: None },
                ffn: None,
                ffn_mix: None,
            },
        )
    }

    /// Takes a projected attention slice.
    pub fn project(&mut self, slice: ProjectionSlice, values: Vec<u32>)
        ensures
            final(self)@ == old(self)@.projected(slice, values@),
    {
        let origin = fresh_origin(self.layer_index, slice.operator_name());
        match slice {
            ProjectionSlice::Query => {
                self.scratch.attn_q = Some(values);
                self.origins.q = Some(origin);
            },
            ProjectionSlice::Key => {
                self.scratch.attn_k = Some(values);
                self.origins.k = Some(origin);
            },
            ProjectionSlice::Value => {
                self.scratch.attn_v = Some(values);
                self.origins.v = Some(origin);
            },
        }
        if let Some(state) = self.scratch.build_attention_state() {
            self.attention = Some(state);
        }
        assert(self@ =~= old(self)@.projected(slice, values@));
    }

    /// Takes the attention mix.
    pub fn finish_attention(&mut self, mix: AttentionMixState)
        ensures
            final(self)@ == old(self)@.mixed(mix@),
    {
        if let Some(state) = self.scratch.build_attention_state() {
            self.attention = Some(state);
            self.mix = Some(mix);
            self.origins.score = Some(fresh_origin(self.layer_index, "AttentionOut"));
            self.origins.value = Some(fresh_origin(self.layer_index, "AttentionOut"));
        }
        assert(self@ =~= old(self)@.mixed(mix@));
    }

    /// Takes the projected gate of the feed-forward block.
    pub fn set_gate(&mut self, values: Vec<u32>)
        ensures
            final(self)@ == old(self)@.with_gate(values@),
    {
        self.scratch.ffn_gate = Some(values);
    }

    /// Takes the other projection of the feed-forward block.
    pub fn set_up(&mut self, values: Vec<u32>)
        ensures
            final(self)@ == old(self)@.with_up(values@),
    {
        self.scratch.ffn_up = Some(values);
    }

    /// Takes the input gate.
    pub fn set_input_gate(&mut self, values: Vec<u32>)
        ensures
            final(self)@ == old(self)@.with_input_gate(values@),
    {
        self.scratch.input_gate = Some(values);
    }

    /// Takes the activations of the feed-forward block.
    pub fn finish_ffn(&mut self, mix: FfnMixState)
        ensures
            final(self)@ == old(self)@.ffn_mixed(mix@),
    {
        if let Some(state) = self.scratch.build_ffn_state() {
            self.ffn = Some(state);
            self.ffn_mix = Some(mix);
        }
        assert(self@ =~= old(self)@.ffn_mixed(mix@));
    }

    fn leave_transient(&self) -> (r: Option<StageTransientState>)
        ensures
            crate::model::opt(r) == self@.transient(),
    {
        let attention = match (&self.attention, &self.mix) {
            (Some(state), Some(mix)) => Some(attention_preview(state, mix)),
            _ => None,
        };
        let ffn = match (&self.ffn, &self.ffn_mix) {
            (Some(state), Some(mix)) => Some(ffn_preview(state, mix)),
            _ => None,
        };
        if attention.is_none() && ffn.is_none() {
            None
        } else {
            Some(StageTransientState { attention, ffn })
        }
    }

    fn leave_carry(self, carry_policy: &StageCarryPolicy) -> (r: Option<StageCarryState>)
        ensures
            crate::model::opt(r) == self@.carry(*carry_policy),
    {
        let ffn = match (&self.ffn, &self.ffn_mix) {
            (Some(state), Some(mix)) => if carry_policy.carry_ffn {
                Some(ffn_carry(state, mix))
            } else {
                None
            },
            _ => None,
        };
        let attention = match (&self.attention, &self.mix) {
            (Some(state), Some(mix)) => if carry_policy.carry_attention {
                Some(carry_for_attention_checkpoint(state, mix, self.origins))
            } else {
                None
            },
            _ => None,
        };
        if attention.is_none() && ffn.is_none() {
            None
        } else {
            Some(StageCarryState { attention, ffn })
        }
    }

    /// What the layer leaves: its preview, and its carry under a policy.
    pub fn finish(self, carry_policy: &StageCarryPolicy) -> (r: (
        Option<StageTransientState>,
        Option<StageCarryState>,
    ))
        ensures
            crate::model::opt(r.0) == self@.transient(),
            crate::model::opt(r.1) == self@.carry(*carry_policy),
    {
        let transient = self.leave_transient();
        (transient, self.leave_carry(carry_policy))
    }
}

/// A step of a layer at work, with what was computed for it.
pub ghost enum LayerStep {
    Project(ProjectionSlice, Seq<u32>),
    FinishAttention(AttentionMixStateModel),
    Gate(Seq<u32>),
    Up(Seq<u32>),
    InputGate(Seq<u32>),
    FinishFfn(Seq<u32>),
}

impl AttentionCheckpointProvenanceModel {
    /// Whether a slice, where its origin is known, was computed just now by the given operation
    /// of the given layer.
    pub open spec fn is_fresh(origin: Option<Self>, layer_index: u32, operator: Seq<char>) -> bool {
        origin is None || origin == Some(Self::fresh(layer_index, operator))
    }
}

impl LayerRunModel {
    /// The layer after a step.
    pub open spec fn after(self, step: LayerStep) -> Self {
        match step {
            LayerStep::Project(slice, values) => self.projected(slice, values),
            LayerStep::FinishAttention(mix) => self.mixed(mix),
            LayerStep::Gate(values) => self.with_gate(values),
            LayerStep::Up(values) => self.with_up(values),
            LayerStep::InputGate(values) => self.with_input_gate(values),
            LayerStep::FinishFfn(activations) => self.ffn_mixed(activations),
        }
    }

    /// The layer after steps, one after the other.
    pub open spec fn after_all(self, steps: Seq<LayerStep>) -> Self
        decreases steps.len(),
    {
        if steps.len() == 0 {
            self
        } else {
            self.after_all(steps.drop_last()).after(steps.last())
        }
    }

    /// Whether each slice that the layer knows the origin of is its own, computed by the
    /// operation that computes such slices, at no distance.
    pub open spec fn has_own_origins(self) -> bool {
        let layer = self.layer_index;
        &&& AttentionCheckpointProvenanceModel::is_fresh(self.origins.q, layer, "AttentionQ"@)
        &&& AttentionCheckpointProvenanceModel::is_fresh(self.origins.k, layer, "AttentionK"@)
        &&& AttentionCheckpointProvenanceModel::is_fresh(self.origins.v, layer, "AttentionV"@)
        &&& AttentionCheckpointProvenanceModel::is_fresh(
            self.origins.score,
            layer,
            "AttentionOut"@,
        )
        &&& AttentionCheckpointProvenanceModel::is_fresh(
            self.origins.value,
            layer,
            "AttentionOut"@,
        )
    }
}

/// Whatever steps a layer takes, and whatever it starts with, it stays the same layer, and the
/// origin of each of its attention slices is unknown or the layer itself, at no distance.
pub proof fn lemma_origins_are_own(
    layer_index: u32,
    carry: Option<StageCarryStateModel>,
    steps: Seq<LayerStep>,
)
    ensures
        LayerRunModel::starting(layer_index, carry).after_all(steps).layer_index == layer_index,
        LayerRunModel::starting(layer_index, carry).after_all(steps).has_own_origins(),
    decreases steps.len(),
{
    if steps.len() > 0 {
        lemma_origins_are_own(layer_index, carry, steps.drop_last());
    }
}

/// The previews after one more layer: its own, and for what it has none of, those from before.
pub open spec fn merged_transient(
    previous: Option<StageTransientStateModel>,
    current: Option<StageTransientStateModel>,
) -> Option<StageTransientStateModel> {
    match (previous, current) {
        (None, current) => current,
        (previous, None) => previous,
        (Some(previous), Some(current)) => Some(
            StageTransientStateModel {
                attention: if current.attention is Some {
                    current.attention
                } else {
                    previous.attention
                },
                ffn: if current.ffn is Some {
                    current.ffn
                } else {
                    previous.ffn
                },
            },
        ),
    }
}

/// The carry after one more layer: its own, and for what it has none of, that from before, whose
/// attention is then one layer older.
pub open spec fn merged_carry(
    previous: Option<StageCarryStateModel>,
    current: Option<StageCarryStateModel>,
) -> Option<StageCarryStateModel> {
    match (previous, current) {
        (None, current) => current,
        (Some(previous), None) => Some(previous.aged(1)),
        (Some(previous), Some(current)) => Some(
            StageCarryStateModel {
                attention: if current.attention is Some {
                    current.attention
                } else {
                    previous.aged(1).attention
                },
                ffn: if current.ffn is Some {
                    current.ffn
                } else {
                    previous.ffn
                },
            },
        ),
    }
}

/// The previews after one more layer.
pub fn merge_transient_checkpoint(
    previous: Option<StageTransientState>,
    current: Option<StageTransientState>,
) -> (r: Option<StageTransientState>)
    ensures
        crate::model::opt(r) == merged_transient(
            crate::model::opt(previous),
            crate::model::opt(current),
        ),
{
    match (previous, current) {
        (None, current) => current,
        (Some(previous), None) => Some(previous),
        (Some(previous), Some(current)) => Some(
            StageTransientState {
                attention: if current.attention.is_some() {
                    current.attention
                } else {
                    previous.attention
                },
                ffn: if current.ffn.is_some() {
                    current.ffn
                } else {
                    previous.ffn
                },
            },
        ),
    }
}

/// The carry after one more layer.
pub fn merge_stage_carry(previous: Option<StageCarryState>, current: Option<StageCarryState>) -> (r:
    Option<StageCarryState>)
    ensures
        crate::model::opt(r) == merged_carry(
            crate::model::opt(previous),
            crate::model::opt(current),
        ),
{
    match (previous, current) {
        (None, current) => current,
        (Some(previous), None) => Some(previous.age_attention_by_layers(1)),
        (Some(previous), Some(current)) => Some(
            StageCarryState {
                attention: if current.attention.is_some() {
                    current.attention
                } else {
                    previous.age_attention_by_layers(1).attention
                },
                ffn: if current.ffn.is_some() {
                    current.ffn
                } else {
                    previous.ffn
                },
            },
        ),
    }
}

/// A carried value is found again at its lane, where that is within the width and is not named
/// once more further on.
pub proof fn lemma_scattering_keeps_lanes(
    values: Seq<u32>,
    lanes: Seq<usize>,
    width: usize,
    at: int,
)
    requires
        0 <= at < lanes.len(),
        at < values.len() <= usize::MAX,
        lanes[at] < width,
        forall|i: int| at < i < lanes.len() ==> #[trigger] lanes[i] != lanes[at],
    ensures
        scattered(values, lanes, width).len() == width,
        scattered(values, lanes, width)[lanes[at] as int] == values[at],
{
    let lane = lanes[at];
    let kept = crate::lanes::prefix(lanes, values.len() as usize);
    crate::lanes::lemma_last_place(kept, lane);
    assert(kept[at] == lane);
    assert(kept.contains(lane));
    let found = crate::lanes::last_place(kept, lane)->0;
    if found < at {
        assert(kept[at] != lane);
    }
    if found > at {
        assert(lanes[found] == kept[found]);
    }
    assert(crate::lanes::first_lanes(width)[lane as int] == lane);
}

/// The attention block that a layer carries on is found again by the layer that resumes: the
/// query, key and value of each lane within the carry budget, and the scores and mixed values of
/// theirs, where they are within the block's width.
pub proof fn lemma_carry_hands_on_attention(
    state: AttentionScratchStateModel,
    mix: AttentionMixStateModel,
    origins: AttentionOriginsModel,
    ffn: Option<CarryableFfnStateModel>,
    lane: usize,
)
    requires
        state.q.len() <= usize::MAX,
        state.k.len() <= usize::MAX,
        state.v.len() <= usize::MAX,
    ensures
        ({
            let width = longest(state.q.len(), state.k.len(), state.v.len());
            let scratch = LayerScratchModel::of_carry(
                StageCarryStateModel {
                    attention: Some(CarryableAttentionStateModel::of_block(state, mix, origins)),
                    ffn,
                },
            );
            &&& lane < ATTENTION_PROJECTION_CARRY_BUDGET ==> {
                &&& lane < state.q.len() ==> scratch.attn_q->0[lane as int] == state.q[lane as int]
                &&& lane < state.k.len() ==> scratch.attn_k->0[lane as int] == state.k[lane as int]
                &&& lane < state.v.len() ==> scratch.attn_v->0[lane as int] == state.v[lane as int]
            }
            &&& lane < ATTENTION_MIX_CARRY_BUDGET && lane < width ==> {
                &&& lane < mix.scores.len() ==> scratch.attn_score->0[lane as int]
                    == mix.scores[lane as int]
                &&& lane < mix.values.len() ==> scratch.attn_value->0[lane as int]
                    == mix.values[lane as int]
            }
        }),
{
    let width = longest(state.q.len(), state.k.len(), state.v.len());
    lemma_first_lanes_are_found(state.q, ATTENTION_PROJECTION_CARRY_BUDGET, width, lane);
    lemma_first_lanes_are_found(state.k, ATTENTION_PROJECTION_CARRY_BUDGET, width, lane);
    lemma_first_lanes_are_found(state.v, ATTENTION_PROJECTION_CARRY_BUDGET, width, lane);
    lemma_first_lanes_are_found(mix.scores, ATTENTION_MIX_CARRY_BUDGET, width, lane);
    lemma_first_lanes_are_found(mix.values, ATTENTION_MIX_CARRY_BUDGET, width, lane);
}

proof fn lemma_first_lanes_are_found(values: Seq<u32>, budget: usize, width: usize, lane: usize)
    requires
        budget <= 8,
    ensures
        lane < budget && lane < values.len() && lane < width ==> ({
            let kept = crate::lanes::prefix(values, budget);
            scattered(kept, crate::lanes::first_lanes(kept.len() as usize), width)[lane as int]
                == values[lane as int]
        }),
{
    if lane < budget && lane < values.len() && lane < width {
        let kept = crate::lanes::prefix(values, budget);
        let lanes = crate::lanes::first_lanes(kept.len() as usize);
        assert(lanes[lane as int] == lane);
        lemma_scattering_keeps_lanes(kept, lanes, width, lane as int);
    }
}

/// The carry that a layer leaves of a full attention block can be resumed: its contracts hold, and
/// where scores and mixed values are no longer than the block is wide, it passes its check.
pub proof fn lemma_left_carry_can_be_resumed(
    state: AttentionScratchStateModel,
    mix: AttentionMixStateModel,
    layer_index: u32,
)
    requires
        0 < state.q.len() <= usize::MAX,
        0 < state.k.len() <= usize::MAX,
        0 < state.v.len() <= usize::MAX,
        0 < mix.scores.len() <= longest(state.q.len(), state.k.len(), state.v.len()),
        0 < mix.values.len() <= longest(state.q.len(), state.k.len(), state.v.len()),
    ensures
        ({
            let carry = CarryableAttentionStateModel::of_block(
                state,
                mix,
                AttentionOriginsModel {
                    q: Some(AttentionCheckpointProvenanceModel::fresh(layer_index, "AttentionQ"@)),
                    k: Some(AttentionCheckpointProvenanceModel::fresh(layer_index, "AttentionK"@)),
                    v: Some(AttentionCheckpointProvenanceModel::fresh(layer_index, "AttentionV"@)),
                    score: Some(
                        AttentionCheckpointProvenanceModel::fresh(layer_index, "AttentionOut"@),
                    ),
                    value: Some(
                        AttentionCheckpointProvenanceModel::fresh(layer_index, "AttentionOut"@),
                    ),
                },
            );
            carry.contract_fault() is None && carry.fault() is None
        }),
{
}

} // verus!
