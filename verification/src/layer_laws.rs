//! What holds of a layer at work, whatever it is handed: which carried vector goes where, what a
//! step leaves alone, and what is handed on at the end.
use vstd::prelude::*;
use vstd::string::*;
use crate::carry::{
    AttentionCheckpointProvenanceModel, CarryableAttentionMixStateModel,
    CarryableAttentionProjectionStateModel, CarryableAttentionStateModel, CarryableFfnStateModel,
    StageCarryPolicy, StageCarryStateModel,
};
use crate::execution::StageResumeContractSummary;
use crate::layer_run::{
    AttentionMixStateModel, AttentionOriginsModel, AttentionScratchStateModel, BlendModel,
    BlendSlot, FfnScratchStateModel, LayerRunModel, LayerScratchModel, ProjectionSlice,
};
use crate::tensor::{AttentionContinuationModel, FfnContinuationModel, StageTransientStateModel};

verus! {

/// Whether `vector` holds `values` at `lanes` and zero elsewhere: each value stands at its lane,
/// where the lane is within the vector and is not named once more further on.
pub open spec fn holds_at_lanes(
    vector: Seq<u32>,
    values: Seq<u32>,
    lanes: Seq<usize>,
    width: usize,
) -> bool {
    if values.len() == 0 || lanes.len() == 0 || width == 0 {
        vector.len() == 0
    } else {
        &&& vector.len() == width
        &&& forall|at: int|
            0 <= at < lanes.len() && at < values.len() && (#[trigger] lanes[at]) < width && (forall|
                later: int,
            |
                at < later < lanes.len() && later < values.len() ==> #[trigger] lanes[later]
                    != lanes[at]) ==> vector[lanes[at] as int] == values[at]
        &&& forall|lane: int|
            0 <= lane < width && (forall|at: int|
                0 <= at < lanes.len() && at < values.len() ==> #[trigger] lanes[at] != lane)
                ==> #[trigger] vector[lane] == 0
    }
}

/// Values that are scattered to their lanes stand there, and nothing else does.
pub proof fn lemma_scattered_values_stand_at_their_lanes(
    values: Seq<u32>,
    lanes: Seq<usize>,
    width: usize,
)
    requires
        values.len() <= usize::MAX,
    ensures
        holds_at_lanes(
            crate::layer_run::scattered(values, lanes, width),
            values,
            lanes,
            width,
        ),
{
    if values.len() > 0 && lanes.len() > 0 && width > 0 {
        let vector = crate::layer_run::scattered(values, lanes, width);
        let kept = crate::lanes::prefix(lanes, values.len() as usize);
        assert(vector.len() == width);
        assert forall|at: int|
            0 <= at < lanes.len() && at < values.len() && (#[trigger] lanes[at]) < width && (forall|
                later: int,
            |
                at < later < lanes.len() && later < values.len() ==> #[trigger] lanes[later]
                    != lanes[at]) implies vector[lanes[at] as int] == values[at] by {
            let lane = lanes[at];
            crate::lanes::lemma_last_place(kept, lane);
            assert(kept[at] == lane);
            assert(kept.contains(lane));
            let found = crate::lanes::last_place(kept, lane)->0;
            if found < at {
                assert(kept[at] != lane);
            }
            if found > at {
                assert(lanes[found] == kept[found]);
            }
            assert(crate::lanes::first_lanes(width)[lane as int] == lane);
        }
        assert forall|lane: int|
            0 <= lane < width && (forall|at: int|
                0 <= at < lanes.len() && at < values.len() ==> #[trigger] lanes[at] != lane)
            implies #[trigger] vector[lane] == 0 by {
            crate::lanes::lemma_last_place(kept, lane as usize);
            assert(crate::lanes::first_lanes(width)[lane] == lane);
            if let Some(found) = crate::lanes::last_place(kept, lane as usize) {
                assert(lanes[found] == kept[found]);
            }
        }
    }
}

/// Whether a blend is that of a carried vector: it holds the values at their lanes, and tells
/// these lanes.
pub open spec fn blends_carried(
    blend: Option<BlendModel>,
    values: Seq<u32>,
    lanes: Seq<usize>,
    width: usize,
) -> bool {
    blend matches Some(blend) && holds_at_lanes(blend.carry, values, lanes, width) && blend.lanes
        == Some(lanes)
}

/// What is blended into a vector of a layer that starts with a carried attention projection is
/// that vector's own carried values, at their own lanes.
pub proof fn lemma_carried_projection_is_blended_by_slice(
    layer_index: u32,
    carry: StageCarryStateModel,
    projection: CarryableAttentionProjectionStateModel,
)
    requires
        carry.attention matches Some(attention) && attention.projection == Some(projection)
            && attention.contract == StageResumeContractSummary::none(),
        projection.q.len() <= usize::MAX,
        projection.k.len() <= usize::MAX,
        projection.v.len() <= usize::MAX,
    ensures
        ({
            let scratch = LayerRunModel::starting(layer_index, Some(carry)).scratch;
            let width = projection.width;
            &&& blends_carried(
                scratch.blend_into(BlendSlot::Query),
                projection.q,
                projection.q_lane_indices,
                width,
            )
            &&& blends_carried(
                scratch.blend_into(BlendSlot::Key),
                projection.k,
                projection.k_lane_indices,
                width,
            )
            &&& blends_carried(
                scratch.blend_into(BlendSlot::Value),
                projection.v,
                projection.v_lane_indices,
                width,
            )
            &&& scratch.blend_into(BlendSlot::Query)->0.weight_milli == 350
            &&& scratch.blend_into(BlendSlot::Key)->0.weight_milli == 350
            &&& scratch.blend_into(BlendSlot::Value)->0.weight_milli == 350
        }),
{
    let width = projection.width;
    lemma_scattered_values_stand_at_their_lanes(projection.q, projection.q_lane_indices, width);
    lemma_scattered_values_stand_at_their_lanes(projection.k, projection.k_lane_indices, width);
    lemma_scattered_values_stand_at_their_lanes(projection.v, projection.v_lane_indices, width);
}

/// What is blended into the scores and mixed values of a layer that starts with a carried
/// attention mix is the carried scores and the carried values, at their own lanes.
pub proof fn lemma_carried_mix_is_blended_by_slice(
    layer_index: u32,
    carry: StageCarryStateModel,
    mix: CarryableAttentionMixStateModel,
)
    requires
        carry.attention matches Some(attention) && attention.mix == Some(mix) && attention.contract
            == StageResumeContractSummary::none(),
        mix.scores.len() <= usize::MAX,
        mix.values.len() <= usize::MAX,
    ensures
        ({
            let scratch = LayerRunModel::starting(layer_index, Some(carry)).scratch;
            &&& blends_carried(
                scratch.blend_into(BlendSlot::Score),
                mix.scores,
                mix.score_lane_indices,
                mix.width,
            )
            &&& blends_carried(
                scratch.blend_into(BlendSlot::MixedValue),
                mix.values,
                mix.value_lane_indices,
                mix.width,
            )
            &&& scratch.blend_into(BlendSlot::Score)->0.weight_milli == 250
            &&& scratch.blend_into(BlendSlot::MixedValue)->0.weight_milli == 250
        }),
{
    lemma_scattered_values_stand_at_their_lanes(mix.scores, mix.score_lane_indices, mix.width);
    lemma_scattered_values_stand_at_their_lanes(mix.values, mix.value_lane_indices, mix.width);
}

/// What is blended into the vectors of a feed-forward block that starts with a carried one is the
/// carried gate, the carried up projection and the carried activations, at the carried lanes.
pub proof fn lemma_carried_ffn_is_blended_by_vector(
    layer_index: u32,
    carry: StageCarryStateModel,
    ffn: CarryableFfnStateModel,
)
    requires
        carry.ffn == Some(ffn),
        ffn.gate_head.len() <= usize::MAX,
        ffn.up_head.len() <= usize::MAX,
        ffn.activation_head.len() <= usize::MAX,
    ensures
        ({
            let scratch = LayerRunModel::starting(layer_index, Some(carry)).scratch;
            &&& blends_carried(
                scratch.blend_into(BlendSlot::Gate),
                ffn.gate_head,
                ffn.lane_indices,
                ffn.width,
            )
            &&& blends_carried(
                scratch.blend_into(BlendSlot::Up),
                ffn.up_head,
                ffn.lane_indices,
                ffn.width,
            )
            &&& blends_carried(
                scratch.blend_into(BlendSlot::Activation),
                ffn.activation_head,
                ffn.lane_indices,
                ffn.width,
            )
            &&& scratch.blend_into(BlendSlot::Gate)->0.weight_milli == 350
            &&& scratch.blend_into(BlendSlot::Up)->0.weight_milli == 350
            &&& scratch.blend_into(BlendSlot::Activation)->0.weight_milli == 250
        }),
{
    lemma_scattered_values_stand_at_their_lanes(ffn.gate_head, ffn.lane_indices, ffn.width);
    lemma_scattered_values_stand_at_their_lanes(ffn.up_head, ffn.lane_indices, ffn.width);
    lemma_scattered_values_stand_at_their_lanes(ffn.activation_head, ffn.lane_indices, ffn.width);
}

/// Where contracts were made, each attention vector is blended with the weight of its own
/// contract, and not at all where that names none; what is blended is the same as without.
pub proof fn lemma_contracted_weights_are_by_slice(
    layer_index: u32,
    carry: StageCarryStateModel,
    projection: CarryableAttentionProjectionStateModel,
    mix: CarryableAttentionMixStateModel,
)
    requires
        carry.attention matches Some(attention) && attention.projection == Some(projection)
            && attention.mix == Some(mix) && attention.contract
            != StageResumeContractSummary::none(),
    ensures
        ({
            let contract = carry.attention->0.contract;
            let free = StageCarryStateModel {
                attention: Some(
                    CarryableAttentionStateModel {
                        contract: StageResumeContractSummary::none(),
                        ..carry.attention->0
                    },
                ),
                ..carry
            };
            let typed = LayerRunModel::starting(layer_index, Some(carry)).scratch;
            let usual = LayerRunModel::starting(layer_index, Some(free)).scratch;
            &&& reweighted(
                typed.blend_into(BlendSlot::Query),
                usual.blend_into(BlendSlot::Query),
                match contract.attention_q {
                    Some(entry) => entry.blend_weight_milli,
                    None => None,
                },
            )
            &&& reweighted(
                typed.blend_into(BlendSlot::Key),
                usual.blend_into(BlendSlot::Key),
                match contract.attention_k {
                    Some(entry) => entry.blend_weight_milli,
                    None => None,
                },
            )
            &&& reweighted(
                typed.blend_into(BlendSlot::Value),
                usual.blend_into(BlendSlot::Value),
                match contract.attention_v {
                    Some(entry) => entry.blend_weight_milli,
                    None => None,
                },
            )
            &&& reweighted(
                typed.blend_into(BlendSlot::Score),
                usual.blend_into(BlendSlot::Score),
                match contract.attention_score {
                    Some(entry) => entry.blend_weight_milli,
                    None => None,
                },
            )
            &&& reweighted(
                typed.blend_into(BlendSlot::MixedValue),
                usual.blend_into(BlendSlot::MixedValue),
                match contract.attention_value {
                    Some(entry) => entry.blend_weight_milli,
                    None => None,
                },
            )
            &&& typed.blend_into(BlendSlot::Gate) == usual.blend_into(BlendSlot::Gate)
            &&& typed.blend_into(BlendSlot::Up) == usual.blend_into(BlendSlot::Up)
            &&& typed.blend_into(BlendSlot::Activation) == usual.blend_into(BlendSlot::Activation)
        }),
{
}

/// Whether a blend is another one with the given weight, and none where no weight is given.
pub open spec fn reweighted(
    typed: Option<BlendModel>,
    usual: Option<BlendModel>,
    weight_milli: Option<u16>,
) -> bool {
    match weight_milli {
        Some(weight_milli) => usual is Some && typed == Some(
            BlendModel { weight_milli, ..usual->0 },
        ),
        None => typed is None,
    }
}

/// A layer that starts without a carry blends nothing into anything; one whose carry lacks a part
/// blends nothing into the vectors of that part.
pub proof fn lemma_nothing_carried_is_nothing_blended(
    layer_index: u32,
    carry: StageCarryStateModel,
    slot: BlendSlot,
)
    ensures
        LayerRunModel::starting(layer_index, None).scratch.blend_into(slot) is None,
        (carry.attention is None || carry.attention->0.projection is None) && (slot is Query || slot
            is Key || slot is Value) ==> LayerRunModel::starting(
            layer_index,
            Some(carry),
        ).scratch.blend_into(slot) is None,
        (carry.attention is None || carry.attention->0.mix is None) && (slot is Score || slot
            is MixedValue) ==> LayerRunModel::starting(layer_index, Some(carry)).scratch.blend_into(
            slot,
        ) is None,
        carry.ffn is None && (slot is Gate || slot is Up || slot is Activation)
            ==> LayerRunModel::starting(layer_index, Some(carry)).scratch.blend_into(slot) is None,
{
}

/// A step changes what is blended into no vector but its own. A vector that was computed takes
/// the place of the carried one.
pub proof fn lemma_steps_leave_other_blends_alone(
    run: LayerRunModel,
    values: Seq<u32>,
    mix: AttentionMixStateModel,
    slot: BlendSlot,
)
    ensures
        slot !is Query ==> run.projected(ProjectionSlice::Query, values).scratch.blend_into(slot)
            == run.scratch.blend_into(slot),
        slot !is Key ==> run.projected(ProjectionSlice::Key, values).scratch.blend_into(slot)
            == run.scratch.blend_into(slot),
        slot !is Value ==> run.projected(ProjectionSlice::Value, values).scratch.blend_into(slot)
            == run.scratch.blend_into(slot),
        slot !is Gate ==> run.with_gate(values).scratch.blend_into(slot) == run.scratch.blend_into(
            slot,
        ),
        slot !is Up ==> run.with_up(values).scratch.blend_into(slot) == run.scratch.blend_into(
            slot,
        ),
        run.with_input_gate(values).scratch.blend_into(slot) == run.scratch.blend_into(slot),
        run.mixed(mix).scratch.blend_into(slot) == run.scratch.blend_into(slot),
        run.ffn_mixed(values).scratch.blend_into(slot) == run.scratch.blend_into(slot),
        run.projected(ProjectionSlice::Query, values).scratch.blend_into(
            BlendSlot::Query,
        ) matches Some(blend) ==> blend.carry == values,
        run.projected(ProjectionSlice::Key, values).scratch.blend_into(
            BlendSlot::Key,
        ) matches Some(blend) ==> blend.carry == values,
        run.projected(ProjectionSlice::Value, values).scratch.blend_into(
            BlendSlot::Value,
        ) matches Some(blend) ==> blend.carry == values,
        run.with_gate(values).scratch.blend_into(BlendSlot::Gate) matches Some(blend)
            && blend.carry == values,
        run.with_up(values).scratch.blend_into(BlendSlot::Up) matches Some(blend) && blend.carry
            == values,
{
}

/// The order in which a layer projects its slices and the halves of its feed-forward block does
/// not matter for what it knows of them.
pub proof fn lemma_projections_commute(
    run: LayerRunModel,
    first: ProjectionSlice,
    second: ProjectionSlice,
    a: Seq<u32>,
    b: Seq<u32>,
)
    requires
        first != second,
    ensures
        run.projected(first, a).projected(second, b).scratch == run.projected(second, b).projected(
            first,
            a,
        ).scratch,
        run.projected(first, a).projected(second, b).origins == run.projected(second, b).projected(
            first,
            a,
        ).origins,
        run.with_gate(a).with_up(b) == run.with_up(b).with_gate(a),
{
}

/// Whether a list is the beginning of another one: all of it, or so many entries.
pub open spec fn is_beginning<T>(part: Seq<T>, whole: Seq<T>, most: int) -> bool {
    &&& part.len() == whole.len() || part.len() == most
    &&& part.len() <= whole.len()
    &&& part.len() <= most
    &&& forall|i: int| 0 <= i < part.len() ==> #[trigger] part[i] == whole[i]
}

/// Whether lanes are counted from zero, one for each of so many entries.
pub open spec fn counts_up(lanes: Seq<usize>, count: nat) -> bool {
    lanes.len() == count && forall|i: int| 0 <= i < lanes.len() ==> #[trigger] lanes[i] == i
}

/// Whether an origin is the given operation of the given layer, at no distance.
pub open spec fn comes_from(
    origin: Option<AttentionCheckpointProvenanceModel>,
    layer_index: u32,
    operator_kind: Seq<char>,
) -> bool {
    origin matches Some(origin) && origin.layer_index == layer_index && origin.operator_kind
        == operator_kind && origin.layer_distance_to_boundary == 0
}

/// The layer after it projected all slices of its attention and mixed them.
pub open spec fn attended(
    run: LayerRunModel,
    state: AttentionScratchStateModel,
    mix: AttentionMixStateModel,
) -> LayerRunModel {
    run.projected(ProjectionSlice::Query, state.q).projected(
        ProjectionSlice::Key,
        state.k,
    ).projected(ProjectionSlice::Value, state.v).mixed(mix)
}

/// The layer after it projected both halves of its feed-forward block and mixed them.
pub open spec fn fed_forward(
    run: LayerRunModel,
    state: FfnScratchStateModel,
    activations: Seq<u32>,
) -> LayerRunModel {
    run.with_gate(state.gate).with_up(state.up).ffn_mixed(activations)
}

/// A layer previews the attention that it computed: the first entries of each vector, the query's
/// as the query's and so on, over the length of the longest slice.
pub proof fn lemma_preview_shows_the_attention(
    run: LayerRunModel,
    state: AttentionScratchStateModel,
    mix: AttentionMixStateModel,
)
    requires
        state.q.len() <= usize::MAX,
        state.k.len() <= usize::MAX,
        state.v.len() <= usize::MAX,
    ensures
        attended(run, state, mix).transient() matches Some(transient) && ({
            &&& transient.attention matches Some(shown) && ({
                &&& is_beginning(shown.q_preview, state.q, 8)
                &&& is_beginning(shown.k_preview, state.k, 8)
                &&& is_beginning(shown.v_preview, state.v, 8)
                &&& is_beginning(shown.score_preview, mix.scores, 8)
                &&& is_beginning(shown.value_preview, mix.values, 8)
                &&& counts_up(shown.lane_indices, shown.q_preview.len())
                &&& shown.width >= state.q.len() && shown.width >= state.k.len() && shown.width
                    >= state.v.len()
                &&& shown.width == state.q.len() || shown.width == state.k.len() || shown.width
                    == state.v.len()
            })
            &&& transient.ffn == (match run.transient() {
                Some(before) => before.ffn,
                None => None,
            })
        }),
{
}

/// A layer previews the feed-forward block that it computed: the first entries of each vector,
/// over the length of the longer half.
pub proof fn lemma_preview_shows_the_ffn(
    run: LayerRunModel,
    state: FfnScratchStateModel,
    activations: Seq<u32>,
)
    requires
        state.gate.len() <= usize::MAX,
        state.up.len() <= usize::MAX,
    ensures
        fed_forward(run, state, activations).transient() matches Some(transient) && ({
            &&& transient.ffn matches Some(shown) && ({
                &&& is_beginning(shown.gate_preview, state.gate, 8)
                &&& is_beginning(shown.up_preview, state.up, 8)
                &&& is_beginning(shown.activation_preview, activations, 8)
                &&& counts_up(shown.lane_indices, shown.gate_preview.len())
                &&& shown.width >= state.gate.len() && shown.width >= state.up.len()
                &&& shown.width == state.gate.len() || shown.width == state.up.len()
            })
            &&& transient.attention == (match run.transient() {
                Some(before) => before.attention,
                None => None,
            })
        }),
{
}

/// A layer carries on the attention that it computed, where the policy says so: the first entries
/// of each vector, at the lanes that they stand at, over the length of the longest slice, with
/// the layer and the operation that computed them. Where the policy does not, it carries none.
pub proof fn lemma_carry_holds_the_attention(
    run: LayerRunModel,
    state: AttentionScratchStateModel,
    mix: AttentionMixStateModel,
    policy: StageCarryPolicy,
)
    requires
        state.q.len() <= usize::MAX,
        state.k.len() <= usize::MAX,
        state.v.len() <= usize::MAX,
    ensures
        ({
            let carry = attended(run, state, mix).carry(policy);
            let attention = carry->0.attention->0;
            &&& policy.carry_attention ==> ({
                &&& carry is Some && carry->0.attention is Some
                &&& attention.projection matches Some(kept) && ({
                    &&& is_beginning(kept.q, state.q, 4)
                    &&& is_beginning(kept.k, state.k, 4)
                    &&& is_beginning(kept.v, state.v, 4)
                    &&& counts_up(kept.q_lane_indices, kept.q.len())
                    &&& counts_up(kept.k_lane_indices, kept.k.len())
                    &&& counts_up(kept.v_lane_indices, kept.v.len())
                    &&& comes_from(kept.q_provenance, run.layer_index, "AttentionQ"@)
                    &&& comes_from(kept.k_provenance, run.layer_index, "AttentionK"@)
                    &&& comes_from(kept.v_provenance, run.layer_index, "AttentionV"@)
                    &&& kept.width >= state.q.len() && kept.width >= state.k.len() && kept.width
                        >= state.v.len()
                    &&& kept.width == state.q.len() || kept.width == state.k.len() || kept.width
                        == state.v.len()
                })
                &&& attention.mix matches Some(kept) && ({
                    &&& is_beginning(kept.scores, mix.scores, 8)
                    &&& is_beginning(kept.values, mix.values, 8)
                    &&& counts_up(kept.score_lane_indices, kept.scores.len())
                    &&& counts_up(kept.value_lane_indices, kept.values.len())
                    &&& comes_from(kept.score_provenance, run.layer_index, "AttentionOut"@)
                    &&& comes_from(kept.value_provenance, run.layer_index, "AttentionOut"@)
                    &&& kept.width == attention.projection->0.width
                })
            })
            &&& !policy.carry_attention ==> (carry is None || carry->0.attention is None)
            &&& !policy.carry_attention && !policy.carry_ffn ==> carry is None
        }),
{
}

/// A layer carries on the feed-forward block that it computed, where the policy says so: all of
/// each vector, with a lane for each entry of the longest, over the length of the longer half.
/// Where the policy does not, it carries none.
pub proof fn lemma_carry_holds_the_ffn(
    run: LayerRunModel,
    state: FfnScratchStateModel,
    activations: Seq<u32>,
    policy: StageCarryPolicy,
)
    requires
        state.gate.len() <= usize::MAX,
        state.up.len() <= usize::MAX,
        activations.len() <= usize::MAX,
    ensures
        ({
            let carry = fed_forward(run, state, activations).carry(policy);
            let kept = carry->0.ffn->0;
            &&& policy.carry_ffn ==> ({
                &&& carry is Some && carry->0.ffn is Some
                &&& kept.gate_head == state.gate
                &&& kept.up_head == state.up
                &&& kept.activation_head == activations
                &&& counts_up(kept.lane_indices, kept.lane_indices.len())
                &&& kept.lane_indices.len() >= state.gate.len() && kept.lane_indices.len()
                    >= state.up.len() && kept.lane_indices.len() >= activations.len()
                &&& kept.lane_indices.len() == state.gate.len() || kept.lane_indices.len()
                    == state.up.len() || kept.lane_indices.len() == activations.len()
                &&& kept.width >= state.gate.len() && kept.width >= state.up.len()
                &&& kept.width == state.gate.len() || kept.width == state.up.len()
            })
            &&& !policy.carry_ffn ==> (carry is None || carry->0.ffn is None)
        }),
{
}

/// A layer that mixed neither block previews and carries nothing, whatever it projected and
/// whatever it was handed.
pub proof fn lemma_without_a_mix_nothing_is_left(
    layer_index: u32,
    carry: Option<StageCarryStateModel>,
    state: AttentionScratchStateModel,
    ffn: FfnScratchStateModel,
    policy: StageCarryPolicy,
)
    ensures
        ({
            let run = LayerRunModel::starting(layer_index, carry).projected(
                ProjectionSlice::Query,
                state.q,
            ).projected(ProjectionSlice::Key, state.k).projected(
                ProjectionSlice::Value,
                state.v,
            ).with_gate(ffn.gate).with_up(ffn.up);
            run.transient() is None && run.carry(policy) is None
        }),
{
}

/// The distance of an origin that is so many layers older; it stops at the largest count.
pub open spec fn older(distance: int, layers: int) -> int {
    if distance + layers <= u32::MAX {
        distance + layers
    } else {
        u32::MAX as int
    }
}

/// Whether an origin is another one, so many layers further from the boundary.
pub open spec fn is_older(
    origin: Option<AttentionCheckpointProvenanceModel>,
    before: Option<AttentionCheckpointProvenanceModel>,
    layers: int,
) -> bool {
    match (origin, before) {
        (Some(origin), Some(before)) => origin.layer_index == before.layer_index
            && origin.operator_kind == before.operator_kind && origin.layer_distance_to_boundary
            == older(before.layer_distance_to_boundary as int, layers),
        (None, None) => true,
        _ => false,
    }
}

/// Whether an attention carry is another one, so many layers later: the same vectors at the same
/// lanes, under the same contracts, from origins that are so much further away.
pub open spec fn is_older_attention(
    attention: CarryableAttentionStateModel,
    before: CarryableAttentionStateModel,
    layers: int,
) -> bool {
    &&& attention.contract == before.contract
    &&& match (attention.projection, before.projection) {
        (Some(now), Some(then)) => {
            &&& now.width == then.width
            &&& now.q == then.q && now.k == then.k && now.v == then.v
            &&& now.q_lane_indices == then.q_lane_indices
            &&& now.k_lane_indices == then.k_lane_indices
            &&& now.v_lane_indices == then.v_lane_indices
            &&& is_older(now.q_provenance, then.q_provenance, layers)
            &&& is_older(now.k_provenance, then.k_provenance, layers)
            &&& is_older(now.v_provenance, then.v_provenance, layers)
        },
        (None, None) => true,
        _ => false,
    }
    &&& match (attention.mix, before.mix) {
        (Some(now), Some(then)) => {
            &&& now.width == then.width
            &&& now.scores == then.scores && now.values == then.values
            &&& now.score_lane_indices == then.score_lane_indices
            &&& now.value_lane_indices == then.value_lane_indices
            &&& is_older(now.score_provenance, then.score_provenance, layers)
            &&& is_older(now.value_provenance, then.value_provenance, layers)
        },
        (None, None) => true,
        _ => false,
    }
}

/// What the latest layer leaves replaces what was left before, each part on its own. Attention
/// that it does not replace is one layer older.
pub proof fn lemma_latest_carry_wins(
    previous: Option<StageCarryStateModel>,
    current: Option<StageCarryStateModel>,
)
    ensures
        ({
            let merged = crate::layer_run::merged_carry(previous, current);
            &&& current is Some && current->0.attention is Some ==> merged is Some && merged->0.attention
                == current->0.attention
            &&& current is Some && current->0.ffn is Some ==> merged is Some && merged->0.ffn
                == current->0.ffn
            &&& (current is None || current->0.attention is None) && previous is Some
                && previous->0.attention is Some ==> merged is Some && merged->0.attention is Some
                && is_older_attention(merged->0.attention->0, previous->0.attention->0, 1)
            &&& (current is None || current->0.ffn is None) && previous is Some && previous->0.ffn
                is Some ==> merged is Some && merged->0.ffn == previous->0.ffn
            &&& (current is None || current->0.attention is None) && (previous is None
                || previous->0.attention is None) ==> (merged is None || merged->0.attention
                is None)
            &&& (current is None || current->0.ffn is None) && (previous is None || previous->0.ffn
                is None) ==> (merged is None || merged->0.ffn is None)
            &&& merged is None ==> previous is None && current is None
        }),
{
}

/// What the latest layer previews replaces what was previewed before, each part on its own.
pub proof fn lemma_latest_preview_wins(
    previous: Option<StageTransientStateModel>,
    current: Option<StageTransientStateModel>,
)
    ensures
        ({
            let merged = crate::layer_run::merged_transient(previous, current);
            &&& current is Some && current->0.attention is Some ==> merged is Some && merged->0.attention
                == current->0.attention
            &&& current is Some && current->0.ffn is Some ==> merged is Some && merged->0.ffn
                == current->0.ffn
            &&& (current is None || current->0.attention is None) && previous is Some
                && previous->0.attention is Some ==> merged is Some && merged->0.attention
                == previous->0.attention
            &&& (current is None || current->0.ffn is None) && previous is Some && previous->0.ffn
                is Some ==> merged is Some && merged->0.ffn == previous->0.ffn
            &&& (current is None || current->0.attention is None) && (previous is None
                || previous->0.attention is None) ==> (merged is None || merged->0.attention
                is None)
            &&& (current is None || current->0.ffn is None) && (previous is None || previous->0.ffn
                is None) ==> (merged is None || merged->0.ffn is None)
            &&& merged is None ==> previous is None && current is None
        }),
{
}

/// What layers that leave the given carries, one after the other, hand on together.
pub open spec fn handed_on(carries: Seq<Option<StageCarryStateModel>>) -> Option<
    StageCarryStateModel,
>
    decreases carries.len(),
{
    if carries.len() == 0 {
        None
    } else {
        crate::layer_run::merged_carry(handed_on(carries.drop_last()), carries.last())
    }
}

/// After any layers, the attention handed on is that of the last layer that left one, with the
/// number of layers that ran after it added to its distances; the feed-forward state handed on is
/// that of the last layer that left one, as it left it.
pub proof fn lemma_last_layer_is_handed_on(carries: Seq<Option<StageCarryStateModel>>, at: int)
    requires
        0 <= at < carries.len(),
    ensures
        carries[at] is Some && carries[at]->0.attention is Some && (forall|i: int|
            at < i < carries.len() ==> (#[trigger] carries[i] is None || carries[i]->0.attention
                is None)) ==> handed_on(carries) is Some && handed_on(carries)->0.attention is Some
            && is_older_attention(
            handed_on(carries)->0.attention->0,
            carries[at]->0.attention->0,
            carries.len() - 1 - at,
        ),
        carries[at] is Some && carries[at]->0.ffn is Some && (forall|i: int|
            at < i < carries.len() ==> (#[trigger] carries[i] is None || carries[i]->0.ffn
                is None)) ==> handed_on(carries) is Some && handed_on(carries)->0.ffn
            == carries[at]->0.ffn,
    decreases carries.len(),
{
    let front = carries.drop_last();
    lemma_latest_carry_wins(handed_on(front), carries.last());
    if at < carries.len() - 1 {
        lemma_last_layer_is_handed_on(front, at);
        assert(front[at] == carries[at]);
        if forall|i: int|
            at < i < carries.len() ==> (#[trigger] carries[i] is None || carries[i]->0.attention
                is None) {
            assert forall|i: int| at < i < front.len() implies (#[trigger] front[i] is None
                || front[i]->0.attention is None) by {
                assert(front[i] == carries[i]);
            }
            assert(carries[carries.len() - 1] is None || carries[carries.len() - 1]->0.attention
                is None);
        }
        if forall|i: int|
            at < i < carries.len() ==> (#[trigger] carries[i] is None || carries[i]->0.ffn
                is None) {
            assert forall|i: int| at < i < front.len() implies (#[trigger] front[i] is None
                || front[i]->0.ffn is None) by {
                assert(front[i] == carries[i]);
            }
            assert(carries[carries.len() - 1] is None || carries[carries.len() - 1]->0.ffn is None);
        }
    }
}

/// Without lanes each entry of the current vector is met once, in order: the first entries by the
/// carried ones at the same places, and further on by the carried vector over and over. Of lanes,
/// those count that both vectors have; each is met by itself. Where a vector is empty nothing is.
pub proof fn lemma_blended_entries_meet(
    current: usize,
    carried: usize,
    lanes: Seq<usize>,
    more: Seq<usize>,
    at: int,
)
    ensures
        ({
            let steps = crate::layer_run::blend_steps(current as nat, carried as nat, None);
            &&& current > 0 && carried > 0 ==> steps.len() == current
            &&& current == 0 || carried == 0 ==> steps.len() == 0
            &&& 0 <= at < steps.len() ==> steps[at].0 == at && steps[at].1 < carried
            &&& 0 <= at < steps.len() && at < carried ==> steps[at].1 == at
            &&& 0 <= at && at + carried < steps.len() ==> steps[at + carried].1 == steps[at].1
        }),
        current == 0 || carried == 0 ==> crate::layer_run::blend_steps(
            current as nat,
            carried as nat,
            Some(lanes),
        ).len() == 0,
        crate::layer_run::blend_steps(current as nat, carried as nat, Some(lanes + more))
            == crate::layer_run::blend_steps(current as nat, carried as nat, Some(lanes))
            + crate::layer_run::blend_steps(current as nat, carried as nat, Some(more)),
        lanes.len() == 1 && lanes[0] < current && lanes[0] < carried ==> crate::layer_run::blend_steps(
            current as nat,
            carried as nat,
            Some(lanes),
        ) == seq![(lanes[0], lanes[0])],
        lanes.len() == 1 && (lanes[0] >= current || lanes[0] >= carried)
            ==> crate::layer_run::blend_steps(current as nat, carried as nat, Some(lanes)).len()
            == 0,
{
    lemma_shared_lanes_join(current as nat, carried as nat, lanes, more);
    if current > 0 && carried > 0 && at >= 0 {
        if at < carried {
            vstd::arithmetic::div_mod::lemma_small_mod(at as nat, carried as nat);
        }
        vstd::arithmetic::div_mod::lemma_mod_add_multiples_vanish(at, carried as int);
        vstd::arithmetic::div_mod::lemma_mod_bound(at, carried as int);
    }
    if lanes.len() == 1 {
        assert(lanes.drop_last() =~= Seq::empty());
        assert(crate::layer_run::shared_lanes(current as nat, carried as nat, Seq::empty()).len()
            == 0);
        if lanes[0] < current && lanes[0] < carried {
            assert(crate::layer_run::shared_lanes(current as nat, carried as nat, lanes) =~= seq![
                (lanes[0], lanes[0]),
            ]);
        }
    }
}

proof fn lemma_shared_lanes_join(current: nat, carried: nat, lanes: Seq<usize>, more: Seq<usize>)
    ensures
        crate::layer_run::shared_lanes(current, carried, lanes + more)
            == crate::layer_run::shared_lanes(current, carried, lanes)
            + crate::layer_run::shared_lanes(current, carried, more),
    decreases more.len(),
{
    let whole = lanes + more;
    if more.len() == 0 {
        assert(whole =~= lanes);
        assert(crate::layer_run::shared_lanes(current, carried, lanes)
            =~= crate::layer_run::shared_lanes(current, carried, lanes)
            + crate::layer_run::shared_lanes(current, carried, more));
    } else {
        lemma_shared_lanes_join(current, carried, lanes, more.drop_last());
        assert(whole.drop_last() =~= lanes + more.drop_last());
        assert(whole.last() == more.last());
        assert(crate::layer_run::shared_lanes(current, carried, whole)
            =~= crate::layer_run::shared_lanes(current, carried, lanes)
            + crate::layer_run::shared_lanes(current, carried, more));
    }
}

} // verus!
