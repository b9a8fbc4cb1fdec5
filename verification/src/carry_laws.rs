//! What holds of carried state on its way from stage to stage: what is cut off and what is kept,
//! what a boundary lets through, what a plan says of it, and what comes out at the other end.
use vstd::prelude::*;
use vstd::string::*;
use crate::boundary::{AttentionShape, FfnShape, StageBoundaryPlanModel};
use crate::carry::{
    AttentionCheckpointProvenanceModel, CarryableAttentionMixStateModel,
    CarryableAttentionProjectionStateModel, CarryableAttentionStateModel, CarryableFfnStateModel,
    StageCarryPolicy, StageCarryStateModel,
};
use crate::execution::{
    LayerExecutionProgram, StageAttentionResumeBlend, StageAttentionResumeContractSummary,
    StageAttentionResumePhase, StageResumeBudgets, StageResumeCapabilities,
    StageResumeContractSummary, StageResumeFreshnessPolicy,
};
use crate::frame::{StageForwardFrameModel, StageTransferFrameModel, TransientStatistics};
use crate::tensor::{
    AttentionContinuationModel, FfnContinuationModel, StageContinuationModel, StageLayoutModel,
    StageStateEnvelopeModel, StageTensorModel, StageTransientStateModel,
};

verus! {

/// Whether a list is the beginning of another one that a budget leaves: so many entries at most,
/// and all where there is no budget.
pub open spec fn is_cut<T>(part: Seq<T>, whole: Seq<T>, budget: Option<usize>) -> bool {
    &&& part.len() <= whole.len()
    &&& forall|i: int| 0 <= i < part.len() ==> #[trigger] part[i] == whole[i]
    &&& match budget {
        Some(most) => part.len() <= most && (part.len() == whole.len() || part.len() == most),
        None => part.len() == whole.len(),
    }
}

/// Whether a projection has a lane for each of its values, and no more than can be counted.
pub open spec fn projection_is_paired(part: CarryableAttentionProjectionStateModel) -> bool {
    &&& part.q.len() == part.q_lane_indices.len() <= usize::MAX
    &&& part.k.len() == part.k_lane_indices.len() <= usize::MAX
    &&& part.v.len() == part.v_lane_indices.len() <= usize::MAX
}

/// Whether a mix has a lane for each of its values, and no more than can be counted.
pub open spec fn mix_is_paired(part: CarryableAttentionMixStateModel) -> bool {
    &&& part.scores.len() == part.score_lane_indices.len() <= usize::MAX
    &&& part.values.len() == part.value_lane_indices.len() <= usize::MAX
}

/// What a target resumes of an attention projection is the beginning of each slice, within that
/// slice's own budget, with its lanes, from where it came.
pub proof fn lemma_slices_are_cut_to_their_own_budgets(
    carry: StageCarryStateModel,
    able: StageResumeCapabilities,
    room: StageResumeBudgets,
)
    requires
        carry.attention is Some ==> (carry.attention->0.projection is Some ==> projection_is_paired(
            carry.attention->0.projection->0,
        )),
        carry.attention is Some ==> (carry.attention->0.mix is Some ==> mix_is_paired(
            carry.attention->0.mix->0,
        )),
    ensures
        ({
            let left = carry.narrowed(able, room);
            let kept = left->0.attention->0;
            let before = carry.attention->0;
            &&& left is Some && left->0.attention is Some ==> {
                &&& carry.attention is Some && before.projection is Some && kept.projection is Some
                &&& able.attention_projection || able.attention_mix
                &&& kept.projection->0.width == before.projection->0.width
                &&& is_cut(
                    kept.projection->0.q,
                    before.projection->0.q,
                    room.attention_q_lanes,
                )
                &&& is_cut(
                    kept.projection->0.k,
                    before.projection->0.k,
                    room.attention_k_lanes,
                )
                &&& is_cut(
                    kept.projection->0.v,
                    before.projection->0.v,
                    room.attention_v_lanes,
                )
                &&& is_cut(
                    kept.projection->0.q_lane_indices,
                    before.projection->0.q_lane_indices,
                    room.attention_q_lanes,
                )
                &&& is_cut(
                    kept.projection->0.k_lane_indices,
                    before.projection->0.k_lane_indices,
                    room.attention_k_lanes,
                )
                &&& is_cut(
                    kept.projection->0.v_lane_indices,
                    before.projection->0.v_lane_indices,
                    room.attention_v_lanes,
                )
                &&& kept.projection->0.q_provenance == before.projection->0.q_provenance
                &&& kept.projection->0.k_provenance == before.projection->0.k_provenance
                &&& kept.projection->0.v_provenance == before.projection->0.v_provenance
                &&& kept.mix is Some ==> {
                    &&& able.attention_mix && before.mix is Some
                    &&& kept.mix->0.width == before.mix->0.width
                    &&& is_cut(kept.mix->0.scores, before.mix->0.scores, room.attention_mix_lanes)
                    &&& is_cut(kept.mix->0.values, before.mix->0.values, room.attention_mix_lanes)
                    &&& is_cut(
                        kept.mix->0.score_lane_indices,
                        before.mix->0.score_lane_indices,
                        room.attention_mix_lanes,
                    )
                    &&& is_cut(
                        kept.mix->0.value_lane_indices,
                        before.mix->0.value_lane_indices,
                        room.attention_mix_lanes,
                    )
                    &&& kept.mix->0.score_provenance == before.mix->0.score_provenance
                    &&& kept.mix->0.value_provenance == before.mix->0.value_provenance
                }
                &&& kept.contract.attention_q == (if kept.projection->0.q_lane_indices.len() > 0 {
                    before.contract.attention_q
                } else {
                    None
                })
                &&& kept.contract.attention_k == (if kept.projection->0.k_lane_indices.len() > 0 {
                    before.contract.attention_k
                } else {
                    None
                })
                &&& kept.contract.attention_v == (if kept.projection->0.v_lane_indices.len() > 0 {
                    before.contract.attention_v
                } else {
                    None
                })
                &&& kept.contract.attention_score == (if kept.mix is Some
                    && kept.mix->0.score_lane_indices.len() > 0 {
                    before.contract.attention_score
                } else {
                    None
                })
                &&& kept.contract.attention_value == (if kept.mix is Some
                    && kept.mix->0.value_lane_indices.len() > 0 {
                    before.contract.attention_value
                } else {
                    None
                })
            }
        }),
{
}

/// Where a target can resume a projection and has room for a lane of some slice that has one, it
/// gets the projection; and the mix too where it can resume that and has room for it.
pub proof fn lemma_what_has_room_is_kept(
    carry: StageCarryStateModel,
    able: StageResumeCapabilities,
    room: StageResumeBudgets,
)
    requires
        carry.attention is Some && carry.attention->0.projection is Some,
        able.attention_projection,
        ({
            let part = carry.attention->0.projection->0;
            projection_is_paired(part) && part.q_lane_indices.len() > 0
        }),
        room.attention_q_lanes is Some ==> room.attention_q_lanes->0 > 0,
    ensures
        ({
            let left = carry.narrowed(able, room);
            &&& left is Some && left->0.attention is Some
            &&& left->0.attention->0.projection is Some
            &&& able.attention_mix && carry.attention->0.mix is Some && mix_is_paired(
                carry.attention->0.mix->0,
            ) && carry.attention->0.mix->0.score_lane_indices.len() > 0 && (
            room.attention_mix_lanes is Some ==> room.attention_mix_lanes->0 > 0)
                ==> left->0.attention->0.mix is Some
            &&& !able.attention_mix ==> left->0.attention->0.mix is None
        }),
{
}

/// A target that can resume neither projection nor mix gets no attention; one without a
/// feed-forward path gets no feed-forward state.
pub proof fn lemma_what_cannot_be_resumed_is_dropped(
    carry: StageCarryStateModel,
    able: StageResumeCapabilities,
    room: StageResumeBudgets,
)
    ensures
        ({
            let left = carry.narrowed(able, room);
            let supported = carry.supported(able);
            &&& !able.attention_projection && !able.attention_mix ==> (left is None
                || left->0.attention is None)
            &&& carry.attention is None || carry.attention->0.projection is None ==> (left is None
                || left->0.attention is None)
            &&& !able.ffn_path || carry.ffn is None ==> (left is None || left->0.ffn is None)
            &&& left is Some ==> left->0.attention is Some || left->0.ffn is Some
            &&& !able.attention_projection ==> (supported is None || supported->0.attention is None)
            &&& !able.ffn_path ==> (supported is None || supported->0.ffn is None)
            &&& able.ffn_path && carry.ffn is Some ==> supported is Some && supported->0.ffn
                == carry.ffn
            &&& able.attention_projection && carry.attention is Some
                && carry.attention->0.projection is Some ==> {
                &&& supported is Some && supported->0.attention is Some
                &&& supported->0.attention->0.projection == carry.attention->0.projection
                &&& able.attention_mix ==> supported->0.attention->0.mix == carry.attention->0.mix
                &&& !able.attention_mix ==> supported->0.attention->0.mix is None
            }
            &&& supported is Some ==> supported->0.attention is Some || supported->0.ffn is Some
        }),
{
}

/// What a target resumes of a feed-forward state is the beginning of each vector, within the
/// budget, with its lanes.
pub proof fn lemma_ffn_is_cut_to_its_budget(
    carry: StageCarryStateModel,
    able: StageResumeCapabilities,
    room: StageResumeBudgets,
)
    requires
        carry.ffn is Some,
        ({
            let ffn = carry.ffn->0;
            ffn.lane_indices.len() <= usize::MAX && ffn.gate_head.len() == ffn.lane_indices.len()
                && ffn.up_head.len() == ffn.lane_indices.len() && ffn.activation_head.len()
                == ffn.lane_indices.len()
        }),
    ensures
        ({
            let left = carry.narrowed(able, room);
            let kept = left->0.ffn->0;
            let before = carry.ffn->0;
            &&& left is Some && left->0.ffn is Some ==> {
                &&& able.ffn_path
                &&& kept.width == before.width
                &&& is_cut(kept.lane_indices, before.lane_indices, room.ffn_lanes)
                &&& is_cut(kept.gate_head, before.gate_head, room.ffn_lanes)
                &&& is_cut(kept.up_head, before.up_head, room.ffn_lanes)
                &&& is_cut(kept.activation_head, before.activation_head, room.ffn_lanes)
                &&& kept.lane_indices.len() > 0
            }
            &&& able.ffn_path && before.lane_indices.len() > 0 && (room.ffn_lanes is Some
                ==> room.ffn_lanes->0 > 0) ==> left is Some && left->0.ffn is Some
        }),
{
}

/// A head hands on attention alone, a middle stage both parts, a tail nothing; and each part only
/// where the continuation, where there is one, has a path for it and some program that can be run
/// uses it.
pub proof fn lemma_boundaries_by_place(
    is_head: bool,
    is_tail: bool,
    continuation: Option<StageContinuationModel>,
    programs: Seq<LayerExecutionProgram>,
)
    ensures
        ({
            let policy = StageCarryPolicy::execution_boundary(
                is_head,
                is_tail,
                continuation,
                programs,
            );
            let plain = StageCarryPolicy::boundary(is_head, is_tail, continuation);
            let attends = exists|i: int|
                0 <= i < programs.len() && #[trigger] programs[i].runs_attention();
            let feeds = exists|i: int| 0 <= i < programs.len() && #[trigger] programs[i].runs_ffn();
            &&& is_tail ==> !policy.carry_attention && !policy.carry_ffn && !plain.carry_attention
                && !plain.carry_ffn
            &&& is_head ==> !policy.carry_ffn && !plain.carry_ffn
            &&& !is_tail && continuation is None ==> plain.carry_attention
            &&& !is_head && !is_tail && continuation is None ==> plain.carry_ffn
            &&& !is_tail && continuation is Some ==> plain.carry_attention
                == continuation->0.has_attention_path
            &&& !is_head && !is_tail && continuation is Some ==> plain.carry_ffn
                == continuation->0.has_ffn_path
            &&& policy.carry_attention <==> plain.carry_attention && attends
            &&& policy.carry_ffn <==> plain.carry_ffn && feeds
        }),
{
}

/// A policy keeps or drops each part as a whole; a carry made of previews under a policy has the
/// parts that were previewed and that the policy keeps.
pub proof fn lemma_policy_goes_by_part(
    carry: StageCarryStateModel,
    previews: StageTransientStateModel,
    policy: StageCarryPolicy,
)
    ensures
        carry.under_policy(policy).attention == (if policy.carry_attention {
            carry.attention
        } else {
            None
        }),
        carry.under_policy(policy).ffn == (if policy.carry_ffn {
            carry.ffn
        } else {
            None
        }),
        StageCarryStateModel::of_transient(previews, policy).attention is Some <==> (
        previews.attention is Some && policy.carry_attention),
        StageCarryStateModel::of_transient(previews, policy).ffn is Some <==> (previews.ffn is Some
            && policy.carry_ffn),
{
}

/// A carry made of a feed-forward preview holds the preview's vectors, each as itself, at its
/// lanes, and shows the same preview again.
pub proof fn lemma_ffn_preview_round_trip(
    preview: FfnContinuationModel,
    carry: CarryableFfnStateModel,
)
    requires
        preview.gate_preview.len() <= usize::MAX,
        preview.up_preview.len() <= usize::MAX,
        preview.activation_preview.len() <= usize::MAX,
    ensures
        ({
            let made = CarryableFfnStateModel::of_ffn(preview);
            &&& made.width == preview.width
            &&& made.gate_head == preview.gate_preview
            &&& made.up_head == preview.up_preview
            &&& made.activation_head == preview.activation_preview
            &&& preview.lane_indices.len() > 0 ==> made.lane_indices == preview.lane_indices
                && made.to_ffn() == preview
            &&& preview.lane_indices.len() == 0 ==> crate::layer_laws::counts_up(
                made.lane_indices,
                made.lane_indices.len(),
            ) && made.lane_indices.len() >= preview.gate_preview.len() && made.lane_indices.len()
                >= preview.up_preview.len() && made.lane_indices.len()
                >= preview.activation_preview.len()
        }),
        carry.lane_indices.len() > 0 ==> CarryableFfnStateModel::of_ffn(carry.to_ffn()) == carry,
        carry.to_ffn().gate_preview == carry.gate_head,
        carry.to_ffn().up_preview == carry.up_head,
        carry.to_ffn().activation_preview == carry.activation_head,
{
}

/// A carry made of an attention preview holds the beginning of each of its vectors, as itself, at
/// the preview's first lanes: four of query, key and value, eight of scores and mixed values.
/// Nothing is known of where they came from, and nothing was contracted.
pub proof fn lemma_attention_preview_is_carried_by_slice(preview: AttentionContinuationModel)
    requires
        preview.lane_indices.len() > 0,
        preview.lane_indices.len() <= usize::MAX,
        preview.q_preview.len() == preview.lane_indices.len(),
        preview.k_preview.len() == preview.lane_indices.len(),
        preview.v_preview.len() == preview.lane_indices.len(),
        preview.score_preview.len() == preview.lane_indices.len(),
        preview.value_preview.len() == preview.lane_indices.len(),
    ensures
        ({
            let carry = CarryableAttentionStateModel::of_attention(preview);
            let part = carry.projection->0;
            let mix = carry.mix->0;
            &&& carry.contract == StageResumeContractSummary::none()
            &&& carry.projection is Some && carry.mix is Some
            &&& part.width == preview.width && mix.width == preview.width
            &&& is_cut(part.q, preview.q_preview, Some(4))
            &&& is_cut(part.k, preview.k_preview, Some(4))
            &&& is_cut(part.v, preview.v_preview, Some(4))
            &&& is_cut(mix.scores, preview.score_preview, Some(8))
            &&& is_cut(mix.values, preview.value_preview, Some(8))
            &&& is_cut(part.q_lane_indices, preview.lane_indices, Some(4))
            &&& is_cut(part.k_lane_indices, preview.lane_indices, Some(4))
            &&& is_cut(part.v_lane_indices, preview.lane_indices, Some(4))
            &&& is_cut(mix.score_lane_indices, preview.lane_indices, Some(8))
            &&& is_cut(mix.value_lane_indices, preview.lane_indices, Some(8))
            &&& part.q_provenance is None && part.k_provenance is None && part.v_provenance is None
            &&& mix.score_provenance is None && mix.value_provenance is None
        }),
{
}

/// Whether a vector shows the values carried for lanes: at each place the value of that place's
/// lane, and zero where none was carried for it.
pub open spec fn shows(
    vector: Seq<u32>,
    places: Seq<usize>,
    lanes: Seq<usize>,
    values: Seq<u32>,
) -> bool {
    &&& vector.len() == places.len()
    &&& forall|i: int, at: int|
        0 <= i < places.len() && 0 <= at < lanes.len() && at < values.len()
            && #[trigger] places[i] == #[trigger] lanes[at] && (forall|later: int|
            at < later < lanes.len() ==> #[trigger] lanes[later] != lanes[at]) ==> vector[i]
            == values[at]
    &&& forall|i: int|
        0 <= i < places.len() && !lanes.contains(#[trigger] places[i]) ==> vector[i] == 0
}

proof fn lemma_aligned_shows(places: Seq<usize>, lanes: Seq<usize>, values: Seq<u32>)
    ensures
        shows(crate::lanes::aligned(places, lanes, values), places, lanes, values),
{
    let vector = crate::lanes::aligned(places, lanes, values);
    assert forall|i: int, at: int|
        0 <= i < places.len() && 0 <= at < lanes.len() && at < values.len()
            && #[trigger] places[i] == #[trigger] lanes[at] && (forall|later: int|
            at < later < lanes.len() ==> #[trigger] lanes[later] != lanes[at]) implies vector[i]
        == values[at] by {
        crate::lanes::lemma_last_place(lanes, places[i]);
        assert(lanes.contains(places[i]));
        let found = crate::lanes::last_place(lanes, places[i])->0;
        if found < at {
            assert(lanes[at] != places[i]);
        }
        if found > at {
            assert(lanes[found] != lanes[at]);
        }
    }
    assert forall|i: int|
        0 <= i < places.len() && !lanes.contains(#[trigger] places[i]) implies vector[i] == 0 by {
        crate::lanes::lemma_last_place(lanes, places[i]);
    }
}

/// A carried attention is shown again slice by slice: over all lanes that some slice has, in
/// order, each slice with its own values where it has them.
pub proof fn lemma_carried_attention_is_shown_by_slice(carry: CarryableAttentionStateModel)
    ensures
        ({
            let shown = carry.to_attention();
            let part = carry.projection->0;
            let mix = carry.mix->0;
            &&& shown is Some ==> {
                let lanes = shown->0.lane_indices;
                &&& shown->0.width == carry.width()
                &&& carry.projection is Some ==> shows(
                    shown->0.q_preview,
                    lanes,
                    part.q_lane_indices,
                    part.q,
                ) && shows(shown->0.k_preview, lanes, part.k_lane_indices, part.k) && shows(
                    shown->0.v_preview,
                    lanes,
                    part.v_lane_indices,
                    part.v,
                )
                &&& carry.mix is Some ==> shows(
                    shown->0.score_preview,
                    lanes,
                    mix.score_lane_indices,
                    mix.scores,
                ) && shows(shown->0.value_preview, lanes, mix.value_lane_indices, mix.values)
                &&& carry.projection is None ==> shown->0.q_preview == crate::lanes::zeros(
                    lanes.len(),
                ) && shown->0.k_preview == shown->0.q_preview && shown->0.v_preview
                    == shown->0.q_preview
                &&& carry.mix is None ==> shown->0.score_preview == crate::lanes::zeros(
                    lanes.len(),
                ) && shown->0.value_preview == shown->0.score_preview
                &&& crate::lanes::ascending(lanes)
                &&& forall|lane: usize| #[trigger] lanes.contains(lane) <==> carry.has_lane(lane)
            }
            &&& shown is None <==> forall|lane: usize| !#[trigger] carry.has_lane(lane)
        }),
{
    crate::carry::lemma_merged_lanes(carry);
    let lanes = carry.merged_lanes();
    if let Some(part) = carry.projection {
        lemma_aligned_shows(lanes, part.q_lane_indices, part.q);
        lemma_aligned_shows(lanes, part.k_lane_indices, part.k);
        lemma_aligned_shows(lanes, part.v_lane_indices, part.v);
    }
    if let Some(mix) = carry.mix {
        lemma_aligned_shows(lanes, mix.score_lane_indices, mix.scores);
        lemma_aligned_shows(lanes, mix.value_lane_indices, mix.values);
    }
    if lanes.len() > 0 {
        assert(lanes.contains(lanes[0]));
        assert(carry.has_lane(lanes[0]));
    } else {
        assert forall|lane: usize| !#[trigger] carry.has_lane(lane) by {
            assert(!lanes.contains(lane));
        }
    }
}

/// Whether a number of lanes is told of a slice that is there, and only then.
pub open spec fn tells_lanes(told: Option<usize>, there: bool, lanes: Seq<usize>) -> bool {
    if there {
        told == Some(lanes.len() as usize)
    } else {
        told is None
    }
}

/// Whether the distance of a slice that is there is told, where its origin is known.
pub open spec fn tells_distance(
    told: Option<u32>,
    there: bool,
    origin: Option<AttentionCheckpointProvenanceModel>,
) -> bool {
    if there && origin is Some {
        told == Some(origin->0.layer_distance_to_boundary)
    } else {
        told is None
    }
}

/// A plan tells of the carry that is handed over with it, part by part and slice by slice: what is
/// there, how wide it is, how many lanes each slice has and how old it is.
pub proof fn lemma_plan_tells_of_its_carry(
    frame: StageForwardFrameModel,
    layout: StageLayoutModel,
    programs: Seq<LayerExecutionProgram>,
    statistics: TransientStatistics,
)
    ensures
        ({
            let plan = StageBoundaryPlanModel::of_boundary(frame, layout, programs);
            let carry = frame.transfer_to(layout, programs, statistics).state.carry;
            let attends = carry is Some && carry->0.attention is Some;
            let attention = carry->0.attention->0;
            let projects = attends && attention.projection is Some;
            let mixes = attends && attention.mix is Some;
            let part = attention.projection->0;
            let mix = attention.mix->0;
            let feeds = carry is Some && carry->0.ffn is Some;
            let ffn = carry->0.ffn->0;
            &&& plan.expects_attention_carry == attends
            &&& plan.expects_attention_projection_carry == projects
            &&& plan.expects_attention_mix_carry == mixes
            &&& plan.expects_ffn_carry == feeds
            &&& plan.expected_attention_width == (if attends {
                Some(attention.width())
            } else {
                None
            })
            &&& plan.expected_attention_lanes == (if attends {
                Some(attention.lanes() as usize)
            } else {
                None
            })
            &&& tells_lanes(plan.expected_attention_q_lanes, projects, part.q_lane_indices)
            &&& tells_lanes(plan.expected_attention_k_lanes, projects, part.k_lane_indices)
            &&& tells_lanes(plan.expected_attention_v_lanes, projects, part.v_lane_indices)
            &&& tells_lanes(plan.expected_attention_score_lanes, mixes, mix.score_lane_indices)
            &&& tells_lanes(plan.expected_attention_value_lanes, mixes, mix.value_lane_indices)
            &&& tells_distance(plan.expected_attention_q_distance, projects, part.q_provenance)
            &&& tells_distance(plan.expected_attention_k_distance, projects, part.k_provenance)
            &&& tells_distance(plan.expected_attention_v_distance, projects, part.v_provenance)
            &&& tells_distance(plan.expected_attention_score_distance, mixes, mix.score_provenance)
            &&& tells_distance(plan.expected_attention_value_distance, mixes, mix.value_provenance)
            &&& plan.expected_attention_projection_lanes is Some <==> projects
            &&& plan.expected_attention_mix_lanes is Some <==> mixes
            &&& plan.expected_ffn_width == (if feeds {
                Some(ffn.width)
            } else {
                None
            })
            &&& plan.expected_ffn_lanes == (if feeds {
                Some(ffn.lanes() as usize)
            } else {
                None
            })
        }),
{
}

/// The number of lanes of an attention carry is the most that one of its slices has.
pub proof fn lemma_lanes_are_those_of_the_longest_slice(carry: CarryableAttentionStateModel)
    ensures
        ({
            let part = carry.projection->0;
            let mix = carry.mix->0;
            let lanes = carry.lanes();
            &&& carry.projection is Some ==> {
                &&& part.lanes() >= part.q_lane_indices.len() && part.lanes()
                    >= part.k_lane_indices.len() && part.lanes() >= part.v_lane_indices.len()
                &&& part.lanes() == part.q_lane_indices.len() || part.lanes()
                    == part.k_lane_indices.len() || part.lanes() == part.v_lane_indices.len()
                &&& lanes >= part.lanes()
                &&& carry.width() == part.width
            }
            &&& carry.mix is Some ==> {
                &&& mix.lanes() >= mix.score_lane_indices.len() && mix.lanes()
                    >= mix.value_lane_indices.len()
                &&& mix.lanes() == mix.score_lane_indices.len() || mix.lanes()
                    == mix.value_lane_indices.len()
                &&& lanes >= mix.lanes()
                &&& carry.projection is None ==> carry.width() == mix.width
            }
            &&& lanes > 0 ==> carry.projection is Some && lanes == part.lanes() || carry.mix is Some
                && lanes == mix.lanes()
            &&& carry.projection is None && carry.mix is None ==> carry.width() == 0
        }),
{
}

/// A plan tells what the target offers at the layer that is next, each limit as itself, and of the
/// frame where it comes from and goes to.
pub proof fn lemma_plan_tells_what_is_offered(
    frame: StageForwardFrameModel,
    layout: StageLayoutModel,
    programs: Seq<LayerExecutionProgram>,
)
    ensures
        ({
            let plan = StageBoundaryPlanModel::of_boundary(frame, layout, programs);
            let next = frame.next_layer();
            let able = StageResumeCapabilities::of_programs(programs, next);
            let room = StageResumeBudgets::of_programs(programs, next, able);
            let freshness = StageResumeFreshnessPolicy::of_programs(programs, next, able);
            &&& plan.source_stage_id == frame.route.source_stage_id
            &&& plan.source_stage_role == frame.route.source_stage_role
            &&& plan.source_stage_start == frame.route.source_stage_start
            &&& plan.source_stage_end == frame.route.source_stage_end
            &&& plan.target_stage_id == frame.route.target_stage_id
            &&& plan.next_layer_index == next
            &&& plan.expected_payload_kind == frame.payload.kind
            &&& plan.expected_hidden_dim == frame.payload.hidden_dim
            &&& plan.carry_policy == StageCarryPolicy::execution_boundary(
                layout.is_head,
                layout.is_tail,
                frame.state.continuation,
                programs,
            )
            &&& plan.resumable_attention_path == able.attention_path
            &&& plan.resumable_attention_q == able.attention_q
            &&& plan.resumable_attention_k == able.attention_k
            &&& plan.resumable_attention_v == able.attention_v
            &&& plan.resumable_attention_projection == able.attention_projection
            &&& plan.resumable_attention_mix == able.attention_mix
            &&& plan.resumable_ffn_path == able.ffn_path
            &&& plan.resumable_projection_path == able.projection_path
            &&& plan.resumable_attention_q_lanes == room.attention_q_lanes
            &&& plan.resumable_attention_k_lanes == room.attention_k_lanes
            &&& plan.resumable_attention_v_lanes == room.attention_v_lanes
            &&& plan.resumable_attention_q_max_distance == freshness.attention_q_max_distance
            &&& plan.resumable_attention_k_max_distance == freshness.attention_k_max_distance
            &&& plan.resumable_attention_v_max_distance == freshness.attention_v_max_distance
            &&& plan.resumable_attention_score_max_distance
                == freshness.attention_score_max_distance
            &&& plan.resumable_attention_value_max_distance
                == freshness.attention_value_max_distance
            &&& plan.resumable_attention_contract == StageResumeContractSummary::of_programs(
                programs,
                next,
                able,
            )
            &&& plan.operator_layers == (if frame.state.continuation is Some {
                frame.state.continuation->0.operator_layers
            } else {
                0
            })
            &&& plan.completed_layers == (if frame.state.continuation is Some {
                Some(frame.state.continuation->0.completed_layers)
            } else {
                None
            })
        }),
{
}

/// Where a plan and a transfer pass the check against one another, the transfer is from and to
/// where the plan says, and carries exactly what the plan expects, slice by slice.
pub proof fn lemma_checked_transfer_is_as_planned(
    plan: StageBoundaryPlanModel,
    transfer: StageTransferFrameModel,
)
    requires
        plan.transfer_fault(transfer) is None,
    ensures
        ({
            let carry = transfer.state.carry;
            let attends = carry is Some && carry->0.attention is Some;
            let attention = carry->0.attention->0;
            let projects = attends && attention.projection is Some;
            let mixes = attends && attention.mix is Some;
            let part = attention.projection->0;
            let mix = attention.mix->0;
            let feeds = carry is Some && carry->0.ffn is Some;
            let ffn = carry->0.ffn->0;
            &&& plan.source_stage_id == transfer.route.source_stage_id
            &&& plan.source_stage_role == transfer.route.source_stage_role
            &&& plan.target_stage_id == transfer.route.target_stage_id
            &&& plan.expected_payload_kind == transfer.payload.kind
            &&& plan.expected_hidden_dim == transfer.payload.hidden_dim
            &&& plan.expects_attention_carry == attends
            &&& plan.expects_attention_projection_carry == projects
            &&& plan.expects_attention_mix_carry == mixes
            &&& plan.expects_ffn_carry == feeds
            &&& attends ==> {
                &&& plan.expected_attention_width is None || plan.expected_attention_width == Some(
                    attention.width(),
                )
                &&& plan.expected_attention_lanes is None || plan.expected_attention_lanes->0
                    == attention.lanes()
            }
            &&& projects ==> {
                &&& plan.expected_attention_q_lanes is None || plan.expected_attention_q_lanes->0
                    == part.q_lane_indices.len()
                &&& plan.expected_attention_k_lanes is None || plan.expected_attention_k_lanes->0
                    == part.k_lane_indices.len()
                &&& plan.expected_attention_v_lanes is None || plan.expected_attention_v_lanes->0
                    == part.v_lane_indices.len()
                &&& plan.expected_attention_projection_lanes is None
                    || plan.expected_attention_projection_lanes->0 == part.lanes()
                &&& plan.expected_attention_q_distance is Some ==> part.q_provenance is Some
                    && part.q_provenance->0.layer_distance_to_boundary
                    == plan.expected_attention_q_distance->0
                &&& plan.expected_attention_k_distance is Some ==> part.k_provenance is Some
                    && part.k_provenance->0.layer_distance_to_boundary
                    == plan.expected_attention_k_distance->0
                &&& plan.expected_attention_v_distance is Some ==> part.v_provenance is Some
                    && part.v_provenance->0.layer_distance_to_boundary
                    == plan.expected_attention_v_distance->0
            }
            &&& mixes ==> {
                &&& plan.expected_attention_score_lanes is None
                    || plan.expected_attention_score_lanes->0 == mix.score_lane_indices.len()
                &&& plan.expected_attention_value_lanes is None
                    || plan.expected_attention_value_lanes->0 == mix.value_lane_indices.len()
                &&& plan.expected_attention_mix_lanes is None || plan.expected_attention_mix_lanes->0
                    == mix.lanes()
                &&& plan.expected_attention_score_distance is Some ==> mix.score_provenance is Some
                    && mix.score_provenance->0.layer_distance_to_boundary
                    == plan.expected_attention_score_distance->0
                &&& plan.expected_attention_value_distance is Some ==> mix.value_provenance is Some
                    && mix.value_provenance->0.layer_distance_to_boundary
                    == plan.expected_attention_value_distance->0
            }
            &&& feeds ==> {
                &&& plan.expected_ffn_width is None || plan.expected_ffn_width == Some(ffn.width)
                &&& plan.expected_ffn_lanes is None || plan.expected_ffn_lanes->0 == ffn.lanes()
            }
        }),
{
}

/// Whether a contract, where there is one, goes with its blend: none has a weight where it
/// overwrites, a weak one less than three tenths, a strong one at least that.
pub open spec fn blends_as_it_says(entry: Option<StageAttentionResumeContractSummary>) -> bool {
    entry is Some ==> match entry->0.blend {
        StageAttentionResumeBlend::Overwrite => entry->0.blend_weight_milli is None,
        StageAttentionResumeBlend::WeakBlend => entry->0.blend_weight_milli is Some
            && entry->0.blend_weight_milli->0 < 300,
        StageAttentionResumeBlend::StrongBlend => entry->0.blend_weight_milli is Some
            && entry->0.blend_weight_milli->0 >= 300,
    }
}

/// Whether a contract, where there is one, allows the age told of its slice: none where it
/// overwrites, one layer for a weak blend, two for a strong one.
pub open spec fn allows_the_age(
    entry: Option<StageAttentionResumeContractSummary>,
    limit: Option<u32>,
) -> bool {
    entry is Some ==> limit == Some(
        match entry->0.blend {
            StageAttentionResumeBlend::Overwrite => 0u32,
            StageAttentionResumeBlend::WeakBlend => 1u32,
            StageAttentionResumeBlend::StrongBlend => 2u32,
        },
    )
}

/// Contracts go with age limits exactly where each of them does, slice by slice.
pub proof fn lemma_contracts_go_with_their_limits(
    contract: StageResumeContractSummary,
    freshness: StageResumeFreshnessPolicy,
)
    ensures
        contract.freshness_fault(freshness) is None <==> {
            &&& blends_as_it_says(contract.attention_q) && allows_the_age(
                contract.attention_q,
                freshness.attention_q_max_distance,
            )
            &&& blends_as_it_says(contract.attention_k) && allows_the_age(
                contract.attention_k,
                freshness.attention_k_max_distance,
            )
            &&& blends_as_it_says(contract.attention_v) && allows_the_age(
                contract.attention_v,
                freshness.attention_v_max_distance,
            )
            &&& blends_as_it_says(contract.attention_score) && allows_the_age(
                contract.attention_score,
                freshness.attention_score_max_distance,
            )
            &&& blends_as_it_says(contract.attention_value) && allows_the_age(
                contract.attention_value,
                freshness.attention_value_max_distance,
            )
        },
{
}

/// Whether a contract, where there is one, is for the given phase.
pub open spec fn is_of_phase(
    entry: Option<StageAttentionResumeContractSummary>,
    phase: StageAttentionResumePhase,
) -> bool {
    entry is Some ==> entry->0.phase == phase
}

/// The contracts of a carry hold exactly where none was made, or each is for a slice that is
/// carried, is of the phase in which that slice is computed and goes with its blend.
pub proof fn lemma_carried_contracts_hold(carry: CarryableAttentionStateModel)
    ensures
        carry.contract_fault() is None <==> carry.contract == StageResumeContractSummary::none() || {
            let part = carry.projection;
            let mix = carry.mix;
            &&& carry.contract.attention_q is Some ==> part is Some && part->0.q_lane_indices.len()
                > 0
            &&& carry.contract.attention_k is Some ==> part is Some && part->0.k_lane_indices.len()
                > 0
            &&& carry.contract.attention_v is Some ==> part is Some && part->0.v_lane_indices.len()
                > 0
            &&& carry.contract.attention_score is Some ==> mix is Some
                && mix->0.score_lane_indices.len() > 0
            &&& carry.contract.attention_value is Some ==> mix is Some
                && mix->0.value_lane_indices.len() > 0
            &&& is_of_phase(carry.contract.attention_q, StageAttentionResumePhase::Direct)
            &&& is_of_phase(carry.contract.attention_k, StageAttentionResumePhase::Direct)
            &&& is_of_phase(carry.contract.attention_v, StageAttentionResumePhase::Direct)
            &&& is_of_phase(
                carry.contract.attention_score,
                StageAttentionResumePhase::AfterProjection,
            )
            &&& is_of_phase(
                carry.contract.attention_value,
                StageAttentionResumePhase::AfterProjection,
            )
            &&& blends_as_it_says(carry.contract.attention_q)
            &&& blends_as_it_says(carry.contract.attention_k)
            &&& blends_as_it_says(carry.contract.attention_v)
            &&& blends_as_it_says(carry.contract.attention_score)
            &&& blends_as_it_says(carry.contract.attention_value)
        },
{
}

/// Whether each lane is within a width.
pub open spec fn are_within(lanes: Seq<usize>, width: usize) -> bool {
    forall|i: int| 0 <= i < lanes.len() ==> #[trigger] lanes[i] < width
}

/// Whether an origin, where it is known, is no further away than its layer's number.
pub open spec fn is_possible(origin: Option<AttentionCheckpointProvenanceModel>) -> bool {
    origin is Some ==> origin->0.layer_distance_to_boundary <= origin->0.layer_index
}

/// A carried attention is sound exactly where it has a width and lanes, no more lanes than its
/// width, one width for both parts, a lane within the width for each value of each slice, and
/// possible origins.
pub proof fn lemma_sound_attention(carry: CarryableAttentionStateModel)
    ensures
        carry.fault() is None <==> {
            let part = carry.projection->0;
            let mix = carry.mix->0;
            let width = carry.width();
            &&& width > 0
            &&& 0 < carry.lanes() <= width
            &&& carry.projection is Some ==> {
                &&& part.width == width
                &&& is_possible(part.q_provenance) && is_possible(part.k_provenance) && is_possible(
                    part.v_provenance,
                )
                &&& part.q.len() == part.q_lane_indices.len() && are_within(
                    part.q_lane_indices,
                    width,
                )
                &&& part.k.len() == part.k_lane_indices.len() && are_within(
                    part.k_lane_indices,
                    width,
                )
                &&& part.v.len() == part.v_lane_indices.len() && are_within(
                    part.v_lane_indices,
                    width,
                )
            }
            &&& carry.mix is Some ==> {
                &&& mix.width == width
                &&& is_possible(mix.score_provenance) && is_possible(mix.value_provenance)
                &&& mix.scores.len() == mix.score_lane_indices.len() && are_within(
                    mix.score_lane_indices,
                    width,
                )
                &&& mix.values.len() == mix.value_lane_indices.len() && are_within(
                    mix.value_lane_indices,
                    width,
                )
            }
        },
{
}

/// A carried feed-forward state is sound exactly where it has a width and lanes, no more lanes
/// than its width, as many values in each vector, and its lanes within the width. A carry is sound
/// where each of its parts is.
pub proof fn lemma_sound_ffn(carry: CarryableFfnStateModel, whole: StageCarryStateModel)
    ensures
        carry.fault() is None <==> {
            &&& carry.width > 0
            &&& 0 < carry.lanes() <= carry.width
            &&& carry.gate_head.len() == carry.lanes()
            &&& carry.up_head.len() == carry.lanes()
            &&& carry.activation_head.len() == carry.lanes()
            &&& are_within(carry.lane_indices, carry.width)
        },
        carry.lane_indices.len() > 0 ==> carry.lanes() == carry.lane_indices.len(),
        whole.fault() is None <==> (whole.attention is Some ==> whole.attention->0.fault() is None)
            && (whole.ffn is Some ==> whole.ffn->0.fault() is None),
{
}

/// What crosses a boundary is the frame's own carry where it has one, else one made of its
/// previews; under the policy of the boundary, and narrowed to what the target resumes.
pub proof fn lemma_own_carry_goes_before_previews(
    frame: StageForwardFrameModel,
    policy: StageCarryPolicy,
    programs: Seq<LayerExecutionProgram>,
)
    ensures
        ({
            let state = frame.state;
            let under = frame.carry_under(policy);
            let able = StageResumeCapabilities::of_programs(programs, frame.next_layer());
            let room = StageResumeBudgets::of_programs(programs, frame.next_layer(), able);
            &&& state.carry is Some ==> under == Some(state.carry->0.under_policy(policy))
            &&& state.carry is None && state.transient is Some ==> under == Some(
                StageCarryStateModel::of_transient(state.transient->0, policy),
            )
            &&& state.carry is None && state.transient is None ==> under is None
            &&& under is Some ==> frame.carry_to(policy, programs) == under->0.narrowed(able, room)
            &&& under is None ==> frame.carry_to(policy, programs) is None
            &&& frame.next_layer() == (if state.continuation is Some {
                state.continuation->0.next_layer_index
            } else {
                None
            })
        }),
{
}

/// A transfer has of a frame's previews only how wide they are and how many entries they have, and
/// a checksum; the tensor at the other end has the payload, the continuation and the carry of the
/// transfer, and previews that its carry shows.
pub proof fn lemma_transfer_gives_its_tensor(
    frame: StageForwardFrameModel,
    layout: StageLayoutModel,
    programs: Seq<LayerExecutionProgram>,
    statistics: TransientStatistics,
)
    ensures
        ({
            let transfer = frame.transfer_to(layout, programs, statistics);
            let tensor = transfer.to_tensor();
            &&& transfer.version == frame.version && transfer.model_id == frame.model_id
            &&& transfer.route == frame.route
            &&& tensor.request_id == frame.payload.request_id
            &&& tensor.kind == frame.payload.kind
            &&& tensor.stage_trace == frame.payload.stage_trace
            &&& tensor.hidden_dim == frame.payload.hidden_dim
            &&& tensor.bytes == frame.payload.bytes
            &&& tensor.prompt_text == frame.payload.prompt_text
            &&& tensor.max_tokens == frame.payload.max_tokens
            &&& tensor.continuation == frame.state.continuation
            &&& tensor.carry == transfer.state.carry
            &&& transfer.state.carry is None ==> tensor.transient is None
            &&& transfer.state.carry is Some ==> ({
                let carry = transfer.state.carry->0;
                &&& carry.ffn is Some ==> tensor.transient is Some && tensor.transient->0.ffn
                    == Some(carry.ffn->0.to_ffn())
                &&& carry.attention is Some && carry.attention->0.to_attention() is Some
                    ==> tensor.transient is Some && tensor.transient->0.attention
                    == carry.attention->0.to_attention()
            })
            &&& transfer.state.transient is Some <==> frame.state.transient is Some
            &&& frame.state.transient is Some ==> ({
                let before = frame.state.transient->0;
                let after = transfer.state.transient->0;
                &&& after.attention is Some <==> before.attention is Some
                &&& after.ffn is Some <==> before.ffn is Some
                &&& before.attention is Some ==> after.attention->0.width
                    == before.attention->0.width
                &&& before.ffn is Some ==> after.ffn->0.width == before.ffn->0.width
            })
        }),
{
}

/// A frame is sound exactly where its version and range are, its hidden state has its width in
/// bytes, its trace ends with its source, and payload and envelope agree.
pub proof fn lemma_sound_frame(frame: StageForwardFrameModel)
    ensures
        frame.fault() is None <==> {
            &&& frame.version == 1
            &&& frame.route.source_stage_start <= frame.route.source_stage_end
            &&& frame.payload.kind == crate::tensor::PayloadKind::HiddenState
                ==> frame.payload.hidden_dim > 0 && frame.payload.bytes.len()
                == frame.payload.hidden_dim * 4
            &&& frame.payload.stage_trace.len() > 0 ==> frame.payload.stage_trace.last()
                == frame.route.source_stage_id
            &&& frame.payload.continuation == frame.state.continuation
            &&& StageTransientStateModel::agree(frame.payload.transient, frame.state.transient)
            &&& StageCarryStateModel::agree(frame.payload.carry, frame.state.carry)
        },
{
}

/// A transfer is sound exactly where its version and range are, its hidden state has its width in
/// bytes, its trace ends with its source, and its carry is sound.
pub proof fn lemma_sound_transfer(transfer: StageTransferFrameModel)
    ensures
        transfer.fault() is None <==> {
            &&& transfer.version == 1
            &&& transfer.route.source_stage_start <= transfer.route.source_stage_end
            &&& transfer.payload.kind == crate::tensor::PayloadKind::HiddenState
                ==> transfer.payload.bytes.len() == transfer.payload.hidden_dim * 4
            &&& transfer.payload.stage_trace.len() > 0 ==> transfer.payload.stage_trace.last()
                == transfer.route.source_stage_id
            &&& transfer.state.carry is Some ==> transfer.state.carry->0.fault() is None
        },
{
}

/// A frame made of a tensor comes from the stage whose layout is given, by its place: a head, a
/// tail, or what is between; and has the tensor, with what the tensor has of state.
pub proof fn lemma_frame_tells_of_its_tensor(
    model_id: Seq<char>,
    layout: StageLayoutModel,
    tensor: StageTensorModel,
    target: Option<Seq<char>>,
)
    ensures
        ({
            let frame = StageForwardFrameModel::of_tensor(model_id, layout, tensor, target);
            let told = frame.summary();
            &&& frame.version == 1 && frame.model_id == model_id
            &&& frame.route.source_stage_id == layout.stage_id
            &&& frame.route.source_stage_start == layout.start_layer
            &&& frame.route.source_stage_end == layout.end_layer
            &&& frame.route.target_stage_id == target
            &&& layout.is_head ==> frame.route.source_stage_role == "head"@
            &&& !layout.is_head && layout.is_tail ==> frame.route.source_stage_role == "tail"@
            &&& !layout.is_head && !layout.is_tail ==> frame.route.source_stage_role == "middle"@
            &&& frame.payload == tensor
            &&& frame.state.continuation == tensor.continuation
            &&& frame.state.transient == tensor.transient
            &&& frame.state.carry == tensor.carry
            &&& told.request_id == tensor.request_id && told.model_id == model_id
            &&& told.source_stage_id == layout.stage_id && told.target_stage_id == target
            &&& told.payload_kind == tensor.kind && told.hidden_dim == tensor.hidden_dim
            &&& told.trace_depth == tensor.stage_trace.len() as usize
            &&& told.hidden_bytes == tensor.bytes.len() as usize
            &&& told.has_transient == (tensor.transient is Some)
            &&& told.has_attention_transient == (tensor.transient is Some
                && tensor.transient->0.attention is Some)
            &&& told.has_ffn_transient == (tensor.transient is Some && tensor.transient->0.ffn
                is Some)
            &&& told.completed_layers == (if tensor.continuation is Some {
                Some(tensor.continuation->0.completed_layers)
            } else {
                None
            })
            &&& told.operator_layers == (if tensor.continuation is Some {
                Some(tensor.continuation->0.operator_layers)
            } else {
                None
            })
        }),
{
}

/// Whether a number of lanes is the most that one of the lists has.
pub open spec fn is_longest(lanes: usize, lists: Seq<nat>) -> bool {
    &&& forall|i: int| 0 <= i < lists.len() ==> #[trigger] lists[i] <= lanes
    &&& exists|i: int| 0 <= i < lists.len() && #[trigger] lists[i] == lanes
}

/// The shape of a preview has a lane for each entry of its vectors, and for several vectors as many
/// as the longest of them has.
pub proof fn lemma_shape_of_a_preview(value: AttentionContinuationModel)
    requires
        value.q_preview.len() <= usize::MAX,
        value.k_preview.len() <= usize::MAX,
        value.v_preview.len() <= usize::MAX,
        value.score_preview.len() <= usize::MAX,
        value.value_preview.len() <= usize::MAX,
    ensures
        ({
            let shape = AttentionShape::of_preview(value);
            let q = value.q_preview.len();
            let k = value.k_preview.len();
            let v = value.v_preview.len();
            let score = value.score_preview.len();
            let mixed = value.value_preview.len();
            &&& shape.width == value.width
            &&& shape.q_lanes is Some && shape.q_lanes->0 == q
            &&& shape.k_lanes is Some && shape.k_lanes->0 == k
            &&& shape.v_lanes is Some && shape.v_lanes->0 == v
            &&& shape.score_lanes is Some && shape.score_lanes->0 == score
            &&& shape.value_lanes is Some && shape.value_lanes->0 == mixed
            &&& shape.projection_lanes is Some && is_longest(
                shape.projection_lanes->0,
                seq![q, k, v],
            )
            &&& shape.mix_lanes is Some && is_longest(shape.mix_lanes->0, seq![score, mixed])
            &&& is_longest(shape.lanes, seq![q, k, v, score, mixed])
        }),
{
    let shape = AttentionShape::of_preview(value);
    let q = value.q_preview.len();
    let k = value.k_preview.len();
    let v = value.v_preview.len();
    let score = value.score_preview.len();
    let mixed = value.value_preview.len();
    let three = seq![q, k, v];
    let two = seq![score, mixed];
    let five = seq![q, k, v, score, mixed];
    assert(three[0] == q && three[1] == k && three[2] == v);
    assert(two[0] == score && two[1] == mixed);
    assert(five[0] == q && five[1] == k && five[2] == v && five[3] == score && five[4] == mixed);
}

/// Where the target's programs are not known it is taken to resume what the continuation has a path
/// for: all of attention or nothing of it, and the others each as themselves; without a
/// continuation nothing at all.
pub proof fn lemma_unknown_targets_go_by_the_continuation(frame: StageForwardFrameModel)
    ensures
        ({
            let able = StageBoundaryPlanModel::continuation_capabilities(frame);
            let left = frame.state.continuation;
            &&& left is Some ==> {
                &&& able.attention_path == left->0.has_attention_path
                &&& able.attention_q == left->0.has_attention_path
                &&& able.attention_k == left->0.has_attention_path
                &&& able.attention_v == left->0.has_attention_path
                &&& able.attention_projection == left->0.has_attention_path
                &&& able.attention_mix == left->0.has_attention_path
                &&& able.ffn_path == left->0.has_ffn_path
                &&& able.projection_path == left->0.has_projection_path
            }
            &&& left is None ==> !able.attention_path && !able.attention_q && !able.attention_k
                && !able.attention_v && !able.attention_projection && !able.attention_mix
                && !able.ffn_path && !able.projection_path
        }),
{
}

/// The shape of a state is that of its carry, part by part, and that of its preview where nothing
/// of the part is carried; there is none where the state has neither.
pub proof fn lemma_shape_of_a_state(state: StageStateEnvelopeModel)
    requires
        state.transient is Some && state.transient->0.ffn is Some ==> {
            &&& state.transient->0.ffn->0.gate_preview.len() <= usize::MAX
            &&& state.transient->0.ffn->0.up_preview.len() <= usize::MAX
            &&& state.transient->0.ffn->0.activation_preview.len() <= usize::MAX
        },
    ensures
        ({
            let carried = state.carry is Some && state.carry->0.attention is Some;
            let shown = state.transient is Some && state.transient->0.attention is Some;
            let shape = AttentionShape::of_state(state);
            &&& (shape is Some <==> carried || shown)
            &&& carried ==> shape == Some(AttentionShape::of_carry(state.carry->0.attention->0))
            &&& !carried && shown ==> shape == Some(
                AttentionShape::of_preview(state.transient->0.attention->0),
            )
        }),
        ({
            let carried = state.carry is Some && state.carry->0.ffn is Some;
            let shown = state.transient is Some && state.transient->0.ffn is Some;
            let shape = FfnShape::of_state(state);
            let ffn = state.transient->0.ffn->0;
            &&& (shape is Some <==> carried || shown)
            &&& carried ==> shape->0.width == state.carry->0.ffn->0.width
            &&& !carried && shown ==> shape->0.width == ffn.width && is_longest(
                shape->0.lanes,
                seq![ffn.gate_preview.len(), ffn.up_preview.len(), ffn.activation_preview.len()],
            )
        }),
{
    let ffn = state.transient->0.ffn->0;
    let three = seq![ffn.gate_preview.len(), ffn.up_preview.len(), ffn.activation_preview.len()];
    assert(three[0] == ffn.gate_preview.len() && three[1] == ffn.up_preview.len() && three[2]
        == ffn.activation_preview.len());
}

/// Whether values and lanes are the beginnings of a vector and of its lanes, as many of each as both
/// have, up to a limit.
pub open spec fn begins_together(
    values: Seq<u32>,
    lanes: Seq<usize>,
    vector: Seq<u32>,
    places: Seq<usize>,
    most: nat,
) -> bool {
    &&& values.len() == lanes.len()
    &&& values.len() <= vector.len() && values.len() <= places.len() && values.len() <= most
    &&& values.len() == vector.len() || values.len() == places.len() || values.len() == most
    &&& forall|i: int| 0 <= i < values.len() ==> #[trigger] values[i] == vector[i]
    &&& forall|i: int| 0 <= i < lanes.len() ==> #[trigger] lanes[i] == places[i]
}

proof fn lemma_clamped_begins_together(places: Seq<usize>, vector: Seq<u32>, most: usize)
    requires
        0 < places.len() <= usize::MAX,
        vector.len() <= usize::MAX,
        most > 0,
    ensures
        ({
            let lanes = CarryableAttentionStateModel::clamped(places, vector, most);
            let values = crate::lanes::prefix(vector, lanes.len() as usize);
            &&& begins_together(values, lanes, vector, places, most as nat)
            &&& lanes.len() == 0 <==> vector.len() == 0
        }),
{
}

/// Vectors of a preview that have fewer entries than it names lanes, or more, are carried as far as
/// both go; a part is carried exactly where one of its vectors has an entry.
#[verifier::spinoff_prover]
#[verifier::rlimit(50)]
pub proof fn lemma_uneven_previews_are_carried(preview: AttentionContinuationModel)
    requires
        0 < preview.lane_indices.len() <= usize::MAX,
        preview.q_preview.len() <= usize::MAX,
        preview.k_preview.len() <= usize::MAX,
        preview.v_preview.len() <= usize::MAX,
        preview.score_preview.len() <= usize::MAX,
        preview.value_preview.len() <= usize::MAX,
    ensures
        ({
            let carry = CarryableAttentionStateModel::of_attention(preview);
            let part = carry.projection->0;
            let mix = carry.mix->0;
            let places = preview.lane_indices;
            &&& carry.projection is Some <==> preview.q_preview.len() + preview.k_preview.len()
                + preview.v_preview.len() > 0
            &&& carry.mix is Some <==> preview.score_preview.len() + preview.value_preview.len() > 0
            &&& carry.projection is Some ==> {
                &&& begins_together(part.q, part.q_lane_indices, preview.q_preview, places, 4)
                &&& begins_together(part.k, part.k_lane_indices, preview.k_preview, places, 4)
                &&& begins_together(part.v, part.v_lane_indices, preview.v_preview, places, 4)
            }
            &&& carry.mix is Some ==> {
                &&& begins_together(
                    mix.scores,
                    mix.score_lane_indices,
                    preview.score_preview,
                    places,
                    8,
                )
                &&& begins_together(
                    mix.values,
                    mix.value_lane_indices,
                    preview.value_preview,
                    places,
                    8,
                )
            }
        }),
{
    let places = preview.lane_indices;
    assert(CarryableAttentionStateModel::preview_lanes(preview) == places);
    lemma_clamped_begins_together(places, preview.q_preview, 4);
    lemma_clamped_begins_together(places, preview.k_preview, 4);
    lemma_clamped_begins_together(places, preview.v_preview, 4);
    lemma_clamped_begins_together(places, preview.score_preview, 8);
    lemma_clamped_begins_together(places, preview.value_preview, 8);
}

/// A preview that names no lanes is carried as one that counts its lanes up, as far as the longest
/// of its vectors goes.
pub proof fn lemma_previews_without_lanes_count_up(
    preview: AttentionContinuationModel,
    named: AttentionContinuationModel,
)
    requires
        preview.lane_indices.len() == 0,
        named == (AttentionContinuationModel { lane_indices: named.lane_indices, ..preview }),
        0 < named.lane_indices.len() <= usize::MAX,
        crate::layer_laws::counts_up(named.lane_indices, named.lane_indices.len()),
        is_longest(
            named.lane_indices.len() as usize,
            seq![
                preview.q_preview.len(),
                preview.k_preview.len(),
                preview.v_preview.len(),
                preview.score_preview.len(),
                preview.value_preview.len(),
            ],
        ),
    ensures
        CarryableAttentionStateModel::of_attention(preview)
            == CarryableAttentionStateModel::of_attention(named),
{
    let lists = seq![
        preview.q_preview.len(),
        preview.k_preview.len(),
        preview.v_preview.len(),
        preview.score_preview.len(),
        preview.value_preview.len(),
    ];
    assert(lists[0] == preview.q_preview.len() && lists[1] == preview.k_preview.len());
    assert(lists[2] == preview.v_preview.len() && lists[3] == preview.score_preview.len());
    assert(lists[4] == preview.value_preview.len());
    assert(CarryableAttentionStateModel::preview_lanes(preview) =~= named.lane_indices);
}

} // verus!
