//! What holds of resuming: what a target offers is what its programs run, a request is admitted
//! exactly where it fits, and what is answered is what was asked.
use vstd::prelude::*;
use vstd::string::*;
use crate::boundary::StageBoundaryPlanModel;
use crate::carry::{
    CarryableAttentionStateModel, CarryableFfnStateModel, StageCarryPolicy, StageCarryStateModel,
};
use crate::execution::{
    AttentionBlendStrength, AttentionResumeSlice, AttentionSliceRecomputePhase,
    AttentionSliceResumePath, ExecutionAttentionResumeContract, ExecutionOp, ExecutionOpKind,
    ExecutionResumeContract, LayerExecutionProgram, StageAttentionResumeBlend,
    StageAttentionResumeContractSummary, StageAttentionResumePhase, StageResumeBudgets,
    StageResumeCapabilities, StageResumeContractSummary, StageResumeFreshnessPolicy,
};
use crate::frame::{StageForwardFrameModel, StageTransferFrameModel};
use crate::layer_run::{
    AttentionMixStateModel, AttentionScratchStateModel, FfnScratchStateModel, LayerRunModel,
};
use crate::resume::{StageResumeDecisionModel, StageResumeReceiptModel, StageResumeRequestModel};
use crate::tensor::{PayloadKind, StageContinuationModel, StageLayoutModel};

verus! {

proof fn lemma_first_attention_is_at(
    programs: Seq<LayerExecutionProgram>,
    from: int,
    at: int,
)
    requires
        0 <= from <= at < programs.len(),
        programs[at].runs_attention(),
        forall|i: int| from <= i < at ==> !(#[trigger] programs[i]).runs_attention(),
    ensures
        LayerExecutionProgram::first_attention(programs, from) == Some(at),
    decreases at - from,
{
    if from < at {
        assert(!programs[from].runs_attention());
        lemma_first_attention_is_at(programs, from + 1, at);
    }
}

proof fn lemma_first_ffn_is_at(programs: Seq<LayerExecutionProgram>, from: int, at: int)
    requires
        0 <= from <= at < programs.len(),
        programs[at].runs_ffn(),
        forall|i: int| from <= i < at ==> !(#[trigger] programs[i]).runs_ffn(),
    ensures
        LayerExecutionProgram::first_ffn(programs, from) == Some(at),
    decreases at - from,
{
    if from < at {
        assert(!programs[from].runs_ffn());
        lemma_first_ffn_is_at(programs, from + 1, at);
    }
}

proof fn lemma_no_first_without_a_path(programs: Seq<LayerExecutionProgram>, from: int)
    requires
        0 <= from <= programs.len(),
    ensures
        (forall|i: int| from <= i < programs.len() ==> !(#[trigger] programs[i]).runs_attention())
            ==> LayerExecutionProgram::first_attention(programs, from) is None,
        (forall|i: int| from <= i < programs.len() ==> !(#[trigger] programs[i]).runs_ffn())
            ==> LayerExecutionProgram::first_ffn(programs, from) is None,
    decreases programs.len() - from,
{
    if from < programs.len() {
        lemma_no_first_without_a_path(programs, from + 1);
        if forall|i: int|
            from <= i < programs.len() ==> !(#[trigger] programs[i]).runs_attention() {
            assert(!programs[from].runs_attention());
        }
        if forall|i: int| from <= i < programs.len() ==> !(#[trigger] programs[i]).runs_ffn() {
            assert(!programs[from].runs_ffn());
        }
    }
}

/// Whether a program runs as wide a block as the given one: each slice is as long as the program
/// gives it, and the query is the longest.
pub open spec fn runs_block(program: LayerExecutionProgram, state: AttentionScratchStateModel) -> bool {
    &&& program.q_out_dim matches Some(q) && state.q.len() == q
    &&& program.k_out_dim matches Some(k) && state.k.len() == k && k <= program.q_out_dim->0
    &&& program.v_out_dim matches Some(v) && state.v.len() == v && v <= program.q_out_dim->0
    &&& state.q.len() <= usize::MAX
}

/// The width that a target expects of an attention carry is the width that a layer of its shape
/// leaves: a carry from equally shaped layers passes the check of its width.
pub proof fn lemma_expected_attention_width_is_what_a_layer_leaves(
    programs: Seq<LayerExecutionProgram>,
    at: int,
    run: LayerRunModel,
    state: AttentionScratchStateModel,
    mix: AttentionMixStateModel,
    policy: StageCarryPolicy,
)
    requires
        0 <= at < programs.len(),
        programs[at].runs_attention(),
        forall|i: int| 0 <= i < at ==> !(#[trigger] programs[i]).runs_attention(),
        runs_block(programs[at], state),
        policy.carry_attention,
    ensures
        ({
            let carry = crate::layer_laws::attended(run, state, mix).carry(policy);
            let width = LayerExecutionProgram::attention_width(programs);
            &&& carry is Some && carry->0.attention is Some
            &&& width == Some(carry->0.attention->0.projection->0.width)
            &&& width == Some(carry->0.attention->0.width())
            &&& crate::backend::width_reason(
                "attention"@,
                Some(carry->0.attention->0.width()),
                width,
            ) is None
        }),
{
    lemma_first_attention_is_at(programs, 0, at);
    crate::layer_laws::lemma_carry_holds_the_attention(run, state, mix, policy);
}

/// Without the query's width a target goes by the key's, then the value's, then the hidden one;
/// without a program that attends it expects none.
pub proof fn lemma_attention_width_without_a_query(
    programs: Seq<LayerExecutionProgram>,
    at: int,
)
    requires
        0 <= at < programs.len(),
        programs[at].runs_attention(),
        forall|i: int| 0 <= i < at ==> !(#[trigger] programs[i]).runs_attention(),
        programs[at].q_out_dim is None,
    ensures
        ({
            let program = programs[at];
            let width = LayerExecutionProgram::attention_width(programs);
            &&& program.k_out_dim matches Some(k) ==> width == Some(k as usize)
            &&& program.k_out_dim is None ==> (program.v_out_dim matches Some(v) ==> width == Some(
                v as usize,
            ))
            &&& program.k_out_dim is None && program.v_out_dim is None ==> (
            program.hidden_dim matches Some(h) ==> width == Some(h as usize))
            &&& program.k_out_dim is None && program.v_out_dim is None && program.hidden_dim is None
                ==> width is None
        }),
{
    lemma_first_attention_is_at(programs, 0, at);
}

/// The width that a target expects of a feed-forward carry is the width that a layer of its shape
/// leaves; without an inner width it goes by the hidden one.
pub proof fn lemma_expected_ffn_width_is_what_a_layer_leaves(
    programs: Seq<LayerExecutionProgram>,
    at: int,
    run: LayerRunModel,
    state: FfnScratchStateModel,
    activations: Seq<u32>,
    policy: StageCarryPolicy,
)
    requires
        0 <= at < programs.len(),
        programs[at].runs_ffn(),
        forall|i: int| 0 <= i < at ==> !(#[trigger] programs[i]).runs_ffn(),
        state.gate.len() == state.up.len(),
        state.gate.len() <= usize::MAX,
        activations.len() <= usize::MAX,
        policy.carry_ffn,
    ensures
        ({
            let carry = crate::layer_laws::fed_forward(run, state, activations).carry(policy);
            let width = LayerExecutionProgram::ffn_width(programs);
            &&& carry is Some && carry->0.ffn is Some
            &&& (programs[at].ffn_inner_dim matches Some(inner) ==> (state.gate.len() == inner
                ==> width == Some(carry->0.ffn->0.width) && crate::backend::width_reason(
                "ffn"@,
                Some(carry->0.ffn->0.width),
                width,
            ) is None))
            &&& programs[at].ffn_inner_dim is None ==> width == (match programs[at].hidden_dim {
                Some(h) => Some(h as usize),
                None => None,
            })
        }),
{
    lemma_first_ffn_is_at(programs, 0, at);
    crate::layer_laws::lemma_carry_holds_the_ffn(run, state, activations, policy);
}

/// A target that runs no attention, or no feed-forward block, expects no width of such a carry,
/// and refuses any.
pub proof fn lemma_no_path_no_width(programs: Seq<LayerExecutionProgram>, width: usize)
    ensures
        (forall|i: int| 0 <= i < programs.len() ==> !(#[trigger] programs[i]).runs_attention())
            ==> LayerExecutionProgram::attention_width(programs) is None,
        (forall|i: int| 0 <= i < programs.len() ==> !(#[trigger] programs[i]).runs_ffn())
            ==> LayerExecutionProgram::ffn_width(programs) is None,
        crate::backend::width_reason("attention"@, Some(width), None) is Some,
        crate::backend::width_reason("attention"@, None, Some(width)) is None,
{
    lemma_no_first_without_a_path(programs, 0);
}

/// What a program can be resumed with is what it has operations for: each slice on its own, the
/// projection where it has all three, the mix where it has the output too.
pub proof fn lemma_capabilities_are_the_operations(program: LayerExecutionProgram)
    ensures
        ({
            let able = StageResumeCapabilities::of_program(program);
            let has = |kind: ExecutionOpKind|
                exists|i: int|
                    0 <= i < program.ops@.len() && (#[trigger] program.ops@[i]).kind == kind;
            &&& able.attention_q <==> has(ExecutionOpKind::AttentionQ)
            &&& able.attention_k <==> has(ExecutionOpKind::AttentionK)
            &&& able.attention_v <==> has(ExecutionOpKind::AttentionV)
            &&& able.attention_projection <==> able.attention_q && able.attention_k
                && able.attention_v
            &&& able.attention_mix <==> able.attention_projection && has(
                ExecutionOpKind::AttentionOut,
            )
            &&& able.attention_path <==> able.attention_q || able.attention_k || able.attention_v
                || has(ExecutionOpKind::AttentionOut)
            &&& able.ffn_path <==> has(ExecutionOpKind::FfnGate) && has(ExecutionOpKind::FfnUp)
                && has(ExecutionOpKind::FfnDown)
            &&& able.projection_path <==> has(ExecutionOpKind::InputGate) && has(
                ExecutionOpKind::Projection,
            )
        }),
{
}

proof fn lemma_first_at_or_after(programs: Seq<LayerExecutionProgram>, layer: u32, from: int)
    requires
        0 <= from <= programs.len(),
    ensures
        match LayerExecutionProgram::first_at_or_after(programs, layer, from) {
            Some(at) => {
                &&& from <= at < programs.len()
                &&& programs[at].runnable_sketch && programs[at].layer_index >= layer
                &&& forall|i: int|
                    from <= i < at ==> !((#[trigger] programs[i]).runnable_sketch
                        && programs[i].layer_index >= layer)
            },
            None => forall|i: int|
                from <= i < programs.len() ==> !((#[trigger] programs[i]).runnable_sketch
                    && programs[i].layer_index >= layer),
        },
    decreases programs.len() - from,
{
    if from < programs.len() {
        lemma_first_at_or_after(programs, layer, from + 1);
    }
}

/// A resumed stage is entered at its first program that can be run and is not before the layer
/// asked for; where there is none, at its first that can be run at all.
pub proof fn lemma_entry_is_the_first_that_runs(
    programs: Seq<LayerExecutionProgram>,
    layer: Option<u32>,
)
    ensures
        match LayerExecutionProgram::entry(programs, layer) {
            Some(at) => {
                &&& 0 <= at < programs.len() && programs[at].runnable_sketch
                &&& layer is None ==> forall|i: int|
                    0 <= i < at ==> !(#[trigger] programs[i]).runnable_sketch
                &&& layer matches Some(layer) ==> ({
                    ||| programs[at].layer_index >= layer && forall|i: int|
                        0 <= i < at ==> !((#[trigger] programs[i]).runnable_sketch
                            && programs[i].layer_index >= layer)
                    ||| (forall|i: int|
                        0 <= i < programs.len() ==> !((#[trigger] programs[i]).runnable_sketch
                            && programs[i].layer_index >= layer)) && (forall|i: int|
                        0 <= i < at ==> !(#[trigger] programs[i]).runnable_sketch)
                })
            },
            None => forall|i: int|
                0 <= i < programs.len() ==> !(#[trigger] programs[i]).runnable_sketch,
        },
{
    lemma_first_at_or_after(programs, 0, 0);
    if let Some(layer) = layer {
        lemma_first_at_or_after(programs, layer, 0);
    }
}

/// Whether so many lanes are the smaller of a limit and a width.
pub open spec fn is_smaller_of(lanes: int, limit: int, width: int) -> bool {
    lanes <= limit && lanes <= width && (lanes == limit || lanes == width)
}

/// A target has room for each slice that it can resume: for four lanes of query, key and value
/// each, and no more than the slice is wide; for eight of a feed-forward block. The mix gets no
/// more than the narrowest slice, nor more than eight.
pub proof fn lemma_budgets_are_by_slice(
    program: LayerExecutionProgram,
    able: StageResumeCapabilities,
)
    requires
        program.q_out_dim matches Some(q) ==> q <= usize::MAX,
        program.k_out_dim matches Some(k) ==> k <= usize::MAX,
        program.v_out_dim matches Some(v) ==> v <= usize::MAX,
        program.ffn_inner_dim matches Some(f) ==> f <= usize::MAX,
    ensures
        ({
            let room = StageResumeBudgets::of_program(program, able);
            &&& able.attention_q && program.q_out_dim is Some <==> room.attention_q_lanes is Some
            &&& able.attention_k && program.k_out_dim is Some <==> room.attention_k_lanes is Some
            &&& able.attention_v && program.v_out_dim is Some <==> room.attention_v_lanes is Some
            &&& (room.attention_q_lanes matches Some(lanes) ==> is_smaller_of(
                lanes as int,
                4,
                program.q_out_dim->0 as int,
            ))
            &&& (room.attention_k_lanes matches Some(lanes) ==> is_smaller_of(
                lanes as int,
                4,
                program.k_out_dim->0 as int,
            ))
            &&& (room.attention_v_lanes matches Some(lanes) ==> is_smaller_of(
                lanes as int,
                4,
                program.v_out_dim->0 as int,
            ))
            &&& room.attention_projection_lanes is Some <==> able.attention_projection
                && room.attention_q_lanes is Some && room.attention_k_lanes is Some
                && room.attention_v_lanes is Some
            &&& (room.attention_projection_lanes matches Some(lanes) ==> {
                &&& lanes <= room.attention_q_lanes->0 && lanes <= room.attention_k_lanes->0
                    && lanes <= room.attention_v_lanes->0
                &&& lanes == room.attention_q_lanes->0 || lanes == room.attention_k_lanes->0
                    || lanes == room.attention_v_lanes->0
            })
            &&& able.attention_mix && program.q_out_dim is Some ==> room.attention_mix_lanes is Some
            &&& !able.attention_mix ==> room.attention_mix_lanes is None
            &&& (room.attention_mix_lanes matches Some(lanes) ==> lanes <= 8 && (
            room.attention_projection_lanes matches Some(most) ==> lanes <= most))
            &&& able.attention_mix && able.attention_projection
                && room.attention_projection_lanes is Some && program.q_out_dim is Some
                ==> room.attention_mix_lanes == room.attention_projection_lanes
            &&& able.ffn_path && program.ffn_inner_dim is Some ==> (
            room.ffn_lanes matches Some(lanes) && is_smaller_of(
                lanes as int,
                8,
                program.ffn_inner_dim->0 as int,
            ))
            &&& !able.ffn_path ==> room.ffn_lanes is None
        }),
{
}

/// Whether each operation promises what its kind promises, as operations that were made of their
/// kind do.
pub open spec fn keep_promises(ops: Seq<ExecutionOp>) -> bool {
    forall|i: int|
        0 <= i < ops.len() ==> (#[trigger] ops[i]).resume_contract.attention@
            == ops[i].kind.promises()
}

/// How a slice that is projected is resumed: at once, with a strong blend.
pub open spec fn projected_path() -> AttentionSliceResumePath {
    AttentionSliceResumePath {
        recompute_phase: AttentionSliceRecomputePhase::Direct,
        blend_strength: Some(AttentionBlendStrength::StrongBlend),
        blend_weight_milli: Some(350),
    }
}

/// How a slice that is mixed is resumed: after the projection, with a weak blend.
pub open spec fn mixed_path() -> AttentionSliceResumePath {
    AttentionSliceResumePath {
        recompute_phase: AttentionSliceRecomputePhase::AfterProjection,
        blend_strength: Some(AttentionBlendStrength::WeakBlend),
        blend_weight_milli: Some(250),
    }
}

/// The kind of operation that computes a slice.
pub open spec fn maker_of(slice: AttentionResumeSlice) -> ExecutionOpKind {
    match slice {
        AttentionResumeSlice::Q => ExecutionOpKind::AttentionQ,
        AttentionResumeSlice::K => ExecutionOpKind::AttentionK,
        AttentionResumeSlice::V => ExecutionOpKind::AttentionV,
        AttentionResumeSlice::Score => ExecutionOpKind::AttentionOut,
        AttentionResumeSlice::Value => ExecutionOpKind::AttentionOut,
    }
}

/// A slice can be resumed exactly where some operation computes it: query, key and value at once
/// and strongly, score and mixed value after the projection and weakly.
pub proof fn lemma_paths_come_of_their_operations(
    ops: Seq<ExecutionOp>,
    slice: AttentionResumeSlice,
)
    requires
        keep_promises(ops),
    ensures
        ExecutionOp::path_of(ops, slice) == (if exists|i: int|
            0 <= i < ops.len() && (#[trigger] ops[i]).kind == maker_of(slice) {
            Some(
                if slice is Score || slice is Value {
                    mixed_path()
                } else {
                    projected_path()
                },
            )
        } else {
            None
        }),
    decreases ops.len(),
{
    reveal_with_fuel(ExecutionResumeContract::path_of, 3);
    if ops.len() > 0 {
        let front = ops.drop_last();
        assert forall|i: int| 0 <= i < front.len() implies (
        #[trigger] front[i]).resume_contract.attention@ == front[i].kind.promises() by {
            assert(front[i] == ops[i]);
        }
        lemma_paths_come_of_their_operations(front, slice);
        let last = ops[ops.len() - 1];
        let promises = last.resume_contract.attention@;
        assert(promises == last.kind.promises());
        assert(promises.len() > 0 ==> promises.drop_last().len() == promises.len() - 1);
        assert(promises.len() == 2 ==> promises.drop_last().last() == promises[0]);
        if exists|i: int| 0 <= i < front.len() && (#[trigger] front[i]).kind == maker_of(slice) {
            let i = choose|i: int|
                0 <= i < front.len() && (#[trigger] front[i]).kind == maker_of(slice);
            assert(ops[i].kind == maker_of(slice));
        }
        if exists|i: int| 0 <= i < ops.len() && (#[trigger] ops[i]).kind == maker_of(slice) {
            let i = choose|i: int|
                0 <= i < ops.len() && (#[trigger] ops[i]).kind == maker_of(slice);
            if i < front.len() {
                assert(front[i].kind == maker_of(slice));
            }
        }
    }
}

/// The contracts that a target offers for a layer that it can resume in every way are those that
/// such a layer puts on the carry that it leaves itself, and each allows the age that goes with
/// its blend: two layers for a strong one, one for a weak one.
pub proof fn lemma_offered_contracts_are_those_left(
    programs: Seq<LayerExecutionProgram>,
    at: int,
    able: StageResumeCapabilities,
    run: LayerRunModel,
    state: AttentionScratchStateModel,
    mix: AttentionMixStateModel,
    policy: StageCarryPolicy,
)
    requires
        0 <= at < programs.len(),
        programs[at].runnable_sketch,
        forall|i: int|
            0 <= i < at ==> (#[trigger] programs[i]).layer_index != programs[at].layer_index,
        able == StageResumeCapabilities::of_program(programs[at]),
        able.attention_mix,
        keep_promises(programs[at].ops@),
        policy.carry_attention,
        state.q.len() <= usize::MAX,
        state.k.len() <= usize::MAX,
        state.v.len() <= usize::MAX,
    ensures
        ({
            let next = Some(programs[at].layer_index);
            let offered = StageResumeContractSummary::of_programs(programs, next, able);
            let freshness = StageResumeFreshnessPolicy::of_programs(programs, next, able);
            let left = crate::layer_laws::attended(run, state, mix).carry(policy);
            let strong = Some(
                StageAttentionResumeContractSummary {
                    phase: StageAttentionResumePhase::Direct,
                    blend: StageAttentionResumeBlend::StrongBlend,
                    blend_weight_milli: Some(350),
                },
            );
            let weak = Some(
                StageAttentionResumeContractSummary {
                    phase: StageAttentionResumePhase::AfterProjection,
                    blend: StageAttentionResumeBlend::WeakBlend,
                    blend_weight_milli: Some(250),
                },
            );
            &&& left->0.attention->0.contract == offered
            &&& offered.attention_q == strong && offered.attention_k == strong
                && offered.attention_v == strong
            &&& offered.attention_score == weak && offered.attention_value == weak
            &&& freshness.attention_q_max_distance == Some(2u32)
            &&& freshness.attention_k_max_distance == Some(2u32)
            &&& freshness.attention_v_max_distance == Some(2u32)
            &&& freshness.attention_score_max_distance == Some(1u32)
            &&& freshness.attention_value_max_distance == Some(1u32)
        }),
{
    let ops = programs[at].ops@;
    lemma_first_of_layer(programs, programs[at].layer_index, 0, at);
    lemma_paths_come_of_their_operations(ops, AttentionResumeSlice::Q);
    lemma_paths_come_of_their_operations(ops, AttentionResumeSlice::K);
    lemma_paths_come_of_their_operations(ops, AttentionResumeSlice::V);
    lemma_paths_come_of_their_operations(ops, AttentionResumeSlice::Score);
    lemma_paths_come_of_their_operations(ops, AttentionResumeSlice::Value);
    crate::layer_laws::lemma_carry_holds_the_attention(run, state, mix, policy);
}

proof fn lemma_first_of_layer(
    programs: Seq<LayerExecutionProgram>,
    layer: u32,
    from: int,
    at: int,
)
    requires
        0 <= from <= at < programs.len(),
        programs[at].runnable_sketch && programs[at].layer_index == layer,
        forall|i: int| from <= i < at ==> (#[trigger] programs[i]).layer_index != layer,
    ensures
        LayerExecutionProgram::first_at(programs, layer, from) == Some(at),
    decreases at - from,
{
    if from < at {
        assert(programs[from].layer_index != layer);
        lemma_first_of_layer(programs, layer, from + 1, at);
    }
}

/// Without the layer that is next, a target offers no contract and no age limit; a slice that it
/// cannot resume gets none either.
pub proof fn lemma_no_contract_without_a_slice(
    programs: Seq<LayerExecutionProgram>,
    next: Option<u32>,
    able: StageResumeCapabilities,
)
    ensures
        ({
            let offered = StageResumeContractSummary::of_programs(programs, next, able);
            let freshness = StageResumeFreshnessPolicy::of_programs(programs, next, able);
            &&& next is None ==> offered == StageResumeContractSummary::none() && freshness
                == StageResumeFreshnessPolicy::none()
            &&& !able.attention_q ==> offered.attention_q is None
                && freshness.attention_q_max_distance is None
            &&& !able.attention_k ==> offered.attention_k is None
                && freshness.attention_k_max_distance is None
            &&& !able.attention_v ==> offered.attention_v is None
                && freshness.attention_v_max_distance is None
            &&& !able.attention_mix || !able.attention_projection ==> offered.attention_score
                is None && offered.attention_value is None
                && freshness.attention_score_max_distance is None
                && freshness.attention_value_max_distance is None
            &&& offered.attention_q is Some <==> freshness.attention_q_max_distance is Some
            &&& offered.attention_k is Some <==> freshness.attention_k_max_distance is Some
            &&& offered.attention_v is Some <==> freshness.attention_v_max_distance is Some
            &&& offered.attention_score is Some <==> freshness.attention_score_max_distance is Some
            &&& offered.attention_value is Some <==> freshness.attention_value_max_distance is Some
        }),
{
}

/// Whether a number, where it is known, is within a limit, where there is one.
pub open spec fn fits(number: Option<int>, limit: Option<int>) -> bool {
    number is Some && limit is Some ==> number->0 <= limit->0
}

/// A size as a number.
pub open spec fn size(value: Option<usize>) -> Option<int> {
    match value {
        Some(value) => Some(value as int),
        None => None,
    }
}

/// A count as a number.
pub open spec fn count(value: Option<u32>) -> Option<int> {
    match value {
        Some(value) => Some(value as int),
        None => None,
    }
}

/// Whether a request is for the stage with the given layout.
pub open spec fn is_for_stage(request: StageResumeRequestModel, layout: StageLayoutModel) -> bool {
    &&& !layout.is_head
    &&& request.model_id == layout.model_id
    &&& request.target_stage_id is None || request.target_stage_id == Some(layout.stage_id)
    &&& request.transfer.payload.kind == PayloadKind::HiddenState
    &&& request.boundary.next_layer_index is None || request.boundary.next_layer_index == Some(
        layout.start_layer,
    )
}

/// Whether the plan of a request fits what a stage can resume: each part that is to be carried can
/// be, under the contract that the stage offers, with no more lanes, of no greater age and of the
/// very width.
pub open spec fn plan_fits(
    plan: StageBoundaryPlanModel,
    able: StageResumeCapabilities,
    contract: StageResumeContractSummary,
    room: StageResumeBudgets,
    freshness: StageResumeFreshnessPolicy,
    attention_width: Option<usize>,
    ffn_width: Option<usize>,
) -> bool {
    &&& plan.resumable_attention_contract == StageResumeContractSummary::none()
        || plan.resumable_attention_contract == contract
    &&& plan.expects_attention_carry ==> able.attention_path
    &&& plan.expects_attention_projection_carry ==> able.attention_projection
    &&& plan.expects_attention_mix_carry ==> able.attention_mix
    &&& plan.expects_ffn_carry ==> able.ffn_path
    &&& fits(size(plan.expected_attention_q_lanes), size(room.attention_q_lanes))
    &&& fits(size(plan.expected_attention_k_lanes), size(room.attention_k_lanes))
    &&& fits(size(plan.expected_attention_v_lanes), size(room.attention_v_lanes))
    &&& fits(
        size(plan.expected_attention_projection_lanes),
        size(room.attention_projection_lanes),
    )
    &&& fits(size(plan.expected_attention_mix_lanes), size(room.attention_mix_lanes))
    &&& fits(size(plan.expected_ffn_lanes), size(room.ffn_lanes))
    &&& fits(count(plan.expected_attention_q_distance), count(freshness.attention_q_max_distance))
    &&& fits(count(plan.expected_attention_k_distance), count(freshness.attention_k_max_distance))
    &&& fits(count(plan.expected_attention_v_distance), count(freshness.attention_v_max_distance))
    &&& fits(
        count(plan.expected_attention_score_distance),
        count(freshness.attention_score_max_distance),
    )
    &&& fits(
        count(plan.expected_attention_value_distance),
        count(freshness.attention_value_max_distance),
    )
    &&& plan.expected_attention_width is None || plan.expected_attention_width == attention_width
    &&& plan.expected_ffn_width is None || plan.expected_ffn_width == ffn_width
}

/// A loaded stage admits a request exactly where the request is sound, is for this stage, and its
/// plan fits what the stage's programs can resume at the layer that is next.
pub proof fn lemma_admitted_exactly_where_it_fits(
    request: StageResumeRequestModel,
    layout: StageLayoutModel,
    programs: Seq<LayerExecutionProgram>,
)
    ensures
        ({
            let next = request.boundary.next_layer_index;
            let able = StageResumeCapabilities::of_programs(programs, next);
            request.admission(Some(layout), Some(programs)).accepted <==> request.fault() is None
                && is_for_stage(request, layout) && plan_fits(
                request.boundary,
                able,
                StageResumeContractSummary::of_programs(programs, next, able),
                StageResumeBudgets::of_programs(programs, next, able),
                StageResumeFreshnessPolicy::of_programs(programs, next, able),
                LayerExecutionProgram::attention_width(programs),
                LayerExecutionProgram::ffn_width(programs),
            )
        }),
        !request.admission(None, Some(programs)).accepted,
        !request.admission(Some(layout), None).accepted,
{
}

/// What a decision tells of a request, whichever way it went: the payload and the next layer of
/// the request itself.
pub open spec fn tells_of(decision: StageResumeDecisionModel, request: StageResumeRequestModel) -> bool {
    &&& decision.accepted_payload_kind == request.transfer.payload.kind
    &&& decision.accepted_hidden_dim == request.transfer.payload.hidden_dim
    &&& decision.accepted_next_layer_index == request.boundary.next_layer_index
}

/// A refused request is told why, and is granted nothing.
pub proof fn lemma_refusals_grant_nothing(
    request: StageResumeRequestModel,
    layout: Option<StageLayoutModel>,
    programs: Option<Seq<LayerExecutionProgram>>,
)
    requires
        !request.admission(layout, programs).accepted,
    ensures
        ({
            let decision = request.admission(layout, programs);
            &&& tells_of(decision, request)
            &&& decision.reason is Some
            &&& request.fault() is Some || layout is None ==> decision.accepted_stage_id is None
            &&& request.fault() is None ==> (layout matches Some(layout)
                ==> decision.accepted_stage_id == Some(layout.stage_id))
            &&& !decision.accepted_attention_carry && !decision.accepted_ffn_carry
                && !decision.accepted_attention_projection_carry
                && !decision.accepted_attention_mix_carry
            &&& !decision.accepted_attention_q_resume && !decision.accepted_attention_k_resume
                && !decision.accepted_attention_v_resume
            &&& decision.accepted_attention_width is None && decision.accepted_attention_lanes
                is None
            &&& decision.accepted_attention_q_lanes is None && decision.accepted_attention_k_lanes
                is None && decision.accepted_attention_v_lanes is None
            &&& decision.accepted_attention_score_lanes is None
                && decision.accepted_attention_value_lanes is None
            &&& decision.accepted_attention_projection_lanes is None
                && decision.accepted_attention_mix_lanes is None
            &&& decision.accepted_attention_q_max_distance is None
                && decision.accepted_attention_k_max_distance is None
                && decision.accepted_attention_v_max_distance is None
                && decision.accepted_attention_score_max_distance is None
                && decision.accepted_attention_value_max_distance is None
            &&& decision.accepted_attention_q_distance is None
                && decision.accepted_attention_k_distance is None
                && decision.accepted_attention_v_distance is None
                && decision.accepted_attention_score_distance is None
                && decision.accepted_attention_value_distance is None
            &&& decision.accepted_attention_contract == StageResumeContractSummary::none()
            &&& decision.accepted_ffn_width is None && decision.accepted_ffn_lanes is None
        }),
{
}

/// An admitted request is granted what its plan expects, each part as that part: the stage answers
/// under its own name, and for no reason.
pub proof fn lemma_admission_grants_the_plan(
    request: StageResumeRequestModel,
    layout: StageLayoutModel,
    programs: Seq<LayerExecutionProgram>,
)
    requires
        request.admission(Some(layout), Some(programs)).accepted,
    ensures
        ({
            let decision = request.admission(Some(layout), Some(programs));
            let plan = request.boundary;
            let able = StageResumeCapabilities::of_programs(programs, plan.next_layer_index);
            &&& tells_of(decision, request)
            &&& decision.reason is None
            &&& decision.accepted_stage_id == Some(layout.stage_id)
            &&& decision.accepted_attention_carry == plan.expects_attention_carry
            &&& decision.accepted_ffn_carry == plan.expects_ffn_carry
            &&& decision.accepted_attention_projection_carry
                == plan.expects_attention_projection_carry
            &&& decision.accepted_attention_mix_carry == plan.expects_attention_mix_carry
            &&& decision.accepted_attention_q_resume == able.attention_q
            &&& decision.accepted_attention_k_resume == able.attention_k
            &&& decision.accepted_attention_v_resume == able.attention_v
            &&& decision.accepted_attention_width == plan.expected_attention_width
            &&& decision.accepted_attention_lanes == plan.expected_attention_lanes
            &&& decision.accepted_attention_q_lanes == plan.resumable_attention_q_lanes
            &&& decision.accepted_attention_k_lanes == plan.resumable_attention_k_lanes
            &&& decision.accepted_attention_v_lanes == plan.resumable_attention_v_lanes
            &&& decision.accepted_attention_q_max_distance
                == plan.resumable_attention_q_max_distance
            &&& decision.accepted_attention_k_max_distance
                == plan.resumable_attention_k_max_distance
            &&& decision.accepted_attention_v_max_distance
                == plan.resumable_attention_v_max_distance
            &&& decision.accepted_attention_score_max_distance
                == plan.resumable_attention_score_max_distance
            &&& decision.accepted_attention_value_max_distance
                == plan.resumable_attention_value_max_distance
            &&& decision.accepted_attention_contract == plan.resumable_attention_contract
            &&& decision.accepted_attention_score_lanes == plan.expected_attention_score_lanes
            &&& decision.accepted_attention_value_lanes == plan.expected_attention_value_lanes
            &&& decision.accepted_attention_q_distance == plan.expected_attention_q_distance
            &&& decision.accepted_attention_k_distance == plan.expected_attention_k_distance
            &&& decision.accepted_attention_v_distance == plan.expected_attention_v_distance
            &&& decision.accepted_attention_score_distance
                == plan.expected_attention_score_distance
            &&& decision.accepted_attention_value_distance
                == plan.expected_attention_value_distance
            &&& decision.accepted_attention_projection_lanes
                == plan.expected_attention_projection_lanes
            &&& decision.accepted_attention_mix_lanes == plan.expected_attention_mix_lanes
            &&& decision.accepted_ffn_width == plan.expected_ffn_width
            &&& decision.accepted_ffn_lanes == plan.expected_ffn_lanes
        }),
{
}

/// A receipt answers one request only: two accepting receipts that pass the check against the same
/// request say the same, but for the stage that they come from and a reason that neither needs.
pub proof fn lemma_accepting_receipts_agree(
    request: StageResumeRequestModel,
    one: StageResumeReceiptModel,
    other: StageResumeReceiptModel,
)
    requires
        one.accepted && other.accepted,
        one.fault(request) is None,
        other.fault(request) is None,
    ensures
        one == (StageResumeReceiptModel {
            accepted_stage_id: one.accepted_stage_id,
            reason: one.reason,
            ..other
        }),
{
}

/// A receipt of another version, payload kind or width than the request's does not pass the check,
/// accepting or not.
pub proof fn lemma_receipts_are_of_their_request(
    request: StageResumeRequestModel,
    receipt: StageResumeReceiptModel,
)
    requires
        receipt.fault(request) is None,
    ensures
        receipt.version == request.version,
        receipt.accepted_payload_kind == request.transfer.payload.kind,
        receipt.accepted_hidden_dim == request.transfer.payload.hidden_dim,
        receipt.accepted ==> receipt.accepted_next_layer_index == request.boundary.next_layer_index,
{
}

/// The receipt that accepts a request passes the check against it, and so does the one that
/// refuses it; each tells the side it is on.
pub proof fn lemma_own_receipts_pass(
    request: StageResumeRequestModel,
    stage_id: Option<Seq<char>>,
    reason: Seq<char>,
)
    ensures
        ({
            let accepting = StageResumeReceiptModel::accepting(request, stage_id);
            let refusing = StageResumeReceiptModel::refusing(request, reason);
            &&& accepting.accepted && accepting.fault(request) is None
            &&& accepting.accepted_stage_id == stage_id && accepting.reason is None
            &&& !refusing.accepted && refusing.fault(request) is None
            &&& refusing.accepted_stage_id == request.target_stage_id && refusing.reason == Some(
                reason,
            )
            &&& !refusing.accepted_attention_carry && !refusing.accepted_ffn_carry
                && !refusing.accepted_attention_projection_carry
                && !refusing.accepted_attention_mix_carry
        }),
{
}

/// Turning a decision into a receipt adds the version and changes nothing: two decisions whose
/// receipts are the same are the same.
pub proof fn lemma_receipt_keeps_the_decision(
    one: StageResumeDecisionModel,
    other: StageResumeDecisionModel,
    version: u32,
    request: StageResumeRequestModel,
    layout: StageLayoutModel,
    programs: Seq<LayerExecutionProgram>,
)
    ensures
        one.to_receipt(version) == other.to_receipt(version) ==> one == other,
        one.to_receipt(version).version == version,
        one.to_receipt(version).accepted == one.accepted,
        one.to_receipt(version).accepted_stage_id == one.accepted_stage_id,
        one.to_receipt(version).reason == one.reason,
        request.admission(Some(layout), Some(programs)).accepted && ({
            let able = StageResumeCapabilities::of_programs(
                programs,
                request.boundary.next_layer_index,
            );
            &&& request.boundary.resumable_attention_q == able.attention_q
            &&& request.boundary.resumable_attention_k == able.attention_k
            &&& request.boundary.resumable_attention_v == able.attention_v
        }) ==> request.admission(Some(layout), Some(programs)).to_receipt(request.version)
            == StageResumeReceiptModel::accepting(request, Some(layout.stage_id)),
{
}

/// A blend is weak where its weight is below three tenths, and strong where it is not; so each
/// contract that a weight is read into tells of the same strength.
pub proof fn lemma_strength_goes_by_weight(weight: u16, path: AttentionSliceResumePath)
    ensures
        StageResumeFreshnessPolicy::strength(weight) is WeakBlend <==> weight * 10 < 3 * 1000,
        StageResumeFreshnessPolicy::strength(weight) is StrongBlend <==> weight * 10 >= 3 * 1000,
        ({
            let contract = StageResumeContractSummary::summary_of(Some(path));
            &&& contract is Some && contract->0.blend_weight_milli == path.blend_weight_milli
            &&& contract->0.phase is Direct <==> path.recompute_phase is Direct
            &&& contract->0.blend is Overwrite <==> path.blend_strength is None
            &&& contract->0.blend is WeakBlend <==> path.blend_strength is Some
                && path.blend_strength->0 is WeakBlend
            &&& contract->0.blend is StrongBlend <==> path.blend_strength is Some
                && path.blend_strength->0 is StrongBlend
        }),
        StageResumeContractSummary::summary_of(None) is None,
{
}

} // verus!
