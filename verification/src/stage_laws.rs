//! What holds of a stage at work: what each operation does with its tensors, in which order a
//! stage goes, and what it takes and refuses.
use vstd::prelude::*;
use vstd::string::*;
use crate::backend::PackedResidencySketchBackend;
use crate::carry::{StageCarryPolicy, StageCarryStateModel};
use crate::execution::{ExecutionBinding, ExecutionOpKind, LayerExecutionProgram};
use crate::layer_plan::{LayerActionKind, LayerActionModel, TensorNeed};
use crate::layer_run::{AttentionMixStateModel, BlendSlot, LayerRunModel};
use crate::model_view::{ExecutionOpModel, StageModelView, StageModelViewModel};
use crate::packed::PackedTensorEntryModel;
use crate::sketch::StageStep;
use crate::tensor::{PayloadKind, StageContinuationModel, StageLayoutModel, StageTensorModel};

verus! {

/// The one action that is planned for an operation of the given kind on a tensor of its own that
/// can be decoded.
pub open spec fn sole_action(
    tensors: Seq<PackedTensorEntryModel>,
    kind: ExecutionOpKind,
    entry: PackedTensorEntryModel,
) -> LayerActionKind {
    LayerActionModel::of_op(tensors, ExecutionOpModel::of_entries(kind, seq![entry]))[0].kind
}

/// An operation on a matrix of its own puts what it computes where its kind says: query, key and
/// value of attention, gate and up projection of the feed-forward block, and the input gate, each
/// as itself; the output of attention takes the mix and the down projection the activations.
pub proof fn lemma_operations_fill_their_own_vectors(
    tensors: Seq<PackedTensorEntryModel>,
    entry: PackedTensorEntryModel,
    run: LayerRunModel,
    values: Seq<u32>,
    mix: AttentionMixStateModel,
)
    requires
        entry.dimensions.len() == 2,
        entry.ggml_type == 0 || entry.ggml_type == 12 || entry.ggml_type == 14,
        crate::layer_plan::looked_up(tensors, entry.name) == Some(entry),
    ensures
        ({
            let q = sole_action(tensors, ExecutionOpKind::AttentionQ, entry).step(values);
            let k = sole_action(tensors, ExecutionOpKind::AttentionK, entry).step(values);
            let v = sole_action(tensors, ExecutionOpKind::AttentionV, entry).step(values);
            let gate = sole_action(tensors, ExecutionOpKind::FfnGate, entry).step(values);
            let up = sole_action(tensors, ExecutionOpKind::FfnUp, entry).step(values);
            let input = sole_action(tensors, ExecutionOpKind::InputGate, entry).step(values);
            let down = sole_action(tensors, ExecutionOpKind::FfnDown, entry).step(values);
            let out = sole_action(tensors, ExecutionOpKind::AttentionOut, entry).mix_step(mix);
            &&& q is Some && k is Some && v is Some && gate is Some && up is Some && input is Some
            &&& down is Some && out is Some
            &&& run.after(q->0).scratch.attn_q == Some(values)
            &&& run.after(k->0).scratch.attn_k == Some(values)
            &&& run.after(v->0).scratch.attn_v == Some(values)
            &&& run.after(gate->0).scratch.ffn_gate == Some(values)
            &&& run.after(up->0).scratch.ffn_up == Some(values)
            &&& run.after(input->0).scratch.input_gate == Some(values)
            &&& run.scratch.ffn_gate is Some && run.scratch.ffn_up is Some ==> run.after(
                down->0,
            ).ffn_mix == Some(values)
            &&& run.scratch.attn_q is Some && run.scratch.attn_k is Some && run.scratch.attn_v
                is Some ==> run.after(out->0).mix == Some(mix)
            &&& sole_action(tensors, ExecutionOpKind::Projection, entry).step(values) is None
            &&& sole_action(tensors, ExecutionOpKind::Projection, entry).mix_step(mix) is None
            &&& sole_action(tensors, ExecutionOpKind::Projection, entry).share() == Some(250u16)
            &&& sole_action(tensors, ExecutionOpKind::FfnDown, entry).share() == Some(400u16)
            &&& sole_action(tensors, ExecutionOpKind::AttentionOut, entry).share() == Some(350u16)
        }),
{
    let of = |kind: ExecutionOpKind| ExecutionOpModel::of_entries(kind, seq![entry]);
    assert(of(ExecutionOpKind::AttentionQ).tensor_names =~= seq![entry.name]);
    assert(entry.is_numeric_matrix());
}

/// What is blended into the vector of an action is what was carried for that very vector: once the
/// action's vector was handed in, it is what stands there.
pub proof fn lemma_actions_blend_into_their_own_vector(
    kind: LayerActionKind,
    run: LayerRunModel,
    values: Seq<u32>,
)
    ensures
        kind.place() is Some ==> kind.step(values) is Some,
        kind.place() is Some && kind !is FfnDown ==> ({
            let slot = kind.place()->0;
            let after = run.after(kind.step(values)->0).scratch;
            after.blend_into(slot) is Some ==> after.blend_into(slot)->0.carry == values
        }),
        kind is FfnDown ==> kind.place() == Some(BlendSlot::Activation),
        kind is ProjectQuery || kind is ProjectKey || kind is ProjectValue || kind is FfnGate || kind
            is FfnUp ==> kind.place() is Some,
        kind.step(values) is Some <==> kind.is_projection() || kind is FfnDown,
        kind.share() is Some ==> kind is AttentionOut || kind is FfnDown || kind is Projection,
{
}

/// Tensors that are not what their operation needs are mixed in as numbers instead; a plain vector
/// normalises where its operation is a norm and scales where it is not; matrices without a meaning
/// of their own are run as matrices.
pub proof fn lemma_storage_decides_the_action(
    tensors: Seq<PackedTensorEntryModel>,
    kind: ExecutionOpKind,
    entry: PackedTensorEntryModel,
)
    requires
        crate::layer_plan::looked_up(tensors, entry.name) == Some(entry),
    ensures
        ({
            let actions = LayerActionModel::of_op(
                tensors,
                ExecutionOpModel::of_entries(kind, seq![entry]),
            );
            let plain = entry.ggml_type == 0 && entry.byte_len % 4 == 0;
            let norm = kind == ExecutionOpKind::AttentionNorm || kind
                == ExecutionOpKind::PostAttentionNorm || kind == ExecutionOpKind::FfnNorm || kind
                == ExecutionOpKind::PostFfnNorm;
            let numeric = entry.ggml_type == 0 || entry.ggml_type == 12 || entry.ggml_type == 14;
            &&& forall|i: int|
                0 <= i < actions.len() ==> (#[trigger] actions[i]).tensor == entry.name
            &&& plain && entry.dimensions.len() == 1 ==> actions.len() == 1 && actions[0].kind == (
            if norm {
                LayerActionKind::ApplyNorm
            } else {
                LayerActionKind::ApplyVector
            })
            &&& plain && entry.dimensions.len() == 2 && crate::layer_plan::meaning(kind) is None
                ==> actions.len() == 2 && actions[0].kind == LayerActionKind::DecodeMatrix
                && actions[1].kind == LayerActionKind::ApplyMatrix
            &&& numeric && entry.ggml_type != 0 && entry.dimensions.len() == 2
                && crate::layer_plan::meaning(kind) is None ==> actions.len() == 2
                && actions[0].kind == LayerActionKind::DecodeMatrix && actions[1].kind
                == LayerActionKind::ApplyNumericMatrix
            &&& !plain && entry.dimensions.len() == 1 ==> actions.len() == 1 && actions[0].kind
                == LayerActionKind::ApplyScalar
            &&& !numeric && entry.dimensions.len() == 2 ==> actions.len() == 1 && actions[0].kind
                == LayerActionKind::ApplyScalar
        }),
{
    let op = ExecutionOpModel::of_entries(kind, seq![entry]);
    let names = op.tensor_names;
    assert(names =~= seq![entry.name]);
    let one = seq![entry];
    assert(one[0] == entry);
    reveal_with_fuel(crate::layer_plan::first_unfit, 3);
    assert(names.take(0) =~= Seq::empty());
    assert(LayerActionModel::each(LayerActionKind::DecodeVector, names.take(0)) =~= Seq::empty());
}

/// A tensor is what an action needs by its type, its dimensions and its length alone.
pub proof fn lemma_needs_by_shape(entry: PackedTensorEntryModel)
    ensures
        entry.meets(TensorNeed::Anything),
        entry.meets(TensorNeed::PlainVector) <==> entry.ggml_type == 0 && entry.dimensions.len()
            == 1 && entry.byte_len % 4 == 0,
        entry.meets(TensorNeed::PlainMatrix) <==> entry.ggml_type == 0 && entry.dimensions.len()
            == 2 && entry.byte_len % 4 == 0,
        entry.meets(TensorNeed::NumericMatrix) <==> entry.dimensions.len() == 2 && (entry.ggml_type
            == 0 || entry.ggml_type == 12 || entry.ggml_type == 14),
{
}

proof fn lemma_weighted_sum_of_one(bytes: Seq<u8>, at: int, byte: u8)
    requires
        0 <= at < bytes.len(),
        byte >= bytes[at],
    ensures
        crate::layer_plan::weighted_sum(bytes.update(at, byte)) == crate::layer_plan::weighted_sum(
            bytes,
        ) + (byte - bytes[at]) * (at % 13 + 1),
    decreases bytes.len(),
{
    let changed = bytes.update(at, byte);
    if at == bytes.len() - 1 {
        assert(changed.drop_last() =~= bytes.drop_last());
        let place = at % 13 + 1;
        assert(byte as int * place == bytes[at] as int * place + (byte - bytes[at]) * place)
            by (nonlinear_arith);
    } else {
        lemma_weighted_sum_of_one(bytes.drop_last(), at, byte);
        assert(changed.drop_last() =~= bytes.drop_last().update(at, byte));
    }
}

proof fn lemma_dimension_sum_of_one(dimensions: Seq<u64>, at: int, dimension: u64)
    requires
        0 <= at < dimensions.len(),
    ensures
        crate::layer_plan::dimension_sum(dimensions.update(at, dimension))
            == crate::layer_plan::dimension_sum(dimensions) + dimension - dimensions[at],
    decreases dimensions.len(),
{
    let changed = dimensions.update(at, dimension);
    if at == dimensions.len() - 1 {
        assert(changed.drop_last() =~= dimensions.drop_last());
    } else {
        lemma_dimension_sum_of_one(dimensions.drop_last(), at, dimension);
        assert(changed.drop_last() =~= dimensions.drop_last().update(at, dimension));
    }
}

/// The number of a tensor counts each of its first 64 bytes by its place, one to thirteen over and
/// over, and each dimension and the type once; later bytes do not matter.
pub proof fn lemma_number_of_a_tensor(
    entry: PackedTensorEntryModel,
    bytes: Seq<u8>,
    more: Seq<u8>,
    at: int,
    byte: u8,
)
    requires
        0 <= at < bytes.len(),
        byte >= bytes[at],
    ensures
        crate::layer_plan::entry_number(entry, bytes) < 4096,
        bytes.len() >= 64 ==> crate::layer_plan::entry_number(entry, bytes + more)
            == crate::layer_plan::entry_number(entry, bytes),
        at >= 64 ==> crate::layer_plan::entry_number(entry, bytes.update(at, byte))
            == crate::layer_plan::entry_number(entry, bytes),
        at < 64 ==> crate::layer_plan::entry_number(entry, bytes.update(at, byte)) as int == (
        crate::layer_plan::entry_number(entry, bytes) + (byte - bytes[at]) * (at % 13 + 1)) % 4096,
{
    let head = crate::lanes::prefix(bytes, 64);
    if bytes.len() >= 64 {
        assert(crate::lanes::prefix(bytes + more, 64) =~= head);
    }
    let changed = crate::lanes::prefix(bytes.update(at, byte), 64);
    if at >= 64 {
        assert(changed =~= head);
    } else {
        assert(changed =~= head.update(at, byte));
        lemma_weighted_sum_of_one(head, at, byte);
    }
}

/// The number of a tensor grows with its type and its dimensions, one for one.
pub proof fn lemma_number_counts_dimensions(
    entry: PackedTensorEntryModel,
    bytes: Seq<u8>,
    at: int,
    dimension: u64,
)
    requires
        0 <= at < entry.dimensions.len(),
        dimension >= entry.dimensions[at],
        entry.ggml_type < u32::MAX,
    ensures
        crate::layer_plan::entry_number(
            PackedTensorEntryModel {
                dimensions: entry.dimensions.update(at, dimension),
                ..entry
            },
            bytes,
        ) as int == (crate::layer_plan::entry_number(entry, bytes) + dimension
            - entry.dimensions[at]) % 4096,
        crate::layer_plan::entry_number(
            PackedTensorEntryModel { ggml_type: (entry.ggml_type + 1) as u32, ..entry },
            bytes,
        ) as int == (crate::layer_plan::entry_number(entry, bytes) + 1) % 4096,
{
    lemma_dimension_sum_of_one(entry.dimensions, at, dimension);
}

/// Whether steps are of one sort, one for each place from the first on.
pub open spec fn takes_each(
    steps: Seq<StageStep>,
    from: int,
    count: nat,
    step: spec_fn(usize) -> StageStep,
) -> bool {
    from + count <= steps.len() && forall|i: int|
        0 <= i < count ==> #[trigger] steps[from + i] == step(i as usize)
}

/// A stage goes in order: what a prompt comes in by, then positions, then shared tensors, then its
/// layers from the first on; a tensor that comes in skips the first. The tail mixes in its own
/// tensors and nothing else. Nothing is left out and nothing is done twice.
pub proof fn lemma_a_stage_goes_in_order(view: StageModelView, count: usize)
    requires
        count <= view.execution_programs@.len(),
        view.operator_layers@.len() == view.execution_programs@.len(),
    ensures
        ({
            let ingress = view.prompt_ingress@.len();
            let positional = view.positional@.len();
            let shared = view.shared_auxiliary@.len();
            let prompt = StageStep::of_prompt(view, count);
            let tensor = StageStep::of_tensor(view, count);
            let tail = StageStep::of_tail(view);
            &&& prompt.len() == ingress + positional + shared + count
            &&& tensor.len() == positional + shared + count
            &&& tail.len() == view.tail_only@.len()
            &&& takes_each(prompt, 0, ingress, |place: usize| StageStep::MixIngress(place))
            &&& takes_each(
                prompt,
                ingress as int,
                positional,
                |place: usize| StageStep::MixPositional(place),
            )
            &&& takes_each(
                prompt,
                (ingress + positional) as int,
                shared,
                |place: usize| StageStep::MixShared(place),
            )
            &&& takes_each(
                prompt,
                (ingress + positional + shared) as int,
                count as nat,
                |place: usize| StageStep::RunLayer(place),
            )
            &&& prompt.skip(ingress as int) == tensor
            &&& takes_each(
                tail,
                0,
                view.tail_only@.len(),
                |place: usize| StageStep::MixTail(place),
            )
        }),
{
    let ingress = view.prompt_ingress@.len();
    assert(StageStep::of_prompt(view, count).skip(ingress as int) =~= StageStep::of_tensor(
        view,
        count,
    ));
}

/// A stage runs all of its layers, or as many as it is told at most.
pub proof fn lemma_layers_up_to_the_cap(stage: PackedResidencySketchBackend, view: StageModelView)
    requires
        view.execution_programs@.len() <= usize::MAX,
    ensures
        ({
            let all = view.execution_programs@.len();
            let count = stage.layer_count(view);
            &&& count <= all
            &&& stage.debug_layer_cap is None ==> count == all
            &&& stage.debug_layer_cap is Some ==> count <= stage.debug_layer_cap->0 && (count == all
                || count == stage.debug_layer_cap->0)
        }),
{
}

/// A stage that is told to begin needs a head's layout, its model and its tensors, and some tensor
/// that a prompt comes in by.
pub proof fn lemma_heads_begin(
    layout: Option<StageLayoutModel>,
    view: Option<StageModelViewModel>,
    has_store: bool,
)
    ensures
        crate::sketch::begin_fault(layout, view, has_store) is None <==> layout is Some && view
            is Some && has_store && layout->0.is_head && view->0.prompt_ingress.len() > 0,
{
}

/// A stage that is told to go on needs a layout that is no head's, its model and its tensors, and
/// a hidden state.
pub proof fn lemma_others_go_on(
    layout: Option<StageLayoutModel>,
    view: Option<StageModelViewModel>,
    has_store: bool,
    kind: PayloadKind,
)
    ensures
        crate::sketch::continue_fault(layout, view, has_store, kind) is None <==> layout is Some
            && view is Some && has_store && !layout->0.is_head && kind == PayloadKind::HiddenState,
{
}

/// A stage that is told to sample needs a tail's layout, its model and its tensors, a hidden
/// state, and some tensor for the tail alone.
pub proof fn lemma_tails_sample(
    layout: Option<StageLayoutModel>,
    view: Option<StageModelViewModel>,
    has_store: bool,
    kind: PayloadKind,
)
    ensures
        crate::sketch::tail_fault(layout, view, has_store, kind) is None <==> layout is Some && view
            is Some && has_store && layout->0.is_tail && kind == PayloadKind::HiddenState
            && view->0.tail_only.len() > 0,
{
}

/// A packed stage fits the layout of its role, and no other; there are three roles.
pub proof fn lemma_roles_fit_their_layouts(role: Seq<char>, layout: StageLayoutModel)
    ensures
        crate::sketch::role_fits("head"@, layout) <==> layout.is_head && !layout.is_tail,
        crate::sketch::role_fits("tail"@, layout) <==> layout.is_tail && !layout.is_head,
        crate::sketch::role_fits("middle"@, layout) <==> !layout.is_head && !layout.is_tail,
        role != "head"@ && role != "tail"@ && role != "middle"@ ==> !crate::sketch::role_fits(
            role,
            layout,
        ),
        layout.is_head && layout.is_tail ==> !crate::sketch::role_fits(role, layout),
        !(layout.is_head && layout.is_tail) ==> crate::sketch::role_fits(
            crate::frame::role_name(layout.is_head, layout.is_tail),
            layout,
        ),
{
    reveal_strlit("head");
    reveal_strlit("tail");
    reveal_strlit("middle");
    assert("head"@[0] == 'h' && "tail"@[0] == 't');
}

/// The width of a stage's hidden state grows with its layers and shared tensors: by sixteen for
/// each layer and by eight for each shared tensor, to the next sixteen, between 64 and 512.
pub proof fn lemma_width_grows(layers: nat, shared: nat)
    ensures
        crate::sketch::state_width(layers, shared) <= crate::sketch::state_width(
            layers + 1,
            shared,
        ),
        crate::sketch::state_width(layers, shared) <= crate::sketch::state_width(
            layers,
            shared + 1,
        ),
        16 * layers + 8 * shared <= 64 ==> crate::sketch::state_width(layers, shared) == 64,
        16 * layers + 8 * shared >= 512 ==> crate::sketch::state_width(layers, shared) == 512,
        64 <= 16 * layers + 8 * shared <= 512 ==> crate::sketch::state_width(layers, shared) >= 16
            * layers + 8 * shared && crate::sketch::state_width(layers, shared) < 16 * layers + 8
            * shared + 16,
{
}

/// Where a stage stands tells its role, how far it is, how many layers it sees and which paths its
/// programs have.
pub proof fn lemma_continuation_tells_the_paths(
    view: StageModelViewModel,
    programs: Seq<LayerExecutionProgram>,
    completed: u32,
    next: Option<u32>,
    at: int,
    op: int,
)
    requires
        0 <= at < programs.len(),
        0 <= op < programs[at].ops@.len(),
    ensures
        ({
            let stand = StageContinuationModel::of_view(view, programs, completed, next);
            let kind = programs[at].ops@[op].kind;
            &&& stand.version == 1 && stand.stage_role == view.role
            &&& stand.completed_layers == completed && stand.next_layer_index == next
            &&& stand.operator_layers == view.operator_layers.len() as usize
            &&& kind == ExecutionOpKind::AttentionQ || kind == ExecutionOpKind::AttentionK || kind
                == ExecutionOpKind::AttentionV || kind == ExecutionOpKind::AttentionOut
                ==> stand.has_attention_path
            &&& kind == ExecutionOpKind::FfnGate || kind == ExecutionOpKind::FfnUp || kind
                == ExecutionOpKind::FfnDown ==> stand.has_ffn_path
            &&& kind == ExecutionOpKind::InputGate || kind == ExecutionOpKind::Projection
                ==> stand.has_projection_path
        }),
{
    let kind = programs[at].ops@[op].kind;
    let attends = |kind: ExecutionOpKind| kind.is_attention();
    let feeds = |kind: ExecutionOpKind| kind.is_ffn();
    let projects = |kind: ExecutionOpKind| crate::sketch::is_projection(kind);
    assert(attends(programs[at].ops@[op].kind) == kind.is_attention());
    assert(feeds(programs[at].ops@[op].kind) == kind.is_ffn());
    assert(projects(programs[at].ops@[op].kind) == crate::sketch::is_projection(kind));
}

/// A stage without an operation of a path does not tell of that path.
pub proof fn lemma_continuation_tells_no_other_path(
    view: StageModelViewModel,
    programs: Seq<LayerExecutionProgram>,
    completed: u32,
    next: Option<u32>,
)
    ensures
        ({
            let stand = StageContinuationModel::of_view(view, programs, completed, next);
            &&& stand.has_attention_path ==> exists|i: int, j: int|
                0 <= i < programs.len() && 0 <= j < programs[i].ops@.len() && ({
                    let kind = (#[trigger] programs[i].ops@[j]).kind;
                    kind == ExecutionOpKind::AttentionQ || kind == ExecutionOpKind::AttentionK
                        || kind == ExecutionOpKind::AttentionV || kind
                        == ExecutionOpKind::AttentionOut
                })
            &&& stand.has_ffn_path ==> exists|i: int, j: int|
                0 <= i < programs.len() && 0 <= j < programs[i].ops@.len() && ({
                    let kind = (#[trigger] programs[i].ops@[j]).kind;
                    kind == ExecutionOpKind::FfnGate || kind == ExecutionOpKind::FfnUp || kind
                        == ExecutionOpKind::FfnDown
                })
            &&& stand.has_projection_path ==> exists|i: int, j: int|
                0 <= i < programs.len() && 0 <= j < programs[i].ops@.len() && ({
                    let kind = (#[trigger] programs[i].ops@[j]).kind;
                    kind == ExecutionOpKind::InputGate || kind == ExecutionOpKind::Projection
                })
        }),
{
}

/// A stage resumes with the carry that it was handed; where it was handed previews alone, with
/// what can be carried of them; else with nothing.
pub proof fn lemma_resumed_with_what_was_handed(input: StageTensorModel)
    ensures
        input.carry is Some ==> crate::sketch::resumed_carry(input) == input.carry,
        input.carry is None && input.transient is None ==> crate::sketch::resumed_carry(input)
            is None,
        input.carry is None && input.transient is Some ==> ({
            let carry = crate::sketch::resumed_carry(input);
            &&& carry is Some
            &&& carry->0.attention is Some <==> input.transient->0.attention is Some
            &&& carry->0.ffn is Some <==> input.transient->0.ffn is Some
        }),
{
}

proof fn lemma_turned_parts(byte: int, weight: int, rest: int)
    requires
        0 <= byte < 256,
        weight > 0,
        rest > 0,
        weight * rest == 256,
    ensures
        ({
            let turned = byte * weight % 256 + byte * weight / 256;
            &&& turned == byte % rest * weight + byte / rest
            &&& 0 <= turned < 256
            &&& turned * rest % 256 + turned * rest / 256 == byte
        }),
{
    let high = byte / rest;
    let low = byte % rest;
    assert(byte == rest * high + low && 0 <= low < rest && 0 <= high) by (nonlinear_arith)
        requires
            high == byte / rest,
            low == byte % rest,
            0 <= byte,
            rest > 0,
    ;
    assert(high < weight) by (nonlinear_arith)
        requires
            byte == rest * high + low,
            byte < 256,
            low >= 0,
            weight * rest == 256,
            rest > 0,
    ;
    assert(byte * weight == low * weight + 256 * high) by (nonlinear_arith)
        requires
            byte == rest * high + low,
            weight * rest == 256,
    ;
    assert(0 <= low * weight && low * weight + weight <= 256) by (nonlinear_arith)
        requires
            0 <= low < rest,
            weight * rest == 256,
            weight > 0,
    ;
    let turned = low * weight + high;
    assert(turned * rest == 256 * low + rest * high) by (nonlinear_arith)
        requires
            turned == low * weight + high,
            weight * rest == 256,
    ;
    assert(0 <= rest * high < 256) by (nonlinear_arith)
        requires
            byte == rest * high + low,
            0 <= low,
            byte < 256,
            0 <= high,
            rest > 0,
    ;
}

/// A byte that was turned by some bits is itself again after it was turned by the others; one bit
/// further the upper bit comes round to the lower end.
pub proof fn lemma_turning_on_turns_back(byte: int, count: int)
    requires
        0 <= byte < 256,
        0 <= count <= 8,
    ensures
        0 <= crate::sketch::rotated(byte, count) < 256,
        crate::sketch::rotated(crate::sketch::rotated(byte, count), 8 - count) == byte,
        crate::sketch::rotated(byte, 0) == byte,
        crate::sketch::rotated(byte, 1) == byte % 128 * 2 + byte / 128,
{
    reveal_with_fuel(crate::quants::weight, 9);
    let weight = crate::quants::weight(count);
    let rest = crate::quants::weight(8 - count);
    if count == 0 {
        assert(weight == 1 && rest == 256);
    } else if count == 1 {
        assert(weight == 2 && rest == 128);
    } else if count == 2 {
        assert(weight == 4 && rest == 64);
    } else if count == 3 {
        assert(weight == 8 && rest == 32);
    } else if count == 4 {
        assert(weight == 16 && rest == 16);
    } else if count == 5 {
        assert(weight == 32 && rest == 8);
    } else if count == 6 {
        assert(weight == 64 && rest == 4);
    } else if count == 7 {
        assert(weight == 128 && rest == 2);
    } else if count == 8 {
        assert(weight == 256 && rest == 1);
    }
    lemma_turned_parts(byte, weight, rest);
    lemma_turned_parts(byte, 1, 256);
    lemma_turned_parts(byte, 2, 128);
}

/// Each byte of a prompt's state gives the byte that it grew from back, once it is turned back and
/// the stage's name and the place are taken off.
pub proof fn lemma_prompt_state_comes_of_its_prompt(
    prompt: Seq<char>,
    view: crate::model_view::StageModelViewModel,
    stage_id: Seq<char>,
    width: nat,
    at: int,
)
    requires
        0 <= at < width,
        stage_id.len() > 0,
    ensures
        ({
            let state = crate::sketch::prompt_seed_bytes(prompt, view, stage_id, width);
            let seed = crate::sketch::prompt_bytes(prompt, view, stage_id);
            let stage = vstd::utf8::encode_utf8(stage_id);
            &&& state.len() == width
            &&& (crate::sketch::rotated(state[at] as int, 8 - at % 7) - stage[at % stage.len() as int]
                - at % 251) % 256 == seed[at % seed.len() as int]
        }),
{
    crate::stub::lemma_text_has_bytes(stage_id);
    let seed = crate::sketch::prompt_bytes(prompt, view, stage_id);
    let stage = crate::stub::text_bytes(stage_id);
    let byte = (seed[at % seed.len() as int] + stage[at % stage.len() as int] + at % 251) % 256;
    lemma_turning_on_turns_back(byte, at % 7);
    let turned = crate::sketch::rotated(byte, at % 7);
    assert(crate::sketch::prompt_seed_bytes(prompt, view, stage_id, width)[at] == turned as u8);
    lemma_byte_is_found(
        seed[at % seed.len() as int] as int,
        stage[at % stage.len() as int] as int,
        at % 251,
    );
}

proof fn lemma_byte_is_found(byte: int, name: int, place: int)
    requires
        0 <= byte < 256,
    ensures
        ((byte + name + place) % 256 - name - place) % 256 == byte,
{
}

/// What a prompt's state grows from holds the prompt, the stage's name and then, in eight bytes
/// each, the numbers of its layers, of its ingress tensors and of its shared ones.
pub proof fn lemma_prompt_bytes_tell_of_the_stage(
    prompt: Seq<char>,
    view: crate::model_view::StageModelViewModel,
    stage_id: Seq<char>,
    at: int,
)
    requires
        at >= 0,
    ensures
        ({
            let bytes = crate::sketch::prompt_bytes(prompt, view, stage_id);
            let text = vstd::utf8::encode_utf8(prompt);
            let name = vstd::utf8::encode_utf8(stage_id);
            let end = (text.len() + name.len()) as int;
            &&& bytes.len() == end + 24
            &&& at < text.len() ==> bytes[at] == text[at]
            &&& at < name.len() ==> bytes[text.len() + at] == name[at]
            &&& bytes.subrange(end, end + 8) == crate::sketch::eight_bytes(
                view.layers.len() as u64,
            )
            &&& bytes.subrange(end + 8, end + 16) == crate::sketch::eight_bytes(
                view.prompt_ingress.len() as u64,
            )
            &&& bytes.subrange(end + 16, end + 24) == crate::sketch::eight_bytes(
                view.shared_auxiliary.len() as u64,
            )
        }),
{
    let bytes = crate::sketch::prompt_bytes(prompt, view, stage_id);
    let end = (vstd::utf8::encode_utf8(prompt).len() + vstd::utf8::encode_utf8(stage_id).len()) as int;
    assert(bytes.subrange(end, end + 8) =~= crate::sketch::eight_bytes(
        view.layers.len() as u64,
    ));
    assert(bytes.subrange(end + 8, end + 16) =~= crate::sketch::eight_bytes(
        view.prompt_ingress.len() as u64,
    ));
    assert(bytes.subrange(end + 16, end + 24) =~= crate::sketch::eight_bytes(
        view.shared_auxiliary.len() as u64,
    ));
}

/// Whether a tensor is there and what is needed.
pub open spec fn is_fit(
    tensors: Seq<PackedTensorEntryModel>,
    name: Seq<char>,
    need: TensorNeed,
) -> bool {
    crate::layer_plan::looked_up(tensors, name) is Some && crate::layer_plan::looked_up(
        tensors,
        name,
    )->0.meets(need)
}

/// Whether `at` is the place of the first tensor that is missing or not what is needed.
pub open spec fn is_first_unfit(
    tensors: Seq<PackedTensorEntryModel>,
    names: Seq<Seq<char>>,
    need: TensorNeed,
    at: int,
) -> bool {
    &&& 0 <= at < names.len()
    &&& !is_fit(tensors, names[at], need)
    &&& forall|i: int| 0 <= i < at ==> is_fit(tensors, #[trigger] names[i], need)
}

proof fn lemma_first_unfit_is_found(
    tensors: Seq<PackedTensorEntryModel>,
    names: Seq<Seq<char>>,
    need: TensorNeed,
    from: int,
    at: int,
)
    requires
        0 <= from <= at,
        is_first_unfit(tensors, names, need, at),
    ensures
        crate::layer_plan::first_unfit(tensors, names, need, from) == Some(at),
    decreases at - from,
{
    if from < at {
        assert(is_fit(tensors, names[from], need));
        lemma_first_unfit_is_found(tensors, names, need, from + 1, at);
    }
}

proof fn lemma_none_is_unfit(
    tensors: Seq<PackedTensorEntryModel>,
    names: Seq<Seq<char>>,
    need: TensorNeed,
    from: int,
)
    requires
        0 <= from,
        forall|i: int| 0 <= i < names.len() ==> is_fit(tensors, #[trigger] names[i], need),
    ensures
        crate::layer_plan::first_unfit(tensors, names, need, from) is None,
    decreases names.len() - from,
{
    if from < names.len() {
        assert(is_fit(tensors, names[from], need));
        lemma_none_is_unfit(tensors, names, need, from + 1);
    }
}

/// Whether `actions` are, from `from` on, one of the given kind for each name, in order.
pub open spec fn are_each(
    actions: Seq<LayerActionModel>,
    from: int,
    kind: LayerActionKind,
    names: Seq<Seq<char>>,
    count: int,
) -> bool {
    &&& from + count <= actions.len()
    &&& forall|i: int|
        #![trigger names[i]]
        0 <= i < count ==> actions[from + i].kind == kind && actions[from + i].tensor == names[i]
}

/// What an operation with several tensors needs of each, by the way they are stored.
pub open spec fn need_of(binding: ExecutionBinding) -> TensorNeed {
    match binding {
        ExecutionBinding::F32Vector => TensorNeed::PlainVector,
        ExecutionBinding::F32Matrix => TensorNeed::PlainMatrix,
        ExecutionBinding::QuantizedMatrix => TensorNeed::NumericMatrix,
        _ => TensorNeed::Anything,
    }
}

/// What is done with the tensors before one that does not fit.
pub open spec fn done_before(binding: ExecutionBinding) -> LayerActionKind {
    match binding {
        ExecutionBinding::F32Vector => LayerActionKind::DecodeVector,
        ExecutionBinding::F32Matrix => LayerActionKind::ApplyMatrix,
        ExecutionBinding::QuantizedMatrix => LayerActionKind::ApplyNumericMatrix,
        _ => LayerActionKind::ApplyScalar,
    }
}

/// An operation on several tensors goes on to the first that is missing, and tells of its absence.
pub proof fn lemma_missing_tensors_end_an_operation(
    tensors: Seq<PackedTensorEntryModel>,
    op: ExecutionOpModel,
    at: int,
)
    requires
        op.tensor_names.len() > 1,
        is_first_unfit(tensors, op.tensor_names, need_of(op.binding), at),
        crate::layer_plan::looked_up(tensors, op.tensor_names[at]) is None,
    ensures
        ({
            let actions = LayerActionModel::of_op(tensors, op);
            &&& actions.len() == at + 1
            &&& are_each(actions, 0, done_before(op.binding), op.tensor_names, at)
            &&& actions[at].kind == LayerActionKind::Missing && actions[at].tensor
                == op.tensor_names[at]
        }),
{
    lemma_first_unfit_is_found(tensors, op.tensor_names, need_of(op.binding), 0, at);
}

/// An operation on several tensors that are all there, of which one is not what is needed, goes on
/// to that one, and then mixes in a number of each of them, in order.
pub proof fn lemma_unfit_tensors_are_mixed_in(
    tensors: Seq<PackedTensorEntryModel>,
    op: ExecutionOpModel,
    at: int,
)
    requires
        op.tensor_names.len() > 1,
        is_first_unfit(tensors, op.tensor_names, need_of(op.binding), at),
        forall|i: int|
            0 <= i < op.tensor_names.len() ==> is_fit(
                tensors,
                #[trigger] op.tensor_names[i],
                TensorNeed::Anything,
            ),
    ensures
        ({
            let actions = LayerActionModel::of_op(tensors, op);
            let names = op.tensor_names;
            &&& actions.len() == at + names.len()
            &&& are_each(actions, 0, done_before(op.binding), names, at)
            &&& are_each(actions, at, LayerActionKind::ApplyScalar, names, names.len() as int)
        }),
{
    assert(is_fit(tensors, op.tensor_names[at], TensorNeed::Anything));
    lemma_first_unfit_is_found(tensors, op.tensor_names, need_of(op.binding), 0, at);
    lemma_none_is_unfit(tensors, op.tensor_names, TensorNeed::Anything, 0);
}

/// An operation on several tensors of which the first that does not fit is there, and another one
/// is not, mixes in a number of each tensor before the missing one, and then tells of its absence.
pub proof fn lemma_mixing_in_ends_at_a_missing_tensor(
    tensors: Seq<PackedTensorEntryModel>,
    op: ExecutionOpModel,
    at: int,
    gone: int,
)
    requires
        op.tensor_names.len() > 1,
        is_first_unfit(tensors, op.tensor_names, need_of(op.binding), at),
        is_first_unfit(tensors, op.tensor_names, TensorNeed::Anything, gone),
        at < gone,
    ensures
        ({
            let actions = LayerActionModel::of_op(tensors, op);
            let names = op.tensor_names;
            &&& actions.len() == at + gone + 1
            &&& are_each(actions, 0, done_before(op.binding), names, at)
            &&& are_each(actions, at, LayerActionKind::ApplyScalar, names, gone)
            &&& actions[at + gone].kind == LayerActionKind::Missing && actions[at + gone].tensor
                == names[gone]
        }),
{
    assert(is_fit(tensors, op.tensor_names[at], TensorNeed::Anything));
    lemma_first_unfit_is_found(tensors, op.tensor_names, need_of(op.binding), 0, at);
    lemma_first_unfit_is_found(tensors, op.tensor_names, TensorNeed::Anything, 0, gone);
}

/// An operation on several tensors that are all what is needed does the same with each, in order: a
/// norm normalises, another operation on vectors scales, and matrices are run as they are stored.
pub proof fn lemma_fitting_tensors_are_all_used(
    tensors: Seq<PackedTensorEntryModel>,
    op: ExecutionOpModel,
)
    requires
        op.tensor_names.len() > 1,
        forall|i: int|
            0 <= i < op.tensor_names.len() ==> is_fit(
                tensors,
                #[trigger] op.tensor_names[i],
                need_of(op.binding),
            ),
    ensures
        ({
            let actions = LayerActionModel::of_op(tensors, op);
            let names = op.tensor_names;
            let norm = op.kind == ExecutionOpKind::AttentionNorm || op.kind
                == ExecutionOpKind::PostAttentionNorm || op.kind == ExecutionOpKind::FfnNorm
                || op.kind == ExecutionOpKind::PostFfnNorm;
            let kind = if op.binding is F32Vector && norm {
                LayerActionKind::ApplyNorm
            } else if op.binding is F32Vector {
                LayerActionKind::ApplyVector
            } else {
                done_before(op.binding)
            };
            actions.len() == names.len() && are_each(actions, 0, kind, names, names.len() as int)
        }),
{
    lemma_none_is_unfit(tensors, op.tensor_names, need_of(op.binding), 0);
}

/// A dimension that is not known counts as nothing, and a known one as itself.
pub proof fn lemma_unknown_dimensions_count_nothing(dimension: Option<u64>)
    ensures
        dimension is Some ==> dimension == Some(crate::layer_plan::known_dim(dimension)),
        dimension is None ==> crate::layer_plan::known_dim(dimension) == 0,
{
}

/// A matrix has as many elements more, with one row more, as it has columns; one without rows or
/// columns has none.
pub proof fn lemma_matrices_grow_by_row(
    entry: PackedTensorEntryModel,
    taller: PackedTensorEntryModel,
)
    requires
        entry.dimensions.len() == 2,
        taller.dimensions.len() == 2,
        taller.dimensions[0] == entry.dimensions[0],
        taller.dimensions[1] == entry.dimensions[1] + 1,
    ensures
        crate::layer_plan::matrix_elements(taller) == crate::layer_plan::matrix_elements(entry)
            + entry.dimensions[0],
        entry.dimensions[0] == 0 || entry.dimensions[1] == 0
            ==> crate::layer_plan::matrix_elements(entry) == 0,
        entry.dimensions[1] == 1 ==> crate::layer_plan::matrix_elements(entry)
            == entry.dimensions[0],
{
    let columns = entry.dimensions[0] as int;
    let rows = entry.dimensions[1] as int;
    assert(columns * (rows + 1) == columns * rows + columns) by (nonlinear_arith);
    assert(columns * rows >= 0) by (nonlinear_arith)
        requires
            columns >= 0,
            rows >= 0,
    ;
    if columns == 0 || rows == 0 {
        assert(columns * rows == 0) by (nonlinear_arith)
            requires
                columns == 0 || rows == 0,
        ;
    }
    if rows == 1 {
        assert(columns * rows == columns) by (nonlinear_arith)
            requires
                rows == 1,
        ;
    }
}

} // verus!
