//! What a layer does, step by step: each operation of its program as actions on named tensors, in
//! order, and the decoding of those tensors.
use vstd::prelude::*;
use vstd::string::*;
use crate::execution::{
    ExecutionBinding, ExecutionOp, ExecutionOpKind, LayerExecutionProgram,
    ATTENTION_PROJECTION_BLEND_WEIGHT_MILLI,
};
use crate::layer_run::{
    AttentionMixState, AttentionMixStateModel, BlendSlot, FfnMixState, LayerRun, ProjectionSlice,
};
use crate::model::{fail_with, StageError};
use crate::model_view::ExecutionOpModel;
use crate::packed::{PackedStageIndexModel, PackedTensorEntry, PackedTensorEntryModel, StageTensorStore};
use crate::quants::{
    dequantize_f32_tensor, dequantize_tensor, DequantizedTensor, DequantizedTensorModel,
    GGML_TYPE_F32, GGML_TYPE_Q4_K, GGML_TYPE_Q6_K,
};
use crate::text::{decimal, size_text};

verus! {

/// What is done with a tensor.
#[derive(Debug, Clone, Copy, PartialEq, Eq, Structural)]
pub enum LayerActionKind {
    /// Project the state through the matrix, as the query.
    ProjectQuery,
    /// Project the state through the matrix, as the key.
    ProjectKey,
    /// Project the state through the matrix, as the value.
    ProjectValue,
    /// Mix the attention and project it through the matrix into the state.
    AttentionOut,
    /// Project the state through the matrix, as the first half of the feed-forward block.
    FfnGate,
    /// Project the state through the matrix, as the other half of the feed-forward block.
    FfnUp,
    /// Mix the feed-forward block and project it through the matrix into the state.
    FfnDown,
    /// Project the state through the matrix, as the input gate.
    InputGate,
    /// Project the state through the matrix, under the input gate, into the state.
    Projection,
    /// Decode the matrix and do nothing with it.
    DecodeMatrix,
    /// Decode the vector and do nothing with it.
    DecodeVector,
    /// Scale the state by the vector.
    ApplyVector,
    /// Normalise the state and scale it by the vector.
    ApplyNorm,
    /// Run the state through the matrix of single-precision numbers.
    ApplyMatrix,
    /// Run the state through the matrix, whatever its type.
    ApplyNumericMatrix,
    /// Mix a number made of the tensor's bytes into the state.
    ApplyScalar,
    /// Give up: there is no such tensor.
    Missing,
}

impl LayerActionKind {
    /// The share of a projection that is blended into the state, in thousandths; none for an
    /// action that blends no projection.
    pub open spec fn share(self) -> Option<u16> {
        match self {
            LayerActionKind::AttentionOut => Some(ATTENTION_PROJECTION_BLEND_WEIGHT_MILLI),
            LayerActionKind::FfnDown => Some(400),
            LayerActionKind::Projection => Some(250),
            _ => None,
        }
    }

    /// The share of a projection that is blended into the state, in thousandths.
    pub fn share_milli(self) -> (r: Option<u16>)
        ensures
            r == self.share(),
    {
        match self {
            LayerActionKind::AttentionOut => Some(ATTENTION_PROJECTION_BLEND_WEIGHT_MILLI),
            LayerActionKind::FfnDown => Some(400),
            LayerActionKind::Projection => Some(250),
            _ => None,
        }
    }

    /// The step that a layer takes with the vector that was computed for the action; none for an
    /// action that hands in no vector.
    pub open spec fn step(self, values: Seq<u32>) -> Option<crate::layer_run::LayerStep> {
        match self {
            LayerActionKind::ProjectQuery => Some(
                crate::layer_run::LayerStep::Project(ProjectionSlice::Query, values),
            ),
            LayerActionKind::ProjectKey => Some(
                crate::layer_run::LayerStep::Project(ProjectionSlice::Key, values),
            ),
            LayerActionKind::ProjectValue => Some(
                crate::layer_run::LayerStep::Project(ProjectionSlice::Value, values),
            ),
            LayerActionKind::FfnGate => Some(crate::layer_run::LayerStep::Gate(values)),
            LayerActionKind::FfnUp => Some(crate::layer_run::LayerStep::Up(values)),
            LayerActionKind::FfnDown => Some(crate::layer_run::LayerStep::FinishFfn(values)),
            LayerActionKind::InputGate => Some(crate::layer_run::LayerStep::InputGate(values)),
            _ => None,
        }
    }

    /// The step that a layer takes with the attention mix that was computed for the action; none
    /// for an action that mixes no attention.
    pub open spec fn mix_step(self, mix: AttentionMixStateModel) -> Option<
        crate::layer_run::LayerStep,
    > {
        match self {
            LayerActionKind::AttentionOut => Some(
                crate::layer_run::LayerStep::FinishAttention(mix),
            ),
            _ => None,
        }
    }

    /// The place whose carried vector is blended into the vector that was computed for the
    /// action, before a step is taken with it.
    pub open spec fn place(self) -> Option<BlendSlot> {
        match self {
            LayerActionKind::ProjectQuery => Some(BlendSlot::Query),
            LayerActionKind::ProjectKey => Some(BlendSlot::Key),
            LayerActionKind::ProjectValue => Some(BlendSlot::Value),
            LayerActionKind::FfnGate => Some(BlendSlot::Gate),
            LayerActionKind::FfnUp => Some(BlendSlot::Up),
            LayerActionKind::FfnDown => Some(BlendSlot::Activation),
            _ => None,
        }
    }

    /// The place whose carried vector is blended into the vector that was computed for the
    /// action.
    pub fn blend_slot(self) -> (r: Option<BlendSlot>)
        ensures
            r == self.place(),
    {
        match self {
            LayerActionKind::ProjectQuery => Some(BlendSlot::Query),
            LayerActionKind::ProjectKey => Some(BlendSlot::Key),
            LayerActionKind::ProjectValue => Some(BlendSlot::Value),
            LayerActionKind::FfnGate => Some(BlendSlot::Gate),
            LayerActionKind::FfnUp => Some(BlendSlot::Up),
            LayerActionKind::FfnDown => Some(BlendSlot::Activation),
            _ => None,
        }
    }

    /// Whether the vector for the action is the state run through its matrix.
    pub open spec fn is_projection(self) -> bool {
        self is ProjectQuery || self is ProjectKey || self is ProjectValue || self is FfnGate
            || self is FfnUp || self is InputGate
    }

    /// Whether the vector for the action is the state run through its matrix.
    pub fn projects(self) -> (r: bool)
        ensures
            r == self.is_projection(),
    {
        match self {
            LayerActionKind::ProjectQuery
            | LayerActionKind::ProjectKey
            | LayerActionKind::ProjectValue
            | LayerActionKind::FfnGate
            | LayerActionKind::FfnUp
            | LayerActionKind::InputGate => true,
            _ => false,
        }
    }
}

/// What is done with which tensor.
#[derive(Debug, PartialEq, Eq)]
pub struct LayerAction {
    pub kind: LayerActionKind,
    pub tensor: String,
}

/// What a [`LayerAction`] holds, as mathematical values.
#[verifier::ext_equal]
pub struct LayerActionModel {
    pub kind: LayerActionKind,
    pub tensor: Seq<char>,
}

impl View for LayerAction {
    type V = LayerActionModel;

    open spec fn view(&self) -> LayerActionModel {
        LayerActionModel { kind: self.kind, tensor: self.tensor@ }
    }
}

/// What a tensor must be for an action.
#[derive(Debug, Clone, Copy, PartialEq, Eq, Structural)]
pub enum TensorNeed {
    Anything,
    PlainVector,
    PlainMatrix,
    NumericMatrix,
}

impl PackedTensorEntryModel {
    /// Whether the tensor is a matrix of a type that can be decoded.
    pub open spec fn is_numeric_matrix(self) -> bool {
        self.dimensions.len() == 2 && (self.ggml_type == GGML_TYPE_F32 || self.ggml_type
            == GGML_TYPE_Q4_K || self.ggml_type == GGML_TYPE_Q6_K)
    }

    /// Whether the tensor is what an action needs.
    pub open spec fn meets(self, need: TensorNeed) -> bool {
        match need {
            TensorNeed::Anything => true,
            TensorNeed::PlainVector => crate::model_view::is_plain(self, 1),
            TensorNeed::PlainMatrix => crate::model_view::is_plain(self, 2),
            TensorNeed::NumericMatrix => self.is_numeric_matrix(),
        }
    }
}

impl PackedTensorEntry {
    /// Whether the tensor is what an action needs.
    pub fn is_fit(&self, need: TensorNeed) -> (r: bool)
        ensures
            r == self@.meets(need),
    {
        match need {
            TensorNeed::Anything => true,
            TensorNeed::PlainVector => self.ggml_type == 0 && self.dimensions.len() == 1
                && self.byte_len % 4 == 0,
            TensorNeed::PlainMatrix => self.ggml_type == 0 && self.dimensions.len() == 2
                && self.byte_len % 4 == 0,
            TensorNeed::NumericMatrix => self.dimensions.len() == 2 && (self.ggml_type
                == GGML_TYPE_F32 || self.ggml_type == GGML_TYPE_Q4_K || self.ggml_type
                == GGML_TYPE_Q6_K),
        }
    }
}

/// The tensor that a name stands for.
pub open spec fn looked_up(tensors: Seq<PackedTensorEntryModel>, name: Seq<char>) -> Option<
    PackedTensorEntryModel,
> {
    PackedStageIndexModel::last_named(tensors, name)
}

/// The first name, from `from` on, whose tensor is missing or not what is needed.
pub open spec fn first_unfit(
    tensors: Seq<PackedTensorEntryModel>,
    names: Seq<Seq<char>>,
    need: TensorNeed,
    from: int,
) -> Option<int>
    decreases names.len() - from,
{
    if from < 0 || from >= names.len() {
        None
    } else {
        match looked_up(tensors, names[from]) {
            Some(entry) if entry.meets(need) => first_unfit(tensors, names, need, from + 1),
            _ => Some(from),
        }
    }
}

impl LayerActionModel {
    /// The same with each tensor.
    pub open spec fn each(kind: LayerActionKind, names: Seq<Seq<char>>) -> Seq<Self> {
        names.map_values(|tensor: Seq<char>| LayerActionModel { kind, tensor })
    }

    /// A number of each tensor mixed into the state, up to the first that is missing.
    pub open spec fn scalars(
        tensors: Seq<PackedTensorEntryModel>,
        names: Seq<Seq<char>>,
    ) -> Seq<Self> {
        match first_unfit(tensors, names, TensorNeed::Anything, 0) {
            None => Self::each(LayerActionKind::ApplyScalar, names),
            Some(at) => Self::each(LayerActionKind::ApplyScalar, names.take(at)).push(
                LayerActionModel { kind: LayerActionKind::Missing, tensor: names[at] },
            ),
        }
    }

    /// `all` with each tensor where all are what is needed. Else `some` with those before the
    /// first that is not; then its absence, or a number of each tensor instead.
    pub open spec fn fitting(
        tensors: Seq<PackedTensorEntryModel>,
        names: Seq<Seq<char>>,
        need: TensorNeed,
        all: LayerActionKind,
        some: LayerActionKind,
    ) -> Seq<Self> {
        match first_unfit(tensors, names, need, 0) {
            None => Self::each(all, names),
            Some(at) => Self::each(some, names.take(at)) + (if looked_up(
                tensors,
                names[at],
            ) is None {
                seq![LayerActionModel { kind: LayerActionKind::Missing, tensor: names[at] }]
            } else {
                Self::scalars(tensors, names)
            }),
        }
    }

    /// What is done with the tensors of an operation by the way they are stored.
    pub open spec fn bound(
        tensors: Seq<PackedTensorEntryModel>,
        op: ExecutionOpModel,
    ) -> Seq<Self> {
        match op.binding {
            ExecutionBinding::F32Vector => Self::fitting(
                tensors,
                op.tensor_names,
                TensorNeed::PlainVector,
                if is_norm(op.kind) {
                    LayerActionKind::ApplyNorm
                } else {
                    LayerActionKind::ApplyVector
                },
                LayerActionKind::DecodeVector,
            ),
            ExecutionBinding::F32Matrix => Self::fitting(
                tensors,
                op.tensor_names,
                TensorNeed::PlainMatrix,
                LayerActionKind::ApplyMatrix,
                LayerActionKind::ApplyMatrix,
            ),
            ExecutionBinding::QuantizedMatrix => Self::fitting(
                tensors,
                op.tensor_names,
                TensorNeed::NumericMatrix,
                LayerActionKind::ApplyNumericMatrix,
                LayerActionKind::ApplyNumericMatrix,
            ),
            _ => Self::scalars(tensors, op.tensor_names),
        }
    }

    /// What an operation does. One with a single tensor, a matrix that can be decoded, does what
    /// its kind says; any other goes by the way its tensors are stored.
    pub open spec fn of_op(tensors: Seq<PackedTensorEntryModel>, op: ExecutionOpModel) -> Seq<Self> {
        if op.tensor_names.len() == 1 {
            let name = op.tensor_names[0];
            match looked_up(tensors, name) {
                None => seq![LayerActionModel { kind: LayerActionKind::Missing, tensor: name }],
                Some(entry) => if entry.is_numeric_matrix() {
                    match meaning(op.kind) {
                        Some(kind) => seq![LayerActionModel { kind, tensor: name }],
                        None => seq![
                            LayerActionModel {
                                kind: LayerActionKind::DecodeMatrix,
                                tensor: name,
                            },
                        ] + Self::bound(tensors, op),
                    }
                } else {
                    Self::bound(tensors, op)
                },
            }
        } else {
            Self::bound(tensors, op)
        }
    }

    /// What a program does: its operations one after the other.
    pub open spec fn of_ops(
        tensors: Seq<PackedTensorEntryModel>,
        ops: Seq<ExecutionOpModel>,
    ) -> Seq<Self>
        decreases ops.len(),
    {
        if ops.len() == 0 {
            Seq::empty()
        } else {
            Self::of_ops(tensors, ops.drop_last()) + Self::of_op(tensors, ops.last())
        }
    }
}

/// What an operation of the given kind does with a matrix of its own.
pub open spec fn meaning(kind: ExecutionOpKind) -> Option<LayerActionKind> {
    match kind {
        ExecutionOpKind::AttentionQ => Some(LayerActionKind::ProjectQuery),
        ExecutionOpKind::AttentionK => Some(LayerActionKind::ProjectKey),
        ExecutionOpKind::AttentionV => Some(LayerActionKind::ProjectValue),
        ExecutionOpKind::AttentionOut => Some(LayerActionKind::AttentionOut),
        ExecutionOpKind::FfnGate => Some(LayerActionKind::FfnGate),
        ExecutionOpKind::FfnUp => Some(LayerActionKind::FfnUp),
        ExecutionOpKind::FfnDown => Some(LayerActionKind::FfnDown),
        ExecutionOpKind::InputGate => Some(LayerActionKind::InputGate),
        ExecutionOpKind::Projection => Some(LayerActionKind::Projection),
        _ => None,
    }
}

/// Whether an operation of the given kind normalises the state.
pub open spec fn is_norm(kind: ExecutionOpKind) -> bool {
    kind is AttentionNorm || kind is PostAttentionNorm || kind is FfnNorm || kind is PostFfnNorm
}

fn find_unfit(store: &StageTensorStore, names: &[String], need: TensorNeed) -> (r: Option<usize>)
    ensures
        match r {
            Some(at) => at < names@.len() && first_unfit(
                store@.index.tensors,
                crate::model::texts(names@),
                need,
                0,
            ) == Some(at as int),
            None => first_unfit(
                store@.index.tensors,
                crate::model::texts(names@),
                need,
                0,
            ) is None,
        },
{
    let ghost texts = crate::model::texts(names@);
    let mut index: usize = 0;
    while index < names.len()
        invariant
            index <= names@.len(),
            texts == crate::model::texts(names@),
            first_unfit(store@.index.tensors, texts, need, 0) == first_unfit(
                store@.index.tensors,
                texts,
                need,
                index as int,
            ),
        decreases names.len() - index,
    {
        assert(texts[index as int] == names@[index as int]@);
        match store.entry(names[index].as_str()) {
            Some(entry) => {
                if !entry.is_fit(need) {
                    return Some(index);
                }
            },
            None => {
                return Some(index);
            },
        }
        index += 1;
    }
    None
}

fn push_action(actions: &mut Vec<LayerAction>, kind: LayerActionKind, tensor: &str)
    ensures
        crate::model::views(final(actions)@) == crate::model::views(old(actions)@).push(
            LayerActionModel { kind, tensor: tensor@ },
        ),
{
    actions.push(LayerAction { kind, tensor: tensor.to_owned() });
    assert(crate::model::views(actions@) =~= crate::model::views(old(actions)@).push(
        LayerActionModel { kind, tensor: tensor@ },
    ));
}

fn push_each(actions: &mut Vec<LayerAction>, kind: LayerActionKind, names: &[String], count: usize)
    requires
        count <= names@.len(),
    ensures
        crate::model::views(final(actions)@) == crate::model::views(old(actions)@)
            + LayerActionModel::each(kind, crate::model::texts(names@).take(count as int)),
{
    let ghost texts = crate::model::texts(names@);
    let ghost before = crate::model::views(actions@);
    let mut index: usize = 0;
    assert(before + LayerActionModel::each(kind, texts.take(0)) =~= before);
    while index < count
        invariant
            index <= count <= names@.len(),
            texts == crate::model::texts(names@),
            crate::model::views(actions@) == before + LayerActionModel::each(
                kind,
                texts.take(index as int),
            ),
        decreases count - index,
    {
        push_action(actions, kind, names[index].as_str());
        index += 1;
        assert(crate::model::views(actions@) =~= before + LayerActionModel::each(
            kind,
            texts.take(index as int),
        ));
    }
}

fn push_scalars(actions: &mut Vec<LayerAction>, store: &StageTensorStore, names: &[String])
    ensures
        crate::model::views(final(actions)@) == crate::model::views(old(actions)@)
            + LayerActionModel::scalars(store@.index.tensors, crate::model::texts(names@)),
{
    let ghost texts = crate::model::texts(names@);
    let ghost before = crate::model::views(actions@);
    match find_unfit(store, names, TensorNeed::Anything) {
        Some(at) => {
            push_each(actions, LayerActionKind::ApplyScalar, names, at);
            assert(texts[at as int] == names@[at as int]@);
            push_action(actions, LayerActionKind::Missing, names[at].as_str());
        },
        None => {
            push_each(actions, LayerActionKind::ApplyScalar, names, names.len());
            assert(texts.take(names@.len() as int) =~= texts);
        },
    }
    assert(crate::model::views(actions@) =~= before + LayerActionModel::scalars(
        store@.index.tensors,
        texts,
    ));
}

fn push_fitting(
    actions: &mut Vec<LayerAction>,
    store: &StageTensorStore,
    names: &[String],
    need: TensorNeed,
    all: LayerActionKind,
    some: LayerActionKind,
)
    ensures
        crate::model::views(final(actions)@) == crate::model::views(old(actions)@)
            + LayerActionModel::fitting(
            store@.index.tensors,
            crate::model::texts(names@),
            need,
            all,
            some,
        ),
{
    let ghost texts = crate::model::texts(names@);
    let ghost before = crate::model::views(actions@);
    match find_unfit(store, names, need) {
        Some(at) => {
            push_each(actions, some, names, at);
            assert(texts[at as int] == names@[at as int]@);
            if store.entry(names[at].as_str()).is_none() {
                push_action(actions, LayerActionKind::Missing, names[at].as_str());
            } else {
                push_scalars(actions, store, names);
            }
        },
        None => {
            push_each(actions, all, names, names.len());
            assert(texts.take(names@.len() as int) =~= texts);
        },
    }
    assert(crate::model::views(actions@) =~= before + LayerActionModel::fitting(
        store@.index.tensors,
        texts,
        need,
        all,
        some,
    ));
}

fn push_bound(actions: &mut Vec<LayerAction>, store: &StageTensorStore, op: &ExecutionOp)
    ensures
        crate::model::views(final(actions)@) == crate::model::views(old(actions)@)
            + LayerActionModel::bound(store@.index.tensors, op@),
{
    match op.binding {
        ExecutionBinding::F32Vector => {
            let all = if matches!(
                op.kind,
                ExecutionOpKind::AttentionNorm | ExecutionOpKind::PostAttentionNorm
                    | ExecutionOpKind::FfnNorm | ExecutionOpKind::PostFfnNorm
            ) {
                LayerActionKind::ApplyNorm
            } else {
                LayerActionKind::ApplyVector
            };
            push_fitting(
                actions,
                store,
                &op.tensor_names,
                TensorNeed::PlainVector,
                all,
                LayerActionKind::DecodeVector,
            );
        },
        ExecutionBinding::F32Matrix => {
            push_fitting(
                actions,
                store,
                &op.tensor_names,
                TensorNeed::PlainMatrix,
                LayerActionKind::ApplyMatrix,
                LayerActionKind::ApplyMatrix,
            );
        },
        ExecutionBinding::QuantizedMatrix => {
            push_fitting(
                actions,
                store,
                &op.tensor_names,
                TensorNeed::NumericMatrix,
                LayerActionKind::ApplyNumericMatrix,
                LayerActionKind::ApplyNumericMatrix,
            );
        },
        _ => {
            push_scalars(actions, store, &op.tensor_names);
        },
    }
}

fn meaning_of(kind: ExecutionOpKind) -> (r: Option<LayerActionKind>)
    ensures
        r == meaning(kind),
{
    match kind {
        ExecutionOpKind::AttentionQ => Some(LayerActionKind::ProjectQuery),
        ExecutionOpKind::AttentionK => Some(LayerActionKind::ProjectKey),
        ExecutionOpKind::AttentionV => Some(LayerActionKind::ProjectValue),
        ExecutionOpKind::AttentionOut => Some(LayerActionKind::AttentionOut),
        ExecutionOpKind::FfnGate => Some(LayerActionKind::FfnGate),
        ExecutionOpKind::FfnUp => Some(LayerActionKind::FfnUp),
        ExecutionOpKind::FfnDown => Some(LayerActionKind::FfnDown),
        ExecutionOpKind::InputGate => Some(LayerActionKind::InputGate),
        ExecutionOpKind::Projection => Some(LayerActionKind::Projection),
        _ => None,
    }
}

fn push_op_actions(actions: &mut Vec<LayerAction>, store: &StageTensorStore, op: &ExecutionOp)
    ensures
        crate::model::views(final(actions)@) == crate::model::views(old(actions)@)
            + LayerActionModel::of_op(store@.index.tensors, op@),
{
    let ghost before = crate::model::views(actions@);
    if op.tensor_names.len() == 1 {
        let name = &op.tensor_names[0];
        assert(op@.tensor_names[0] == name@);
        match store.entry(name.as_str()) {
            None => {
                push_action(actions, LayerActionKind::Missing, name.as_str());
            },
            Some(entry) => {
                if entry.is_fit(TensorNeed::NumericMatrix) {
                    match meaning_of(op.kind) {
                        Some(kind) => {
                            push_action(actions, kind, name.as_str());
                        },
                        None => {
                            push_action(actions, LayerActionKind::DecodeMatrix, name.as_str());
                            push_bound(actions, store, op);
                        },
                    }
                } else {
                    push_bound(actions, store, op);
                }
            },
        }
    } else {
        push_bound(actions, store, op);
    }
    assert(crate::model::views(actions@) =~= before + LayerActionModel::of_op(
        store@.index.tensors,
        op@,
    ));
}

/// What a program does with the tensors of a store, in order.
pub fn plan_layer(store: &StageTensorStore, program: &LayerExecutionProgram) -> (r: Vec<LayerAction>)
    ensures
        crate::model::views(r@) == LayerActionModel::of_ops(
            store@.index.tensors,
            program@.ops,
        ),
{
    let ghost ops = program@.ops;
    let mut actions: Vec<LayerAction> = Vec::new();
    let mut index: usize = 0;
    assert(ops.take(0) =~= Seq::empty());
    assert(crate::model::views(actions@) =~= Seq::empty());
    while index < program.ops.len()
        invariant
            index <= program.ops@.len(),
            ops == crate::model::views(program.ops@),
            crate::model::views(actions@) == LayerActionModel::of_ops(
                store@.index.tensors,
                ops.take(index as int),
            ),
        decreases program.ops.len() - index,
    {
        proof {
            assert(ops.take(index + 1).drop_last() =~= ops.take(index as int));
            assert(ops.take(index + 1).last() == program.ops@[index as int]@);
        }
        push_op_actions(&mut actions, store, &program.ops[index]);
        index += 1;
    }
    assert(ops.take(index as int) =~= ops);
    actions
}

/// A dimension, or zero where it is not known.
pub open spec fn known_dim(dimension: Option<u64>) -> u64 {
    match dimension {
        Some(dimension) => dimension,
        None => 0,
    }
}

fn dim_or_zero(dimension: Option<u64>) -> (r: u64)
    ensures
        r == known_dim(dimension),
{
    match dimension {
        Some(dimension) => dimension,
        None => 0,
    }
}

/// The dimensions of a layer that are mixed into the state after its operations, over and over:
/// the hidden one, those of query, key and value, and that of the feed-forward block.
pub fn shape_dims(program: &LayerExecutionProgram) -> (r: [u64; 5])
    ensures
        r@ == seq![
            known_dim(program.hidden_dim),
            known_dim(program.q_out_dim),
            known_dim(program.k_out_dim),
            known_dim(program.v_out_dim),
            known_dim(program.ffn_inner_dim),
        ],
{
    [
        dim_or_zero(program.hidden_dim),
        dim_or_zero(program.q_out_dim),
        dim_or_zero(program.k_out_dim),
        dim_or_zero(program.v_out_dim),
        dim_or_zero(program.ffn_inner_dim),
    ]
}

impl LayerRun {
    /// Takes the vector that was computed for an action. Nothing changes where the action hands
    /// in none.
    pub fn take_values(&mut self, kind: LayerActionKind, values: Vec<u32>)
        ensures
            final(self)@ == (match kind.step(values@) {
                Some(step) => old(self)@.after(step),
                None => old(self)@,
            }),
    {
        match kind {
            LayerActionKind::ProjectQuery => self.project(ProjectionSlice::Query, values),
            LayerActionKind::ProjectKey => self.project(ProjectionSlice::Key, values),
            LayerActionKind::ProjectValue => self.project(ProjectionSlice::Value, values),
            LayerActionKind::FfnGate => self.set_gate(values),
            LayerActionKind::FfnUp => self.set_up(values),
            LayerActionKind::FfnDown => self.finish_ffn(FfnMixState { activations: values }),
            LayerActionKind::InputGate => self.set_input_gate(values),
            _ => {},
        }
    }

    /// Takes the attention mix that was computed for an action. Nothing changes where the action
    /// mixes no attention.
    pub fn take_mix(&mut self, kind: LayerActionKind, mix: AttentionMixState)
        ensures
            final(self)@ == (match kind.mix_step(mix@) {
                Some(step) => old(self)@.after(step),
                None => old(self)@,
            }),
    {
        match kind {
            LayerActionKind::AttentionOut => self.finish_attention(mix),
            _ => {},
        }
    }
}

/// The sentence that tells of a missing tensor.
pub fn missing_tensor(tensor_name: &str) -> (r: StageError)
    ensures
        r@ == "Tensor "@ + tensor_name@ + " missing from stage store"@,
{
    StageError::new(
        "Tensor ".to_owned().concat(tensor_name).concat(" missing from stage store"),
    )
}

/// The numbers of a vector, out of its bytes; nothing where the tensor is no plain vector.
pub fn decode_f32_vector(entry: &PackedTensorEntry, bytes: &[u8]) -> (r: Result<
    Option<Vec<u32>>,
    StageError,
>)
    ensures
        if !entry@.meets(TensorNeed::PlainVector) {
            r matches Ok(None)
        } else if bytes@.len() != entry.byte_len {
            crate::model::failure(r) == Some(
                "Packed tensor "@ + entry@.name + " length "@ + crate::text::dec(bytes@.len())
                    + " did not match index length "@ + crate::text::dec(entry.byte_len as nat),
            )
        } else {
            r matches Ok(Some(numbers)) && numbers@ == crate::quants::f32_numbers(bytes@)
        },
{
    if !entry.is_fit(TensorNeed::PlainVector) {
        return Ok(None);
    }
    if bytes.len() as u64 != entry.byte_len {
        return fail_with(
            "Packed tensor ".to_owned().concat(entry.name.as_str()).concat(" length ").concat(
                size_text(bytes.len()).as_str(),
            ).concat(" did not match index length ").concat(decimal(entry.byte_len).as_str()),
        );
    }
    match dequantize_f32_tensor(bytes) {
        Ok(numbers) => Ok(Some(numbers)),
        Err(error) => Err(error),
    }
}

/// The elements that a tensor's two dimensions tell of.
pub open spec fn matrix_elements(entry: PackedTensorEntryModel) -> nat {
    (entry.dimensions[0] * entry.dimensions[1]) as nat
}

/// The numbers of a matrix, out of its bytes, with its rows and columns; nothing where the tensor
/// is no plain matrix.
pub fn decode_f32_matrix(entry: &PackedTensorEntry, bytes: &[u8]) -> (r: Result<
    Option<(usize, usize, Vec<u32>)>,
    StageError,
>)
    requires
        entry@.meets(TensorNeed::PlainMatrix) ==> entry@.dimensions[0] <= usize::MAX
            && entry@.dimensions[1] <= usize::MAX && matrix_elements(entry@) * 4 <= usize::MAX,
    ensures
        if !entry@.meets(TensorNeed::PlainMatrix) {
            r matches Ok(None)
        } else if bytes@.len() != matrix_elements(entry@) * 4 {
            crate::model::failure(r) == Some(
                "Packed tensor "@ + entry@.name + " byte size "@ + crate::text::dec(bytes@.len())
                    + " did not match rows*cols*4 "@ + crate::text::dec(
                    matrix_elements(entry@) * 4,
                ),
            )
        } else {
            r matches Ok(Some(matrix)) && matrix.0 == entry@.dimensions[0] && matrix.1
                == entry@.dimensions[1] && matrix.2@ == crate::quants::f32_numbers(bytes@)
        },
{
    if !entry.is_fit(TensorNeed::PlainMatrix) {
        return Ok(None);
    }
    let rows: usize = entry.dimensions[0] as usize;
    let cols: usize = entry.dimensions[1] as usize;
    assert(rows * cols == matrix_elements(entry@));
    let size: usize = rows * cols * 4;
    if bytes.len() != size {
        return fail_with(
            "Packed tensor ".to_owned().concat(entry.name.as_str()).concat(" byte size ").concat(
                size_text(bytes.len()).as_str(),
            ).concat(" did not match rows*cols*4 ").concat(size_text(size).as_str()),
        );
    }
    match dequantize_f32_tensor(bytes) {
        Ok(numbers) => Ok(Some((rows, cols, numbers))),
        Err(error) => Err(error),
    }
}

/// The elements of a matrix of any type that can be decoded, out of its bytes, with its rows and
/// columns; nothing where the tensor is none.
pub fn decode_numeric_matrix(entry: &PackedTensorEntry, bytes: &[u8]) -> (r: Result<
    Option<(usize, usize, DequantizedTensor)>,
    StageError,
>)
    requires
        entry@.is_numeric_matrix() ==> entry@.dimensions[0] <= usize::MAX && entry@.dimensions[1]
            <= usize::MAX && matrix_elements(entry@) <= usize::MAX
            && DequantizedTensorModel::of_bytes(entry.ggml_type, bytes@).elements() <= usize::MAX,
    ensures
        if !entry@.is_numeric_matrix() {
            r matches Ok(None)
        } else {
            match DequantizedTensorModel::fault(entry.ggml_type, bytes@.len()) {
                Some(fault) => crate::model::failure(r) == Some(fault),
                None => {
                    let decoded = DequantizedTensorModel::of_bytes(entry.ggml_type, bytes@);
                    if decoded.elements() != matrix_elements(entry@) {
                        crate::model::failure(r) == Some(
                            "Decoded tensor "@ + entry@.name + " length "@ + crate::text::dec(
                                decoded.elements(),
                            ) + " did not match rows*cols "@ + crate::text::dec(
                                matrix_elements(entry@),
                            ),
                        )
                    } else {
                        r matches Ok(Some(matrix)) && matrix.0 == entry@.dimensions[0] && matrix.1
                            == entry@.dimensions[1] && matrix.2@ == decoded
                    }
                },
            }
        },
{
    if !entry.is_fit(TensorNeed::NumericMatrix) {
        return Ok(None);
    }
    let rows: usize = entry.dimensions[0] as usize;
    let cols: usize = entry.dimensions[1] as usize;
    assert(rows * cols == matrix_elements(entry@));
    let wanted: usize = rows * cols;
    let decoded = match dequantize_tensor(entry.ggml_type, bytes) {
        Ok(decoded) => decoded,
        Err(error) => return Err(error),
    };
    let count: usize = match decoded.element_count() {
        Some(count) => count,
        None => 0,
    };
    if count != wanted {
        return fail_with(
            "Decoded tensor ".to_owned().concat(entry.name.as_str()).concat(" length ").concat(
                size_text(count).as_str(),
            ).concat(" did not match rows*cols ").concat(size_text(wanted).as_str()),
        );
    }
    Ok(Some((rows, cols, decoded)))
}

/// The sum of the first bytes of a tensor, up to 64 of them, each times its place: one to
/// thirteen, over and over.
pub open spec fn weighted_sum(bytes: Seq<u8>) -> nat
    decreases bytes.len(),
{
    if bytes.len() == 0 {
        0
    } else {
        weighted_sum(bytes.drop_last()) + bytes.last() as nat * ((bytes.len() - 1) as nat % 13 + 1)
    }
}

/// The sum of dimensions.
pub open spec fn dimension_sum(dimensions: Seq<u64>) -> nat
    decreases dimensions.len(),
{
    if dimensions.len() == 0 {
        0
    } else {
        dimension_sum(dimensions.drop_last()) + dimensions.last() as nat
    }
}

/// The number, below 4096, that is made of a tensor's first bytes, its dimensions and its type.
pub open spec fn entry_number(entry: PackedTensorEntryModel, bytes: Seq<u8>) -> nat {
    (weighted_sum(crate::lanes::prefix(bytes, 64)) + dimension_sum(entry.dimensions)
        + entry.ggml_type as nat) % 4096
}

proof fn lemma_dimension_sum_grows(dimensions: Seq<u64>, count: int)
    requires
        0 <= count <= dimensions.len(),
    ensures
        dimension_sum(dimensions.take(count)) <= dimension_sum(dimensions),
    decreases dimensions.len() - count,
{
    if count < dimensions.len() {
        assert(dimensions.take(count + 1).drop_last() =~= dimensions.take(count));
        lemma_dimension_sum_grows(dimensions, count + 1);
    } else {
        assert(dimensions.take(count) =~= dimensions);
    }
}

/// The number, below 4096, that is made of a tensor's first bytes, its dimensions and its type.
pub fn entry_scalar_number(entry: &PackedTensorEntry, bytes: &[u8]) -> (r: u64)
    requires
        weighted_sum(crate::lanes::prefix(bytes@, 64)) + dimension_sum(entry@.dimensions)
            + entry.ggml_type <= u64::MAX,
    ensures
        r as nat == entry_number(entry@, bytes@),
        r < 4096,
{
    let head = crate::lanes::take_prefix(bytes, 64);
    let mut acc: u64 = 0;
    let mut index: usize = 0;
    assert(head@.take(0) =~= Seq::empty());
    while index < head.len()
        invariant
            index <= head@.len() <= 64,
            acc as nat == weighted_sum(head@.take(index as int)),
            acc <= index * 255 * 13,
        decreases head.len() - index,
    {
        proof {
            assert(head@.take(index + 1).drop_last() =~= head@.take(index as int));
            assert(head@.take(index + 1).last() == head@[index as int]);
        }
        let place: u64 = index as u64 % 13 + 1;
        let byte: u64 = head[index] as u64;
        assert(byte * place <= 255 * 13) by (nonlinear_arith)
            requires
                byte <= 255,
                place <= 13,
        ;
        acc = acc + byte * place;
        index += 1;
    }
    assert(head@.take(index as int) =~= head@);
    let mut sum: u64 = 0;
    let mut at: usize = 0;
    assert(entry.dimensions@.take(0) =~= Seq::empty());
    while at < entry.dimensions.len()
        invariant
            at <= entry.dimensions@.len(),
            dimension_sum(entry.dimensions@) <= u64::MAX,
            sum as nat == dimension_sum(entry.dimensions@.take(at as int)),
        decreases entry.dimensions.len() - at,
    {
        proof {
            assert(entry.dimensions@.take(at + 1).drop_last() =~= entry.dimensions@.take(
                at as int,
            ));
            lemma_dimension_sum_grows(entry.dimensions@, at + 1);
        }
        sum = sum + entry.dimensions[at];
        at += 1;
    }
    assert(entry.dimensions@.take(at as int) =~= entry.dimensions@);
    (acc + sum + entry.ggml_type as u64) % 4096
}

/// A runnable operation on a matrix of its own that can be decoded does one thing: what its kind
/// says.
pub proof fn lemma_matrix_op_does_what_it_says(
    tensors: Seq<PackedTensorEntryModel>,
    kind: ExecutionOpKind,
    entry: PackedTensorEntryModel,
)
    requires
        meaning(kind) is Some,
        entry.is_numeric_matrix(),
        looked_up(tensors, entry.name) == Some(entry),
    ensures
        LayerActionModel::of_op(tensors, ExecutionOpModel::of_entries(kind, seq![entry])) == seq![
            LayerActionModel { kind: meaning(kind)->0, tensor: entry.name },
        ],
{
    let op = ExecutionOpModel::of_entries(kind, seq![entry]);
    assert(op.tensor_names =~= seq![entry.name]);
}

/// A program whose tensors are all in the store never meets a missing one.
pub proof fn lemma_present_tensors_are_never_missing(
    tensors: Seq<PackedTensorEntryModel>,
    ops: Seq<ExecutionOpModel>,
    at: int,
)
    requires
        forall|i: int, j: int|
            0 <= i < ops.len() && 0 <= j < ops[i].tensor_names.len() ==> looked_up(
                tensors,
                #[trigger] ops[i].tensor_names[j],
            ) is Some,
        0 <= at < LayerActionModel::of_ops(tensors, ops).len(),
    ensures
        LayerActionModel::of_ops(tensors, ops)[at].kind != LayerActionKind::Missing,
    decreases ops.len(),
{
    if ops.len() > 0 {
        let front = LayerActionModel::of_ops(tensors, ops.drop_last());
        if at < front.len() {
            assert forall|i: int, j: int|
                0 <= i < ops.drop_last().len() && 0 <= j
                    < ops.drop_last()[i].tensor_names.len() implies looked_up(
                tensors,
                #[trigger] ops.drop_last()[i].tensor_names[j],
            ) is Some by {
                assert(ops[i].tensor_names[j] == ops.drop_last()[i].tensor_names[j]);
            }
            lemma_present_tensors_are_never_missing(tensors, ops.drop_last(), at);
        } else {
            let op = ops.last();
            assert forall|j: int| 0 <= j < op.tensor_names.len() implies looked_up(
                tensors,
                #[trigger] op.tensor_names[j],
            ) is Some by {
                assert(ops[ops.len() - 1].tensor_names[j] == op.tensor_names[j]);
            }
            lemma_first_unfit_is_found(tensors, op.tensor_names, TensorNeed::Anything, 0);
            lemma_first_unfit_is_found(tensors, op.tensor_names, TensorNeed::PlainVector, 0);
            lemma_first_unfit_is_found(tensors, op.tensor_names, TensorNeed::PlainMatrix, 0);
            lemma_first_unfit_is_found(tensors, op.tensor_names, TensorNeed::NumericMatrix, 0);
        }
    }
}

/// An action of a plan hands its layer something only where an operation of the program says so:
/// one with a single tensor, the action's, whose kind stands for the action.
pub proof fn lemma_steps_come_of_their_operations(
    tensors: Seq<PackedTensorEntryModel>,
    ops: Seq<ExecutionOpModel>,
    at: int,
    values: Seq<u32>,
    mix: AttentionMixStateModel,
)
    requires
        0 <= at < LayerActionModel::of_ops(tensors, ops).len(),
        LayerActionModel::of_ops(tensors, ops)[at].kind.step(values) is Some
            || LayerActionModel::of_ops(tensors, ops)[at].kind.mix_step(mix) is Some,
    ensures
        exists|i: int|
            0 <= i < ops.len() && meaning((#[trigger] ops[i]).kind) == Some(
                LayerActionModel::of_ops(tensors, ops)[at].kind,
            ) && ops[i].tensor_names == seq![LayerActionModel::of_ops(tensors, ops)[at].tensor],
    decreases ops.len(),
{
    if ops.len() > 0 {
        let action = LayerActionModel::of_ops(tensors, ops)[at];
        let front = LayerActionModel::of_ops(tensors, ops.drop_last());
        if at < front.len() {
            lemma_steps_come_of_their_operations(tensors, ops.drop_last(), at, values, mix);
            let i = choose|i: int|
                0 <= i < ops.len() - 1 && meaning((#[trigger] ops.drop_last()[i]).kind) == Some(
                    action.kind,
                ) && ops.drop_last()[i].tensor_names == seq![action.tensor];
            assert(ops[i] == ops.drop_last()[i]);
        } else {
            let op = ops[ops.len() - 1];
            assert(action == LayerActionModel::of_op(tensors, op)[at - front.len()]);
            lemma_bound_hands_nothing_in(tensors, op);
            assert(op.tensor_names.len() == 1 ==> op.tensor_names =~= seq![op.tensor_names[0]]);
        }
    }
}

/// Whether none of the actions hands its layer anything.
spec fn hand_nothing_in(actions: Seq<LayerActionModel>) -> bool {
    forall|i: int|
        0 <= i < actions.len() ==> {
            let kind = (#[trigger] actions[i]).kind;
            !kind.is_projection() && !(kind is AttentionOut) && !(kind is FfnDown)
        }
}

proof fn lemma_scalars_hand_nothing_in(
    tensors: Seq<PackedTensorEntryModel>,
    names: Seq<Seq<char>>,
)
    ensures
        hand_nothing_in(LayerActionModel::scalars(tensors, names)),
{
    lemma_first_unfit_is_a_place(tensors, names, TensorNeed::Anything, 0);
}

proof fn lemma_fitting_hands_nothing_in(
    tensors: Seq<PackedTensorEntryModel>,
    names: Seq<Seq<char>>,
    need: TensorNeed,
    all: LayerActionKind,
    some: LayerActionKind,
)
    requires
        !all.is_projection() && !(all is AttentionOut) && !(all is FfnDown),
        !some.is_projection() && !(some is AttentionOut) && !(some is FfnDown),
    ensures
        hand_nothing_in(LayerActionModel::fitting(tensors, names, need, all, some)),
{
    lemma_first_unfit_is_a_place(tensors, names, need, 0);
    lemma_scalars_hand_nothing_in(tensors, names);
}

proof fn lemma_bound_hands_nothing_in(tensors: Seq<PackedTensorEntryModel>, op: ExecutionOpModel)
    ensures
        hand_nothing_in(LayerActionModel::bound(tensors, op)),
{
    let names = op.tensor_names;
    lemma_scalars_hand_nothing_in(tensors, names);
    lemma_fitting_hands_nothing_in(
        tensors,
        names,
        TensorNeed::PlainVector,
        LayerActionKind::ApplyNorm,
        LayerActionKind::DecodeVector,
    );
    lemma_fitting_hands_nothing_in(
        tensors,
        names,
        TensorNeed::PlainVector,
        LayerActionKind::ApplyVector,
        LayerActionKind::DecodeVector,
    );
    lemma_fitting_hands_nothing_in(
        tensors,
        names,
        TensorNeed::PlainMatrix,
        LayerActionKind::ApplyMatrix,
        LayerActionKind::ApplyMatrix,
    );
    lemma_fitting_hands_nothing_in(
        tensors,
        names,
        TensorNeed::NumericMatrix,
        LayerActionKind::ApplyNumericMatrix,
        LayerActionKind::ApplyNumericMatrix,
    );
}

proof fn lemma_first_unfit_is_a_place(
    tensors: Seq<PackedTensorEntryModel>,
    names: Seq<Seq<char>>,
    need: TensorNeed,
    from: int,
)
    requires
        0 <= from <= names.len(),
    ensures
        first_unfit(tensors, names, need, from) matches Some(at) ==> from <= at < names.len(),
    decreases names.len() - from,
{
    if from < names.len() {
        lemma_first_unfit_is_a_place(tensors, names, need, from + 1);
    }
}

proof fn lemma_first_unfit_is_found(
    tensors: Seq<PackedTensorEntryModel>,
    names: Seq<Seq<char>>,
    need: TensorNeed,
    from: int,
)
    requires
        0 <= from <= names.len(),
        forall|j: int|
            0 <= j < names.len() ==> looked_up(tensors, #[trigger] names[j]) is Some,
    ensures
        match first_unfit(tensors, names, need, from) {
            Some(at) => from <= at < names.len() && looked_up(tensors, names[at]) is Some
                && need != TensorNeed::Anything,
            None => true,
        },
    decreases names.len() - from,
{
    if from < names.len() {
        assert(looked_up(tensors, names[from]) is Some);
        lemma_first_unfit_is_found(tensors, names, need, from + 1);
    }
}

} // verus!
