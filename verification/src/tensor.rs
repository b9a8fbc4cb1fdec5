//! Tensors passed between stages, and the state that travels with them.
use vstd::prelude::*;
use vstd::string::*;
use crate::carry::{StageCarryState, StageCarryStateModel};
use crate::framing::stage_tensor_byte_sections;
use crate::model::{clone_texts, same_opt_text, same_texts};
use crate::number::{equal_bytes, equal_numbers, equal_sizes};

verus! {

/// What a stage tensor carries.
#[derive(Debug, Clone, Copy, PartialEq, Eq, Structural)]
pub enum PayloadKind {
    PromptIngress,
    HiddenState,
}

/// Where a request stands in the layer stack.
#[derive(Debug, PartialEq, Eq)]
pub struct StageContinuation {
    pub version: u32,
    pub stage_role: String,
    pub next_layer_index: Option<u32>,
    pub completed_layers: u32,
    pub operator_layers: usize,
    pub has_attention_path: bool,
    pub has_ffn_path: bool,
    pub has_projection_path: bool,
}

/// What a [`StageContinuation`] holds, as mathematical values.
#[verifier::ext_equal]
pub struct StageContinuationModel {
    pub version: u32,
    pub stage_role: Seq<char>,
    pub next_layer_index: Option<u32>,
    pub completed_layers: u32,
    pub operator_layers: usize,
    pub has_attention_path: bool,
    pub has_ffn_path: bool,
    pub has_projection_path: bool,
}

impl View for StageContinuation {
    type V = StageContinuationModel;

    open spec fn view(&self) -> StageContinuationModel {
        StageContinuationModel {
            version: self.version,
            stage_role: self.stage_role@,
            next_layer_index: self.next_layer_index,
            completed_layers: self.completed_layers,
            operator_layers: self.operator_layers,
            has_attention_path: self.has_attention_path,
            has_ffn_path: self.has_ffn_path,
            has_projection_path: self.has_projection_path,
        }
    }
}

impl Clone for StageContinuation {
    fn clone(&self) -> (r: Self)
        ensures
            r@ == self@,
    {
        StageContinuation {
            version: self.version,
            stage_role: self.stage_role.clone(),
            next_layer_index: self.next_layer_index,
            completed_layers: self.completed_layers,
            operator_layers: self.operator_layers,
            has_attention_path: self.has_attention_path,
            has_ffn_path: self.has_ffn_path,
            has_projection_path: self.has_projection_path,
        }
    }
}

/// A preview of the attention state. Each preview entry is the bit pattern of a single-precision
/// number.
#[derive(Debug)]
pub struct AttentionContinuation {
    pub width: usize,
    pub lane_indices: Vec<usize>,
    pub q_preview: Vec<u32>,
    pub k_preview: Vec<u32>,
    pub v_preview: Vec<u32>,
    pub score_preview: Vec<u32>,
    pub value_preview: Vec<u32>,
}

/// What a [`AttentionContinuation`] holds, as mathematical values.
#[verifier::ext_equal]
pub struct AttentionContinuationModel {
    pub width: usize,
    pub lane_indices: Seq<usize>,
    pub q_preview: Seq<u32>,
    pub k_preview: Seq<u32>,
    pub v_preview: Seq<u32>,
    pub score_preview: Seq<u32>,
    pub value_preview: Seq<u32>,
}

impl View for AttentionContinuation {
    type V = AttentionContinuationModel;

    open spec fn view(&self) -> AttentionContinuationModel {
        AttentionContinuationModel {
            width: self.width,
            lane_indices: self.lane_indices@,
            q_preview: self.q_preview@,
            k_preview: self.k_preview@,
            v_preview: self.v_preview@,
            score_preview: self.score_preview@,
            value_preview: self.value_preview@,
        }
    }
}

impl Clone for AttentionContinuation {
    fn clone(&self) -> (r: Self)
        ensures
            r@ == self@,
    {
        AttentionContinuation {
            width: self.width,
            lane_indices: self.lane_indices.clone(),
            q_preview: self.q_preview.clone(),
            k_preview: self.k_preview.clone(),
            v_preview: self.v_preview.clone(),
            score_preview: self.score_preview.clone(),
            value_preview: self.value_preview.clone(),
        }
    }
}

/// A preview of the feed-forward state. Each preview entry is the bit pattern of a
/// single-precision number.
#[derive(Debug)]
pub struct FfnContinuation {
    pub width: usize,
    pub lane_indices: Vec<usize>,
    pub gate_preview: Vec<u32>,
    pub up_preview: Vec<u32>,
    pub activation_preview: Vec<u32>,
}

/// What a [`FfnContinuation`] holds, as mathematical values.
#[verifier::ext_equal]
pub struct FfnContinuationModel {
    pub width: usize,
    pub lane_indices: Seq<usize>,
    pub gate_preview: Seq<u32>,
    pub up_preview: Seq<u32>,
    pub activation_preview: Seq<u32>,
}

impl View for FfnContinuation {
    type V = FfnContinuationModel;

    open spec fn view(&self) -> FfnContinuationModel {
        FfnContinuationModel {
            width: self.width,
            lane_indices: self.lane_indices@,
            gate_preview: self.gate_preview@,
            up_preview: self.up_preview@,
            activation_preview: self.activation_preview@,
        }
    }
}

impl Clone for FfnContinuation {
    fn clone(&self) -> (r: Self)
        ensures
            r@ == self@,
    {
        FfnContinuation {
            width: self.width,
            lane_indices: self.lane_indices.clone(),
            gate_preview: self.gate_preview.clone(),
            up_preview: self.up_preview.clone(),
            activation_preview: self.activation_preview.clone(),
        }
    }
}

/// The previews that a stage leaves behind.
#[derive(Debug)]
pub struct StageTransientState {
    pub attention: Option<AttentionContinuation>,
    pub ffn: Option<FfnContinuation>,
}

/// What a [`StageTransientState`] holds, as mathematical values.
#[verifier::ext_equal]
pub struct StageTransientStateModel {
    pub attention: Option<AttentionContinuationModel>,
    pub ffn: Option<FfnContinuationModel>,
}

impl View for StageTransientState {
    type V = StageTransientStateModel;

    open spec fn view(&self) -> StageTransientStateModel {
        StageTransientStateModel {
            attention: crate::model::opt(self.attention),
            ffn: crate::model::opt(self.ffn),
        }
    }
}

impl Clone for StageTransientState {
    fn clone(&self) -> (r: Self)
        ensures
            r@ == self@,
    {
        StageTransientState {
            attention: self.attention.clone(),
            ffn: self.ffn.clone(),
        }
    }
}

/// The unit of work handed from stage to stage.
#[derive(Debug)]
pub struct StageTensor {
    pub request_id: String,
    pub kind: PayloadKind,
    pub stage_trace: Vec<String>,
    pub hidden_dim: usize,
    pub bytes: Vec<u8>,
    pub prompt_text: Option<String>,
    pub max_tokens: Option<u32>,
    pub continuation: Option<StageContinuation>,
    pub transient: Option<StageTransientState>,
    pub carry: Option<StageCarryState>,
}

/// What a [`StageTensor`] holds, as mathematical values.
#[verifier::ext_equal]
pub struct StageTensorModel {
    pub request_id: Seq<char>,
    pub kind: PayloadKind,
    pub stage_trace: Seq<Seq<char>>,
    pub hidden_dim: usize,
    pub bytes: Seq<u8>,
    pub prompt_text: Option<Seq<char>>,
    pub max_tokens: Option<u32>,
    pub continuation: Option<StageContinuationModel>,
    pub transient: Option<StageTransientStateModel>,
    pub carry: Option<StageCarryStateModel>,
}

impl View for StageTensor {
    type V = StageTensorModel;

    open spec fn view(&self) -> StageTensorModel {
        StageTensorModel {
            request_id: self.request_id@,
            kind: self.kind,
            stage_trace: crate::model::texts(self.stage_trace@),
            hidden_dim: self.hidden_dim,
            bytes: self.bytes@,
            prompt_text: crate::model::opt(self.prompt_text),
            max_tokens: self.max_tokens,
            continuation: crate::model::opt(self.continuation),
            transient: crate::model::opt(self.transient),
            carry: crate::model::opt(self.carry),
        }
    }
}

impl Clone for StageTensor {
    fn clone(&self) -> (r: Self)
        ensures
            r@ == self@,
    {
        StageTensor {
            request_id: self.request_id.clone(),
            kind: self.kind,
            stage_trace: clone_texts(&self.stage_trace),
            hidden_dim: self.hidden_dim,
            bytes: self.bytes.clone(),
            prompt_text: self.prompt_text.clone(),
            max_tokens: self.max_tokens,
            continuation: self.continuation.clone(),
            transient: self.transient.clone(),
            carry: self.carry.clone(),
        }
    }
}

/// The slice of a model that one stage serves.
#[derive(Debug, PartialEq, Eq)]
pub struct StageLayout {
    pub model_id: String,
    pub stage_id: String,
    pub start_layer: u32,
    pub end_layer: u32,
    pub is_head: bool,
    pub is_tail: bool,
}

/// What a [`StageLayout`] holds, as mathematical values.
#[verifier::ext_equal]
pub struct StageLayoutModel {
    pub model_id: Seq<char>,
    pub stage_id: Seq<char>,
    pub start_layer: u32,
    pub end_layer: u32,
    pub is_head: bool,
    pub is_tail: bool,
}

impl View for StageLayout {
    type V = StageLayoutModel;

    open spec fn view(&self) -> StageLayoutModel {
        StageLayoutModel {
            model_id: self.model_id@,
            stage_id: self.stage_id@,
            start_layer: self.start_layer,
            end_layer: self.end_layer,
            is_head: self.is_head,
            is_tail: self.is_tail,
        }
    }
}

impl Clone for StageLayout {
    fn clone(&self) -> (r: Self)
        ensures
            r@ == self@,
    {
        StageLayout {
            model_id: self.model_id.clone(),
            stage_id: self.stage_id.clone(),
            start_layer: self.start_layer,
            end_layer: self.end_layer,
            is_head: self.is_head,
            is_tail: self.is_tail,
        }
    }
}

/// The text sampled by a tail stage.
#[derive(Debug, PartialEq, Eq)]
pub struct StageSample {
    pub request_id: String,
    pub model_id: String,
    pub text: String,
    pub token_ids: Vec<u32>,
    pub completion_tokens: u32,
}

/// What a [`StageSample`] holds, as mathematical values.
#[verifier::ext_equal]
pub struct StageSampleModel {
    pub request_id: Seq<char>,
    pub model_id: Seq<char>,
    pub text: Seq<char>,
    pub token_ids: Seq<u32>,
    pub completion_tokens: u32,
}

impl View for StageSample {
    type V = StageSampleModel;

    open spec fn view(&self) -> StageSampleModel {
        StageSampleModel {
            request_id: self.request_id@,
            model_id: self.model_id@,
            text: self.text@,
            token_ids: self.token_ids@,
            completion_tokens: self.completion_tokens,
        }
    }
}

impl Clone for StageSample {
    fn clone(&self) -> (r: Self)
        ensures
            r@ == self@,
    {
        StageSample {
            request_id: self.request_id.clone(),
            model_id: self.model_id.clone(),
            text: self.text.clone(),
            token_ids: self.token_ids.clone(),
            completion_tokens: self.completion_tokens,
        }
    }
}

/// The resumable state of a tensor.
#[derive(Debug)]
pub struct StageStateEnvelope {
    pub continuation: Option<StageContinuation>,
    pub transient: Option<StageTransientState>,
    pub carry: Option<StageCarryState>,
}

/// What a [`StageStateEnvelope`] holds, as mathematical values.
#[verifier::ext_equal]
pub struct StageStateEnvelopeModel {
    pub continuation: Option<StageContinuationModel>,
    pub transient: Option<StageTransientStateModel>,
    pub carry: Option<StageCarryStateModel>,
}

impl View for StageStateEnvelope {
    type V = StageStateEnvelopeModel;

    open spec fn view(&self) -> StageStateEnvelopeModel {
        StageStateEnvelopeModel {
            continuation: crate::model::opt(self.continuation),
            transient: crate::model::opt(self.transient),
            carry: crate::model::opt(self.carry),
        }
    }
}

impl Clone for StageStateEnvelope {
    fn clone(&self) -> (r: Self)
        ensures
            r@ == self@,
    {
        StageStateEnvelope {
            continuation: self.continuation.clone(),
            transient: self.transient.clone(),
            carry: self.carry.clone(),
        }
    }
}

/// The name of a payload kind.
pub open spec fn kind_name(kind: PayloadKind) -> Seq<char> {
    match kind {
        PayloadKind::PromptIngress => "PromptIngress"@,
        PayloadKind::HiddenState => "HiddenState"@,
    }
}

/// The name of a payload kind.
pub(crate) fn kind_text(kind: PayloadKind) -> (r: &'static str)
    ensures
        r@ == kind_name(kind),
{
    match kind {
        PayloadKind::PromptIngress => "PromptIngress",
        PayloadKind::HiddenState => "HiddenState",
    }
}

impl StageContinuation {
    /// Whether two optional continuations are equal.
    pub(crate) fn equal_opt(a: &Option<Self>, b: &Option<Self>) -> (r: bool)
        ensures
            r == (crate::model::opt(*a) == crate::model::opt(*b)),
    {
        match (a, b) {
            (None, None) => true,
            (Some(x), Some(y)) => x.version == y.version && x.stage_role == y.stage_role
                && x.next_layer_index == y.next_layer_index && x.completed_layers
                == y.completed_layers && x.operator_layers == y.operator_layers
                && x.has_attention_path == y.has_attention_path && x.has_ffn_path
                == y.has_ffn_path && x.has_projection_path == y.has_projection_path,
            _ => false,
        }
    }
}

impl AttentionContinuationModel {
    /// Whether two previews compare equal, number by number.
    pub open spec fn agrees(self, other: Self) -> bool {
        &&& self.width == other.width
        &&& self.lane_indices == other.lane_indices
        &&& crate::number::same_numbers(self.q_preview, other.q_preview)
        &&& crate::number::same_numbers(self.k_preview, other.k_preview)
        &&& crate::number::same_numbers(self.v_preview, other.v_preview)
        &&& crate::number::same_numbers(self.score_preview, other.score_preview)
        &&& crate::number::same_numbers(self.value_preview, other.value_preview)
    }

    /// Whether each entry of the preview is a number.
    pub open spec fn all_numbers(self) -> bool {
        &&& crate::number::all_numbers(self.q_preview)
        &&& crate::number::all_numbers(self.k_preview)
        &&& crate::number::all_numbers(self.v_preview)
        &&& crate::number::all_numbers(self.score_preview)
        &&& crate::number::all_numbers(self.value_preview)
    }

    /// The preview's vectors, one after the other.
    pub open spec fn flattened(self) -> Seq<u32> {
        self.q_preview + self.k_preview + self.v_preview + self.score_preview + self.value_preview
    }
}

impl AttentionContinuation {
    fn equal(&self, other: &Self) -> (r: bool)
        ensures
            r == self@.agrees(other@),
    {
        self.width == other.width && equal_sizes(&self.lane_indices, &other.lane_indices)
            && equal_numbers(&self.q_preview, &other.q_preview) && equal_numbers(
            &self.k_preview,
            &other.k_preview,
        ) && equal_numbers(&self.v_preview, &other.v_preview) && equal_numbers(
            &self.score_preview,
            &other.score_preview,
        ) && equal_numbers(&self.value_preview, &other.value_preview)
    }

    /// The preview's vectors, one after the other.
    pub fn preview_values(&self) -> (r: Vec<u32>)
        ensures
            r@ == self@.flattened(),
    {
        let mut out: Vec<u32> = Vec::new();
        out.extend_from_slice(&self.q_preview);
        out.extend_from_slice(&self.k_preview);
        out.extend_from_slice(&self.v_preview);
        out.extend_from_slice(&self.score_preview);
        out.extend_from_slice(&self.value_preview);
        assert(out@ =~= self@.flattened());
        out
    }
}

impl PartialEq for AttentionContinuation {
    fn eq(&self, other: &Self) -> (r: bool) {
        self.equal(other)
    }
}

impl vstd::std_specs::cmp::PartialEqSpecImpl for AttentionContinuation {
    open spec fn obeys_eq_spec() -> bool {
        true
    }

    open spec fn eq_spec(&self, other: &Self) -> bool {
        self@.agrees(other@)
    }
}

impl FfnContinuationModel {
    /// Whether two previews compare equal, number by number.
    pub open spec fn agrees(self, other: Self) -> bool {
        &&& self.width == other.width
        &&& self.lane_indices == other.lane_indices
        &&& crate::number::same_numbers(self.gate_preview, other.gate_preview)
        &&& crate::number::same_numbers(self.up_preview, other.up_preview)
        &&& crate::number::same_numbers(self.activation_preview, other.activation_preview)
    }

    /// Whether each entry of the preview is a number.
    pub open spec fn all_numbers(self) -> bool {
        &&& crate::number::all_numbers(self.gate_preview)
        &&& crate::number::all_numbers(self.up_preview)
        &&& crate::number::all_numbers(self.activation_preview)
    }

    /// The preview's vectors, one after the other.
    pub open spec fn flattened(self) -> Seq<u32> {
        self.gate_preview + self.up_preview + self.activation_preview
    }
}

impl FfnContinuation {
    fn equal(&self, other: &Self) -> (r: bool)
        ensures
            r == self@.agrees(other@),
    {
        self.width == other.width && equal_sizes(&self.lane_indices, &other.lane_indices)
            && equal_numbers(&self.gate_preview, &other.gate_preview) && equal_numbers(
            &self.up_preview,
            &other.up_preview,
        ) && equal_numbers(&self.activation_preview, &other.activation_preview)
    }

    /// The preview's vectors, one after the other.
    pub fn preview_values(&self) -> (r: Vec<u32>)
        ensures
            r@ == self@.flattened(),
    {
        let mut out: Vec<u32> = Vec::new();
        out.extend_from_slice(&self.gate_preview);
        out.extend_from_slice(&self.up_preview);
        out.extend_from_slice(&self.activation_preview);
        assert(out@ =~= self@.flattened());
        out
    }
}

impl PartialEq for FfnContinuation {
    fn eq(&self, other: &Self) -> (r: bool) {
        self.equal(other)
    }
}

impl vstd::std_specs::cmp::PartialEqSpecImpl for FfnContinuation {
    open spec fn obeys_eq_spec() -> bool {
        true
    }

    open spec fn eq_spec(&self, other: &Self) -> bool {
        self@.agrees(other@)
    }
}

impl StageTransientStateModel {
    /// Whether two transient states compare equal, number by number.
    pub open spec fn agrees(self, other: Self) -> bool {
        &&& match (self.attention, other.attention) {
            (None, None) => true,
            (Some(x), Some(y)) => x.agrees(y),
            _ => false,
        }
        &&& match (self.ffn, other.ffn) {
            (None, None) => true,
            (Some(x), Some(y)) => x.agrees(y),
            _ => false,
        }
    }

    /// Whether two optional transient states compare equal, number by number.
    pub open spec fn agree(a: Option<Self>, b: Option<Self>) -> bool {
        match (a, b) {
            (None, None) => true,
            (Some(x), Some(y)) => x.agrees(y),
            _ => false,
        }
    }

    /// Whether each entry of the previews is a number.
    pub open spec fn all_numbers(self) -> bool {
        &&& match self.attention {
            Some(attention) => attention.all_numbers(),
            None => true,
        }
        &&& match self.ffn {
            Some(ffn) => ffn.all_numbers(),
            None => true,
        }
    }
}

impl StageTransientState {
    fn equal(&self, other: &Self) -> (r: bool)
        ensures
            r == self@.agrees(other@),
    {
        let attention = match (&self.attention, &other.attention) {
            (None, None) => true,
            (Some(x), Some(y)) => x.equal(y),
            _ => false,
        };
        let ffn = match (&self.ffn, &other.ffn) {
            (None, None) => true,
            (Some(x), Some(y)) => x.equal(y),
            _ => false,
        };
        attention && ffn
    }

    /// Whether two optional transient states compare equal, number by number.
    pub(crate) fn equal_opt(a: &Option<Self>, b: &Option<Self>) -> (r: bool)
        ensures
            r == StageTransientStateModel::agree(crate::model::opt(*a), crate::model::opt(*b)),
    {
        match (a, b) {
            (None, None) => true,
            (Some(x), Some(y)) => x.equal(y),
            _ => false,
        }
    }
}

impl PartialEq for StageTransientState {
    fn eq(&self, other: &Self) -> (r: bool) {
        self.equal(other)
    }
}

impl vstd::std_specs::cmp::PartialEqSpecImpl for StageTransientState {
    open spec fn obeys_eq_spec() -> bool {
        true
    }

    open spec fn eq_spec(&self, other: &Self) -> bool {
        self@.agrees(other@)
    }
}

impl StageStateEnvelopeModel {
    /// Whether two states compare equal, number by number.
    pub open spec fn agrees(self, other: Self) -> bool {
        &&& self.continuation == other.continuation
        &&& StageTransientStateModel::agree(self.transient, other.transient)
        &&& StageCarryStateModel::agree(self.carry, other.carry)
    }
}

impl StageStateEnvelope {
    pub(crate) fn equal(&self, other: &Self) -> (r: bool)
        ensures
            r == self@.agrees(other@),
    {
        StageContinuation::equal_opt(&self.continuation, &other.continuation)
            && StageTransientState::equal_opt(&self.transient, &other.transient)
            && StageCarryState::equal_opt(&self.carry, &other.carry)
    }
}

impl PartialEq for StageStateEnvelope {
    fn eq(&self, other: &Self) -> (r: bool) {
        self.equal(other)
    }
}

impl vstd::std_specs::cmp::PartialEqSpecImpl for StageStateEnvelope {
    open spec fn obeys_eq_spec() -> bool {
        true
    }

    open spec fn eq_spec(&self, other: &Self) -> bool {
        self@.agrees(other@)
    }
}

impl StageTensorModel {
    /// Whether two tensors compare equal: their states number by number, all else exactly.
    pub open spec fn agrees(self, other: Self) -> bool {
        &&& self == (StageTensorModel { transient: self.transient, carry: self.carry, ..other })
        &&& self.state().agrees(other.state())
    }
}

impl StageTensor {
    pub(crate) fn equal(&self, other: &Self) -> (r: bool)
        ensures
            r == self@.agrees(other@),
    {
        self.request_id == other.request_id && self.kind == other.kind && same_texts(
            &self.stage_trace,
            &other.stage_trace,
        ) && self.hidden_dim == other.hidden_dim && equal_bytes(&self.bytes, &other.bytes)
            && same_opt_text(&self.prompt_text, &other.prompt_text) && self.max_tokens
            == other.max_tokens && StageContinuation::equal_opt(
            &self.continuation,
            &other.continuation,
        ) && StageTransientState::equal_opt(&self.transient, &other.transient)
            && StageCarryState::equal_opt(&self.carry, &other.carry)
    }
}

impl PartialEq for StageTensor {
    fn eq(&self, other: &Self) -> (r: bool) {
        self.equal(other)
    }
}

impl vstd::std_specs::cmp::PartialEqSpecImpl for StageTensor {
    open spec fn obeys_eq_spec() -> bool {
        true
    }

    open spec fn eq_spec(&self, other: &Self) -> bool {
        self@.agrees(other@)
    }
}

impl StageTensor {
    /// The number of hidden-state bytes: those of the frame where the bytes are framed, else all.
    pub fn hidden_state_len(&self) -> (r: usize)
        ensures
            r == crate::framing::hidden_length(self.bytes@),
    {
        match stage_tensor_byte_sections(&self.bytes) {
            Some(sections) => sections.hidden_bytes.len(),
            None => self.bytes.len(),
        }
    }
}

impl StageSample {
    /// The code points of a text.
    pub fn text_token_ids(text: &str) -> (r: Vec<u32>)
        ensures
            r@ == text@.map_values(|ch: char| ch as u32),
    {
        let mut out: Vec<u32> = Vec::new();
        let count: usize = text.unicode_len();
        let mut index: usize = 0;
        while index < count
            invariant
                index <= count,
                count == text@.len(),
                out@ == text@.take(index as int).map_values(|ch: char| ch as u32),
            decreases count - index,
        {
            let ch: char = text.get_char(index);
            out.push(ch as u32);
            index += 1;
            assert(out@ =~= text@.take(index as int).map_values(|ch: char| ch as u32));
        }
        assert(text@.take(index as int) =~= text@);
        out
    }
}

impl StageStateEnvelope {
    /// Whether there is no state at all.
    pub fn is_empty(&self) -> (r: bool)
        ensures
            r == (self.continuation is None && self.transient is None && self.carry is None),
    {
        self.continuation.is_none() && self.transient.is_none() && self.carry.is_none()
    }

    /// The state of a tensor.
    pub fn from_tensor(tensor: &StageTensor) -> (r: Self)
        ensures
            r@ == tensor@.state(),
    {
        StageStateEnvelope {
            continuation: tensor.continuation.clone(),
            transient: tensor.transient.clone(),
            carry: tensor.carry.clone(),
        }
    }

    /// Gives a tensor this state.
    pub fn apply_to_tensor(&self, tensor: &mut StageTensor)
        ensures
            final(tensor)@ == old(tensor)@.with_state(self@),
    {
        tensor.continuation = self.continuation.clone();
        tensor.transient = self.transient.clone();
        tensor.carry = self.carry.clone();
    }
}

impl StageTensorModel {
    /// The state of the tensor.
    pub open spec fn state(self) -> StageStateEnvelopeModel {
        StageStateEnvelopeModel {
            continuation: self.continuation,
            transient: self.transient,
            carry: self.carry,
        }
    }

    /// The tensor with another state.
    pub open spec fn with_state(self, state: StageStateEnvelopeModel) -> Self {
        StageTensorModel {
            continuation: state.continuation,
            transient: state.transient,
            carry: state.carry,
            ..self
        }
    }
}

/// Taking a tensor's state off and putting it back gives the tensor back, whatever state it had
/// in between.
pub proof fn lemma_envelope_round_trip(tensor: StageTensorModel, between: StageStateEnvelopeModel)
    ensures
        tensor.with_state(between).with_state(tensor.state()) == tensor,
        tensor.with_state(between).state() == between,
{
}

} // verus!
