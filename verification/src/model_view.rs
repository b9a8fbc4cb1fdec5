//! The model as a stage sees it: its tensors sorted by what they are for, and the programs that
//! its layers run.
use vstd::prelude::*;
use vstd::string::*;
use crate::execution::{
    ExecutionAttentionResumeContract, ExecutionBinding, ExecutionOp, ExecutionOpKind,
    LayerExecutionProgram, StageResumeCapabilities,
};
use crate::lanes::put_lane;
use crate::packed::{clone_entries, PackedTensorEntry, PackedTensorEntryModel, StageTensorStore};
use crate::text::{begins_with, chars_of, has_chars, same_text};

verus! {

/// The tensors of one layer.
#[derive(Debug, PartialEq, Eq)]
pub struct StageLayerView {
    pub layer_index: u32,
    pub tensors: Vec<PackedTensorEntry>,
}

/// What a [`StageLayerView`] holds, as mathematical values.
#[verifier::ext_equal]
pub struct StageLayerViewModel {
    pub layer_index: u32,
    pub tensors: Seq<PackedTensorEntryModel>,
}

impl View for StageLayerView {
    type V = StageLayerViewModel;

    open spec fn view(&self) -> StageLayerViewModel {
        StageLayerViewModel {
            layer_index: self.layer_index,
            tensors: crate::model::views(self.tensors@),
        }
    }
}

impl Clone for StageLayerView {
    fn clone(&self) -> (r: Self)
        ensures
            r@ == self@,
    {
        StageLayerView {
            layer_index: self.layer_index,
            tensors: clone_entries(&self.tensors),
        }
    }
}

/// The tensors of one layer by what they are for.
#[derive(Debug, PartialEq, Eq)]
pub struct LayerOperatorView {
    pub layer_index: u32,
    pub attn_q: Option<PackedTensorEntry>,
    pub attn_k: Option<PackedTensorEntry>,
    pub attn_v: Option<PackedTensorEntry>,
    pub attn_output: Option<PackedTensorEntry>,
    pub attn_norm: Option<PackedTensorEntry>,
    pub attn_q_norm: Option<PackedTensorEntry>,
    pub attn_k_norm: Option<PackedTensorEntry>,
    pub ffn_up: Option<PackedTensorEntry>,
    pub ffn_down: Option<PackedTensorEntry>,
    pub ffn_gate: Option<PackedTensorEntry>,
    pub ffn_norm: Option<PackedTensorEntry>,
    pub proj: Option<PackedTensorEntry>,
    pub inp_gate: Option<PackedTensorEntry>,
    pub post_attention_norm: Option<PackedTensorEntry>,
    pub post_ffw_norm: Option<PackedTensorEntry>,
    pub post_norm: Option<PackedTensorEntry>,
    pub layer_output_scale: Option<PackedTensorEntry>,
    pub unknown: Vec<PackedTensorEntry>,
}

/// What a [`LayerOperatorView`] holds, as mathematical values.
#[verifier::ext_equal]
pub struct LayerOperatorViewModel {
    pub layer_index: u32,
    pub attn_q: Option<PackedTensorEntryModel>,
    pub attn_k: Option<PackedTensorEntryModel>,
    pub attn_v: Option<PackedTensorEntryModel>,
    pub attn_output: Option<PackedTensorEntryModel>,
    pub attn_norm: Option<PackedTensorEntryModel>,
    pub attn_q_norm: Option<PackedTensorEntryModel>,
    pub attn_k_norm: Option<PackedTensorEntryModel>,
    pub ffn_up: Option<PackedTensorEntryModel>,
    pub ffn_down: Option<PackedTensorEntryModel>,
    pub ffn_gate: Option<PackedTensorEntryModel>,
    pub ffn_norm: Option<PackedTensorEntryModel>,
    pub proj: Option<PackedTensorEntryModel>,
    pub inp_gate: Option<PackedTensorEntryModel>,
    pub post_attention_norm: Option<PackedTensorEntryModel>,
    pub post_ffw_norm: Option<PackedTensorEntryModel>,
    pub post_norm: Option<PackedTensorEntryModel>,
    pub layer_output_scale: Option<PackedTensorEntryModel>,
    pub unknown: Seq<PackedTensorEntryModel>,
}

impl View for LayerOperatorView {
    type V = LayerOperatorViewModel;

    open spec fn view(&self) -> LayerOperatorViewModel {
        LayerOperatorViewModel {
            layer_index: self.layer_index,
            attn_q: crate::model::opt(self.attn_q),
            attn_k: crate::model::opt(self.attn_k),
            attn_v: crate::model::opt(self.attn_v),
            attn_output: crate::model::opt(self.attn_output),
            attn_norm: crate::model::opt(self.attn_norm),
            attn_q_norm: crate::model::opt(self.attn_q_norm),
            attn_k_norm: crate::model::opt(self.attn_k_norm),
            ffn_up: crate::model::opt(self.ffn_up),
            ffn_down: crate::model::opt(self.ffn_down),
            ffn_gate: crate::model::opt(self.ffn_gate),
            ffn_norm: crate::model::opt(self.ffn_norm),
            proj: crate::model::opt(self.proj),
            inp_gate: crate::model::opt(self.inp_gate),
            post_attention_norm: crate::model::opt(self.post_attention_norm),
            post_ffw_norm: crate::model::opt(self.post_ffw_norm),
            post_norm: crate::model::opt(self.post_norm),
            layer_output_scale: crate::model::opt(self.layer_output_scale),
            unknown: crate::model::views(self.unknown@),
        }
    }
}

impl Clone for LayerOperatorView {
    fn clone(&self) -> (r: Self)
        ensures
            r@ == self@,
    {
        LayerOperatorView {
            layer_index: self.layer_index,
            attn_q: self.attn_q.clone(),
            attn_k: self.attn_k.clone(),
            attn_v: self.attn_v.clone(),
            attn_output: self.attn_output.clone(),
            attn_norm: self.attn_norm.clone(),
            attn_q_norm: self.attn_q_norm.clone(),
            attn_k_norm: self.attn_k_norm.clone(),
            ffn_up: self.ffn_up.clone(),
            ffn_down: self.ffn_down.clone(),
            ffn_gate: self.ffn_gate.clone(),
            ffn_norm: self.ffn_norm.clone(),
            proj: self.proj.clone(),
            inp_gate: self.inp_gate.clone(),
            post_attention_norm: self.post_attention_norm.clone(),
            post_ffw_norm: self.post_ffw_norm.clone(),
            post_norm: self.post_norm.clone(),
            layer_output_scale: self.layer_output_scale.clone(),
            unknown: clone_entries(&self.unknown),
        }
    }
}

/// What the tensors of a layer make possible.
#[derive(Debug, Clone, Copy, PartialEq, Eq, Structural)]
pub struct LayerExecutionSpec {
    pub layer_index: u32,
    pub hidden_dim: Option<u64>,
    pub q_out_dim: Option<u64>,
    pub k_out_dim: Option<u64>,
    pub v_out_dim: Option<u64>,
    pub ffn_inner_dim: Option<u64>,
    pub has_attention_core: bool,
    pub has_attention_norms: bool,
    pub has_ffn_core: bool,
    pub has_post_norms: bool,
    pub has_projection_path: bool,
    pub unknown_tensor_count: usize,
    pub runnable_sketch: bool,
}

/// What an [`ExecutionOp`] holds, as mathematical values.
#[verifier::ext_equal]
pub struct ExecutionOpModel {
    pub kind: ExecutionOpKind,
    pub tensor_names: Seq<Seq<char>>,
    pub binding: ExecutionBinding,
    pub binding_reason: Seq<char>,
    pub promises: Seq<ExecutionAttentionResumeContract>,
}

impl View for ExecutionOp {
    type V = ExecutionOpModel;

    open spec fn view(&self) -> ExecutionOpModel {
        ExecutionOpModel {
            kind: self.kind,
            tensor_names: crate::model::texts(self.tensor_names@),
            binding: self.binding,
            binding_reason: self.binding_reason@,
            promises: self.resume_contract.attention@,
        }
    }
}

/// What a [`LayerExecutionProgram`] holds, as mathematical values.
#[verifier::ext_equal]
pub struct LayerExecutionProgramModel {
    pub layer_index: u32,
    pub hidden_dim: Option<u64>,
    pub q_out_dim: Option<u64>,
    pub k_out_dim: Option<u64>,
    pub v_out_dim: Option<u64>,
    pub ffn_inner_dim: Option<u64>,
    pub runnable_sketch: bool,
    pub ops: Seq<ExecutionOpModel>,
}

impl View for LayerExecutionProgram {
    type V = LayerExecutionProgramModel;

    open spec fn view(&self) -> LayerExecutionProgramModel {
        LayerExecutionProgramModel {
            layer_index: self.layer_index,
            hidden_dim: self.hidden_dim,
            q_out_dim: self.q_out_dim,
            k_out_dim: self.k_out_dim,
            v_out_dim: self.v_out_dim,
            ffn_inner_dim: self.ffn_inner_dim,
            runnable_sketch: self.runnable_sketch,
            ops: crate::model::views(self.ops@),
        }
    }
}

/// The model as a stage sees it.
#[derive(Debug, PartialEq, Eq)]
pub struct StageModelView {
    pub role: String,
    pub prompt_ingress: Vec<PackedTensorEntry>,
    pub positional: Vec<PackedTensorEntry>,
    pub shared_auxiliary: Vec<PackedTensorEntry>,
    pub layers: Vec<StageLayerView>,
    pub operator_layers: Vec<LayerOperatorView>,
    pub execution_layers: Vec<LayerExecutionSpec>,
    pub execution_programs: Vec<LayerExecutionProgram>,
    pub tail_only: Vec<PackedTensorEntry>,
}

/// What a [`StageModelView`] holds, as mathematical values.
#[verifier::ext_equal]
pub struct StageModelViewModel {
    pub role: Seq<char>,
    pub prompt_ingress: Seq<PackedTensorEntryModel>,
    pub positional: Seq<PackedTensorEntryModel>,
    pub shared_auxiliary: Seq<PackedTensorEntryModel>,
    pub layers: Seq<StageLayerViewModel>,
    pub operator_layers: Seq<LayerOperatorViewModel>,
    pub execution_layers: Seq<LayerExecutionSpec>,
    pub execution_programs: Seq<LayerExecutionProgramModel>,
    pub tail_only: Seq<PackedTensorEntryModel>,
}

impl View for StageModelView {
    type V = StageModelViewModel;

    open spec fn view(&self) -> StageModelViewModel {
        StageModelViewModel {
            role: self.role@,
            prompt_ingress: crate::model::views(self.prompt_ingress@),
            positional: crate::model::views(self.positional@),
            shared_auxiliary: crate::model::views(self.shared_auxiliary@),
            layers: crate::model::views(self.layers@),
            operator_layers: crate::model::views(self.operator_layers@),
            execution_layers: self.execution_layers@,
            execution_programs: crate::model::views(self.execution_programs@),
            tail_only: crate::model::views(self.tail_only@),
        }
    }
}

/// What a packed tensor belongs to.
#[derive(Debug, Clone, Copy, PartialEq, Eq, Structural)]
pub enum PackedTensorClass {
    Layer(u32),
    PromptIngress,
    Positional,
    SharedAuxiliary,
    TailOnly,
    Unknown,
}

/// The value of a decimal digit.
pub open spec fn digit_value(ch: char) -> int {
    ch as int - '0' as int
}

/// Whether a character is a decimal digit.
pub open spec fn is_digit(ch: char) -> bool {
    '0' <= ch && ch <= '9'
}

/// The number that decimal digits stand for.
pub open spec fn number_value(digits: Seq<char>) -> int
    decreases digits.len(),
{
    if digits.len() == 0 {
        0
    } else {
        number_value(digits.drop_last()) * 10 + digit_value(digits.last())
    }
}

/// Whether each character is a decimal digit.
pub open spec fn all_digits(digits: Seq<char>) -> bool {
    forall|i: int| 0 <= i < digits.len() ==> is_digit(#[trigger] digits[i])
}

/// The 32-bit number that a text stands for: at least one decimal digit, with or without a plus
/// sign before the first.
pub open spec fn parsed_number(text: Seq<char>) -> Option<u32> {
    let digits = if text.len() > 0 && text[0] == '+' {
        text.drop_first()
    } else {
        text
    };
    if digits.len() > 0 && all_digits(digits) && number_value(digits) <= u32::MAX {
        Some(number_value(digits) as u32)
    } else {
        None
    }
}

/// The text up to its first full stop, or all of it.
pub open spec fn up_to_stop(text: Seq<char>) -> Seq<char>
    decreases text.len(),
{
    if text.len() == 0 || text[0] == '.' {
        Seq::empty()
    } else {
        seq![text[0]] + up_to_stop(text.drop_first())
    }
}

/// The layer that a tensor's name tells: the number between `blk.` and the next full stop.
pub open spec fn named_layer(name: Seq<char>) -> Option<u32> {
    if crate::text::starts_with(name, "blk."@) {
        parsed_number(up_to_stop(name.skip(4)))
    } else {
        None
    }
}

/// What a tensor with the given name belongs to.
pub open spec fn tensor_class(name: Seq<char>) -> PackedTensorClass {
    match named_layer(name) {
        Some(layer) => PackedTensorClass::Layer(layer),
        None => if name == "token_embd.weight"@ {
            PackedTensorClass::PromptIngress
        } else if name == "rope_freqs.weight"@ {
            PackedTensorClass::Positional
        } else if name == "per_layer_model_proj.weight"@ || name == "per_layer_proj_norm.weight"@
            || name == "per_layer_token_embd.weight"@ {
            PackedTensorClass::SharedAuxiliary
        } else if crate::text::starts_with(name, "output"@) {
            PackedTensorClass::TailOnly
        } else {
            PackedTensorClass::Unknown
        },
    }
}

proof fn lemma_number_grows(digits: Seq<char>, count: int)
    requires
        0 <= count <= digits.len(),
        all_digits(digits),
    ensures
        0 <= number_value(digits.take(count)) <= number_value(digits),
    decreases digits.len(),
{
    if count == digits.len() {
        assert(digits.take(count) =~= digits);
        if digits.len() > 0 {
            assert(is_digit(digits.last()));
            assert forall|i: int| 0 <= i < digits.drop_last().len() implies is_digit(
                #[trigger] digits.drop_last()[i],
            ) by {
                assert(digits[i] == digits.drop_last()[i]);
            }
            lemma_number_grows(digits.drop_last(), digits.len() - 1);
            assert(digits.drop_last().take(digits.len() - 1) =~= digits.drop_last());
        }
    } else {
        assert(digits.drop_last().take(count) =~= digits.take(count));
        assert(is_digit(digits.last()));
        assert forall|i: int| 0 <= i < digits.drop_last().len() implies is_digit(
            #[trigger] digits.drop_last()[i],
        ) by {
            assert(digits[i] == digits.drop_last()[i]);
        }
        lemma_number_grows(digits.drop_last(), count);
    }
}

/// The 32-bit number that characters stand for.
fn parse_number(text: &[char]) -> (r: Option<u32>)
    ensures
        r == parsed_number(text@),
{
    let start: usize = if text.len() > 0 && text[0] == '+' {
        1
    } else {
        0
    };
    let ghost digits = text@.skip(start as int);
    proof {
        if start == 1 {
            assert(digits =~= text@.drop_first());
        } else {
            assert(digits =~= text@);
        }
    }
    if start == text.len() {
        return None;
    }
    let mut value: u64 = 0;
    let mut index: usize = start;
    assert(digits.take(0) =~= Seq::empty());
    while index < text.len()
        invariant
            start <= index <= text@.len(),
            digits == text@.skip(start as int),
            digits.len() > 0,
            parsed_number(text@) == (if digits.len() > 0 && all_digits(digits) && number_value(
                digits,
            ) <= u32::MAX {
                Some(number_value(digits) as u32)
            } else {
                None
            }),
            forall|i: int| 0 <= i < index - start ==> is_digit(#[trigger] digits[i]),
            value == number_value(digits.take(index - start)),
            value <= u32::MAX,
        decreases text.len() - index,
    {
        let ch: char = text[index];
        proof {
            assert(digits[index - start] == ch);
            assert(digits.take(index - start + 1).drop_last() =~= digits.take(index - start));
            assert(digits.take(index - start + 1).last() == ch);
        }
        if ch < '0' || ch > '9' {
            assert(!is_digit(digits[index - start]));
            return None;
        }
        value = value * 10 + (ch as u64 - '0' as u64);
        if value > u32::MAX as u64 {
            proof {
                if all_digits(digits) {
                    lemma_number_grows(digits, index - start + 1);
                }
            }
            return None;
        }
        index += 1;
    }
    assert(digits.take(index - start) =~= digits);
    Some(value as u32)
}

/// The characters up to the first full stop.
fn chars_up_to_stop(text: &[char], from: usize) -> (r: Vec<char>)
    requires
        from <= text@.len(),
    ensures
        r@ == up_to_stop(text@.skip(from as int)),
{
    let mut out: Vec<char> = Vec::new();
    let mut index: usize = from;
    assert(out@ + up_to_stop(text@.skip(index as int)) =~= up_to_stop(text@.skip(from as int)));
    while index < text.len()
        invariant
            from <= index <= text@.len(),
            out@ + up_to_stop(text@.skip(index as int)) == up_to_stop(text@.skip(from as int)),
        ensures
            out@ == up_to_stop(text@.skip(from as int)),
        decreases text.len() - index,
    {
        let ghost rest = text@.skip(index as int);
        if text[index] == '.' {
            assert(out@ + up_to_stop(rest) =~= out@);
            break;
        }
        let ghost before = out@;
        out.push(text[index]);
        proof {
            assert(rest.drop_first() =~= text@.skip(index + 1));
            assert(out@ + up_to_stop(text@.skip(index + 1)) =~= before + up_to_stop(rest));
        }
        index += 1;
        proof {
            if index == text@.len() {
                assert(text@.skip(index as int) =~= Seq::empty());
                assert(out@ + up_to_stop(text@.skip(index as int)) =~= out@);
            }
        }
    }
    proof {
        if index == text@.len() {
            assert(text@.skip(index as int) =~= Seq::empty());
            assert(out@ + Seq::<char>::empty() =~= out@);
        }
    }
    out
}

/// What a tensor with the given name belongs to.
pub fn classify_packed_tensor(name: &str) -> (r: PackedTensorClass)
    ensures
        r == tensor_class(name@),
{
    let chars = chars_of(name);
    proof {
        reveal_strlit("blk.");
    }
    if begins_with(&chars, "blk.") {
        let part = chars_up_to_stop(&chars, 4);
        if let Some(layer) = parse_number(&part) {
            return PackedTensorClass::Layer(layer);
        }
    }
    if same_text(name, "token_embd.weight") {
        PackedTensorClass::PromptIngress
    } else if same_text(name, "rope_freqs.weight") {
        PackedTensorClass::Positional
    } else if same_text(name, "per_layer_model_proj.weight") || same_text(
        name,
        "per_layer_proj_norm.weight",
    ) || same_text(name, "per_layer_token_embd.weight") {
        PackedTensorClass::SharedAuxiliary
    } else if begins_with(&chars, "output") {
        PackedTensorClass::TailOnly
    } else {
        PackedTensorClass::Unknown
    }
}

/// What a layer's tensor is for.
#[derive(Debug, Clone, Copy, PartialEq, Eq, Structural)]
pub enum LayerTensorUse {
    AttnQ,
    AttnK,
    AttnV,
    AttnOutput,
    AttnNorm,
    AttnQNorm,
    AttnKNorm,
    FfnUp,
    FfnDown,
    FfnGate,
    FfnNorm,
    Proj,
    InpGate,
    PostAttentionNorm,
    PostFfwNorm,
    PostNorm,
    LayerOutputScale,
    Unknown,
}

/// What a layer's tensor with the given name is for: the first rule that fits.
pub open spec fn tensor_use(name: Seq<char>) -> LayerTensorUse {
    if crate::text::contains(name, ".attn_q.weight"@) {
        LayerTensorUse::AttnQ
    } else if crate::text::contains(name, ".attn_k.weight"@) {
        LayerTensorUse::AttnK
    } else if crate::text::contains(name, ".attn_v.weight"@) {
        LayerTensorUse::AttnV
    } else if crate::text::contains(name, ".attn_output.weight"@) {
        LayerTensorUse::AttnOutput
    } else if crate::text::contains(name, ".attn_norm.weight"@) {
        LayerTensorUse::AttnNorm
    } else if crate::text::contains(name, ".attn_q_norm.weight"@) {
        LayerTensorUse::AttnQNorm
    } else if crate::text::contains(name, ".attn_k_norm.weight"@) {
        LayerTensorUse::AttnKNorm
    } else if crate::text::contains(name, ".ffn_up.weight"@) {
        LayerTensorUse::FfnUp
    } else if crate::text::contains(name, ".ffn_down.weight"@) {
        LayerTensorUse::FfnDown
    } else if crate::text::contains(name, ".ffn_gate.weight"@) {
        LayerTensorUse::FfnGate
    } else if crate::text::contains(name, ".ffn_norm.weight"@) {
        LayerTensorUse::FfnNorm
    } else if crate::text::contains(name, ".proj.weight"@) {
        LayerTensorUse::Proj
    } else if crate::text::contains(name, ".inp_gate.weight"@) {
        LayerTensorUse::InpGate
    } else if crate::text::contains(name, ".post_attention_norm.weight"@) {
        LayerTensorUse::PostAttentionNorm
    } else if crate::text::contains(name, ".post_ffw_norm.weight"@) {
        LayerTensorUse::PostFfwNorm
    } else if crate::text::contains(name, ".post_norm.weight"@) {
        LayerTensorUse::PostNorm
    } else if crate::text::contains(name, ".layer_output_scale.weight"@) {
        LayerTensorUse::LayerOutputScale
    } else {
        LayerTensorUse::Unknown
    }
}

/// What a layer's tensor with the given name is for.
pub fn classify_layer_tensor(name: &str) -> (r: LayerTensorUse)
    ensures
        r == tensor_use(name@),
{
    let chars = chars_of(name);
    if has_chars(&chars, ".attn_q.weight") {
        LayerTensorUse::AttnQ
    } else if has_chars(&chars, ".attn_k.weight") {
        LayerTensorUse::AttnK
    } else if has_chars(&chars, ".attn_v.weight") {
        LayerTensorUse::AttnV
    } else if has_chars(&chars, ".attn_output.weight") {
        LayerTensorUse::AttnOutput
    } else if has_chars(&chars, ".attn_norm.weight") {
        LayerTensorUse::AttnNorm
    } else if has_chars(&chars, ".attn_q_norm.weight") {
        LayerTensorUse::AttnQNorm
    } else if has_chars(&chars, ".attn_k_norm.weight") {
        LayerTensorUse::AttnKNorm
    } else if has_chars(&chars, ".ffn_up.weight") {
        LayerTensorUse::FfnUp
    } else if has_chars(&chars, ".ffn_down.weight") {
        LayerTensorUse::FfnDown
    } else if has_chars(&chars, ".ffn_gate.weight") {
        LayerTensorUse::FfnGate
    } else if has_chars(&chars, ".ffn_norm.weight") {
        LayerTensorUse::FfnNorm
    } else if has_chars(&chars, ".proj.weight") {
        LayerTensorUse::Proj
    } else if has_chars(&chars, ".inp_gate.weight") {
        LayerTensorUse::InpGate
    } else if has_chars(&chars, ".post_attention_norm.weight") {
        LayerTensorUse::PostAttentionNorm
    } else if has_chars(&chars, ".post_ffw_norm.weight") {
        LayerTensorUse::PostFfwNorm
    } else if has_chars(&chars, ".post_norm.weight") {
        LayerTensorUse::PostNorm
    } else if has_chars(&chars, ".layer_output_scale.weight") {
        LayerTensorUse::LayerOutputScale
    } else {
        LayerTensorUse::Unknown
    }
}

/// The last tensor that is for `purpose`.
pub open spec fn last_for(
    tensors: Seq<PackedTensorEntryModel>,
    purpose: LayerTensorUse,
) -> Option<PackedTensorEntryModel>
    decreases tensors.len(),
{
    if tensors.len() == 0 {
        None
    } else if tensor_use(tensors.last().name) == purpose {
        Some(tensors.last())
    } else {
        last_for(tensors.drop_last(), purpose)
    }
}

/// The tensors that are for nothing known, in order.
pub open spec fn unknown_tensors(tensors: Seq<PackedTensorEntryModel>) -> Seq<
    PackedTensorEntryModel,
>
    decreases tensors.len(),
{
    if tensors.len() == 0 {
        Seq::empty()
    } else if tensor_use(tensors.last().name) == LayerTensorUse::Unknown {
        unknown_tensors(tensors.drop_last()).push(tensors.last())
    } else {
        unknown_tensors(tensors.drop_last())
    }
}

impl LayerOperatorViewModel {
    /// The tensors of a layer by what they are for; where several are for the same, the last.
    pub open spec fn of_tensors(layer_index: u32, tensors: Seq<PackedTensorEntryModel>) -> Self {
        LayerOperatorViewModel {
            layer_index,
            attn_q: last_for(tensors, LayerTensorUse::AttnQ),
            attn_k: last_for(tensors, LayerTensorUse::AttnK),
            attn_v: last_for(tensors, LayerTensorUse::AttnV),
            attn_output: last_for(tensors, LayerTensorUse::AttnOutput),
            attn_norm: last_for(tensors, LayerTensorUse::AttnNorm),
            attn_q_norm: last_for(tensors, LayerTensorUse::AttnQNorm),
            attn_k_norm: last_for(tensors, LayerTensorUse::AttnKNorm),
            ffn_up: last_for(tensors, LayerTensorUse::FfnUp),
            ffn_down: last_for(tensors, LayerTensorUse::FfnDown),
            ffn_gate: last_for(tensors, LayerTensorUse::FfnGate),
            ffn_norm: last_for(tensors, LayerTensorUse::FfnNorm),
            proj: last_for(tensors, LayerTensorUse::Proj),
            inp_gate: last_for(tensors, LayerTensorUse::InpGate),
            post_attention_norm: last_for(tensors, LayerTensorUse::PostAttentionNorm),
            post_ffw_norm: last_for(tensors, LayerTensorUse::PostFfwNorm),
            post_norm: last_for(tensors, LayerTensorUse::PostNorm),
            layer_output_scale: last_for(tensors, LayerTensorUse::LayerOutputScale),
            unknown: unknown_tensors(tensors),
        }
    }
}

impl Default for LayerOperatorView {
    fn default() -> (r: Self)
        ensures
            r@ == LayerOperatorViewModel::of_tensors(0, Seq::empty()),
    {
        LayerOperatorView {
            layer_index: 0,
            attn_q: None,
            attn_k: None,
            attn_v: None,
            attn_output: None,
            attn_norm: None,
            attn_q_norm: None,
            attn_k_norm: None,
            ffn_up: None,
            ffn_down: None,
            ffn_gate: None,
            ffn_norm: None,
            proj: None,
            inp_gate: None,
            post_attention_norm: None,
            post_ffw_norm: None,
            post_norm: None,
            layer_output_scale: None,
            unknown: Vec::new(),
        }
    }
}

/// The tensors of a layer by what they are for.
pub fn build_operator_view(layer: &StageLayerView) -> (r: LayerOperatorView)
    ensures
        r@ == LayerOperatorViewModel::of_tensors(layer.layer_index, layer@.tensors),
{
    let ghost models = layer@.tensors;
    let mut view = LayerOperatorView::default();
    view.layer_index = layer.layer_index;
    let mut index: usize = 0;
    assert(models.take(0) =~= Seq::empty());
    while index < layer.tensors.len()
        invariant
            index <= models.len(),
            models == crate::model::views(layer.tensors@),
            view@ == LayerOperatorViewModel::of_tensors(
                layer.layer_index,
                models.take(index as int),
            ),
        decreases layer.tensors.len() - index,
    {
        let entry = &layer.tensors[index];
        proof {
            assert(models.take(index + 1).last() == entry@);
            assert(models.take(index + 1).drop_last() =~= models.take(index as int));
        }
        let ghost unknown = view.unknown@;
        match classify_layer_tensor(entry.name.as_str()) {
            LayerTensorUse::AttnQ => {
                view.attn_q = Some(entry.clone());
            },
            LayerTensorUse::AttnK => {
                view.attn_k = Some(entry.clone());
            },
            LayerTensorUse::AttnV => {
                view.attn_v = Some(entry.clone());
            },
            LayerTensorUse::AttnOutput => {
                view.attn_output = Some(entry.clone());
            },
            LayerTensorUse::AttnNorm => {
                view.attn_norm = Some(entry.clone());
            },
            LayerTensorUse::AttnQNorm => {
                view.attn_q_norm = Some(entry.clone());
            },
            LayerTensorUse::AttnKNorm => {
                view.attn_k_norm = Some(entry.clone());
            },
            LayerTensorUse::FfnUp => {
                view.ffn_up = Some(entry.clone());
            },
            LayerTensorUse::FfnDown => {
                view.ffn_down = Some(entry.clone());
            },
            LayerTensorUse::FfnGate => {
                view.ffn_gate = Some(entry.clone());
            },
            LayerTensorUse::FfnNorm => {
                view.ffn_norm = Some(entry.clone());
            },
            LayerTensorUse::Proj => {
                view.proj = Some(entry.clone());
            },
            LayerTensorUse::InpGate => {
                view.inp_gate = Some(entry.clone());
            },
            LayerTensorUse::PostAttentionNorm => {
                view.post_attention_norm = Some(entry.clone());
            },
            LayerTensorUse::PostFfwNorm => {
                view.post_ffw_norm = Some(entry.clone());
            },
            LayerTensorUse::PostNorm => {
                view.post_norm = Some(entry.clone());
            },
            LayerTensorUse::LayerOutputScale => {
                view.layer_output_scale = Some(entry.clone());
            },
            LayerTensorUse::Unknown => {
                view.unknown.push(entry.clone());
                assert(crate::model::views(view.unknown@) =~= crate::model::views(unknown).push(
                    entry@,
                ));
            },
        }
        index += 1;
    }
    assert(models.take(index as int) =~= models);
    view
}

/// The dimension at `index` of an optional tensor.
pub open spec fn dimension(entry: Option<PackedTensorEntryModel>, index: int) -> Option<u64> {
    match entry {
        Some(entry) if 0 <= index < entry.dimensions.len() => Some(entry.dimensions[index]),
        _ => None,
    }
}

/// The output dimension of a weight: its first.
pub fn weight_out_dim(entry: &Option<PackedTensorEntry>) -> (r: Option<u64>)
    ensures
        r == dimension(crate::model::opt(*entry), 0),
{
    match entry {
        Some(entry) => if entry.dimensions.len() > 0 {
            Some(entry.dimensions[0])
        } else {
            None
        },
        None => None,
    }
}

/// The input dimension of a weight: its second.
pub fn weight_in_dim(entry: &Option<PackedTensorEntry>) -> (r: Option<u64>)
    ensures
        r == dimension(crate::model::opt(*entry), 1),
{
    match entry {
        Some(entry) => if entry.dimensions.len() > 1 {
            Some(entry.dimensions[1])
        } else {
            None
        },
        None => None,
    }
}

/// The dimension of a norm: its first.
pub fn norm_dim(entry: &Option<PackedTensorEntry>) -> (r: Option<u64>)
    ensures
        r == dimension(crate::model::opt(*entry), 0),
{
    weight_out_dim(entry)
}

/// The first of three dimensions that is known.
pub open spec fn first_of_three(a: Option<u64>, b: Option<u64>, c: Option<u64>) -> Option<u64> {
    if a is Some {
        a
    } else if b is Some {
        b
    } else {
        c
    }
}

fn choose_first(a: Option<u64>, b: Option<u64>, c: Option<u64>) -> (r: Option<u64>)
    ensures
        r == first_of_three(a, b, c),
{
    if a.is_some() {
        a
    } else if b.is_some() {
        b
    } else {
        c
    }
}

impl LayerExecutionSpec {
    /// What the tensors of a layer make possible. The layer can be run where it has all of the
    /// attention, feed-forward and projection tensors and all of its dimensions are known.
    pub open spec fn of_layer(layer: LayerOperatorViewModel) -> Self {
        let has_attention_core = layer.attn_q is Some && layer.attn_k is Some && layer.attn_v is Some
            && layer.attn_output is Some;
        let has_ffn_core = layer.ffn_up is Some && layer.ffn_down is Some && layer.ffn_gate is Some;
        let has_projection_path = layer.proj is Some && layer.inp_gate is Some;
        let hidden_dim = first_of_three(
            dimension(layer.attn_q, 1),
            dimension(layer.attn_norm, 0),
            dimension(layer.ffn_up, 1),
        );
        let q_out_dim = dimension(layer.attn_q, 0);
        let k_out_dim = dimension(layer.attn_k, 0);
        let v_out_dim = dimension(layer.attn_v, 0);
        let ffn_inner_dim = first_of_three(
            dimension(layer.ffn_up, 0),
            dimension(layer.ffn_gate, 0),
            dimension(layer.ffn_down, 1),
        );
        LayerExecutionSpec {
            layer_index: layer.layer_index,
            hidden_dim,
            q_out_dim,
            k_out_dim,
            v_out_dim,
            ffn_inner_dim,
            has_attention_core,
            has_attention_norms: layer.attn_norm is Some && layer.attn_q_norm is Some
                && layer.attn_k_norm is Some,
            has_ffn_core,
            has_post_norms: layer.post_attention_norm is Some && layer.post_ffw_norm is Some
                && layer.post_norm is Some && layer.ffn_norm is Some,
            has_projection_path,
            unknown_tensor_count: layer.unknown.len() as usize,
            runnable_sketch: has_attention_core && has_ffn_core && has_projection_path
                && hidden_dim is Some && q_out_dim is Some && k_out_dim is Some && v_out_dim is Some
                && ffn_inner_dim is Some,
        }
    }
}

/// What the tensors of a layer make possible.
pub fn build_execution_spec(layer: &LayerOperatorView) -> (r: LayerExecutionSpec)
    ensures
        r == LayerExecutionSpec::of_layer(layer@),
{
    let has_attention_core = layer.attn_q.is_some() && layer.attn_k.is_some()
        && layer.attn_v.is_some() && layer.attn_output.is_some();
    let has_attention_norms = layer.attn_norm.is_some() && layer.attn_q_norm.is_some()
        && layer.attn_k_norm.is_some();
    let has_ffn_core = layer.ffn_up.is_some() && layer.ffn_down.is_some()
        && layer.ffn_gate.is_some();
    let has_post_norms = layer.post_attention_norm.is_some() && layer.post_ffw_norm.is_some()
        && layer.post_norm.is_some() && layer.ffn_norm.is_some();
    let has_projection_path = layer.proj.is_some() && layer.inp_gate.is_some();
    let hidden_dim = choose_first(
        weight_in_dim(&layer.attn_q),
        norm_dim(&layer.attn_norm),
        weight_in_dim(&layer.ffn_up),
    );
    let q_out_dim = weight_out_dim(&layer.attn_q);
    let k_out_dim = weight_out_dim(&layer.attn_k);
    let v_out_dim = weight_out_dim(&layer.attn_v);
    let ffn_inner_dim = choose_first(
        weight_out_dim(&layer.ffn_up),
        weight_out_dim(&layer.ffn_gate),
        weight_in_dim(&layer.ffn_down),
    );
    let runnable_sketch = has_attention_core && has_ffn_core && has_projection_path
        && hidden_dim.is_some() && q_out_dim.is_some() && k_out_dim.is_some()
        && v_out_dim.is_some() && ffn_inner_dim.is_some();
    LayerExecutionSpec {
        layer_index: layer.layer_index,
        hidden_dim,
        q_out_dim,
        k_out_dim,
        v_out_dim,
        ffn_inner_dim,
        has_attention_core,
        has_attention_norms,
        has_ffn_core,
        has_post_norms,
        has_projection_path,
        unknown_tensor_count: layer.unknown.len(),
        runnable_sketch,
    }
}

/// The names of tensors, in order.
pub fn named_entries(entries: &[&PackedTensorEntry]) -> (r: Vec<String>)
    ensures
        crate::model::texts(r@) == crate::packed::names_of(crate::model::views(entries@)),
{
    let ghost models = crate::model::views(entries@);
    let mut names: Vec<String> = Vec::new();
    let mut index: usize = 0;
    while index < entries.len()
        invariant
            index <= entries@.len(),
            models == crate::model::views(entries@),
            names@.len() == index,
            crate::model::texts(names@) == crate::packed::names_of(models.take(index as int)),
        decreases entries.len() - index,
    {
        let ghost before = names@;
        names.push(entries[index].name.clone());
        index += 1;
        proof {
            assert(crate::model::texts(names@) =~= crate::model::texts(before).push(
                models[index - 1].name,
            ));
            assert(crate::model::texts(names@) =~= crate::packed::names_of(
                models.take(index as int),
            ));
        }
    }
    assert(models.take(index as int) =~= models);
    names
}

/// Whether a tensor holds plain single-precision numbers in the given number of dimensions.
pub open spec fn is_plain(entry: PackedTensorEntryModel, dimensions: nat) -> bool {
    entry.ggml_type == 0 && entry.dimensions.len() == dimensions && entry.byte_len % 4 == 0
}

/// How tensors are stored, and why that is said of them.
pub open spec fn binding_of(entries: Seq<PackedTensorEntryModel>) -> (ExecutionBinding, Seq<char>) {
    let quantized = exists|i: int| 0 <= i < entries.len() && (#[trigger] entries[i]).ggml_type != 0;
    let matrix = exists|i: int|
        0 <= i < entries.len() && (#[trigger] entries[i]).dimensions.len() >= 2;
    if entries.len() == 0 {
        (ExecutionBinding::Unsupported, "no tensors"@)
    } else if forall|i: int| 0 <= i < entries.len() ==> is_plain(#[trigger] entries[i], 1) {
        (ExecutionBinding::F32Vector, "plain f32 vector tensors"@)
    } else if forall|i: int| 0 <= i < entries.len() ==> is_plain(#[trigger] entries[i], 2) {
        (ExecutionBinding::F32Matrix, "plain f32 matrix tensors"@)
    } else if quantized && matrix {
        (ExecutionBinding::QuantizedMatrix, "quantized matrix tensors"@)
    } else if quantized {
        (ExecutionBinding::Mixed, "non-f32 non-matrix tensors"@)
    } else if matrix {
        (ExecutionBinding::Mixed, "matrix tensors without numeric binding"@)
    } else {
        (ExecutionBinding::Unsupported, "unsupported tensor shape/type"@)
    }
}

/// How tensors are stored, and why that is said of them.
pub fn classify_binding(entries: &[&PackedTensorEntry]) -> (r: (ExecutionBinding, &'static str))
    ensures
        r.0 == binding_of(crate::model::views(entries@)).0,
        r.1@ == binding_of(crate::model::views(entries@)).1,
{
    let ghost models = crate::model::views(entries@);
    if entries.len() == 0 {
        return (ExecutionBinding::Unsupported, "no tensors");
    }
    let mut all_vectors = true;
    let mut all_matrices = true;
    let mut any_quantized = false;
    let mut any_matrix = false;
    let mut index: usize = 0;
    while index < entries.len()
        invariant
            index <= entries@.len(),
            models == crate::model::views(entries@),
            all_vectors == forall|i: int| 0 <= i < index ==> is_plain(#[trigger] models[i], 1),
            all_matrices == forall|i: int| 0 <= i < index ==> is_plain(#[trigger] models[i], 2),
            any_quantized == exists|i: int|
                0 <= i < index && (#[trigger] models[i]).ggml_type != 0,
            any_matrix == exists|i: int|
                0 <= i < index && (#[trigger] models[i]).dimensions.len() >= 2,
        decreases entries.len() - index,
    {
        let entry = entries[index];
        assert(models[index as int] == entry@);
        let plain = entry.ggml_type == 0 && entry.byte_len % 4 == 0;
        if !(plain && entry.dimensions.len() == 1) {
            assert(!is_plain(models[index as int], 1));
            all_vectors = false;
        }
        if !(plain && entry.dimensions.len() == 2) {
            assert(!is_plain(models[index as int], 2));
            all_matrices = false;
        }
        if entry.ggml_type != 0 {
            any_quantized = true;
        }
        if entry.dimensions.len() >= 2 {
            any_matrix = true;
        }
        index += 1;
    }
    if all_vectors {
        return (ExecutionBinding::F32Vector, "plain f32 vector tensors");
    }
    if all_matrices {
        return (ExecutionBinding::F32Matrix, "plain f32 matrix tensors");
    }
    if any_quantized && any_matrix {
        (ExecutionBinding::QuantizedMatrix, "quantized matrix tensors")
    } else if any_quantized {
        (ExecutionBinding::Mixed, "non-f32 non-matrix tensors")
    } else if any_matrix {
        (ExecutionBinding::Mixed, "matrix tensors without numeric binding")
    } else {
        (ExecutionBinding::Unsupported, "unsupported tensor shape/type")
    }
}

impl ExecutionOpModel {
    /// The operation of the given kind on the given tensors.
    pub open spec fn of_entries(kind: ExecutionOpKind, entries: Seq<PackedTensorEntryModel>) -> Self {
        ExecutionOpModel {
            kind,
            tensor_names: crate::packed::names_of(entries),
            binding: binding_of(entries).0,
            binding_reason: binding_of(entries).1,
            promises: kind.promises(),
        }
    }

    /// The operations of the given kind on the given tensors: one, or none where there is no
    /// tensor.
    pub open spec fn of_some(kind: ExecutionOpKind, entries: Seq<PackedTensorEntryModel>) -> Seq<Self> {
        if entries.len() == 0 {
            Seq::empty()
        } else {
            seq![Self::of_entries(kind, entries)]
        }
    }

    /// The operations of the given kind on a tensor: one, or none where there is no tensor or
    /// `wanted` does not hold.
    pub open spec fn of_one(
        wanted: bool,
        kind: ExecutionOpKind,
        entry: Option<PackedTensorEntryModel>,
    ) -> Seq<Self> {
        Self::of_some(
            kind,
            if wanted {
                present(entry)
            } else {
                Seq::empty()
            },
        )
    }
}

/// The tensor, where there is one.
pub open spec fn present(entry: Option<PackedTensorEntryModel>) -> Seq<PackedTensorEntryModel> {
    match entry {
        Some(entry) => seq![entry],
        None => Seq::empty(),
    }
}

impl LayerExecutionProgramModel {
    /// The tensors of a layer's attention norm: the norm with those of query and key, or none
    /// where the norm itself is missing.
    pub open spec fn norm_tensors(layer: LayerOperatorViewModel) -> Seq<PackedTensorEntryModel> {
        if layer.attn_norm is Some {
            present(layer.attn_norm) + present(layer.attn_q_norm) + present(layer.attn_k_norm)
        } else {
            Seq::empty()
        }
    }

    /// The operations of a layer's attention block.
    pub open spec fn attention_ops(layer: LayerOperatorViewModel, core: bool) -> Seq<
        ExecutionOpModel,
    > {
        ExecutionOpModel::of_some(ExecutionOpKind::AttentionNorm, Self::norm_tensors(layer))
            + ExecutionOpModel::of_one(core, ExecutionOpKind::AttentionQ, layer.attn_q)
            + ExecutionOpModel::of_one(core, ExecutionOpKind::AttentionK, layer.attn_k)
            + ExecutionOpModel::of_one(core, ExecutionOpKind::AttentionV, layer.attn_v)
            + ExecutionOpModel::of_one(core, ExecutionOpKind::AttentionOut, layer.attn_output)
            + ExecutionOpModel::of_one(
            true,
            ExecutionOpKind::PostAttentionNorm,
            layer.post_attention_norm,
        )
    }

    /// The operations of a layer's feed-forward block.
    pub open spec fn ffn_ops(layer: LayerOperatorViewModel, core: bool) -> Seq<ExecutionOpModel> {
        ExecutionOpModel::of_one(true, ExecutionOpKind::FfnNorm, layer.ffn_norm)
            + ExecutionOpModel::of_one(core, ExecutionOpKind::FfnGate, layer.ffn_gate)
            + ExecutionOpModel::of_one(core, ExecutionOpKind::FfnUp, layer.ffn_up)
            + ExecutionOpModel::of_one(core, ExecutionOpKind::FfnDown, layer.ffn_down)
            + ExecutionOpModel::of_some(
            ExecutionOpKind::PostFfnNorm,
            present(layer.post_ffw_norm) + present(layer.post_norm),
        )
    }

    /// The operations at the end of a layer.
    pub open spec fn closing_ops(layer: LayerOperatorViewModel, projection: bool) -> Seq<
        ExecutionOpModel,
    > {
        ExecutionOpModel::of_one(projection, ExecutionOpKind::InputGate, layer.inp_gate)
            + ExecutionOpModel::of_one(projection, ExecutionOpKind::Projection, layer.proj)
            + ExecutionOpModel::of_one(
            true,
            ExecutionOpKind::LayerOutputScale,
            layer.layer_output_scale,
        ) + ExecutionOpModel::of_some(ExecutionOpKind::Unknown, layer.unknown)
    }

    /// The program of a layer.
    pub open spec fn of_layer(layer: LayerOperatorViewModel, spec_of: LayerExecutionSpec) -> Self {
        LayerExecutionProgramModel {
            layer_index: layer.layer_index,
            hidden_dim: spec_of.hidden_dim,
            q_out_dim: spec_of.q_out_dim,
            k_out_dim: spec_of.k_out_dim,
            v_out_dim: spec_of.v_out_dim,
            ffn_inner_dim: spec_of.ffn_inner_dim,
            runnable_sketch: spec_of.runnable_sketch,
            ops: Self::attention_ops(layer, spec_of.has_attention_core) + Self::ffn_ops(
                layer,
                spec_of.has_ffn_core,
            ) + Self::closing_ops(layer, spec_of.has_projection_path),
        }
    }

    /// Whether some operation has the given kind.
    pub open spec fn has(self, kind: ExecutionOpKind) -> bool {
        exists|i: int| 0 <= i < self.ops.len() && (#[trigger] self.ops[i]).kind == kind
    }
}

fn push_op(ops: &mut Vec<ExecutionOp>, kind: ExecutionOpKind, entries: &[&PackedTensorEntry])
    ensures
        crate::model::views(final(ops)@) == crate::model::views(old(ops)@)
            + ExecutionOpModel::of_some(kind, crate::model::views(entries@)),
{
    if entries.len() > 0 {
        let (binding, binding_reason) = classify_binding(entries);
        let op = ExecutionOp::new(kind, named_entries(entries), binding, binding_reason);
        let ghost model = op@;
        ops.push(op);
        proof {
            assert(model =~= ExecutionOpModel::of_entries(kind, crate::model::views(entries@)));
            assert(crate::model::views(ops@) =~= crate::model::views(old(ops)@).push(model));
            assert(crate::model::views(ops@) =~= crate::model::views(old(ops)@)
                + ExecutionOpModel::of_some(kind, crate::model::views(entries@)));
        }
    } else {
        assert(crate::model::views(ops@) =~= crate::model::views(old(ops)@)
            + ExecutionOpModel::of_some(kind, crate::model::views(entries@)));
    }
}

fn push_present<'a>(entries: &mut Vec<&'a PackedTensorEntry>, entry: &'a Option<PackedTensorEntry>)
    ensures
        crate::model::views(final(entries)@) == crate::model::views(old(entries)@) + present(
            crate::model::opt(*entry),
        ),
{
    if let Some(entry) = entry {
        entries.push(entry);
    }
    assert(crate::model::views(entries@) =~= crate::model::views(old(entries)@) + present(
        crate::model::opt(*entry),
    ));
}

fn push_one(
    ops: &mut Vec<ExecutionOp>,
    wanted: bool,
    kind: ExecutionOpKind,
    entry: &Option<PackedTensorEntry>,
)
    ensures
        crate::model::views(final(ops)@) == crate::model::views(old(ops)@)
            + ExecutionOpModel::of_one(wanted, kind, crate::model::opt(*entry)),
{
    let mut entries: Vec<&PackedTensorEntry> = Vec::new();
    assert(crate::model::views(entries@) =~= Seq::empty());
    if wanted {
        push_present(&mut entries, entry);
        assert(crate::model::views(entries@) =~= present(crate::model::opt(*entry)));
    }
    push_op(ops, kind, &entries);
}

fn push_attention_ops(ops: &mut Vec<ExecutionOp>, layer: &LayerOperatorView, core: bool)
    requires
        old(ops)@.len() == 0,
    ensures
        crate::model::views(final(ops)@) == LayerExecutionProgramModel::attention_ops(layer@, core),
{
    let mut norms: Vec<&PackedTensorEntry> = Vec::new();
    if layer.attn_norm.is_some() {
        push_present(&mut norms, &layer.attn_norm);
        push_present(&mut norms, &layer.attn_q_norm);
        push_present(&mut norms, &layer.attn_k_norm);
    }
    assert(crate::model::views(norms@) =~= LayerExecutionProgramModel::norm_tensors(layer@));
    push_op(ops, ExecutionOpKind::AttentionNorm, &norms);
    push_one(ops, core, ExecutionOpKind::AttentionQ, &layer.attn_q);
    push_one(ops, core, ExecutionOpKind::AttentionK, &layer.attn_k);
    push_one(ops, core, ExecutionOpKind::AttentionV, &layer.attn_v);
    push_one(ops, core, ExecutionOpKind::AttentionOut, &layer.attn_output);
    push_one(ops, true, ExecutionOpKind::PostAttentionNorm, &layer.post_attention_norm);
    assert(crate::model::views(ops@) =~= LayerExecutionProgramModel::attention_ops(layer@, core));
}

fn push_ffn_ops(ops: &mut Vec<ExecutionOp>, layer: &LayerOperatorView, core: bool)
    ensures
        crate::model::views(final(ops)@) == crate::model::views(old(ops)@)
            + LayerExecutionProgramModel::ffn_ops(layer@, core),
{
    push_one(ops, true, ExecutionOpKind::FfnNorm, &layer.ffn_norm);
    push_one(ops, core, ExecutionOpKind::FfnGate, &layer.ffn_gate);
    push_one(ops, core, ExecutionOpKind::FfnUp, &layer.ffn_up);
    push_one(ops, core, ExecutionOpKind::FfnDown, &layer.ffn_down);
    let mut norms: Vec<&PackedTensorEntry> = Vec::new();
    push_present(&mut norms, &layer.post_ffw_norm);
    push_present(&mut norms, &layer.post_norm);
    assert(crate::model::views(norms@) =~= present(layer@.post_ffw_norm) + present(
        layer@.post_norm,
    ));
    push_op(ops, ExecutionOpKind::PostFfnNorm, &norms);
    assert(crate::model::views(ops@) =~= crate::model::views(old(ops)@)
        + LayerExecutionProgramModel::ffn_ops(layer@, core));
}

fn push_closing_ops(ops: &mut Vec<ExecutionOp>, layer: &LayerOperatorView, projection: bool)
    ensures
        crate::model::views(final(ops)@) == crate::model::views(old(ops)@)
            + LayerExecutionProgramModel::closing_ops(layer@, projection),
{
    push_one(ops, projection, ExecutionOpKind::InputGate, &layer.inp_gate);
    push_one(ops, projection, ExecutionOpKind::Projection, &layer.proj);
    push_one(ops, true, ExecutionOpKind::LayerOutputScale, &layer.layer_output_scale);
    let mut unknown: Vec<&PackedTensorEntry> = Vec::new();
    let mut index: usize = 0;
    while index < layer.unknown.len()
        invariant
            index <= layer.unknown@.len(),
            unknown@.len() == index,
            crate::model::views(unknown@) == layer@.unknown.take(index as int),
        decreases layer.unknown.len() - index,
    {
        let ghost before = unknown@;
        unknown.push(&layer.unknown[index]);
        index += 1;
        proof {
            assert(crate::model::views(unknown@) =~= crate::model::views(before).push(
                layer@.unknown[index - 1],
            ));
            assert(crate::model::views(unknown@) =~= layer@.unknown.take(index as int));
        }
    }
    assert(crate::model::views(unknown@) =~= layer@.unknown);
    push_op(ops, ExecutionOpKind::Unknown, &unknown);
    assert(crate::model::views(ops@) =~= crate::model::views(old(ops)@)
        + LayerExecutionProgramModel::closing_ops(layer@, projection));
}

/// The program of a layer.
pub fn build_execution_program(layer: &LayerOperatorView, spec_of: &LayerExecutionSpec) -> (r:
    LayerExecutionProgram)
    ensures
        r@ == LayerExecutionProgramModel::of_layer(layer@, *spec_of),
{
    let mut ops: Vec<ExecutionOp> = Vec::new();
    push_attention_ops(&mut ops, layer, spec_of.has_attention_core);
    push_ffn_ops(&mut ops, layer, spec_of.has_ffn_core);
    push_closing_ops(&mut ops, layer, spec_of.has_projection_path);
    LayerExecutionProgram {
        layer_index: layer.layer_index,
        hidden_dim: spec_of.hidden_dim,
        q_out_dim: spec_of.q_out_dim,
        k_out_dim: spec_of.k_out_dim,
        v_out_dim: spec_of.v_out_dim,
        ffn_inner_dim: spec_of.ffn_inner_dim,
        runnable_sketch: spec_of.runnable_sketch,
        ops,
    }
}

/// The group of a model view that a tensor with the given name stands in: a layer, or one of the
/// shared groups. A tensor of no known class joins the shared auxiliary ones.
pub open spec fn tensor_group(name: Seq<char>) -> PackedTensorClass {
    match tensor_class(name) {
        PackedTensorClass::Unknown => PackedTensorClass::SharedAuxiliary,
        class => class,
    }
}

/// The tensors of a group, in order.
pub open spec fn grouped(tensors: Seq<PackedTensorEntryModel>, group: PackedTensorClass) -> Seq<
    PackedTensorEntryModel,
>
    decreases tensors.len(),
{
    if tensors.len() == 0 {
        Seq::empty()
    } else if tensor_group(tensors.last().name) == group {
        grouped(tensors.drop_last(), group).push(tensors.last())
    } else {
        grouped(tensors.drop_last(), group)
    }
}

/// The layers that tensors belong to, ascending, each once.
pub open spec fn layer_numbers(tensors: Seq<PackedTensorEntryModel>) -> Seq<usize>
    decreases tensors.len(),
{
    if tensors.len() == 0 {
        Seq::empty()
    } else {
        match tensor_group(tensors.last().name) {
            PackedTensorClass::Layer(layer) => crate::lanes::insert_lane(
                layer_numbers(tensors.drop_last()),
                layer as usize,
            ),
            _ => layer_numbers(tensors.drop_last()),
        }
    }
}

impl StageLayerViewModel {
    /// The tensors of one layer.
    pub open spec fn of_layer(tensors: Seq<PackedTensorEntryModel>, layer: u32) -> Self {
        StageLayerViewModel {
            layer_index: layer,
            tensors: grouped(tensors, PackedTensorClass::Layer(layer)),
        }
    }

    /// The tensors of each layer, by ascending layer.
    pub open spec fn of_tensors(tensors: Seq<PackedTensorEntryModel>) -> Seq<Self> {
        layer_numbers(tensors).map_values(|layer: usize| Self::of_layer(tensors, layer as u32))
    }
}

impl StageModelViewModel {
    /// The model as a stage with the given tensors sees it.
    pub open spec fn of_tensors(role: Seq<char>, tensors: Seq<PackedTensorEntryModel>) -> Self {
        let layers = StageLayerViewModel::of_tensors(tensors);
        let operator_layers = layers.map_values(
            |layer: StageLayerViewModel|
                LayerOperatorViewModel::of_tensors(layer.layer_index, layer.tensors),
        );
        StageModelViewModel {
            role,
            prompt_ingress: grouped(tensors, PackedTensorClass::PromptIngress),
            positional: grouped(tensors, PackedTensorClass::Positional),
            shared_auxiliary: grouped(tensors, PackedTensorClass::SharedAuxiliary),
            layers,
            operator_layers,
            execution_layers: operator_layers.map_values(
                |layer: LayerOperatorViewModel| LayerExecutionSpec::of_layer(layer),
            ),
            execution_programs: operator_layers.map_values(
                |layer: LayerOperatorViewModel|
                    LayerExecutionProgramModel::of_layer(
                        layer,
                        LayerExecutionSpec::of_layer(layer),
                    ),
            ),
            tail_only: grouped(tensors, PackedTensorClass::TailOnly),
        }
    }
}

fn group_of(name: &str) -> (r: PackedTensorClass)
    ensures
        r == tensor_group(name@),
{
    match classify_packed_tensor(name) {
        PackedTensorClass::Unknown => PackedTensorClass::SharedAuxiliary,
        class => class,
    }
}

fn collect_group(tensors: &[PackedTensorEntry], group: PackedTensorClass) -> (r: Vec<
    PackedTensorEntry,
>)
    ensures
        crate::model::views(r@) == grouped(crate::model::views(tensors@), group),
{
    let ghost models = crate::model::views(tensors@);
    let mut out: Vec<PackedTensorEntry> = Vec::new();
    let mut index: usize = 0;
    assert(models.take(0) =~= Seq::empty());
    assert(crate::model::views(out@) =~= Seq::empty());
    while index < tensors.len()
        invariant
            index <= tensors@.len(),
            models == crate::model::views(tensors@),
            crate::model::views(out@) == grouped(models.take(index as int), group),
        decreases tensors.len() - index,
    {
        let entry = &tensors[index];
        proof {
            assert(models.take(index + 1).last() == entry@);
            assert(models.take(index + 1).drop_last() =~= models.take(index as int));
        }
        if group_of(entry.name.as_str()) == group {
            let ghost before = out@;
            out.push(entry.clone());
            assert(crate::model::views(out@) =~= crate::model::views(before).push(entry@));
        }
        index += 1;
    }
    assert(models.take(index as int) =~= models);
    out
}

fn collect_layers(tensors: &[PackedTensorEntry]) -> (r: Vec<usize>)
    ensures
        r@ == layer_numbers(crate::model::views(tensors@)),
{
    let ghost models = crate::model::views(tensors@);
    let mut out: Vec<usize> = Vec::new();
    let mut index: usize = 0;
    assert(models.take(0) =~= Seq::empty());
    while index < tensors.len()
        invariant
            index <= tensors@.len(),
            models == crate::model::views(tensors@),
            crate::lanes::ascending(out@),
            out@ == layer_numbers(models.take(index as int)),
        decreases tensors.len() - index,
    {
        let entry = &tensors[index];
        proof {
            assert(models.take(index + 1).last() == entry@);
            assert(models.take(index + 1).drop_last() =~= models.take(index as int));
        }
        if let PackedTensorClass::Layer(layer) = group_of(entry.name.as_str()) {
            put_lane(&mut out, layer as usize);
        }
        index += 1;
    }
    assert(models.take(index as int) =~= models);
    out
}

fn build_layers(tensors: &[PackedTensorEntry]) -> (r: Vec<StageLayerView>)
    ensures
        crate::model::views(r@) == StageLayerViewModel::of_tensors(crate::model::views(tensors@)),
{
    let ghost models = crate::model::views(tensors@);
    let numbers = collect_layers(tensors);
    proof {
        lemma_layer_numbers(models);
    }
    let mut layers: Vec<StageLayerView> = Vec::new();
    let mut index: usize = 0;
    while index < numbers.len()
        invariant
            index <= numbers@.len(),
            models == crate::model::views(tensors@),
            numbers@ == layer_numbers(models),
            forall|i: int| 0 <= i < numbers@.len() ==> #[trigger] numbers@[i] <= u32::MAX,
            layers@.len() == index,
            crate::model::views(layers@) == StageLayerViewModel::of_tensors(models).take(
                index as int,
            ),
        decreases numbers.len() - index,
    {
        let layer_index: u32 = numbers[index] as u32;
        let ghost before = layers@;
        layers.push(
            StageLayerView {
                layer_index,
                tensors: collect_group(tensors, PackedTensorClass::Layer(layer_index)),
            },
        );
        proof {
            assert(layers@[index as int]@ =~= StageLayerViewModel::of_tensors(models)[index as int]);
            assert(crate::model::views(layers@) =~= crate::model::views(before).push(
                layers@[index as int]@,
            ));
            assert(crate::model::views(layers@) =~= StageLayerViewModel::of_tensors(models).take(
                index + 1,
            ));
        }
        index += 1;
    }
    assert(crate::model::views(layers@) =~= StageLayerViewModel::of_tensors(models));
    layers
}

/// The layers that tensors belong to are listed in ascending order, each once, and a layer is
/// listed exactly where some tensor belongs to it.
pub proof fn lemma_layer_numbers(tensors: Seq<PackedTensorEntryModel>)
    ensures
        crate::lanes::ascending(layer_numbers(tensors)),
        forall|i: int|
            0 <= i < layer_numbers(tensors).len() ==> #[trigger] layer_numbers(tensors)[i]
                <= u32::MAX,
        forall|layer: u32| #[trigger]
            layer_numbers(tensors).contains(layer as usize) <==> exists|i: int|
                0 <= i < tensors.len() && tensor_group(#[trigger] tensors[i].name)
                    == PackedTensorClass::Layer(layer),
    decreases tensors.len(),
{
    if tensors.len() > 0 {
        let rest = tensors.drop_last();
        let numbers = layer_numbers(rest);
        let out = layer_numbers(tensors);
        lemma_layer_numbers(rest);
        assert forall|layer: u32| #[trigger] out.contains(layer as usize) <==> exists|i: int|
            0 <= i < tensors.len() && tensor_group(#[trigger] tensors[i].name)
                == PackedTensorClass::Layer(layer) by {
            if let PackedTensorClass::Layer(last) = tensor_group(tensors.last().name) {
                crate::lanes::lemma_insert_lane(numbers, last as usize);
            }
            if numbers.contains(layer as usize) {
                let i = choose|i: int|
                    0 <= i < rest.len() && tensor_group(#[trigger] rest[i].name)
                        == PackedTensorClass::Layer(layer);
                assert(tensors[i].name == rest[i].name);
            }
            if exists|i: int|
                0 <= i < tensors.len() && tensor_group(#[trigger] tensors[i].name)
                    == PackedTensorClass::Layer(layer) {
                let i = choose|i: int|
                    0 <= i < tensors.len() && tensor_group(#[trigger] tensors[i].name)
                        == PackedTensorClass::Layer(layer);
                if i < rest.len() {
                    assert(rest[i].name == tensors[i].name);
                }
            }
            assert(tensors[tensors.len() - 1].name == tensors.last().name);
        }
        if let PackedTensorClass::Layer(last) = tensor_group(tensors.last().name) {
            crate::lanes::lemma_insert_lane(numbers, last as usize);
            assert forall|i: int| 0 <= i < out.len() implies #[trigger] out[i] <= u32::MAX by {
                assert(out.contains(out[i]));
                if numbers.contains(out[i]) {
                    let j = choose|j: int| 0 <= j < numbers.len() && numbers[j] == out[i];
                    assert(numbers[j] <= u32::MAX);
                }
            }
        }
    }
}

/// No tensor is lost in a model view: each stands in its group.
pub proof fn lemma_every_tensor_is_placed(tensors: Seq<PackedTensorEntryModel>, index: int)
    requires
        0 <= index < tensors.len(),
    ensures
        grouped(tensors, tensor_group(tensors[index].name)).contains(tensors[index]),
        match tensor_group(tensors[index].name) {
            PackedTensorClass::Layer(layer) => StageLayerViewModel::of_tensors(tensors).contains(
                StageLayerViewModel::of_layer(tensors, layer),
            ),
            _ => true,
        },
    decreases tensors.len(),
{
    let group = tensor_group(tensors[index].name);
    let out = grouped(tensors, group);
    if index == tensors.len() - 1 {
        assert(out[out.len() - 1] == tensors[index]);
    } else {
        lemma_every_tensor_is_placed(tensors.drop_last(), index);
        let before = grouped(tensors.drop_last(), group);
        let j = choose|j: int| 0 <= j < before.len() && before[j] == tensors[index];
        assert(out[j] == tensors[index]);
    }
    if let PackedTensorClass::Layer(layer) = group {
        lemma_layer_numbers(tensors);
        assert(tensor_group(tensors[index].name) == PackedTensorClass::Layer(layer));
        let numbers = layer_numbers(tensors);
        assert(numbers.contains(layer as usize));
        let j = choose|j: int| 0 <= j < numbers.len() && numbers[j] == layer as usize;
        assert(StageLayerViewModel::of_tensors(tensors)[j] == StageLayerViewModel::of_layer(
            tensors,
            layer,
        ));
    }
}

proof fn lemma_joined_contains<T>(a: Seq<T>, b: Seq<T>, item: T)
    requires
        a.contains(item) || b.contains(item),
    ensures
        (a + b).contains(item),
{
    if a.contains(item) {
        let i = choose|i: int| 0 <= i < a.len() && a[i] == item;
        assert((a + b)[i] == item);
    } else {
        let i = choose|i: int| 0 <= i < b.len() && b[i] == item;
        assert((a + b)[a.len() + i] == item);
    }
}

proof fn lemma_program_has(program: LayerExecutionProgram, op: ExecutionOpModel)
    requires
        program@.ops.contains(op),
    ensures
        program.has(op.kind),
{
    let i = choose|i: int| 0 <= i < program@.ops.len() && program@.ops[i] == op;
    assert(program.ops@[i]@ == op);
    assert(program.ops@[i].kind == op.kind);
}

/// The program of a layer that can be run has every operation of the attention, feed-forward and
/// projection paths, so a request can be resumed there in each of these ways.
pub proof fn lemma_runnable_program_resumes_everything(
    layer: LayerOperatorViewModel,
    program: LayerExecutionProgram,
)
    requires
        program@ == LayerExecutionProgramModel::of_layer(
            layer,
            LayerExecutionSpec::of_layer(layer),
        ),
        program.runnable_sketch,
    ensures
        StageResumeCapabilities::of_program(program) == (StageResumeCapabilities {
            attention_path: true,
            attention_q: true,
            attention_k: true,
            attention_v: true,
            attention_projection: true,
            attention_mix: true,
            ffn_path: true,
            projection_path: true,
        }),
        program.runs_attention(),
        program.runs_ffn(),
{
    let norm = ExecutionOpModel::of_some(
        ExecutionOpKind::AttentionNorm,
        LayerExecutionProgramModel::norm_tensors(layer),
    );
    let q = ExecutionOpModel::of_one(true, ExecutionOpKind::AttentionQ, layer.attn_q);
    let k = ExecutionOpModel::of_one(true, ExecutionOpKind::AttentionK, layer.attn_k);
    let v = ExecutionOpModel::of_one(true, ExecutionOpKind::AttentionV, layer.attn_v);
    let o = ExecutionOpModel::of_one(true, ExecutionOpKind::AttentionOut, layer.attn_output);
    let post = ExecutionOpModel::of_one(
        true,
        ExecutionOpKind::PostAttentionNorm,
        layer.post_attention_norm,
    );
    let attention = LayerExecutionProgramModel::attention_ops(layer, true);
    let ffn_norm = ExecutionOpModel::of_one(true, ExecutionOpKind::FfnNorm, layer.ffn_norm);
    let gate = ExecutionOpModel::of_one(true, ExecutionOpKind::FfnGate, layer.ffn_gate);
    let up = ExecutionOpModel::of_one(true, ExecutionOpKind::FfnUp, layer.ffn_up);
    let down = ExecutionOpModel::of_one(true, ExecutionOpKind::FfnDown, layer.ffn_down);
    let ffn = LayerExecutionProgramModel::ffn_ops(layer, true);
    let input = ExecutionOpModel::of_one(true, ExecutionOpKind::InputGate, layer.inp_gate);
    let proj = ExecutionOpModel::of_one(true, ExecutionOpKind::Projection, layer.proj);
    let closing = LayerExecutionProgramModel::closing_ops(layer, true);
    let scale = ExecutionOpModel::of_one(
        true,
        ExecutionOpKind::LayerOutputScale,
        layer.layer_output_scale,
    );
    let post_ffn = ExecutionOpModel::of_some(
        ExecutionOpKind::PostFfnNorm,
        present(layer.post_ffw_norm) + present(layer.post_norm),
    );
    let unknown = ExecutionOpModel::of_some(ExecutionOpKind::Unknown, layer.unknown);
    assert(program@.ops == attention + ffn + closing);
    assert(q.contains(q[0]) && k.contains(k[0]) && v.contains(v[0]) && o.contains(o[0]));
    assert(gate.contains(gate[0]) && up.contains(up[0]) && down.contains(down[0]));
    assert(input.contains(input[0]) && proj.contains(proj[0]));
    lemma_joined_contains(norm, q, q[0]);
    lemma_joined_contains(norm + q, k, q[0]);
    lemma_joined_contains(norm + q, k, k[0]);
    lemma_joined_contains(norm + q + k, v, q[0]);
    lemma_joined_contains(norm + q + k, v, k[0]);
    lemma_joined_contains(norm + q + k, v, v[0]);
    let items = seq![q[0], k[0], v[0], o[0]];
    lemma_joined_contains(norm + q + k + v, o, o[0]);
    assert forall|i: int| 0 <= i < 4 implies program@.ops.contains(#[trigger] items[i]) by {
        if i < 3 {
            lemma_joined_contains(norm + q + k + v, o, items[i]);
        }
        lemma_joined_contains(norm + q + k + v + o, post, items[i]);
        lemma_joined_contains(attention, ffn, items[i]);
        lemma_joined_contains(attention + ffn, closing, items[i]);
    }
    lemma_joined_contains(ffn_norm, gate, gate[0]);
    lemma_joined_contains(ffn_norm + gate, up, gate[0]);
    lemma_joined_contains(ffn_norm + gate, up, up[0]);
    let inner = seq![gate[0], up[0], down[0]];
    assert forall|i: int| 0 <= i < 3 implies program@.ops.contains(#[trigger] inner[i]) by {
        lemma_joined_contains(ffn_norm + gate + up, down, inner[i]);
        lemma_joined_contains(ffn_norm + gate + up + down, post_ffn, inner[i]);
        lemma_joined_contains(attention, ffn, inner[i]);
        lemma_joined_contains(attention + ffn, closing, inner[i]);
    }
    let last = seq![input[0], proj[0]];
    assert forall|i: int| 0 <= i < 2 implies program@.ops.contains(#[trigger] last[i]) by {
        lemma_joined_contains(input, proj, last[i]);
        lemma_joined_contains(input + proj, scale, last[i]);
        lemma_joined_contains(input + proj + scale, unknown, last[i]);
        lemma_joined_contains(attention + ffn, closing, last[i]);
    }
    lemma_program_has(program, items[0]);
    lemma_program_has(program, items[1]);
    lemma_program_has(program, items[2]);
    lemma_program_has(program, items[3]);
    lemma_program_has(program, inner[0]);
    lemma_program_has(program, inner[1]);
    lemma_program_has(program, inner[2]);
    lemma_program_has(program, last[0]);
    lemma_program_has(program, last[1]);
}

impl StageTensorStore {
    /// The model as the stage sees it: its tensors by group, and the program of each layer.
    pub fn model_view(&self) -> (r: StageModelView)
        ensures
            r@ == StageModelViewModel::of_tensors(
                self.artifact@.index.role,
                self.artifact@.index.tensors,
            ),
    {
        let tensors = &self.artifact.index.tensors;
        let ghost models = self.artifact@.index.tensors;
        let layers = build_layers(tensors);
        let ghost expected = StageModelViewModel::of_tensors(self.artifact@.index.role, models);
        let mut operator_layers: Vec<LayerOperatorView> = Vec::new();
        let mut execution_layers: Vec<LayerExecutionSpec> = Vec::new();
        let mut execution_programs: Vec<LayerExecutionProgram> = Vec::new();
        let mut index: usize = 0;
        while index < layers.len()
            invariant
                index <= layers@.len(),
                expected == StageModelViewModel::of_tensors(expected.role, models),
                crate::model::views(layers@) == expected.layers,
                operator_layers@.len() == index,
                execution_layers@.len() == index,
                execution_programs@.len() == index,
                forall|i: int|
                    0 <= i < index ==> (#[trigger] operator_layers@[i])@
                        == expected.operator_layers[i],
                forall|i: int|
                    0 <= i < index ==> #[trigger] execution_layers@[i]
                        == expected.execution_layers[i],
                forall|i: int|
                    0 <= i < index ==> (#[trigger] execution_programs@[i])@
                        == expected.execution_programs[i],
            decreases layers.len() - index,
        {
            assert(expected.layers[index as int] == layers@[index as int]@);
            let operators = build_operator_view(&layers[index]);
            let spec_of = build_execution_spec(&operators);
            execution_programs.push(build_execution_program(&operators, &spec_of));
            execution_layers.push(spec_of);
            operator_layers.push(operators);
            index += 1;
        }
        proof {
            assert(crate::model::views(operator_layers@) =~= expected.operator_layers);
            assert(execution_layers@ =~= expected.execution_layers);
            assert(crate::model::views(execution_programs@) =~= expected.execution_programs);
        }
        StageModelView {
            role: self.artifact.index.role.clone(),
            prompt_ingress: collect_group(tensors, PackedTensorClass::PromptIngress),
            positional: collect_group(tensors, PackedTensorClass::Positional),
            shared_auxiliary: collect_group(tensors, PackedTensorClass::SharedAuxiliary),
            layers,
            operator_layers,
            execution_layers,
            execution_programs,
            tail_only: collect_group(tensors, PackedTensorClass::TailOnly),
        }
    }
}

} // verus!
