//! What holds of a stage's view of its model: which operation each known tensor name stands for,
//! and where each tensor goes.
use vstd::prelude::*;
use vstd::string::*;
use crate::execution::{ExecutionBinding, ExecutionOpKind};
use crate::model_view::{
    ExecutionOpModel, LayerExecutionProgramModel, LayerExecutionSpec, LayerOperatorViewModel,
    LayerTensorUse, PackedTensorClass, StageLayerViewModel, StageModelViewModel,
};
use crate::packed::PackedTensorEntryModel;

verus! {

/// The name of a tensor of a layer: `blk`, the layer's number, what the tensor is, and `weight`,
/// with full stops between them.
pub open spec fn layer_tensor(layer: u32, stem: Seq<char>) -> Seq<char> {
    "blk."@ + crate::text::dec(layer as nat) + "."@ + stem + ".weight"@
}

/// Whether a text has no full stop.
pub open spec fn has_no_stop(text: Seq<char>) -> bool {
    forall|i: int| 0 <= i < text.len() ==> #[trigger] text[i] != '.'
}

/// The decimal digits of a number are digits, and stand for the number.
pub proof fn lemma_decimal_round_trip(number: nat)
    ensures
        crate::text::dec(number).len() > 0,
        crate::model_view::all_digits(crate::text::dec(number)),
        crate::model_view::number_value(crate::text::dec(number)) == number,
    decreases number,
{
    let digits = crate::text::dec(number);
    if number < 10 {
        assert(digits.drop_last() =~= Seq::empty());
        assert(crate::model_view::number_value(digits.drop_last()) == 0);
    } else {
        lemma_decimal_round_trip(number / 10);
        let front = crate::text::dec(number / 10);
        assert(digits.drop_last() =~= front);
        assert forall|i: int| 0 <= i < digits.len() implies crate::model_view::is_digit(
            #[trigger] digits[i],
        ) by {
            if i < front.len() {
                assert(digits[i] == front[i]);
            }
        }
    }
}

proof fn lemma_up_to_stop(before: Seq<char>, after: Seq<char>)
    requires
        has_no_stop(before),
    ensures
        crate::model_view::up_to_stop(before + "."@ + after) == before,
    decreases before.len(),
{
    reveal_strlit(".");
    let text = before + "."@ + after;
    if before.len() == 0 {
        assert(text[0] == '.');
    } else {
        assert forall|i: int| 0 <= i < before.drop_first().len() implies #[trigger] before.drop_first()[i]
            != '.' by {
            assert(before.drop_first()[i] == before[i + 1]);
        }
        lemma_up_to_stop(before.drop_first(), after);
        assert(text.drop_first() =~= before.drop_first() + "."@ + after);
        assert(text[0] == before[0]);
        assert(seq![before[0]] + before.drop_first() =~= before);
    }
}

/// A tensor that is named for a layer belongs to that layer, whichever it is.
pub proof fn lemma_layer_is_read_off_the_name(layer: u32, stem: Seq<char>)
    ensures
        crate::model_view::tensor_group(layer_tensor(layer, stem)) == PackedTensorClass::Layer(
            layer,
        ),
{
    reveal_strlit("blk.");
    reveal_strlit(".");
    let name = layer_tensor(layer, stem);
    let digits = crate::text::dec(layer as nat);
    lemma_decimal_round_trip(layer as nat);
    assert forall|i: int| 0 <= i < digits.len() implies #[trigger] digits[i] != '.' by {
        assert(crate::model_view::is_digit(digits[i]));
    }
    assert(name.subrange(0, 4) =~= "blk."@);
    assert(name.skip(4) =~= digits + "."@ + (stem + ".weight"@));
    lemma_up_to_stop(digits, stem + ".weight"@);
    assert(crate::model_view::is_digit(digits[0]));
    assert(digits[0] != '+');
}

/// Among names that are built alike, one holds the ending that another stands for only where both
/// are the same.
proof fn lemma_holds_its_own_ending(layer: u32, stem: Seq<char>, other: Seq<char>)
    requires
        has_no_stop(stem),
        has_no_stop(other),
        other.len() > 0,
        !crate::model_view::is_digit(other[0]),
    ensures
        crate::text::contains(layer_tensor(layer, stem), "."@ + other + ".weight"@) <==> stem
            == other,
{
    reveal_strlit("blk.");
    reveal_strlit(".");
    reveal_strlit(".weight");
    lemma_decimal_round_trip(layer as nat);
    let digits = crate::text::dec(layer as nat);
    let name = layer_tensor(layer, stem);
    let ending = "."@ + other + ".weight"@;
    let start = 4 + digits.len() as int;
    if stem == other {
        assert(name.subrange(start, start + ending.len()) =~= ending);
        assert(crate::text::stands_at(name, ending, start));
    }
    if crate::text::contains(name, ending) {
        let at = choose|at: int| crate::text::stands_at(name, ending, at);
        let part = name.subrange(at, at + ending.len());
        assert(part[0] == name[at] && ending[0] == '.');
        assert(part[1] == name[at + 1] && ending[1] == other[0]);
        if at < start {
            if at >= 4 {
                assert(name[at] == digits[at - 4]);
                assert(crate::model_view::is_digit(digits[at - 4]));
            } else {
                assert(at == 3);
                assert(name[4] == digits[0]);
                assert(crate::model_view::is_digit(digits[0]));
            }
            assert(false);
        }
        if at > start {
            if at <= start + stem.len() {
                assert(name[at] == stem[at - start - 1]);
            }
            assert(false);
        }
        assert(other.len() <= stem.len());
        assert forall|i: int| 0 <= i < other.len() implies #[trigger] other[i] == stem[i] by {
            assert(ending[1 + i] == other[i]);
            assert(part[1 + i] == name[start + 1 + i]);
            assert(name[start + 1 + i] == stem[i]);
        }
        if other.len() < stem.len() {
            assert(ending[1 + other.len() as int] == '.');
            assert(part[1 + other.len() as int] == name[start + 1 + other.len()]);
            assert(name[start + 1 + other.len()] == stem[other.len() as int]);
            assert(false);
        }
        assert(stem =~= other);
    }
}

/// What a tensor of a layer is for, by what its name tells.
pub open spec fn use_of_stem(stem: Seq<char>) -> LayerTensorUse {
    if stem == "attn_q"@ {
        LayerTensorUse::AttnQ
    } else if stem == "attn_k"@ {
        LayerTensorUse::AttnK
    } else if stem == "attn_v"@ {
        LayerTensorUse::AttnV
    } else if stem == "attn_output"@ {
        LayerTensorUse::AttnOutput
    } else if stem == "attn_norm"@ {
        LayerTensorUse::AttnNorm
    } else if stem == "attn_q_norm"@ {
        LayerTensorUse::AttnQNorm
    } else if stem == "attn_k_norm"@ {
        LayerTensorUse::AttnKNorm
    } else if stem == "ffn_up"@ {
        LayerTensorUse::FfnUp
    } else if stem == "ffn_down"@ {
        LayerTensorUse::FfnDown
    } else if stem == "ffn_gate"@ {
        LayerTensorUse::FfnGate
    } else if stem == "ffn_norm"@ {
        LayerTensorUse::FfnNorm
    } else if stem == "proj"@ {
        LayerTensorUse::Proj
    } else if stem == "inp_gate"@ {
        LayerTensorUse::InpGate
    } else if stem == "post_attention_norm"@ {
        LayerTensorUse::PostAttentionNorm
    } else if stem == "post_ffw_norm"@ {
        LayerTensorUse::PostFfwNorm
    } else if stem == "post_norm"@ {
        LayerTensorUse::PostNorm
    } else if stem == "layer_output_scale"@ {
        LayerTensorUse::LayerOutputScale
    } else {
        LayerTensorUse::Unknown
    }
}

/// Each known name is used for what it names, whichever layer it is of; any other name of a layer's
/// tensor is used for nothing known.
pub proof fn lemma_name_tells_the_use(layer: u32, stem: Seq<char>)
    requires
        has_no_stop(stem),
    ensures
        crate::model_view::tensor_use(layer_tensor(layer, stem)) == use_of_stem(stem),
{
    reveal_strlit(".");
    reveal_strlit(".weight");
    reveal_strlit("attn_q");
    reveal_strlit(".attn_q.weight");
    assert(".attn_q.weight"@ =~= "."@ + "attn_q"@ + ".weight"@);
    lemma_holds_its_own_ending(layer, stem, "attn_q"@);
    reveal_strlit("attn_k");
    reveal_strlit(".attn_k.weight");
    assert(".attn_k.weight"@ =~= "."@ + "attn_k"@ + ".weight"@);
    lemma_holds_its_own_ending(layer, stem, "attn_k"@);
    reveal_strlit("attn_v");
    reveal_strlit(".attn_v.weight");
    assert(".attn_v.weight"@ =~= "."@ + "attn_v"@ + ".weight"@);
    lemma_holds_its_own_ending(layer, stem, "attn_v"@);
    reveal_strlit("attn_output");
    reveal_strlit(".attn_output.weight");
    assert(".attn_output.weight"@ =~= "."@ + "attn_output"@ + ".weight"@);
    lemma_holds_its_own_ending(layer, stem, "attn_output"@);
    reveal_strlit("attn_norm");
    reveal_strlit(".attn_norm.weight");
    assert(".attn_norm.weight"@ =~= "."@ + "attn_norm"@ + ".weight"@);
    lemma_holds_its_own_ending(layer, stem, "attn_norm"@);
    reveal_strlit("attn_q_norm");
    reveal_strlit(".attn_q_norm.weight");
    assert(".attn_q_norm.weight"@ =~= "."@ + "attn_q_norm"@ + ".weight"@);
    lemma_holds_its_own_ending(layer, stem, "attn_q_norm"@);
    reveal_strlit("attn_k_norm");
    reveal_strlit(".attn_k_norm.weight");
    assert(".attn_k_norm.weight"@ =~= "."@ + "attn_k_norm"@ + ".weight"@);
    lemma_holds_its_own_ending(layer, stem, "attn_k_norm"@);
    reveal_strlit("ffn_up");
    reveal_strlit(".ffn_up.weight");
    assert(".ffn_up.weight"@ =~= "."@ + "ffn_up"@ + ".weight"@);
    lemma_holds_its_own_ending(layer, stem, "ffn_up"@);
    reveal_strlit("ffn_down");
    reveal_strlit(".ffn_down.weight");
    assert(".ffn_down.weight"@ =~= "."@ + "ffn_down"@ + ".weight"@);
    lemma_holds_its_own_ending(layer, stem, "ffn_down"@);
    reveal_strlit("ffn_gate");
    reveal_strlit(".ffn_gate.weight");
    assert(".ffn_gate.weight"@ =~= "."@ + "ffn_gate"@ + ".weight"@);
    lemma_holds_its_own_ending(layer, stem, "ffn_gate"@);
    reveal_strlit("ffn_norm");
    reveal_strlit(".ffn_norm.weight");
    assert(".ffn_norm.weight"@ =~= "."@ + "ffn_norm"@ + ".weight"@);
    lemma_holds_its_own_ending(layer, stem, "ffn_norm"@);
    reveal_strlit("proj");
    reveal_strlit(".proj.weight");
    assert(".proj.weight"@ =~= "."@ + "proj"@ + ".weight"@);
    lemma_holds_its_own_ending(layer, stem, "proj"@);
    reveal_strlit("inp_gate");
    reveal_strlit(".inp_gate.weight");
    assert(".inp_gate.weight"@ =~= "."@ + "inp_gate"@ + ".weight"@);
    lemma_holds_its_own_ending(layer, stem, "inp_gate"@);
    reveal_strlit("post_attention_norm");
    reveal_strlit(".post_attention_norm.weight");
    assert(".post_attention_norm.weight"@ =~= "."@ + "post_attention_norm"@ + ".weight"@);
    lemma_holds_its_own_ending(layer, stem, "post_attention_norm"@);
    reveal_strlit("post_ffw_norm");
    reveal_strlit(".post_ffw_norm.weight");
    assert(".post_ffw_norm.weight"@ =~= "."@ + "post_ffw_norm"@ + ".weight"@);
    lemma_holds_its_own_ending(layer, stem, "post_ffw_norm"@);
    reveal_strlit("post_norm");
    reveal_strlit(".post_norm.weight");
    assert(".post_norm.weight"@ =~= "."@ + "post_norm"@ + ".weight"@);
    lemma_holds_its_own_ending(layer, stem, "post_norm"@);
    reveal_strlit("layer_output_scale");
    reveal_strlit(".layer_output_scale.weight");
    assert(".layer_output_scale.weight"@ =~= "."@ + "layer_output_scale"@ + ".weight"@);
    lemma_holds_its_own_ending(layer, stem, "layer_output_scale"@);
}

proof fn lemma_known_stems()
    ensures
        has_no_stop("attn_q"@) && use_of_stem("attn_q"@) == LayerTensorUse::AttnQ,
        has_no_stop("attn_k"@) && use_of_stem("attn_k"@) == LayerTensorUse::AttnK,
        has_no_stop("attn_v"@) && use_of_stem("attn_v"@) == LayerTensorUse::AttnV,
        has_no_stop("attn_output"@) && use_of_stem("attn_output"@) == LayerTensorUse::AttnOutput,
        has_no_stop("attn_norm"@) && use_of_stem("attn_norm"@) == LayerTensorUse::AttnNorm,
        has_no_stop("attn_q_norm"@) && use_of_stem("attn_q_norm"@) == LayerTensorUse::AttnQNorm,
        has_no_stop("attn_k_norm"@) && use_of_stem("attn_k_norm"@) == LayerTensorUse::AttnKNorm,
        has_no_stop("ffn_up"@) && use_of_stem("ffn_up"@) == LayerTensorUse::FfnUp,
        has_no_stop("ffn_down"@) && use_of_stem("ffn_down"@) == LayerTensorUse::FfnDown,
        has_no_stop("ffn_gate"@) && use_of_stem("ffn_gate"@) == LayerTensorUse::FfnGate,
        has_no_stop("ffn_norm"@) && use_of_stem("ffn_norm"@) == LayerTensorUse::FfnNorm,
        has_no_stop("proj"@) && use_of_stem("proj"@) == LayerTensorUse::Proj,
        has_no_stop("inp_gate"@) && use_of_stem("inp_gate"@) == LayerTensorUse::InpGate,
        has_no_stop("post_attention_norm"@) && use_of_stem("post_attention_norm"@) == LayerTensorUse::PostAttentionNorm,
        has_no_stop("post_ffw_norm"@) && use_of_stem("post_ffw_norm"@) == LayerTensorUse::PostFfwNorm,
        has_no_stop("post_norm"@) && use_of_stem("post_norm"@) == LayerTensorUse::PostNorm,
        has_no_stop("layer_output_scale"@) && use_of_stem("layer_output_scale"@) == LayerTensorUse::LayerOutputScale,
{
    reveal_strlit("attn_q");
    reveal_strlit("attn_k");
    reveal_strlit("attn_v");
    reveal_strlit("attn_output");
    reveal_strlit("attn_norm");
    reveal_strlit("attn_q_norm");
    reveal_strlit("attn_k_norm");
    reveal_strlit("ffn_up");
    reveal_strlit("ffn_down");
    reveal_strlit("ffn_gate");
    reveal_strlit("ffn_norm");
    reveal_strlit("proj");
    reveal_strlit("inp_gate");
    reveal_strlit("post_attention_norm");
    reveal_strlit("post_ffw_norm");
    reveal_strlit("post_norm");
    reveal_strlit("layer_output_scale");
    assert("attn_q"@[5] == 'q');
    assert("attn_k"@[5] == 'k');
    assert("attn_v"@[5] == 'v');
    assert("attn_output"@[5] == 'o');
    assert("attn_q_norm"@[5] == 'q');
    assert("attn_k_norm"@[5] == 'k');
    assert("attn_q"@[0] == 'a');
    assert("ffn_up"@[0] == 'f');
    assert("attn_k"@[0] == 'a');
    assert("attn_v"@[0] == 'a');
    assert("ffn_down"@[4] == 'd');
    assert("ffn_gate"@[4] == 'g');
    assert("ffn_norm"@[4] == 'n');
    assert("ffn_down"@[0] == 'f');
    assert("inp_gate"@[0] == 'i');
    assert("ffn_gate"@[0] == 'f');
    assert("ffn_norm"@[0] == 'f');
    assert("attn_norm"@[0] == 'a');
    assert("post_norm"@[0] == 'p');
}

/// The tensors of a group are the tensors whose names put them there.
pub proof fn lemma_grouped_members(
    tensors: Seq<PackedTensorEntryModel>,
    group: PackedTensorClass,
    entry: PackedTensorEntryModel,
)
    ensures
        crate::model_view::grouped(tensors, group).contains(entry) <==> tensors.contains(entry)
            && crate::model_view::tensor_group(entry.name) == group,
    decreases tensors.len(),
{
    let out = crate::model_view::grouped(tensors, group);
    if tensors.len() > 0 {
        let front = tensors.drop_last();
        let before = crate::model_view::grouped(front, group);
        lemma_grouped_members(front, group, entry);
        if tensors.contains(entry) {
            let i = choose|i: int| 0 <= i < tensors.len() && tensors[i] == entry;
            if i < front.len() {
                assert(front[i] == entry);
            }
        }
        if front.contains(entry) {
            let i = choose|i: int| 0 <= i < front.len() && front[i] == entry;
            assert(tensors[i] == entry);
        }
        assert(tensors[tensors.len() - 1] == tensors.last());
        if before.contains(entry) {
            let i = choose|i: int| 0 <= i < before.len() && before[i] == entry;
            assert(out[i] == entry);
        }
        if out.contains(entry) {
            let i = choose|i: int| 0 <= i < out.len() && out[i] == entry;
            if i < before.len() {
                assert(before[i] == entry);
            }
        }
        if crate::model_view::tensor_group(tensors.last().name) == group {
            assert(out[out.len() - 1] == tensors.last());
        }
    }
}

/// The tensors of a group keep their order: those of two lists one after the other are those of
/// the first and then those of the second.
pub proof fn lemma_groups_keep_the_order(
    front: Seq<PackedTensorEntryModel>,
    back: Seq<PackedTensorEntryModel>,
    group: PackedTensorClass,
)
    ensures
        crate::model_view::grouped(front + back, group) == crate::model_view::grouped(front, group)
            + crate::model_view::grouped(back, group),
    decreases back.len(),
{
    if back.len() == 0 {
        assert(front + back =~= front);
        assert(crate::model_view::grouped(front, group) + crate::model_view::grouped(back, group)
            =~= crate::model_view::grouped(front, group));
    } else {
        lemma_groups_keep_the_order(front, back.drop_last(), group);
        assert((front + back).drop_last() =~= front + back.drop_last());
        assert((front + back).last() == back.last());
        assert(crate::model_view::grouped(front + back, group) =~= crate::model_view::grouped(
            front,
            group,
        ) + crate::model_view::grouped(back, group));
    }
}

proof fn lemma_last_for(tensors: Seq<PackedTensorEntryModel>, purpose: LayerTensorUse)
    ensures
        match crate::model_view::last_for(tensors, purpose) {
            Some(entry) => tensors.contains(entry) && crate::model_view::tensor_use(entry.name)
                == purpose,
            None => forall|i: int|
                0 <= i < tensors.len() ==> crate::model_view::tensor_use(#[trigger] tensors[i].name)
                    != purpose,
        },
    decreases tensors.len(),
{
    if tensors.len() > 0 {
        let front = tensors.drop_last();
        lemma_last_for(front, purpose);
        assert(tensors[tensors.len() - 1] == tensors.last());
        if let Some(entry) = crate::model_view::last_for(front, purpose) {
            let i = choose|i: int| 0 <= i < front.len() && front[i] == entry;
            assert(tensors[i] == entry);
        } else {
            assert forall|i: int|
                0 <= i < tensors.len() - 1 implies crate::model_view::tensor_use(
                #[trigger] tensors[i].name,
            ) != purpose by {
                assert(front[i].name == tensors[i].name);
            }
        }
    }
}

/// Whether some tensor has the name of the given one of a layer.
pub open spec fn has_tensor(
    tensors: Seq<PackedTensorEntryModel>,
    layer: u32,
    stem: Seq<char>,
) -> bool {
    exists|i: int|
        0 <= i < tensors.len() && (#[trigger] tensors[i]).name == layer_tensor(layer, stem)
}

/// Whether each tensor of a layer has one of the seventeen known names.
pub open spec fn is_plainly_named(tensors: Seq<PackedTensorEntryModel>, layer: u32) -> bool {
    forall|i: int|
        0 <= i < tensors.len() && crate::model_view::tensor_group((#[trigger] tensors[i]).name)
            == PackedTensorClass::Layer(layer) ==> exists|stem: Seq<char>|
            use_of_stem(stem) != LayerTensorUse::Unknown && tensors[i].name == #[trigger] layer_tensor(
                layer,
                stem,
            )
}

proof fn lemma_last_of_name(tensors: Seq<PackedTensorEntryModel>, layer: u32, stem: Seq<char>)
    requires
        is_plainly_named(tensors, layer),
        use_of_stem(stem) != LayerTensorUse::Unknown,
    ensures
        match crate::model_view::last_for(
            crate::model_view::grouped(tensors, PackedTensorClass::Layer(layer)),
            use_of_stem(stem),
        ) {
            Some(entry) => has_tensor(tensors, layer, stem) && tensors.contains(entry)
                && entry.name == layer_tensor(layer, stem),
            None => !has_tensor(tensors, layer, stem),
        },
{
    let group = crate::model_view::grouped(tensors, PackedTensorClass::Layer(layer));
    lemma_known_stems();
    lemma_last_for(group, use_of_stem(stem));
    match crate::model_view::last_for(group, use_of_stem(stem)) {
        Some(entry) => {
            lemma_grouped_members(tensors, PackedTensorClass::Layer(layer), entry);
            let i = choose|i: int| 0 <= i < tensors.len() && tensors[i] == entry;
            assert(crate::model_view::tensor_group(tensors[i].name) == PackedTensorClass::Layer(
                layer,
            ));
            let found = choose|found: Seq<char>|
                use_of_stem(found) != LayerTensorUse::Unknown && tensors[i].name
                    == #[trigger] layer_tensor(layer, found);
            lemma_name_tells_the_use(layer, found);
            assert(found == stem);
        },
        None => {
            if has_tensor(tensors, layer, stem) {
                let i = choose|i: int|
                    0 <= i < tensors.len() && (#[trigger] tensors[i]).name == layer_tensor(
                        layer,
                        stem,
                    );
                lemma_layer_is_read_off_the_name(layer, stem);
                lemma_name_tells_the_use(layer, stem);
                lemma_grouped_members(tensors, PackedTensorClass::Layer(layer), tensors[i]);
                let j = choose|j: int| 0 <= j < group.len() && group[j] == tensors[i];
                assert(crate::model_view::tensor_use(group[j].name) == use_of_stem(stem));
            }
        },
    }
}

proof fn lemma_nothing_is_unknown(tensors: Seq<PackedTensorEntryModel>)
    requires
        forall|i: int|
            0 <= i < tensors.len() ==> crate::model_view::tensor_use(#[trigger] tensors[i].name)
                != LayerTensorUse::Unknown,
    ensures
        crate::model_view::unknown_tensors(tensors).len() == 0,
    decreases tensors.len(),
{
    if tensors.len() > 0 {
        let front = tensors.drop_last();
        assert(tensors[tensors.len() - 1].name == tensors.last().name);
        assert forall|i: int| 0 <= i < front.len() implies crate::model_view::tensor_use(
            #[trigger] front[i].name,
        ) != LayerTensorUse::Unknown by {
            assert(tensors[i].name == front[i].name);
        }
        lemma_nothing_is_unknown(front);
    }
}

/// An operation by its kind and the names of its tensors.
pub open spec fn outline(ops: Seq<ExecutionOpModel>) -> Seq<(ExecutionOpKind, Seq<Seq<char>>)> {
    ops.map_values(|op: ExecutionOpModel| (op.kind, op.tensor_names))
}

/// One operation where it is there, else none.
pub open spec fn optional(there: bool, kind: ExecutionOpKind, names: Seq<Seq<char>>) -> Seq<
    (ExecutionOpKind, Seq<Seq<char>>),
> {
    if there {
        seq![(kind, names)]
    } else {
        Seq::empty()
    }
}

/// The name of a layer's tensor, where there is such a tensor.
pub open spec fn optional_name(
    tensors: Seq<PackedTensorEntryModel>,
    layer: u32,
    stem: Seq<char>,
) -> Seq<Seq<char>> {
    if has_tensor(tensors, layer, stem) {
        seq![layer_tensor(layer, stem)]
    } else {
        Seq::empty()
    }
}

/// The operation of the given kind on the tensor that is named for it, where that is there and
/// wanted.
pub open spec fn named_op(
    tensors: Seq<PackedTensorEntryModel>,
    layer: u32,
    wanted: bool,
    kind: ExecutionOpKind,
    stem: Seq<char>,
) -> Seq<(ExecutionOpKind, Seq<Seq<char>>)> {
    optional(
        wanted && has_tensor(tensors, layer, stem),
        kind,
        seq![layer_tensor(layer, stem)],
    )
}

/// Whether a layer has the four tensors of attention.
pub open spec fn has_attention_tensors(tensors: Seq<PackedTensorEntryModel>, layer: u32) -> bool {
    has_tensor(tensors, layer, "attn_q"@) && has_tensor(tensors, layer, "attn_k"@) && has_tensor(
        tensors,
        layer,
        "attn_v"@,
    ) && has_tensor(tensors, layer, "attn_output"@)
}

/// Whether a layer has the three tensors of a feed-forward block.
pub open spec fn has_ffn_tensors(tensors: Seq<PackedTensorEntryModel>, layer: u32) -> bool {
    has_tensor(tensors, layer, "ffn_gate"@) && has_tensor(tensors, layer, "ffn_up"@) && has_tensor(
        tensors,
        layer,
        "ffn_down"@,
    )
}

/// Whether a layer has the two tensors of a projection path.
pub open spec fn has_projection_tensors(tensors: Seq<PackedTensorEntryModel>, layer: u32) -> bool {
    has_tensor(tensors, layer, "inp_gate"@) && has_tensor(tensors, layer, "proj"@)
}

/// The operations of a layer, by the names that its tensors have.
pub open spec fn ops_by_name(tensors: Seq<PackedTensorEntryModel>, layer: u32) -> Seq<
    (ExecutionOpKind, Seq<Seq<char>>),
> {
    let attention = has_attention_tensors(tensors, layer);
    let ffn = has_ffn_tensors(tensors, layer);
    let projection = has_projection_tensors(tensors, layer);
    optional(
        has_tensor(tensors, layer, "attn_norm"@),
        ExecutionOpKind::AttentionNorm,
        seq![layer_tensor(layer, "attn_norm"@)] + optional_name(tensors, layer, "attn_q_norm"@)
            + optional_name(tensors, layer, "attn_k_norm"@),
    ) + named_op(tensors, layer, attention, ExecutionOpKind::AttentionQ, "attn_q"@) + named_op(
        tensors,
        layer,
        attention,
        ExecutionOpKind::AttentionK,
        "attn_k"@,
    ) + named_op(tensors, layer, attention, ExecutionOpKind::AttentionV, "attn_v"@) + named_op(
        tensors,
        layer,
        attention,
        ExecutionOpKind::AttentionOut,
        "attn_output"@,
    ) + named_op(
        tensors,
        layer,
        true,
        ExecutionOpKind::PostAttentionNorm,
        "post_attention_norm"@,
    ) + (named_op(tensors, layer, true, ExecutionOpKind::FfnNorm, "ffn_norm"@) + named_op(
        tensors,
        layer,
        ffn,
        ExecutionOpKind::FfnGate,
        "ffn_gate"@,
    ) + named_op(tensors, layer, ffn, ExecutionOpKind::FfnUp, "ffn_up"@) + named_op(
        tensors,
        layer,
        ffn,
        ExecutionOpKind::FfnDown,
        "ffn_down"@,
    ) + optional(
        has_tensor(tensors, layer, "post_ffw_norm"@) || has_tensor(tensors, layer, "post_norm"@),
        ExecutionOpKind::PostFfnNorm,
        optional_name(tensors, layer, "post_ffw_norm"@) + optional_name(
            tensors,
            layer,
            "post_norm"@,
        ),
    )) + (named_op(tensors, layer, projection, ExecutionOpKind::InputGate, "inp_gate"@) + named_op(
        tensors,
        layer,
        projection,
        ExecutionOpKind::Projection,
        "proj"@,
    ) + named_op(
        tensors,
        layer,
        true,
        ExecutionOpKind::LayerOutputScale,
        "layer_output_scale"@,
    ))
}

proof fn lemma_outline_joins(a: Seq<ExecutionOpModel>, b: Seq<ExecutionOpModel>)
    ensures
        outline(a + b) == outline(a) + outline(b),
{
    assert(outline(a + b) =~= outline(a) + outline(b));
}

proof fn lemma_one_named_op(
    tensors: Seq<PackedTensorEntryModel>,
    layer: u32,
    wanted: bool,
    kind: ExecutionOpKind,
    stem: Seq<char>,
)
    requires
        is_plainly_named(tensors, layer),
        use_of_stem(stem) != LayerTensorUse::Unknown,
    ensures
        outline(
            ExecutionOpModel::of_one(
                wanted,
                kind,
                crate::model_view::last_for(
                    crate::model_view::grouped(tensors, PackedTensorClass::Layer(layer)),
                    use_of_stem(stem),
                ),
            ),
        ) == named_op(tensors, layer, wanted, kind, stem),
{
    lemma_last_of_name(tensors, layer, stem);
    let entry = crate::model_view::last_for(
        crate::model_view::grouped(tensors, PackedTensorClass::Layer(layer)),
        use_of_stem(stem),
    );
    if wanted && entry is Some {
        assert(crate::packed::names_of(seq![entry->0]) =~= seq![layer_tensor(layer, stem)]);
    }
    assert(outline(ExecutionOpModel::of_one(wanted, kind, entry)) =~= named_op(
        tensors,
        layer,
        wanted,
        kind,
        stem,
    ));
}

/// The program of a layer with known names does with each tensor what its name says, in the order
/// of a layer: the norm of the input, query, key, value and output of attention, their norm, the
/// norm, gate, up and down projections of the feed-forward block and its norms, the input gate,
/// the projection and the scale. The attention, the feed-forward block and the projection path are
/// run where all of their tensors are there.
pub proof fn lemma_operations_have_their_named_tensors(
    tensors: Seq<PackedTensorEntryModel>,
    layer: u32,
)
    requires
        is_plainly_named(tensors, layer),
    ensures
        ({
            let view = LayerOperatorViewModel::of_tensors(
                layer,
                crate::model_view::grouped(tensors, PackedTensorClass::Layer(layer)),
            );
            let program = LayerExecutionProgramModel::of_layer(
                view,
                LayerExecutionSpec::of_layer(view),
            );
            outline(program.ops) == ops_by_name(tensors, layer)
        }),
{
    let group = crate::model_view::grouped(tensors, PackedTensorClass::Layer(layer));
    let view = LayerOperatorViewModel::of_tensors(layer, group);
    let made = LayerExecutionSpec::of_layer(view);
    lemma_known_stems();
    lemma_last_of_name(tensors, layer, "attn_q"@);
    lemma_last_of_name(tensors, layer, "attn_k"@);
    lemma_last_of_name(tensors, layer, "attn_v"@);
    lemma_last_of_name(tensors, layer, "attn_output"@);
    lemma_last_of_name(tensors, layer, "attn_norm"@);
    lemma_last_of_name(tensors, layer, "attn_q_norm"@);
    lemma_last_of_name(tensors, layer, "attn_k_norm"@);
    lemma_last_of_name(tensors, layer, "ffn_up"@);
    lemma_last_of_name(tensors, layer, "ffn_down"@);
    lemma_last_of_name(tensors, layer, "ffn_gate"@);
    lemma_last_of_name(tensors, layer, "ffn_norm"@);
    lemma_last_of_name(tensors, layer, "proj"@);
    lemma_last_of_name(tensors, layer, "inp_gate"@);
    lemma_last_of_name(tensors, layer, "post_attention_norm"@);
    lemma_last_of_name(tensors, layer, "post_ffw_norm"@);
    lemma_last_of_name(tensors, layer, "post_norm"@);
    lemma_last_of_name(tensors, layer, "layer_output_scale"@);
    let attention = has_attention_tensors(tensors, layer);
    let ffn = has_ffn_tensors(tensors, layer);
    let projection = has_projection_tensors(tensors, layer);
    assert(made.has_attention_core == attention);
    assert(made.has_ffn_core == ffn);
    assert(made.has_projection_path == projection);
    lemma_one_named_op(tensors, layer, attention, ExecutionOpKind::AttentionQ, "attn_q"@);
    lemma_one_named_op(tensors, layer, attention, ExecutionOpKind::AttentionK, "attn_k"@);
    lemma_one_named_op(tensors, layer, attention, ExecutionOpKind::AttentionV, "attn_v"@);
    lemma_one_named_op(tensors, layer, attention, ExecutionOpKind::AttentionOut, "attn_output"@);
    lemma_one_named_op(
        tensors,
        layer,
        true,
        ExecutionOpKind::PostAttentionNorm,
        "post_attention_norm"@,
    );
    lemma_one_named_op(tensors, layer, true, ExecutionOpKind::FfnNorm, "ffn_norm"@);
    lemma_one_named_op(tensors, layer, ffn, ExecutionOpKind::FfnGate, "ffn_gate"@);
    lemma_one_named_op(tensors, layer, ffn, ExecutionOpKind::FfnUp, "ffn_up"@);
    lemma_one_named_op(tensors, layer, ffn, ExecutionOpKind::FfnDown, "ffn_down"@);
    lemma_one_named_op(tensors, layer, projection, ExecutionOpKind::InputGate, "inp_gate"@);
    lemma_one_named_op(tensors, layer, projection, ExecutionOpKind::Projection, "proj"@);
    lemma_one_named_op(
        tensors,
        layer,
        true,
        ExecutionOpKind::LayerOutputScale,
        "layer_output_scale"@,
    );
    assert forall|i: int| 0 <= i < group.len() implies crate::model_view::tensor_use(
        #[trigger] group[i].name,
    ) != LayerTensorUse::Unknown by {
        assert(group.contains(group[i]));
        lemma_grouped_members(tensors, PackedTensorClass::Layer(layer), group[i]);
        let j = choose|j: int| 0 <= j < tensors.len() && tensors[j] == group[i];
        assert(crate::model_view::tensor_group(tensors[j].name) == PackedTensorClass::Layer(layer));
        let stem = choose|stem: Seq<char>|
            use_of_stem(stem) != LayerTensorUse::Unknown && tensors[j].name
                == #[trigger] layer_tensor(layer, stem);
        lemma_name_tells_the_use(layer, stem);
    }
    lemma_nothing_is_unknown(group);
    let norm = ExecutionOpModel::of_some(
        ExecutionOpKind::AttentionNorm,
        LayerExecutionProgramModel::norm_tensors(view),
    );
    assert(outline(norm) =~= optional(
        has_tensor(tensors, layer, "attn_norm"@),
        ExecutionOpKind::AttentionNorm,
        seq![layer_tensor(layer, "attn_norm"@)] + optional_name(tensors, layer, "attn_q_norm"@)
            + optional_name(tensors, layer, "attn_k_norm"@),
    )) by {
        if view.attn_norm is Some {
            assert(crate::packed::names_of(LayerExecutionProgramModel::norm_tensors(view))
                =~= seq![layer_tensor(layer, "attn_norm"@)] + optional_name(
                tensors,
                layer,
                "attn_q_norm"@,
            ) + optional_name(tensors, layer, "attn_k_norm"@));
        }
    }
    let q = ExecutionOpModel::of_one(attention, ExecutionOpKind::AttentionQ, view.attn_q);
    let k = ExecutionOpModel::of_one(attention, ExecutionOpKind::AttentionK, view.attn_k);
    let v = ExecutionOpModel::of_one(attention, ExecutionOpKind::AttentionV, view.attn_v);
    let o = ExecutionOpModel::of_one(attention, ExecutionOpKind::AttentionOut, view.attn_output);
    let p = ExecutionOpModel::of_one(
        true,
        ExecutionOpKind::PostAttentionNorm,
        view.post_attention_norm,
    );
    lemma_outline_joins(norm, q);
    lemma_outline_joins(norm + q, k);
    lemma_outline_joins(norm + q + k, v);
    lemma_outline_joins(norm + q + k + v, o);
    lemma_outline_joins(norm + q + k + v + o, p);
    let first = norm + q + k + v + o + p;
    let n = ExecutionOpModel::of_one(true, ExecutionOpKind::FfnNorm, view.ffn_norm);
    let g = ExecutionOpModel::of_one(ffn, ExecutionOpKind::FfnGate, view.ffn_gate);
    let u = ExecutionOpModel::of_one(ffn, ExecutionOpKind::FfnUp, view.ffn_up);
    let d = ExecutionOpModel::of_one(ffn, ExecutionOpKind::FfnDown, view.ffn_down);
    let after = crate::model_view::present(view.post_ffw_norm) + crate::model_view::present(
        view.post_norm,
    );
    let e = ExecutionOpModel::of_some(ExecutionOpKind::PostFfnNorm, after);
    assert(outline(e) =~= optional(
        has_tensor(tensors, layer, "post_ffw_norm"@) || has_tensor(tensors, layer, "post_norm"@),
        ExecutionOpKind::PostFfnNorm,
        optional_name(tensors, layer, "post_ffw_norm"@) + optional_name(
            tensors,
            layer,
            "post_norm"@,
        ),
    )) by {
        assert(crate::packed::names_of(after) =~= optional_name(tensors, layer, "post_ffw_norm"@)
            + optional_name(tensors, layer, "post_norm"@));
    }
    lemma_outline_joins(n, g);
    lemma_outline_joins(n + g, u);
    lemma_outline_joins(n + g + u, d);
    lemma_outline_joins(n + g + u + d, e);
    let second = n + g + u + d + e;
    let i = ExecutionOpModel::of_one(projection, ExecutionOpKind::InputGate, view.inp_gate);
    let j = ExecutionOpModel::of_one(projection, ExecutionOpKind::Projection, view.proj);
    let s = ExecutionOpModel::of_one(
        true,
        ExecutionOpKind::LayerOutputScale,
        view.layer_output_scale,
    );
    let x = ExecutionOpModel::of_some(ExecutionOpKind::Unknown, view.unknown);
    assert(x =~= Seq::empty());
    lemma_outline_joins(i, j);
    lemma_outline_joins(i + j, s);
    lemma_outline_joins(i + j + s, x);
    let third = i + j + s + x;
    assert(outline(third) =~= outline(i) + outline(j) + outline(s));
    lemma_outline_joins(first, second);
    lemma_outline_joins(first + second, third);
    assert(LayerExecutionProgramModel::of_layer(view, made).ops == first + second + third);
}

/// A stage runs exactly the layers that some tensor is named for, by ascending number, and each as
/// its tensors' names say.
pub proof fn lemma_each_named_layer_is_run(
    role: Seq<char>,
    tensors: Seq<PackedTensorEntryModel>,
    at: int,
)
    requires
        0 <= at < StageModelViewModel::of_tensors(role, tensors).execution_programs.len(),
    ensures
        ({
            let view = StageModelViewModel::of_tensors(role, tensors);
            let layer = view.execution_programs[at].layer_index;
            &&& view.role == role
            &&& view.layers.len() == view.execution_programs.len()
            &&& view.operator_layers.len() == view.execution_programs.len()
            &&& view.execution_layers.len() == view.execution_programs.len()
            &&& view.layers[at].layer_index == layer
            &&& view.operator_layers[at].layer_index == layer
            &&& view.execution_layers[at].layer_index == layer
            &&& exists|i: int|
                0 <= i < tensors.len() && crate::model_view::tensor_group(
                    (#[trigger] tensors[i]).name,
                ) == PackedTensorClass::Layer(layer)
            &&& is_plainly_named(tensors, layer) ==> outline(view.execution_programs[at].ops)
                == ops_by_name(tensors, layer)
            &&& forall|later: int|
                at < later < view.execution_programs.len() ==> layer
                    < (#[trigger] view.execution_programs[later]).layer_index
        }),
{
    let view = StageModelViewModel::of_tensors(role, tensors);
    let numbers = crate::model_view::layer_numbers(tensors);
    crate::model_view::lemma_layer_numbers(tensors);
    let layer = view.execution_programs[at].layer_index;
    assert(numbers[at] == layer as usize);
    assert(numbers.contains(layer as usize));
    if is_plainly_named(tensors, layer) {
        lemma_operations_have_their_named_tensors(tensors, layer);
    }
    assert forall|later: int| at < later < view.execution_programs.len() implies layer
        < (#[trigger] view.execution_programs[later]).layer_index by {
        assert(numbers[at] < numbers[later]);
        assert(numbers[later] <= u32::MAX);
    }
}

/// No named layer is left out.
pub proof fn lemma_no_named_layer_is_left_out(
    role: Seq<char>,
    tensors: Seq<PackedTensorEntryModel>,
    layer: u32,
    stem: Seq<char>,
)
    requires
        has_tensor(tensors, layer, stem),
    ensures
        exists|at: int|
            0 <= at < StageModelViewModel::of_tensors(role, tensors).execution_programs.len() && (
            #[trigger] StageModelViewModel::of_tensors(
                role,
                tensors,
            ).execution_programs[at]).layer_index == layer,
{
    let view = StageModelViewModel::of_tensors(role, tensors);
    let i = choose|i: int|
        0 <= i < tensors.len() && (#[trigger] tensors[i]).name == layer_tensor(layer, stem);
    lemma_layer_is_read_off_the_name(layer, stem);
    crate::model_view::lemma_layer_numbers(tensors);
    let numbers = crate::model_view::layer_numbers(tensors);
    assert(crate::model_view::tensor_group(tensors[i].name) == PackedTensorClass::Layer(layer));
    assert(numbers.contains(layer as usize));
    let at = choose|at: int| 0 <= at < numbers.len() && numbers[at] == layer as usize;
    assert(view.execution_programs[at].layer_index == layer);
}

/// Whether a name is that of a layer's tensor: it starts with `blk.`, and a number stands before
/// the next full stop.
pub open spec fn names_a_layer(name: Seq<char>) -> bool {
    name.len() >= 4 && name[0] == 'b' && name[1] == 'l' && name[2] == 'k' && name[3] == '.'
        && crate::model_view::parsed_number(
        crate::model_view::up_to_stop(name.skip(4)),
    ) is Some
}

/// Besides those of layers, a stage takes prompts in by the token embedding, places tokens by the
/// rope frequencies, and ends with the tensors whose names start with `output`; all others are
/// shared.
pub proof fn lemma_other_tensors_by_name(
    role: Seq<char>,
    tensors: Seq<PackedTensorEntryModel>,
    entry: PackedTensorEntryModel,
)
    requires
        tensors.contains(entry),
    ensures
        ({
            let view = StageModelViewModel::of_tensors(role, tensors);
            let name = entry.name;
            let ends = name.len() >= 6 && name.subrange(0, 6) == "output"@;
            &&& view.prompt_ingress.contains(entry) <==> name == "token_embd.weight"@
            &&& view.positional.contains(entry) <==> name == "rope_freqs.weight"@
            &&& view.tail_only.contains(entry) <==> ends
            &&& view.shared_auxiliary.contains(entry) <==> !names_a_layer(name) && name
                != "token_embd.weight"@ && name != "rope_freqs.weight"@ && !ends
            &&& crate::model_view::tensor_group(name) is Layer <==> names_a_layer(name)
        }),
{
    let name = entry.name;
    reveal_strlit("blk.");
    reveal_strlit("token_embd.weight");
    reveal_strlit("rope_freqs.weight");
    reveal_strlit("per_layer_model_proj.weight");
    reveal_strlit("per_layer_proj_norm.weight");
    reveal_strlit("per_layer_token_embd.weight");
    reveal_strlit("output");
    lemma_grouped_members(tensors, PackedTensorClass::PromptIngress, entry);
    lemma_grouped_members(tensors, PackedTensorClass::Positional, entry);
    lemma_grouped_members(tensors, PackedTensorClass::SharedAuxiliary, entry);
    lemma_grouped_members(tensors, PackedTensorClass::TailOnly, entry);
    let start = "blk."@;
    if names_a_layer(name) {
        assert(name.subrange(0, 4) =~= start);
    }
    if crate::text::starts_with(name, start) {
        assert(name.subrange(0, 4)[0] == start[0]);
        assert(name.subrange(0, 4)[1] == start[1]);
        assert(name.subrange(0, 4)[2] == start[2]);
        assert(name.subrange(0, 4)[3] == start[3]);
        assert(name[0] == 'b');
    }
    assert("token_embd.weight"@[0] == 't' && "token_embd.weight"@.subrange(0, 6)[0] == 't');
    assert("rope_freqs.weight"@[0] == 'r' && "rope_freqs.weight"@.subrange(0, 6)[0] == 'r');
    assert("per_layer_model_proj.weight"@[0] == 'p');
    assert("per_layer_proj_norm.weight"@[0] == 'p');
    assert("per_layer_token_embd.weight"@[0] == 'p');
    if name.len() >= 6 && name.subrange(0, 6) == "output"@ {
        assert(name.subrange(0, 6)[0] == 'o');
        assert(name[0] == 'o');
    }
}

/// Whether no two tensors have the same name.
pub open spec fn has_distinct_names(tensors: Seq<PackedTensorEntryModel>) -> bool {
    forall|i: int, j: int|
        0 <= i < j < tensors.len() ==> (#[trigger] tensors[i]).name != (
        #[trigger] tensors[j]).name
}

proof fn lemma_only_one_of_a_name(
    tensors: Seq<PackedTensorEntryModel>,
    layer: u32,
    stem: Seq<char>,
    at: int,
)
    requires
        is_plainly_named(tensors, layer),
        has_distinct_names(tensors),
        use_of_stem(stem) != LayerTensorUse::Unknown,
        0 <= at < tensors.len(),
        tensors[at].name == layer_tensor(layer, stem),
    ensures
        crate::model_view::last_for(
            crate::model_view::grouped(tensors, PackedTensorClass::Layer(layer)),
            use_of_stem(stem),
        ) == Some(tensors[at]),
{
    lemma_last_of_name(tensors, layer, stem);
    assert(has_tensor(tensors, layer, stem));
    let entry = crate::model_view::last_for(
        crate::model_view::grouped(tensors, PackedTensorClass::Layer(layer)),
        use_of_stem(stem),
    )->0;
    let i = choose|i: int| 0 <= i < tensors.len() && tensors[i] == entry;
    assert(tensors[i].name == tensors[at].name);
}

/// The dimensions of a layer are those of its tensors: what query, key and value give is what
/// their tensors have first, the inner width is what the up projection has first, and the hidden
/// width is what the query takes, its second.
pub proof fn lemma_dimensions_come_from_their_tensors(
    tensors: Seq<PackedTensorEntryModel>,
    layer: u32,
    at: int,
)
    requires
        is_plainly_named(tensors, layer),
        has_distinct_names(tensors),
        0 <= at < tensors.len(),
        tensors[at].dimensions.len() == 2,
    ensures
        ({
            let view = LayerOperatorViewModel::of_tensors(
                layer,
                crate::model_view::grouped(tensors, PackedTensorClass::Layer(layer)),
            );
            let made = LayerExecutionSpec::of_layer(view);
            let program = LayerExecutionProgramModel::of_layer(view, made);
            let entry = tensors[at];
            &&& entry.name == layer_tensor(layer, "attn_q"@) ==> program.q_out_dim == Some(
                entry.dimensions[0],
            ) && program.hidden_dim == Some(entry.dimensions[1])
            &&& entry.name == layer_tensor(layer, "attn_k"@) ==> program.k_out_dim == Some(
                entry.dimensions[0],
            )
            &&& entry.name == layer_tensor(layer, "attn_v"@) ==> program.v_out_dim == Some(
                entry.dimensions[0],
            )
            &&& entry.name == layer_tensor(layer, "ffn_up"@) ==> program.ffn_inner_dim == Some(
                entry.dimensions[0],
            )
            &&& entry.name == layer_tensor(layer, "ffn_gate"@) && !has_tensor(
                tensors,
                layer,
                "ffn_up"@,
            ) ==> program.ffn_inner_dim == Some(entry.dimensions[0])
            &&& entry.name == layer_tensor(layer, "ffn_down"@) && !has_tensor(
                tensors,
                layer,
                "ffn_up"@,
            ) && !has_tensor(tensors, layer, "ffn_gate"@) ==> program.ffn_inner_dim == Some(
                entry.dimensions[1],
            )
            &&& entry.name == layer_tensor(layer, "ffn_up"@) && !has_tensor(
                tensors,
                layer,
                "attn_q"@,
            ) && !has_tensor(tensors, layer, "attn_norm"@) ==> program.hidden_dim == Some(
                entry.dimensions[1],
            )
            &&& !has_tensor(tensors, layer, "attn_q"@) ==> program.q_out_dim is None
            &&& !has_tensor(tensors, layer, "attn_k"@) ==> program.k_out_dim is None
            &&& !has_tensor(tensors, layer, "attn_v"@) ==> program.v_out_dim is None
        }),
{
    lemma_known_stems();
    lemma_last_of_name(tensors, layer, "attn_q"@);
    lemma_last_of_name(tensors, layer, "attn_k"@);
    lemma_last_of_name(tensors, layer, "attn_v"@);
    lemma_last_of_name(tensors, layer, "attn_norm"@);
    lemma_last_of_name(tensors, layer, "ffn_up"@);
    lemma_last_of_name(tensors, layer, "ffn_gate"@);
    let name = tensors[at].name;
    if name == layer_tensor(layer, "attn_q"@) {
        lemma_only_one_of_a_name(tensors, layer, "attn_q"@, at);
    }
    if name == layer_tensor(layer, "attn_k"@) {
        lemma_only_one_of_a_name(tensors, layer, "attn_k"@, at);
    }
    if name == layer_tensor(layer, "attn_v"@) {
        lemma_only_one_of_a_name(tensors, layer, "attn_v"@, at);
    }
    if name == layer_tensor(layer, "ffn_up"@) {
        lemma_only_one_of_a_name(tensors, layer, "ffn_up"@, at);
    }
    if name == layer_tensor(layer, "ffn_gate"@) {
        lemma_only_one_of_a_name(tensors, layer, "ffn_gate"@, at);
    }
    if name == layer_tensor(layer, "ffn_down"@) {
        lemma_only_one_of_a_name(tensors, layer, "ffn_down"@, at);
    }
}

/// A layer can be run exactly where the tensors of its attention, its feed-forward block and its
/// projection path are all there and all of its dimensions are known.
pub proof fn lemma_a_whole_layer_can_be_run(tensors: Seq<PackedTensorEntryModel>, layer: u32)
    requires
        is_plainly_named(tensors, layer),
    ensures
        ({
            let view = LayerOperatorViewModel::of_tensors(
                layer,
                crate::model_view::grouped(tensors, PackedTensorClass::Layer(layer)),
            );
            let made = LayerExecutionSpec::of_layer(view);
            let program = LayerExecutionProgramModel::of_layer(view, made);
            &&& program.runnable_sketch == made.runnable_sketch
            &&& program.runnable_sketch <==> has_attention_tensors(tensors, layer)
                && has_ffn_tensors(tensors, layer) && has_projection_tensors(tensors, layer)
                && program.hidden_dim is Some && program.q_out_dim is Some && program.k_out_dim
                is Some && program.v_out_dim is Some && program.ffn_inner_dim is Some
            &&& made.has_attention_core <==> has_attention_tensors(tensors, layer)
            &&& made.has_ffn_core <==> has_ffn_tensors(tensors, layer)
            &&& made.has_projection_path <==> has_projection_tensors(tensors, layer)
            &&& made.has_attention_norms <==> has_tensor(tensors, layer, "attn_norm"@)
                && has_tensor(tensors, layer, "attn_q_norm"@) && has_tensor(
                tensors,
                layer,
                "attn_k_norm"@,
            )
            &&& made.has_post_norms <==> has_tensor(tensors, layer, "post_attention_norm"@)
                && has_tensor(tensors, layer, "post_ffw_norm"@) && has_tensor(
                tensors,
                layer,
                "post_norm"@,
            ) && has_tensor(tensors, layer, "ffn_norm"@)
        }),
{
    lemma_known_stems();
    lemma_last_of_name(tensors, layer, "attn_q"@);
    lemma_last_of_name(tensors, layer, "attn_k"@);
    lemma_last_of_name(tensors, layer, "attn_v"@);
    lemma_last_of_name(tensors, layer, "attn_output"@);
    lemma_last_of_name(tensors, layer, "attn_norm"@);
    lemma_last_of_name(tensors, layer, "attn_q_norm"@);
    lemma_last_of_name(tensors, layer, "attn_k_norm"@);
    lemma_last_of_name(tensors, layer, "ffn_up"@);
    lemma_last_of_name(tensors, layer, "ffn_down"@);
    lemma_last_of_name(tensors, layer, "ffn_gate"@);
    lemma_last_of_name(tensors, layer, "ffn_norm"@);
    lemma_last_of_name(tensors, layer, "proj"@);
    lemma_last_of_name(tensors, layer, "inp_gate"@);
    lemma_last_of_name(tensors, layer, "post_attention_norm"@);
    lemma_last_of_name(tensors, layer, "post_ffw_norm"@);
    lemma_last_of_name(tensors, layer, "post_norm"@);
}

/// How a tensor of its own is stored decides how an operation reads it: plain numbers of one
/// dimension as a vector, of two as a matrix, and other types of two or more dimensions as a
/// quantized matrix. The order of several tensors does not matter.
pub proof fn lemma_storage_decides_the_binding(
    entry: PackedTensorEntryModel,
    front: Seq<PackedTensorEntryModel>,
    back: Seq<PackedTensorEntryModel>,
)
    ensures
        ({
            let plain = entry.ggml_type == 0 && entry.byte_len % 4 == 0;
            let binding = crate::model_view::binding_of(seq![entry]).0;
            &&& plain && entry.dimensions.len() == 1 <==> binding == ExecutionBinding::F32Vector
            &&& plain && entry.dimensions.len() == 2 <==> binding == ExecutionBinding::F32Matrix
            &&& entry.ggml_type != 0 && entry.dimensions.len() >= 2 <==> binding
                == ExecutionBinding::QuantizedMatrix
            &&& (entry.ggml_type != 0) != (entry.dimensions.len() >= 2) && !(plain
                && entry.dimensions.len() == 2) <==> binding == ExecutionBinding::Mixed
        }),
        crate::model_view::binding_of(front + back) == crate::model_view::binding_of(back + front),
        crate::model_view::binding_of(front + back).0 == ExecutionBinding::F32Vector && front.len()
            > 0 ==> crate::model_view::binding_of(front).0 == ExecutionBinding::F32Vector,
        crate::model_view::binding_of(front + back).0 == ExecutionBinding::F32Matrix && front.len()
            > 0 ==> crate::model_view::binding_of(front).0 == ExecutionBinding::F32Matrix,
{
    let one = seq![entry];
    assert(one[0] == entry);
    let a = front + back;
    let b = back + front;
    assert forall|i: int| 0 <= i < a.len() implies b.contains(#[trigger] a[i]) by {
        if i < front.len() {
            assert(b[back.len() + i] == a[i]);
        } else {
            assert(b[i - front.len()] == a[i]);
        }
    }
    assert forall|i: int| 0 <= i < b.len() implies a.contains(#[trigger] b[i]) by {
        if i < back.len() {
            assert(a[front.len() + i] == b[i]);
        } else {
            assert(a[i - back.len()] == b[i]);
        }
    }
    lemma_same_members_same_binding(a, b);
    assert forall|i: int| 0 <= i < front.len() implies #[trigger] front[i] == a[i] by {}
    if crate::model_view::binding_of(a).0 == ExecutionBinding::F32Matrix && front.len() > 0 {
        assert(crate::model_view::is_plain(a[0], 2));
        assert(!crate::model_view::is_plain(front[0], 1));
    }
}

proof fn lemma_same_members_same_binding(
    a: Seq<PackedTensorEntryModel>,
    b: Seq<PackedTensorEntryModel>,
)
    requires
        a.len() == b.len(),
        forall|i: int| 0 <= i < a.len() ==> b.contains(#[trigger] a[i]),
        forall|i: int| 0 <= i < b.len() ==> a.contains(#[trigger] b[i]),
    ensures
        crate::model_view::binding_of(a) == crate::model_view::binding_of(b),
{
}

} // verus!
