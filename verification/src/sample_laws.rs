//! What holds of bytes and texts, and of the stages that stand in for a model: the frame of a
//! tensor's bytes, how texts compare, what prompts are run, and what is sampled.
use vstd::prelude::*;
use vstd::string::*;
use crate::names::TextOrder;
use crate::prompt_suite::{
    PromptExpectationModel, ValidationPromptCaseModel, ValidationPromptSuiteMode,
    ValidationPromptTier,
};
use crate::prompting::GemmaPromptMode;
use crate::tensor::{PayloadKind, StageLayoutModel, StageSampleModel, StageTensorModel};
use crate::toy::{ToyLayerArtifactModel, ToyProjectionArtifactModel, ToyShardArtifactModel};

verus! {

/// Framed bytes begin with the letters `stb1`; the two lengths follow, each with its least
/// significant byte first, then the hidden bytes and then the others. Without other bytes there is
/// no frame.
pub proof fn lemma_frame_is_laid_out(hidden: Seq<u8>, aux: Seq<u8>, at: int)
    requires
        0 < aux.len() <= u32::MAX,
        hidden.len() <= u32::MAX,
    ensures
        ({
            let bytes = crate::framing::framed(hidden, Some(aux));
            &&& bytes.len() == 12 + hidden.len() + aux.len()
            &&& bytes[0] == 's' as u8 && bytes[1] == 't' as u8 && bytes[2] == 'b' as u8
                && bytes[3] == '1' as u8
            &&& bytes[4] + 256 * (bytes[5] + 256 * (bytes[6] + 256 * bytes[7])) == hidden.len()
            &&& bytes[8] + 256 * (bytes[9] + 256 * (bytes[10] + 256 * bytes[11])) == aux.len()
            &&& 0 <= at < hidden.len() ==> bytes[12 + at] == hidden[at]
            &&& 0 <= at < aux.len() ==> bytes[12 + hidden.len() + at] == aux[at]
        }),
        crate::framing::framed(hidden, None) == hidden,
        crate::framing::framed(hidden, Some(Seq::empty())) == hidden,
{
    crate::framing::lemma_le_round_trip(hidden.len() as int);
    crate::framing::lemma_le_round_trip(aux.len() as int);
}

/// Bytes are taken for framed only where they begin with the four letters and are as long as their
/// lengths say.
pub proof fn lemma_only_frames_are_framed(bytes: Seq<u8>)
    ensures
        crate::framing::is_framed(bytes) <==> {
            &&& bytes.len() >= 12
            &&& bytes[0] == 's' as u8 && bytes[1] == 't' as u8 && bytes[2] == 'b' as u8
                && bytes[3] == '1' as u8
            &&& bytes.len() == 12 + (bytes[4] + 256 * (bytes[5] + 256 * (bytes[6] + 256 * bytes[7])))
                + (bytes[8] + 256 * (bytes[9] + 256 * (bytes[10] + 256 * bytes[11])))
        },
{
    if bytes.len() >= 12 {
        let start = bytes.take(4);
        assert(start[0] == bytes[0] && start[1] == bytes[1] && start[2] == bytes[2] && start[3]
            == bytes[3]);
        assert(crate::framing::magic()[0] == 0x73 && crate::framing::magic()[1] == 0x74
            && crate::framing::magic()[2] == 0x62 && crate::framing::magic()[3] == 0x31);
        if start[0] == 0x73 && start[1] == 0x74 && start[2] == 0x62 && start[3] == 0x31 {
            assert(start =~= crate::framing::magic());
        }
    }
}

/// A hidden state has four bytes for each of its numbers, in order, the least significant first.
pub proof fn lemma_state_bytes_stand_in_order(values: Seq<u32>, at: int)
    requires
        0 <= at < values.len(),
    ensures
        ({
            let bytes = crate::hidden::encoded_state(values);
            &&& bytes.len() == 4 * values.len()
            &&& bytes[4 * at] + 256 * (bytes[4 * at + 1] + 256 * (bytes[4 * at + 2] + 256
                * bytes[4 * at + 3])) == values[at]
        }),
    decreases values.len(),
{
    let front = values.drop_last();
    crate::framing::lemma_le_round_trip(values.last() as int);
    if front.len() > 0 {
        lemma_state_bytes_stand_in_order(front, if at < front.len() {
            at
        } else {
            0
        });
    } else {
        assert(crate::hidden::encoded_state(front).len() == 0);
    }
    let bytes = crate::hidden::encoded_state(values);
    let start = crate::hidden::encoded_state(front);
    if at < front.len() {
        assert(front[at] == values[at]);
        assert(bytes[4 * at] == start[4 * at]);
        assert(bytes[4 * at + 1] == start[4 * at + 1]);
        assert(bytes[4 * at + 2] == start[4 * at + 2]);
        assert(bytes[4 * at + 3] == start[4 * at + 3]);
    }
}

/// A hidden state is in order exactly where it has four bytes for each dimension.
pub proof fn lemma_state_has_four_bytes_each(length: nat, hidden_dim: nat)
    ensures
        crate::hidden::state_fault(length, hidden_dim) is None <==> length == hidden_dim + hidden_dim
            + hidden_dim + hidden_dim,
{
}

/// A number's eight bytes make up the number, the least significant first.
pub proof fn lemma_eight_bytes_make_up_the_number(value: u64)
    ensures
        ({
            let bytes = crate::sketch::eight_bytes(value);
            &&& bytes.len() == 8
            &&& bytes[0] + 256 * (bytes[1] + 256 * (bytes[2] + 256 * (bytes[3] + 256 * (bytes[4]
                + 256 * (bytes[5] + 256 * (bytes[6] + 256 * bytes[7])))))) == value
        }),
{
    let low = value as int % 0x1_0000_0000;
    let high = value as int / 0x1_0000_0000;
    crate::framing::lemma_le_round_trip(low);
    crate::framing::lemma_le_round_trip(high);
    let bytes = crate::sketch::eight_bytes(value);
    assert(bytes[4] == crate::framing::le_bytes(high)[0]);
    assert(bytes[5] == crate::framing::le_bytes(high)[1]);
    assert(bytes[6] == crate::framing::le_bytes(high)[2]);
    assert(bytes[7] == crate::framing::le_bytes(high)[3]);
}

/// A bit pattern is no number exactly where all bits of its exponent are set and some bit of its
/// fraction is. Each number is the same as itself, the two zeros are the same, and no two other
/// patterns are.
pub proof fn lemma_numbers_compare_as_numbers(a: u32, b: u32)
    ensures
        crate::number::is_nan(a) <==> a / 0x80_0000 % 0x100 == 0xff && a % 0x80_0000 != 0,
        crate::number::same_number(a, a) <==> !crate::number::is_nan(a),
        crate::number::same_number(a, b) == crate::number::same_number(b, a),
        crate::number::same_number(a, b) && a != b <==> (a == 0 && b == 0x8000_0000) || (a
            == 0x8000_0000 && b == 0),
{
}

/// The first character in which two texts differ decides their order, and a text stands before the
/// texts that go on from it.
pub proof fn lemma_first_difference_decides(
    start: Seq<char>,
    x: char,
    y: char,
    rest: Seq<char>,
    other: Seq<char>,
)
    ensures
        crate::names::text_order(start, start + seq![x] + rest) == TextOrder::Before,
        crate::names::text_order(start + seq![x] + rest, start) == TextOrder::After,
        x as int + 1 <= y as int ==> crate::names::text_order(
            start + seq![x] + rest,
            start + seq![y] + other,
        ) == TextOrder::Before,
        x as int >= y as int + 1 ==> crate::names::text_order(
            start + seq![x] + rest,
            start + seq![y] + other,
        ) == TextOrder::After,
    decreases start.len(),
{
    let a = start + seq![x] + rest;
    let b = start + seq![y] + other;
    if start.len() > 0 {
        lemma_first_difference_decides(start.drop_first(), x, y, rest, other);
        assert(a.drop_first() =~= start.drop_first() + seq![x] + rest);
        assert(b.drop_first() =~= start.drop_first() + seq![y] + other);
        assert(a[0] == start[0] && b[0] == start[0]);
    } else {
        assert(a[0] == x && b[0] == y);
    }
}

/// Lower case turns each capital letter into its small one and leaves every other character alone.
pub proof fn lemma_lower_case(text: Seq<char>, at: int)
    requires
        0 <= at < text.len(),
    ensures
        ({
            let lower = crate::text::lower(text);
            &&& lower.len() == text.len()
            &&& 0x41 <= text[at] as int <= 0x5a ==> lower[at] as int == text[at] as int + 0x20
            &&& !(0x41 <= text[at] as int <= 0x5a) ==> lower[at] == text[at]
        }),
        crate::text::lower(crate::text::lower(text)) == crate::text::lower(text),
{
    assert(crate::text::lower(crate::text::lower(text)) =~= crate::text::lower(text));
}

/// A stage without a layout does nothing; the head takes prompts and the others go on from hidden
/// states; the tail samples from hidden states.
pub proof fn lemma_stages_do_what_they_are_for(layout: Option<StageLayoutModel>, kind: PayloadKind)
    ensures
        crate::stub::prompt_fault(layout) is None <==> layout is Some && layout->0.is_head,
        crate::stub::forward_fault(layout, kind) is None <==> layout is Some && !layout->0.is_head
            && kind is HiddenState,
        crate::stub::sample_fault(layout, kind) is None <==> layout is Some && layout->0.is_tail
            && kind is HiddenState,
        layout is None ==> crate::stub::prompt_fault(layout) == crate::stub::forward_fault(
            layout,
            kind,
        ) && crate::stub::prompt_fault(layout) == crate::stub::sample_fault(layout, kind),
{
}

/// A tensor that went through two stages tells of both, in order, and of the request, prompt and
/// limit that it began with; its bytes and width are those of the last stage, and nothing of an
/// inner state is left.
pub proof fn lemma_tensor_tells_its_way(
    request: Seq<char>,
    first: Seq<char>,
    second: Seq<char>,
    widths: (usize, usize),
    bytes: (Seq<u8>, Seq<u8>),
    prompt: Seq<char>,
    limit: Option<u32>,
)
    ensures
        ({
            let begun = StageTensorModel::of_prompt(request, first, widths.0, bytes.0, prompt, limit);
            let tensor = begun.continued(second, widths.1, bytes.1);
            &&& tensor.request_id == request && begun.request_id == request
            &&& tensor.prompt_text == Some(prompt) && begun.prompt_text == Some(prompt)
            &&& tensor.max_tokens == limit && begun.max_tokens == limit
            &&& begun.stage_trace.len() == 1 && begun.stage_trace[0] == first
            &&& tensor.stage_trace.len() == 2 && tensor.stage_trace[0] == first
                && tensor.stage_trace[1] == second
            &&& begun.hidden_dim == widths.0 && tensor.hidden_dim == widths.1
            &&& begun.bytes == bytes.0 && tensor.bytes == bytes.1
            &&& begun.kind is HiddenState && tensor.kind is HiddenState
            &&& begun.continuation is None && begun.transient is None && begun.carry is None
            &&& tensor.continuation is None && tensor.transient is None && tensor.carry is None
        }),
{
}

/// The made-up state is as wide as asked for, but neither narrower than 64 nor wider than 4096.
pub proof fn lemma_stub_width(hint: usize, other: usize)
    ensures
        64 <= crate::stub::stub_width(hint) <= 4096,
        64 <= hint <= 4096 ==> crate::stub::stub_width(hint) == hint,
        hint <= other ==> crate::stub::stub_width(hint) <= crate::stub::stub_width(other),
{
}

/// Each byte of the made-up state gives the byte of the state before it back, once the stage's name
/// and the place are taken off; without a state before it the prompt and the name take its place.
pub proof fn lemma_stub_state_comes_of_its_input(
    prompt: Seq<char>,
    prior: Seq<u8>,
    hint: usize,
    stage_id: Seq<char>,
    at: int,
)
    requires
        0 <= at < crate::stub::stub_width(hint),
        prior.len() > 0,
        stage_id.len() > 0,
    ensures
        ({
            let state = crate::stub::stub_state(prompt, prior, hint, stage_id);
            let stage = vstd::utf8::encode_utf8(stage_id);
            &&& state.len() == crate::stub::stub_width(hint)
            &&& (state[at] - stage[at % stage.len() as int] - at % 251) % 256 == prior[at
                % prior.len() as int]
        }),
        crate::stub::stub_state(prompt, Seq::empty(), hint, stage_id) == crate::stub::stub_state(
            stage_id,
            vstd::utf8::encode_utf8(prompt) + vstd::utf8::encode_utf8(stage_id),
            hint,
            stage_id,
        ),
{
    crate::stub::lemma_text_has_bytes(stage_id);
    let whole = vstd::utf8::encode_utf8(prompt) + vstd::utf8::encode_utf8(stage_id);
    assert(whole.len() > 0);
    assert(crate::stub::stub_state(prompt, Seq::empty(), hint, stage_id)
        =~= crate::stub::stub_state(stage_id, whole, hint, stage_id));
}

/// The value of a hexadecimal digit in lower case.
pub open spec fn hex_value(ch: char) -> int {
    if '0' <= ch && ch <= '9' {
        ch as int - '0' as int
    } else if 'a' <= ch && ch <= 'f' {
        ch as int - 'a' as int + 10
    } else {
        -1
    }
}

/// Each byte is written as two digits, the upper half first, in the order of the bytes.
pub proof fn lemma_hex_text_can_be_read(bytes: Seq<u8>, at: int)
    requires
        0 <= at < bytes.len(),
    ensures
        ({
            let text = crate::stub::hex_text(bytes);
            &&& text.len() == 2 * bytes.len()
            &&& hex_value(text[2 * at]) == bytes[at] / 16
            &&& hex_value(text[2 * at + 1]) == bytes[at] % 16
        }),
    decreases bytes.len(),
{
    let front = bytes.drop_last();
    let text = crate::stub::hex_text(bytes);
    let start = crate::stub::hex_text(front);
    if front.len() > 0 {
        lemma_hex_text_can_be_read(front, if at < front.len() {
            at
        } else {
            0
        });
    } else {
        assert(start.len() == 0);
    }
    if at < front.len() {
        assert(text[2 * at] == start[2 * at]);
        assert(text[2 * at + 1] == start[2 * at + 1]);
        assert(front[at] == bytes[at]);
    } else {
        let last = crate::stub::hex_byte(bytes.last());
        assert(text[2 * at] == last[0]);
        assert(text[2 * at + 1] == last[1]);
    }
}

/// Joining two lists puts what lies between the texts between what the lists give, too; one text
/// stays as it is.
pub proof fn lemma_joining_lists(a: Seq<Seq<char>>, b: Seq<Seq<char>>, between: Seq<char>)
    requires
        a.len() > 0,
        b.len() > 0,
    ensures
        crate::stub::joined(a + b, between) == crate::stub::joined(a, between) + between
            + crate::stub::joined(b, between),
        a.len() == 1 ==> crate::stub::joined(a, between) == a[0],
    decreases b.len(),
{
    let whole = a + b;
    assert(whole.last() == b.last());
    assert(whole.drop_last() =~= a + b.drop_last());
    if b.len() > 1 {
        lemma_joining_lists(a, b.drop_last(), between);
        assert(crate::stub::joined(whole, between) =~= crate::stub::joined(a, between) + between
            + crate::stub::joined(b, between));
    } else {
        assert(a + b.drop_last() =~= a);
    }
}

/// What is sampled is as long as the limit allows: the stand-in gives at most 96 characters, the
/// small model from 4 to 16 and the packed stage from 4 to 32; and 48, 12 and 16 without a limit.
pub proof fn lemma_limits_of_samples(limit: u32, more: u32)
    ensures
        crate::stub::stub_take(Some(limit)) <= limit && crate::stub::stub_take(Some(limit)) <= 96,
        limit <= 96 ==> crate::stub::stub_take(Some(limit)) == limit,
        limit >= 96 ==> crate::stub::stub_take(Some(limit)) == 96,
        crate::stub::stub_take(None) == 48,
        4 <= crate::toy::toy_take(Some(limit)) <= 16,
        4 <= limit <= 16 ==> crate::toy::toy_take(Some(limit)) == limit,
        limit <= more ==> crate::toy::toy_take(Some(limit)) <= crate::toy::toy_take(Some(more)),
        crate::toy::toy_take(None) == 12,
        4 <= crate::sketch::sketch_take(Some(limit)) <= 32,
        4 <= limit <= 32 ==> crate::sketch::sketch_take(Some(limit)) == limit,
        limit <= more ==> crate::sketch::sketch_take(Some(limit)) <= crate::sketch::sketch_take(
            Some(more),
        ),
        crate::sketch::sketch_take(None) == 16,
{
}

/// The text of the stand-in holds the prompt, the way of the tensor, the model's name and the first
/// sixteen bytes in hexadecimal, with ` :: ` between them, as far as the limit reaches.
pub proof fn lemma_stub_text_tells_its_input(input: StageTensorModel, model_id: Seq<char>, at: int)
    requires
        input.prompt_text is Some,
    ensures
        ({
            let prompt = input.prompt_text->0;
            let way = crate::stub::joined(input.stage_trace, " -> "@);
            let text = crate::stub::stub_text(input, model_id);
            let take = crate::stub::stub_take(input.max_tokens);
            let hex = prompt.len() + 4 + way.len() + 4 + model_id.len() + 4;
            let shown = if input.bytes.len() < 16 {
                input.bytes.len()
            } else {
                16
            };
            &&& text.len() <= take
            &&& text.len() == take || text.len() == hex + 2 * shown
            &&& 0 <= at < prompt.len() && at < take ==> text[at] == prompt[at]
            &&& 0 <= at < way.len() && prompt.len() + 4 + at < take ==> text[prompt.len() + 4 + at]
                == way[at]
            &&& 0 <= at < model_id.len() && prompt.len() + 4 + way.len() + 4 + at < take
                ==> text[prompt.len() + 4 + way.len() + 4 + at] == model_id[at]
            &&& 0 <= at < shown && hex + 2 * at + 1 < take ==> hex_value(text[hex + 2 * at])
                == input.bytes[at] / 16 && hex_value(text[hex + 2 * at + 1]) == input.bytes[at] % 16
        }),
{
    reveal_strlit(" :: ");
    let first = crate::lanes::prefix(input.bytes, 16);
    if first.len() > 0 {
        lemma_hex_text_can_be_read(first, if 0 <= at < first.len() {
            at
        } else {
            0
        });
    } else {
        assert(crate::stub::hex_text(first).len() == 0);
    }
}

proof fn lemma_first_ragged(rows: Seq<Seq<u32>>, dim: nat, from: int)
    requires
        0 <= from,
    ensures
        crate::toy::first_ragged(rows, dim, from) is None <==> forall|i: int|
            from <= i < rows.len() ==> (#[trigger] rows[i]).len() == dim,
        crate::toy::first_ragged(rows, dim, from) is Some ==> ({
            let row = crate::toy::first_ragged(rows, dim, from)->0;
            from <= row < rows.len() && rows[row].len() != dim && forall|i: int|
                from <= i < row ==> (#[trigger] rows[i]).len() == dim
        }),
    decreases rows.len() - from,
{
    if from < rows.len() && rows[from].len() == dim {
        lemma_first_ragged(rows, dim, from + 1);
    }
}

/// A layer has its shape exactly where it has a bias and a row for each dimension, and each row an
/// entry for each; a projection where it has a bias and a row for each character, and each row an
/// entry for each dimension.
pub proof fn lemma_shapes_of_small_models(
    layer: ToyLayerArtifactModel,
    projection: ToyProjectionArtifactModel,
    dim: nat,
)
    ensures
        layer.shape_fault(dim) is None <==> layer.bias.len() == dim && layer.weights.len() == dim
            && forall|i: int| 0 <= i < layer.weights.len() ==> (#[trigger] layer.weights[i]).len()
            == dim,
        projection.shape_fault(dim) is None <==> projection.bias.len() == projection.vocab.len()
            && projection.weights.len() == projection.vocab.len() && forall|i: int|
            0 <= i < projection.weights.len() ==> (#[trigger] projection.weights[i]).len() == dim,
{
    lemma_first_ragged(layer.weights, dim, 0);
    lemma_first_ragged(projection.weights, dim, 0);
}

/// A shard fits a layout exactly where it is of the same model and of the same first and last
/// layer, and holds a layer for each.
pub proof fn lemma_shards_fit_their_layouts(shard: ToyShardArtifactModel, layout: StageLayoutModel)
    requires
        shard.layers.len() <= u32::MAX,
    ensures
        shard.layout_fault(layout) is None <==> {
            &&& shard.model_id == layout.model_id
            &&& shard.start_layer == layout.start_layer && shard.end_layer == layout.end_layer
            &&& shard.start_layer + shard.layers.len() == shard.end_layer + 1
        },
        crate::toy::absence_fault(true, true) is None,
        crate::toy::absence_fault(false, true) is Some && crate::toy::absence_fault(true, false)
            is Some,
        crate::toy::absence_fault(false, false) == crate::toy::absence_fault(false, true),
{
}

/// The layers of a stage are those from its first to its last, each once and in order; those of two
/// stages that follow one another are those of the two as one.
pub proof fn lemma_layers_count_up(first: u32, middle: u32, last: u32, at: int)
    requires
        first <= middle < last,
    ensures
        ({
            let layers = crate::toy::layers_of(first, last);
            &&& layers.len() == last - first + 1
            &&& layers[0] == first && layers.last() == last
            &&& 0 < at < layers.len() ==> layers[at] == layers[at - 1] + 1
        }),
        crate::toy::layers_of(first, middle) + crate::toy::layers_of((middle + 1) as u32, last)
            == crate::toy::layers_of(first, last),
        crate::toy::layers_of(last, first).len() == 0,
{
    assert(crate::toy::layers_of(first, middle) + crate::toy::layers_of((middle + 1) as u32, last)
        =~= crate::toy::layers_of(first, last));
}

/// The first place of a prompt's character is the character's number around the width; the second
/// starts from nothing, moves on by that place with each step and by one with each shift.
pub proof fn lemma_places_of_a_character(index: nat, width: nat, step: nat, shift: nat)
    requires
        width > 0,
    ensures
        crate::toy::prompt_places(index, width, step, shift).0 < width,
        crate::toy::prompt_places(index, width, step, shift).1 < width,
        index < width ==> crate::toy::prompt_places(index, width, step, shift).0 == index,
        crate::toy::prompt_places(index + width, width, step, shift) == crate::toy::prompt_places(
            index,
            width,
            step,
            shift,
        ),
        crate::toy::prompt_places(index, width, 0, 0).1 == 0,
        crate::toy::prompt_places(index, width, step + 1, shift).1 == (crate::toy::prompt_places(
            index,
            width,
            step,
            shift,
        ).1 + crate::toy::prompt_places(index, width, step, shift).0) % width,
        crate::toy::prompt_places(index, width, step, shift + 1).1 == (crate::toy::prompt_places(
            index,
            width,
            step,
            shift,
        ).1 + 1) % width,
{
    let place = index % width;
    let w = width as int;
    assert((index + width) % width == index % width) by {
        vstd::arithmetic::div_mod::lemma_mod_add_multiples_vanish(index as int, w);
    }
    assert(0 * place + 0 == 0);
    assert(place * 0 == 0) by (nonlinear_arith);
    vstd::arithmetic::div_mod::lemma_small_mod(0, width);
    assert(place * (step + 1) == place * step + place) by (nonlinear_arith);
    vstd::arithmetic::div_mod::lemma_add_mod_noop(
        (place * step + shift) as int,
        place as int,
        w,
    );
    vstd::arithmetic::div_mod::lemma_mod_twice(index as int, w);
    vstd::arithmetic::div_mod::lemma_add_mod_noop((place * step + shift) as int, 1, w);
    vstd::arithmetic::div_mod::lemma_add_mod_noop(
        ((place * step + shift) % width) as int,
        1,
        w,
    );
    vstd::arithmetic::div_mod::lemma_mod_twice((place * step + shift) as int, w);
    vstd::arithmetic::div_mod::lemma_mod_bound(index as int, w);
    vstd::arithmetic::div_mod::lemma_mod_bound((place * step + shift) as int, w);
    if index < width {
        vstd::arithmetic::div_mod::lemma_small_mod(index, width);
    }
}

/// The weights of the reference model lie below seventeen; they are the same for a character and a
/// token that change places, grow evenly with the character, and start from the dimension.
pub proof fn lemma_reference_weights(character: nat, dim: nat, token: nat)
    ensures
        crate::toy::reference_weight(character, dim, token) < 17,
        crate::toy::reference_weight(character, dim, token) == crate::toy::reference_weight(
            token,
            dim,
            character,
        ),
        crate::toy::reference_weight(character + 1, dim, token) == (crate::toy::reference_weight(
            character,
            dim,
            token,
        ) + crate::toy::reference_weight(0, dim, token)) % 17,
        crate::toy::reference_weight(0, dim, 0) == (dim + 3) % 17,
{
    let step = ((dim + 3) * (token + 1)) as int;
    let here = ((character + 1) * (dim + 3) * (token + 1)) as int;
    assert((character + 1) * (dim + 3) * (token + 1) == (token + 1) * (dim + 3) * (character + 1))
        by (nonlinear_arith);
    assert((character + 1 + 1) * (dim + 3) * (token + 1) == here + step) by (nonlinear_arith)
        requires
            here == (character + 1) * (dim + 3) * (token + 1),
            step == (dim + 3) * (token + 1),
    ;
    assert((0 + 1) * (dim + 3) * (token + 1) == step) by (nonlinear_arith)
        requires
            step == (dim + 3) * (token + 1),
    ;
    assert((0 + 1) * (dim + 3) * (0 + 1) == dim + 3) by (nonlinear_arith);
    vstd::arithmetic::div_mod::lemma_add_mod_noop(here, step, 17);
}

/// A sample has the code of each character as a token, in order, and counts them.
pub proof fn lemma_samples_count_characters(
    request: Seq<char>,
    model: Seq<char>,
    text: Seq<char>,
    at: int,
)
    requires
        0 <= at < text.len() <= u32::MAX,
    ensures
        ({
            let sample = StageSampleModel::of_text(request, model, text);
            &&& sample.request_id == request && sample.model_id == model && sample.text == text
            &&& sample.token_ids.len() == text.len() && sample.completion_tokens == text.len()
            &&& sample.token_ids[at] == text[at] as u32
        }),
{
}

/// The small model samples a space, capital letters, a colon or a hyphen; the packed stage digits,
/// too.
pub proof fn lemma_characters_of_samples(at: int)
    ensures
        crate::toy::toy_vocabulary().len() == 29,
        crate::sketch::sketch_vocabulary().len() == 39,
        crate::toy::toy_vocabulary()[0] == ' ' && crate::sketch::sketch_vocabulary()[0] == ' ',
        1 <= at <= 26 ==> crate::toy::toy_vocabulary()[at] as int == 'A' as int + at - 1
            && crate::sketch::sketch_vocabulary()[at] as int == 'A' as int + at - 1,
        27 <= at <= 36 ==> crate::sketch::sketch_vocabulary()[at] as int == '0' as int + at - 27,
        crate::toy::toy_vocabulary()[27] == ':' && crate::sketch::sketch_vocabulary()[37] == ':',
        crate::toy::toy_vocabulary()[28] == '-' && crate::sketch::sketch_vocabulary()[38] == '-',
{
    reveal_strlit(" ABCDEFGHIJKLMNOPQRSTUVWXYZ:-");
    reveal_strlit(" ABCDEFGHIJKLMNOPQRSTUVWXYZ0123456789:-");
}

/// A prompt that is left raw stays as it is; one for the instructed model stands between the marks
/// of the user's and the model's turn, without the space around it.
pub proof fn lemma_prompts_are_wrapped(prompt: Seq<char>)
    ensures
        crate::prompting::formatted(GemmaPromptMode::Raw, prompt) == prompt,
        ({
            let text = crate::prompting::formatted(GemmaPromptMode::GemmaInstruct, prompt);
            let start = "<|turn>user\n"@;
            let end = "<turn|>\n<|turn>model\n"@;
            &&& text.len() == start.len() + crate::text::trim(prompt).len() + end.len()
            &&& text.take(start.len() as int) == start
            &&& text.skip(text.len() - end.len()) == end
            &&& text.subrange(start.len() as int, text.len() - end.len()) == crate::text::trim(prompt)
        }),
{
    let text = crate::prompting::formatted(GemmaPromptMode::GemmaInstruct, prompt);
    let start = "<|turn>user\n"@;
    let end = "<turn|>\n<|turn>model\n"@;
    assert(text.take(start.len() as int) =~= start);
    assert(text.skip(text.len() - end.len()) =~= end);
    assert(text.subrange(start.len() as int, text.len() - end.len()) =~= crate::text::trim(prompt));
}

/// The whole suite runs every prompt; the short one exactly those of its tier, in the same order.
pub proof fn lemma_suites_run_their_prompts(tier: ValidationPromptTier, case: ValidationPromptCaseModel)
    ensures
        ValidationPromptSuiteMode::All.runs(tier),
        ValidationPromptSuiteMode::Core.runs(tier) <==> tier is Core,
        crate::prompt_suite::cases_of(ValidationPromptSuiteMode::All).contains(case)
            <==> crate::prompt_suite::gemma_cases().contains(case),
        crate::prompt_suite::cases_of(ValidationPromptSuiteMode::Core).contains(case)
            <==> crate::prompt_suite::gemma_cases().contains(case) && case.tier is Core,
{
    let cases = crate::prompt_suite::gemma_cases();
    let core = |case: ValidationPromptCaseModel| ValidationPromptSuiteMode::Core.runs(case.tier);
    let all = |case: ValidationPromptCaseModel| ValidationPromptSuiteMode::All.runs(case.tier);
    broadcast use vstd::seq_lib::group_filter_ensures;

    if cases.contains(case) {
        let i = choose|i: int| 0 <= i < cases.len() && cases[i] == case;
        cases.lemma_filter_contains(all, i);
        if case.tier is Core {
            cases.lemma_filter_contains(core, i);
        }
    }
    if cases.filter(all).contains(case) {
        cases.lemma_filter_contains_rev(all, case);
    }
    if cases.filter(core).contains(case) {
        cases.lemma_filter_contains_rev(core, case);
        let j = choose|j: int| 0 <= j < cases.filter(core).len() && cases.filter(core)[j] == case;
        assert(core(cases.filter(core)[j]));
    }
}

/// An exact expectation is met by its text alone, whatever the space around it; one of several
/// candidates by each text that one of them stands in, whatever the case of the letters.
pub proof fn lemma_expectations_are_met(
    before: Seq<char>,
    candidates: Seq<Seq<char>>,
    at: int,
    after: Seq<char>,
    text: Seq<char>,
    expected: Seq<char>,
)
    requires
        0 <= at < candidates.len(),
    ensures
        PromptExpectationModel::ContainsAny(candidates).accepts(before + candidates[at] + after),
        PromptExpectationModel::ContainsAny(candidates).accepts(text)
            == PromptExpectationModel::ContainsAny(candidates).accepts(crate::text::lower(text)),
        !PromptExpectationModel::ContainsAny(Seq::empty()).accepts(text),
        PromptExpectationModel::ContainsAny(candidates).accepts(text) ==> exists|i: int|
            0 <= i < candidates.len() && text.len() >= (#[trigger] candidates[i]).len(),
        PromptExpectationModel::Exact(expected).accepts(text) <==> crate::text::trim(text)
            == expected,
{
    let whole = before + candidates[at] + after;
    let lower = crate::text::lower(whole);
    let needle = crate::text::lower(candidates[at]);
    let place = before.len() as int;
    assert(lower.subrange(place, place + needle.len()) =~= needle);
    assert(crate::text::stands_at(lower, needle, place));
    assert(crate::text::contains(lower, needle));
    assert(crate::text::lower(crate::text::lower(text)) =~= crate::text::lower(text));
}

/// Whether a choice, by its place, is a space among the characters of a sample.
pub open spec fn is_gap(place: int) -> bool {
    place == 0
}

/// The packed stage samples a character for each byte of the state, over and over, in order, and
/// leaves spaces at the ends out. So where the first and the last are no spaces, each of them
/// stands in the text.
pub proof fn lemma_packed_stage_samples_its_bytes(bytes: Seq<u8>, limit: Option<u32>, at: int)
    requires
        bytes.len() > 0,
        0 <= at < crate::sketch::sketch_take(limit),
        !is_gap(bytes[0] as int % 39),
        !is_gap(bytes[(crate::sketch::sketch_take(limit) - 1) % bytes.len() as int] as int % 39),
    ensures
        ({
            let text = crate::sketch::sketch_text(bytes, limit);
            let place = bytes[at % bytes.len() as int] as int % 39;
            &&& text.len() == crate::sketch::sketch_take(limit)
            &&& place == 0 ==> text[at] == ' '
            &&& 1 <= place <= 26 ==> text[at] as int == 'A' as int + place - 1
            &&& 27 <= place <= 36 ==> text[at] as int == '0' as int + place - 27
            &&& place == 37 ==> text[at] == ':'
            &&& place == 38 ==> text[at] == '-'
        }),
{
    let take = crate::sketch::sketch_take(limit);
    let vocabulary = crate::sketch::sketch_vocabulary();
    let whole = Seq::new(
        take,
        |i: int| vocabulary[bytes[i % bytes.len() as int] as int % 39],
    );
    vstd::arithmetic::div_mod::lemma_small_mod(0, bytes.len());
    assert forall|place: int| 0 <= place < 39 && !is_gap(place) implies !crate::text::is_space(
        #[trigger] vocabulary[place],
    ) by {
        lemma_characters_of_samples(place);
    }
    lemma_characters_of_samples(bytes[at % bytes.len() as int] as int % 39);
    assert(whole[0] == vocabulary[bytes[0] as int % 39]);
    assert(whole.last() == vocabulary[bytes[(take - 1) % bytes.len() as int] as int % 39]);
    assert(crate::text::trim(whole) == whole);
}

/// The reference model gives the character of each choice, in order, and leaves spaces at the ends
/// out.
pub proof fn lemma_reference_model_gives_its_choices(choices: Seq<usize>, at: int)
    requires
        0 <= at < choices.len(),
        forall|i: int| 0 <= i < choices.len() ==> #[trigger] choices[i] < 29,
        !is_gap(choices[0] as int),
        !is_gap(choices.last() as int),
    ensures
        ({
            let text = crate::toy::toy_text(choices);
            let place = choices[at] as int;
            &&& text.len() == choices.len()
            &&& place == 0 ==> text[at] == ' '
            &&& 1 <= place <= 26 ==> text[at] as int == 'A' as int + place - 1
            &&& place == 27 ==> text[at] == ':'
            &&& place == 28 ==> text[at] == '-'
        }),
{
    let vocabulary = crate::toy::toy_vocabulary();
    let whole = choices.map_values(|choice: usize| vocabulary[choice as int]);
    assert forall|place: int| 0 <= place < 29 && !is_gap(place) implies !crate::text::is_space(
        #[trigger] vocabulary[place],
    ) by {
        lemma_characters_of_samples(place);
    }
    lemma_characters_of_samples(choices[at] as int);
    assert(whole[0] == vocabulary[choices[0] as int]);
    assert(whole.last() == vocabulary[choices.last() as int]);
    assert(crate::text::trim(whole) == whole);
}

} // verus!
