//! What holds of comparing states and of marking them: equal states are the same but for the sign
//! of zeros, age counts layers, and a checksum tells previews apart.
use vstd::prelude::*;
use crate::carry::{
    AttentionCheckpointProvenanceModel, CarryableAttentionMixStateModel,
    CarryableAttentionProjectionStateModel, CarryableAttentionStateModel, CarryableFfnStateModel,
    StageCarryStateModel,
};
use crate::frame::{
    PreviewStatistics, StageForwardFrameModel, StageTransferFrameModel,
    StageTransferStateEnvelopeModel, StageTransferTransientState, TransientSignature,
    TransientStatistics,
};
use crate::resume::StageResumeRequestModel;
use crate::tensor::{
    AttentionContinuationModel, FfnContinuationModel, StageStateEnvelopeModel, StageTensorModel,
    StageTransientStateModel,
};

verus! {

/// Whether each bit pattern is a number other than zero, of either sign.
pub open spec fn plain(values: Seq<u32>) -> bool {
    forall|i: int|
        0 <= i < values.len() ==> 0 < #[trigger] values[i] % 0x8000_0000 && values[i] % 0x8000_0000
            <= 0x7f80_0000
}

/// Whether an attention preview holds only numbers other than zero.
pub open spec fn plain_attention_preview(value: AttentionContinuationModel) -> bool {
    plain(value.q_preview) && plain(value.k_preview) && plain(value.v_preview) && plain(
        value.score_preview,
    ) && plain(value.value_preview)
}

/// Whether a feed-forward preview holds only numbers other than zero.
pub open spec fn plain_ffn_preview(value: FfnContinuationModel) -> bool {
    plain(value.gate_preview) && plain(value.up_preview) && plain(value.activation_preview)
}

/// Whether previews hold only numbers other than zero.
pub open spec fn plain_previews(value: Option<StageTransientStateModel>) -> bool {
    value is Some ==> (value->0.attention is Some ==> plain_attention_preview(value->0.attention->0))
        && (value->0.ffn is Some ==> plain_ffn_preview(value->0.ffn->0))
}

/// Whether carried projections hold only numbers other than zero.
pub open spec fn plain_projection(value: CarryableAttentionProjectionStateModel) -> bool {
    plain(value.q) && plain(value.k) && plain(value.v)
}

/// Whether a carried mix holds only numbers other than zero.
pub open spec fn plain_mix(value: CarryableAttentionMixStateModel) -> bool {
    plain(value.scores) && plain(value.values)
}

/// Whether carried attention holds only numbers other than zero.
pub open spec fn plain_attention(value: CarryableAttentionStateModel) -> bool {
    (value.projection is Some ==> plain_projection(value.projection->0)) && (value.mix is Some
        ==> plain_mix(value.mix->0))
}

/// Whether a carried feed-forward state holds only numbers other than zero.
pub open spec fn plain_ffn(value: CarryableFfnStateModel) -> bool {
    plain(value.gate_head) && plain(value.up_head) && plain(value.activation_head)
}

/// Whether a carry holds only numbers other than zero.
pub open spec fn plain_carry(value: Option<StageCarryStateModel>) -> bool {
    value is Some ==> (value->0.attention is Some ==> plain_attention(value->0.attention->0)) && (
    value->0.ffn is Some ==> plain_ffn(value->0.ffn->0))
}

/// Numbers other than zero compare equal exactly where their bit patterns are equal.
pub proof fn lemma_plain_numbers_compare_exactly(a: Seq<u32>, b: Seq<u32>)
    requires
        plain(a),
    ensures
        crate::number::same_numbers(a, b) <==> a == b,
        crate::number::all_numbers(a),
{
    if crate::number::same_numbers(a, b) {
        assert forall|i: int| 0 <= i < a.len() implies a[i] == b[i] by {
            assert(crate::number::same_number(a[i], b[i]));
            assert(0 < a[i] % 0x8000_0000);
        }
        assert(a =~= b);
    }
    if a == b {
        assert forall|i: int| 0 <= i < a.len() implies crate::number::same_number(
            #[trigger] a[i],
            b[i],
        ) by {
            assert(a[i] % 0x8000_0000 <= 0x7f80_0000);
        }
    }
    assert forall|i: int| 0 <= i < a.len() implies !crate::number::is_nan(#[trigger] a[i]) by {
        assert(a[i] % 0x8000_0000 <= 0x7f80_0000);
    }
}

/// Numbers compare equal to themselves exactly where each one is a number.
pub proof fn lemma_numbers_are_their_own_equals(values: Seq<u32>)
    ensures
        crate::number::same_numbers(values, values) <==> crate::number::all_numbers(values),
{
    if crate::number::same_numbers(values, values) {
        assert forall|i: int| 0 <= i < values.len() implies !crate::number::is_nan(
            #[trigger] values[i],
        ) by {
            assert(crate::number::same_number(values[i], values[i]));
        }
    }
}

/// Previews without zeros compare equal exactly where they are the same.
pub proof fn lemma_previews_compare_exactly(
    a: AttentionContinuationModel,
    b: AttentionContinuationModel,
    x: FfnContinuationModel,
    y: FfnContinuationModel,
)
    ensures
        plain_attention_preview(a) ==> (a.agrees(b) <==> a == b),
        plain_ffn_preview(x) ==> (x.agrees(y) <==> x == y),
        a.agrees(a) <==> a.all_numbers(),
        x.agrees(x) <==> x.all_numbers(),
{
    if plain_attention_preview(a) {
        lemma_plain_numbers_compare_exactly(a.q_preview, b.q_preview);
        lemma_plain_numbers_compare_exactly(a.k_preview, b.k_preview);
        lemma_plain_numbers_compare_exactly(a.v_preview, b.v_preview);
        lemma_plain_numbers_compare_exactly(a.score_preview, b.score_preview);
        lemma_plain_numbers_compare_exactly(a.value_preview, b.value_preview);
    }
    if plain_ffn_preview(x) {
        lemma_plain_numbers_compare_exactly(x.gate_preview, y.gate_preview);
        lemma_plain_numbers_compare_exactly(x.up_preview, y.up_preview);
        lemma_plain_numbers_compare_exactly(x.activation_preview, y.activation_preview);
    }
    lemma_numbers_are_their_own_equals(a.q_preview);
    lemma_numbers_are_their_own_equals(a.k_preview);
    lemma_numbers_are_their_own_equals(a.v_preview);
    lemma_numbers_are_their_own_equals(a.score_preview);
    lemma_numbers_are_their_own_equals(a.value_preview);
    lemma_numbers_are_their_own_equals(x.gate_preview);
    lemma_numbers_are_their_own_equals(x.up_preview);
    lemma_numbers_are_their_own_equals(x.activation_preview);
}

/// Carried slices without zeros compare equal exactly where they are the same, lanes, widths and
/// origins included.
pub proof fn lemma_slices_compare_exactly(
    a: CarryableAttentionProjectionStateModel,
    b: CarryableAttentionProjectionStateModel,
    x: CarryableAttentionMixStateModel,
    y: CarryableAttentionMixStateModel,
)
    ensures
        plain_projection(a) ==> (a.agrees(b) <==> a == b),
        plain_mix(x) ==> (x.agrees(y) <==> x == y),
        a.agrees(a) <==> a.all_numbers(),
        x.agrees(x) <==> x.all_numbers(),
{
    if plain_projection(a) {
        lemma_plain_numbers_compare_exactly(a.q, b.q);
        lemma_plain_numbers_compare_exactly(a.k, b.k);
        lemma_plain_numbers_compare_exactly(a.v, b.v);
    }
    if plain_mix(x) {
        lemma_plain_numbers_compare_exactly(x.scores, y.scores);
        lemma_plain_numbers_compare_exactly(x.values, y.values);
    }
    lemma_numbers_are_their_own_equals(a.q);
    lemma_numbers_are_their_own_equals(a.k);
    lemma_numbers_are_their_own_equals(a.v);
    lemma_numbers_are_their_own_equals(x.scores);
    lemma_numbers_are_their_own_equals(x.values);
}

/// Carried states without zeros compare equal exactly where they are the same.
pub proof fn lemma_carried_states_compare_exactly(
    a: CarryableAttentionStateModel,
    b: CarryableAttentionStateModel,
    x: CarryableFfnStateModel,
    y: CarryableFfnStateModel,
)
    ensures
        plain_attention(a) ==> (a.agrees(b) <==> a == b),
        plain_ffn(x) ==> (x.agrees(y) <==> x == y),
        a.agrees(a) <==> a.all_numbers(),
        x.agrees(x) <==> x.all_numbers(),
{
    let projections = (a.projection->0, b.projection->0);
    let mixes = (a.mix->0, b.mix->0);
    lemma_slices_compare_exactly(projections.0, projections.1, mixes.0, mixes.1);
    if plain_ffn(x) {
        lemma_plain_numbers_compare_exactly(x.gate_head, y.gate_head);
        lemma_plain_numbers_compare_exactly(x.up_head, y.up_head);
        lemma_plain_numbers_compare_exactly(x.activation_head, y.activation_head);
    }
    lemma_numbers_are_their_own_equals(x.gate_head);
    lemma_numbers_are_their_own_equals(x.up_head);
    lemma_numbers_are_their_own_equals(x.activation_head);
    if plain_attention(a) && a.agrees(b) {
        assert(a.projection == b.projection);
        assert(a.mix == b.mix);
    }
}

/// Carries and previews without zeros compare equal exactly where they are the same, and to
/// themselves exactly where they hold nothing but numbers.
pub proof fn lemma_states_compare_exactly(
    a: Option<StageCarryStateModel>,
    b: Option<StageCarryStateModel>,
    x: Option<StageTransientStateModel>,
    y: Option<StageTransientStateModel>,
)
    ensures
        plain_carry(a) ==> (StageCarryStateModel::agree(a, b) <==> a == b),
        plain_previews(x) ==> (StageTransientStateModel::agree(x, y) <==> x == y),
        a is Some ==> (a->0.agrees(a->0) <==> a->0.all_numbers()),
        x is Some ==> (x->0.agrees(x->0) <==> x->0.all_numbers()),
        a is Some && b is Some ==> StageCarryStateModel::agree(a, b) == a->0.agrees(b->0),
        x is Some && y is Some ==> StageTransientStateModel::agree(x, y) == x->0.agrees(y->0),
{
    lemma_carried_states_compare_exactly(
        a->0.attention->0,
        b->0.attention->0,
        a->0.ffn->0,
        b->0.ffn->0,
    );
    lemma_previews_compare_exactly(
        x->0.attention->0,
        y->0.attention->0,
        x->0.ffn->0,
        y->0.ffn->0,
    );
    if plain_carry(a) && StageCarryStateModel::agree(a, b) && a is Some {
        assert(a->0.attention == b->0.attention);
        assert(a->0.ffn == b->0.ffn);
    }
    if plain_previews(x) && StageTransientStateModel::agree(x, y) && x is Some {
        assert(x->0.attention == y->0.attention);
        assert(x->0.ffn == y->0.ffn);
    }
}

/// Tensors and their states without zeros compare equal exactly where they are the same.
pub proof fn lemma_tensors_compare_exactly(
    a: StageTensorModel,
    b: StageTensorModel,
    x: StageStateEnvelopeModel,
    y: StageStateEnvelopeModel,
)
    ensures
        plain_carry(a.carry) && plain_previews(a.transient) ==> (a.agrees(b) <==> a == b),
        plain_carry(x.carry) && plain_previews(x.transient) ==> (x.agrees(y) <==> x == y),
{
    lemma_states_compare_exactly(a.carry, b.carry, a.transient, b.transient);
    lemma_states_compare_exactly(x.carry, y.carry, x.transient, y.transient);
}

/// Frames, transfers and requests without zeros compare equal exactly where they are the same.
pub proof fn lemma_frames_compare_exactly(
    a: StageForwardFrameModel,
    b: StageForwardFrameModel,
    x: StageTransferFrameModel,
    y: StageTransferFrameModel,
    p: StageResumeRequestModel,
    q: StageResumeRequestModel,
)
    ensures
        plain_carry(a.payload.carry) && plain_previews(a.payload.transient) && plain_carry(
            a.state.carry,
        ) && plain_previews(a.state.transient) ==> (a.agrees(b) <==> a == b),
        plain_carry(x.state.carry) ==> (x.agrees(y) <==> x == y),
        plain_carry(x.state.carry) ==> (x.state.agrees(y.state) <==> x.state == y.state),
        plain_carry(p.transfer.state.carry) ==> (p.agrees(q) <==> p == q),
{
    lemma_tensors_compare_exactly(a.payload, b.payload, a.state, b.state);
    lemma_states_compare_exactly(x.state.carry, y.state.carry, None, None);
    lemma_states_compare_exactly(p.transfer.state.carry, q.transfer.state.carry, None, None);
}

/// A carry that is so many layers older has the same vectors at the same lanes under the same
/// contracts; only the origins of its attention are so much further away. Its feed-forward state
/// stays as it is.
pub proof fn lemma_age_counts_layers(
    carry: StageCarryStateModel,
    origin: AttentionCheckpointProvenanceModel,
    layers: u32,
)
    ensures
        ({
            let older = carry.aged(layers);
            &&& older.ffn == carry.ffn
            &&& (older.attention is Some <==> carry.attention is Some)
            &&& carry.attention is Some ==> crate::layer_laws::is_older_attention(
                older.attention->0,
                carry.attention->0,
                layers as int,
            )
        }),
        crate::layer_laws::is_older(Some(origin.aged(layers)), Some(origin), layers as int),
        AttentionCheckpointProvenanceModel::invalid(Some(origin)) <==> origin.layer_index
            < origin.layer_distance_to_boundary,
        !AttentionCheckpointProvenanceModel::invalid(None),
{
}

/// The checksum of a preview with one more entry is that of the preview times 16777619 and the
/// entry, in 64 bits. So previews that differ in their last entry alone have different checksums.
pub proof fn lemma_checksum_grows_by_entry(preview: Seq<u32>, entry: u32, other: u32)
    ensures
        TransientSignature::checksum_of(preview.push(entry)) == (
        TransientSignature::checksum_of(preview) * 16777619 + entry) % 0x1_0000_0000_0000_0000,
        TransientSignature::checksum_of(seq![entry]) == entry,
        TransientSignature::checksum_of(Seq::empty()) == 0,
        entry != other ==> TransientSignature::checksum_of(preview.push(entry))
            != TransientSignature::checksum_of(preview.push(other)),
{
    assert(preview.push(entry).drop_last() =~= preview);
    assert(preview.push(other).drop_last() =~= preview);
    assert(seq![entry].drop_last() =~= Seq::empty());
    assert(TransientSignature::checksum_of(Seq::<u32>::empty()) == 0);
}

/// The signature of a preview tells its width, its length, its averages and its checksum; that of
/// an empty one only its width.
pub proof fn lemma_signatures_tell_of_previews(
    width: usize,
    preview: Seq<u32>,
    statistics: PreviewStatistics,
)
    requires
        preview.len() <= usize::MAX,
    ensures
        ({
            let signature = TransientSignature::of_preview(width, preview, statistics);
            &&& signature.width == width && signature.preview_len == preview.len()
            &&& signature.checksum == TransientSignature::checksum_of(preview)
            &&& preview.len() > 0 ==> signature.mean_milli == statistics.mean_milli
                && signature.mean_abs_milli == statistics.mean_abs_milli && signature.rms_milli
                == statistics.rms_milli
            &&& preview.len() == 0 ==> signature.mean_milli == 0 && signature.mean_abs_milli == 0
                && signature.rms_milli == 0
        }),
{
}

/// The vectors of a preview lie one after the other: queries, keys, values, scores and mixed
/// values; gate, up projection and activation.
pub proof fn lemma_previews_lie_one_after_the_other(
    attention: AttentionContinuationModel,
    ffn: FfnContinuationModel,
    at: int,
)
    requires
        at >= 0,
    ensures
        ({
            let all = attention.flattened();
            let k = attention.q_preview.len();
            let v = k + attention.k_preview.len();
            let score = v + attention.v_preview.len();
            let value = score + attention.score_preview.len();
            &&& all.len() == value + attention.value_preview.len()
            &&& at < attention.q_preview.len() ==> all[at] == attention.q_preview[at]
            &&& at < attention.k_preview.len() ==> all[k + at] == attention.k_preview[at]
            &&& at < attention.v_preview.len() ==> all[v + at] == attention.v_preview[at]
            &&& at < attention.score_preview.len() ==> all[score + at]
                == attention.score_preview[at]
            &&& at < attention.value_preview.len() ==> all[value + at]
                == attention.value_preview[at]
        }),
        ({
            let all = ffn.flattened();
            let up = ffn.gate_preview.len();
            let activation = up + ffn.up_preview.len();
            &&& all.len() == activation + ffn.activation_preview.len()
            &&& at < ffn.gate_preview.len() ==> all[at] == ffn.gate_preview[at]
            &&& at < ffn.up_preview.len() ==> all[up + at] == ffn.up_preview[at]
            &&& at < ffn.activation_preview.len() ==> all[activation + at]
                == ffn.activation_preview[at]
        }),
{
}

/// A tensor with another state has that state, each part at its own place, and is otherwise as it
/// was.
pub proof fn lemma_states_are_put_in_place(tensor: StageTensorModel, state: StageStateEnvelopeModel)
    ensures
        ({
            let other = tensor.with_state(state);
            &&& other.continuation == state.continuation && other.transient == state.transient
                && other.carry == state.carry
            &&& other.request_id == tensor.request_id && other.kind == tensor.kind
            &&& other.stage_trace == tensor.stage_trace && other.hidden_dim == tensor.hidden_dim
            &&& other.bytes == tensor.bytes && other.prompt_text == tensor.prompt_text
            &&& other.max_tokens == tensor.max_tokens
        }),
        tensor.state().continuation == tensor.continuation,
        tensor.state().transient == tensor.transient,
        tensor.state().carry == tensor.carry,
{
}

/// What crosses a boundary of the previews is a signature of each, with its own width, entries and
/// averages, exactly where there is such a preview.
pub proof fn lemma_previews_are_signed_by_part(
    value: StageTransientStateModel,
    statistics: TransientStatistics,
)
    requires
        value.attention is Some ==> value.attention->0.flattened().len() <= usize::MAX,
        value.ffn is Some ==> value.ffn->0.flattened().len() <= usize::MAX,
    ensures
        ({
            let signed = StageTransferTransientState::of_transient(value, statistics);
            let attention = value.attention->0;
            let ffn = value.ffn->0;
            &&& (signed.attention is Some <==> value.attention is Some)
            &&& (signed.ffn is Some <==> value.ffn is Some)
            &&& value.attention is Some ==> {
                &&& signed.attention->0.width == attention.width
                &&& signed.attention->0.preview_len == attention.flattened().len()
                &&& signed.attention->0.checksum == TransientSignature::checksum_of(
                    attention.flattened(),
                )
                &&& attention.flattened().len() > 0 ==> signed.attention->0.mean_milli
                    == statistics.attention.mean_milli && signed.attention->0.mean_abs_milli
                    == statistics.attention.mean_abs_milli && signed.attention->0.rms_milli
                    == statistics.attention.rms_milli
            }
            &&& value.ffn is Some ==> {
                &&& signed.ffn->0.width == ffn.width
                &&& signed.ffn->0.preview_len == ffn.flattened().len()
                &&& signed.ffn->0.checksum == TransientSignature::checksum_of(ffn.flattened())
                &&& ffn.flattened().len() > 0 ==> signed.ffn->0.mean_milli
                    == statistics.ffn.mean_milli && signed.ffn->0.mean_abs_milli
                    == statistics.ffn.mean_abs_milli && signed.ffn->0.rms_milli
                    == statistics.ffn.rms_milli
            }
        }),
{
    if value.attention is Some {
        lemma_signatures_tell_of_previews(
            value.attention->0.width,
            value.attention->0.flattened(),
            statistics.attention,
        );
    }
    if value.ffn is Some {
        lemma_signatures_tell_of_previews(
            value.ffn->0.width,
            value.ffn->0.flattened(),
            statistics.ffn,
        );
    }
}

} // verus!
