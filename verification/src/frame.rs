//! Frames: a tensor with its route, and the compact form in which it crosses a boundary.
use vstd::prelude::*;
use vstd::string::*;
use crate::carry::{StageCarryPolicy, StageCarryState, StageCarryStateModel};
use crate::execution::{LayerExecutionProgram, StageResumeBudgets, StageResumeCapabilities};
use crate::model::{clone_texts, fail, fail_with, same_opt_text, same_texts, StageError};
use crate::number::equal_bytes;
use crate::tensor::{
    AttentionContinuation, AttentionContinuationModel, FfnContinuation, FfnContinuationModel,
    PayloadKind, StageContinuation, StageContinuationModel, StageLayout, StageLayoutModel,
    StageStateEnvelope, StageStateEnvelopeModel, StageTensor, StageTensorModel,
    StageTransientState, StageTransientStateModel,
};
use crate::text::{debug_opt_str, decimal, size_text};

verus! {

/// The frame version that this library writes and reads.
pub const STAGE_FORWARD_FRAME_VERSION: u32 = 1;

/// The multiplier of the preview checksum.
pub const CHECKSUM_MULTIPLIER: u64 = 16777619;

/// Where a frame comes from and goes to.
#[derive(Debug, PartialEq, Eq)]
pub struct StageRoute {
    pub source_stage_id: String,
    pub source_stage_start: u32,
    pub source_stage_end: u32,
    pub source_stage_role: String,
    pub target_stage_id: Option<String>,
}

/// What a [`StageRoute`] holds, as mathematical values.
#[verifier::ext_equal]
pub struct StageRouteModel {
    pub source_stage_id: Seq<char>,
    pub source_stage_start: u32,
    pub source_stage_end: u32,
    pub source_stage_role: Seq<char>,
    pub target_stage_id: Option<Seq<char>>,
}

impl View for StageRoute {
    type V = StageRouteModel;

    open spec fn view(&self) -> StageRouteModel {
        StageRouteModel {
            source_stage_id: self.source_stage_id@,
            source_stage_start: self.source_stage_start,
            source_stage_end: self.source_stage_end,
            source_stage_role: self.source_stage_role@,
            target_stage_id: crate::model::opt(self.target_stage_id),
        }
    }
}

impl Clone for StageRoute {
    fn clone(&self) -> (r: Self)
        ensures
            r@ == self@,
    {
        StageRoute {
            source_stage_id: self.source_stage_id.clone(),
            source_stage_start: self.source_stage_start,
            source_stage_end: self.source_stage_end,
            source_stage_role: self.source_stage_role.clone(),
            target_stage_id: self.target_stage_id.clone(),
        }
    }
}

/// A tensor with its route and its state.
#[derive(Debug)]
pub struct StageForwardFrame {
    pub version: u32,
    pub model_id: String,
    pub route: StageRoute,
    pub payload: StageTensor,
    pub state: StageStateEnvelope,
}

/// What a [`StageForwardFrame`] holds, as mathematical values.
#[verifier::ext_equal]
pub struct StageForwardFrameModel {
    pub version: u32,
    pub model_id: Seq<char>,
    pub route: StageRouteModel,
    pub payload: StageTensorModel,
    pub state: StageStateEnvelopeModel,
}

impl View for StageForwardFrame {
    type V = StageForwardFrameModel;

    open spec fn view(&self) -> StageForwardFrameModel {
        StageForwardFrameModel {
            version: self.version,
            model_id: self.model_id@,
            route: self.route@,
            payload: self.payload@,
            state: self.state@,
        }
    }
}

impl Clone for StageForwardFrame {
    fn clone(&self) -> (r: Self)
        ensures
            r@ == self@,
    {
        StageForwardFrame {
            version: self.version,
            model_id: self.model_id.clone(),
            route: self.route.clone(),
            payload: self.payload.clone(),
            state: self.state.clone(),
        }
    }
}

/// What a frame holds, at a glance.
#[derive(Debug, PartialEq, Eq)]
pub struct StageForwardFrameSummary {
    pub request_id: String,
    pub model_id: String,
    pub source_stage_id: String,
    pub source_stage_role: String,
    pub target_stage_id: Option<String>,
    pub payload_kind: PayloadKind,
    pub trace_depth: usize,
    pub hidden_dim: usize,
    pub hidden_bytes: usize,
    pub completed_layers: Option<u32>,
    pub operator_layers: Option<usize>,
    pub has_transient: bool,
    pub has_attention_transient: bool,
    pub has_ffn_transient: bool,
}

/// What a [`StageForwardFrameSummary`] holds, as mathematical values.
#[verifier::ext_equal]
pub struct StageForwardFrameSummaryModel {
    pub request_id: Seq<char>,
    pub model_id: Seq<char>,
    pub source_stage_id: Seq<char>,
    pub source_stage_role: Seq<char>,
    pub target_stage_id: Option<Seq<char>>,
    pub payload_kind: PayloadKind,
    pub trace_depth: usize,
    pub hidden_dim: usize,
    pub hidden_bytes: usize,
    pub completed_layers: Option<u32>,
    pub operator_layers: Option<usize>,
    pub has_transient: bool,
    pub has_attention_transient: bool,
    pub has_ffn_transient: bool,
}

impl View for StageForwardFrameSummary {
    type V = StageForwardFrameSummaryModel;

    open spec fn view(&self) -> StageForwardFrameSummaryModel {
        StageForwardFrameSummaryModel {
            request_id: self.request_id@,
            model_id: self.model_id@,
            source_stage_id: self.source_stage_id@,
            source_stage_role: self.source_stage_role@,
            target_stage_id: crate::model::opt(self.target_stage_id),
            payload_kind: self.payload_kind,
            trace_depth: self.trace_depth,
            hidden_dim: self.hidden_dim,
            hidden_bytes: self.hidden_bytes,
            completed_layers: self.completed_layers,
            operator_layers: self.operator_layers,
            has_transient: self.has_transient,
            has_attention_transient: self.has_attention_transient,
            has_ffn_transient: self.has_ffn_transient,
        }
    }
}

impl Clone for StageForwardFrameSummary {
    fn clone(&self) -> (r: Self)
        ensures
            r@ == self@,
    {
        StageForwardFrameSummary {
            request_id: self.request_id.clone(),
            model_id: self.model_id.clone(),
            source_stage_id: self.source_stage_id.clone(),
            source_stage_role: self.source_stage_role.clone(),
            target_stage_id: self.target_stage_id.clone(),
            payload_kind: self.payload_kind,
            trace_depth: self.trace_depth,
            hidden_dim: self.hidden_dim,
            hidden_bytes: self.hidden_bytes,
            completed_layers: self.completed_layers,
            operator_layers: self.operator_layers,
            has_transient: self.has_transient,
            has_attention_transient: self.has_attention_transient,
            has_ffn_transient: self.has_ffn_transient,
        }
    }
}

/// Averages of a preview, in thousandths: the mean, the mean of the magnitudes, and the root of
/// the mean of the squares. They are computed on floating-point numbers, outside this library.
#[derive(Debug, Clone, Copy, PartialEq, Eq, Structural)]
pub struct PreviewStatistics {
    pub mean_milli: i32,
    pub mean_abs_milli: u32,
    pub rms_milli: u32,
}

/// The averages of a transient state's previews.
#[derive(Debug, Clone, Copy, PartialEq, Eq, Structural)]
pub struct TransientStatistics {
    pub attention: PreviewStatistics,
    pub ffn: PreviewStatistics,
}

/// What is left of a preview when it crosses a boundary.
#[derive(Debug, Clone, Copy, PartialEq, Eq, Structural)]
pub struct TransientSignature {
    pub width: usize,
    pub preview_len: usize,
    pub mean_milli: i32,
    pub mean_abs_milli: u32,
    pub rms_milli: u32,
    pub checksum: u64,
}

/// What is left of a transient state when it crosses a boundary.
#[derive(Debug, Clone, Copy, PartialEq, Eq, Structural)]
pub struct StageTransferTransientState {
    pub attention: Option<TransientSignature>,
    pub ffn: Option<TransientSignature>,
}


/// The state that crosses a boundary.
#[derive(Debug)]
pub struct StageTransferStateEnvelope {
    pub continuation: Option<StageContinuation>,
    pub transient: Option<StageTransferTransientState>,
    pub carry: Option<StageCarryState>,
}

/// What a [`StageTransferStateEnvelope`] holds, as mathematical values.
#[verifier::ext_equal]
pub struct StageTransferStateEnvelopeModel {
    pub continuation: Option<StageContinuationModel>,
    pub transient: Option<StageTransferTransientState>,
    pub carry: Option<StageCarryStateModel>,
}

impl View for StageTransferStateEnvelope {
    type V = StageTransferStateEnvelopeModel;

    open spec fn view(&self) -> StageTransferStateEnvelopeModel {
        StageTransferStateEnvelopeModel {
            continuation: crate::model::opt(self.continuation),
            transient: self.transient,
            carry: crate::model::opt(self.carry),
        }
    }
}

impl Clone for StageTransferStateEnvelope {
    fn clone(&self) -> (r: Self)
        ensures
            r@ == self@,
    {
        StageTransferStateEnvelope {
            continuation: self.continuation.clone(),
            transient: self.transient,
            carry: self.carry.clone(),
        }
    }
}

/// The payload that crosses a boundary.
#[derive(Debug, PartialEq)]
pub struct StageTransferPayload {
    pub request_id: String,
    pub kind: PayloadKind,
    pub stage_trace: Vec<String>,
    pub hidden_dim: usize,
    pub bytes: Vec<u8>,
    pub prompt_text: Option<String>,
    pub max_tokens: Option<u32>,
}

/// What a [`StageTransferPayload`] holds, as mathematical values.
#[verifier::ext_equal]
pub struct StageTransferPayloadModel {
    pub request_id: Seq<char>,
    pub kind: PayloadKind,
    pub stage_trace: Seq<Seq<char>>,
    pub hidden_dim: usize,
    pub bytes: Seq<u8>,
    pub prompt_text: Option<Seq<char>>,
    pub max_tokens: Option<u32>,
}

impl View for StageTransferPayload {
    type V = StageTransferPayloadModel;

    open spec fn view(&self) -> StageTransferPayloadModel {
        StageTransferPayloadModel {
            request_id: self.request_id@,
            kind: self.kind,
            stage_trace: crate::model::texts(self.stage_trace@),
            hidden_dim: self.hidden_dim,
            bytes: self.bytes@,
            prompt_text: crate::model::opt(self.prompt_text),
            max_tokens: self.max_tokens,
        }
    }
}

impl Clone for StageTransferPayload {
    fn clone(&self) -> (r: Self)
        ensures
            r@ == self@,
    {
        StageTransferPayload {
            request_id: self.request_id.clone(),
            kind: self.kind,
            stage_trace: clone_texts(&self.stage_trace),
            hidden_dim: self.hidden_dim,
            bytes: self.bytes.clone(),
            prompt_text: self.prompt_text.clone(),
            max_tokens: self.max_tokens,
        }
    }
}

/// A frame in the form in which it crosses a boundary.
#[derive(Debug)]
pub struct StageTransferFrame {
    pub version: u32,
    pub model_id: String,
    pub route: StageRoute,
    pub payload: StageTransferPayload,
    pub state: StageTransferStateEnvelope,
}

/// What a [`StageTransferFrame`] holds, as mathematical values.
#[verifier::ext_equal]
pub struct StageTransferFrameModel {
    pub version: u32,
    pub model_id: Seq<char>,
    pub route: StageRouteModel,
    pub payload: StageTransferPayloadModel,
    pub state: StageTransferStateEnvelopeModel,
}

impl View for StageTransferFrame {
    type V = StageTransferFrameModel;

    open spec fn view(&self) -> StageTransferFrameModel {
        StageTransferFrameModel {
            version: self.version,
            model_id: self.model_id@,
            route: self.route@,
            payload: self.payload@,
            state: self.state@,
        }
    }
}

impl Clone for StageTransferFrame {
    fn clone(&self) -> (r: Self)
        ensures
            r@ == self@,
    {
        StageTransferFrame {
            version: self.version,
            model_id: self.model_id.clone(),
            route: self.route.clone(),
            payload: self.payload.clone(),
            state: self.state.clone(),
        }
    }
}

impl StageRoute {
    fn equal(&self, other: &Self) -> (r: bool)
        ensures
            r == (self@ == other@),
    {
        self.source_stage_id == other.source_stage_id && self.source_stage_start
            == other.source_stage_start && self.source_stage_end == other.source_stage_end
            && self.source_stage_role == other.source_stage_role && same_opt_text(
            &self.target_stage_id,
            &other.target_stage_id,
        )
    }
}

impl StageForwardFrameModel {
    /// Whether two frames compare equal: their states number by number, all else exactly.
    pub open spec fn agrees(self, other: Self) -> bool {
        &&& self.version == other.version
        &&& self.model_id == other.model_id
        &&& self.route == other.route
        &&& self.payload.agrees(other.payload)
        &&& self.state.agrees(other.state)
    }
}

impl StageForwardFrame {
    fn equal(&self, other: &Self) -> (r: bool)
        ensures
            r == self@.agrees(other@),
    {
        self.version == other.version && self.model_id == other.model_id && self.route.equal(
            &other.route,
        ) && self.payload.equal(&other.payload) && self.state.equal(&other.state)
    }
}

impl PartialEq for StageForwardFrame {
    fn eq(&self, other: &Self) -> (r: bool) {
        self.equal(other)
    }
}

impl vstd::std_specs::cmp::PartialEqSpecImpl for StageForwardFrame {
    open spec fn obeys_eq_spec() -> bool {
        true
    }

    open spec fn eq_spec(&self, other: &Self) -> bool {
        self@.agrees(other@)
    }
}

impl StageTransferStateEnvelopeModel {
    /// Whether two states compare equal, number by number.
    pub open spec fn agrees(self, other: Self) -> bool {
        &&& self.continuation == other.continuation
        &&& self.transient == other.transient
        &&& StageCarryStateModel::agree(self.carry, other.carry)
    }
}

impl StageTransferStateEnvelope {
    fn equal(&self, other: &Self) -> (r: bool)
        ensures
            r == self@.agrees(other@),
    {
        let transient = match (self.transient, other.transient) {
            (None, None) => true,
            (Some(x), Some(y)) => x == y,
            _ => false,
        };
        transient && StageContinuation::equal_opt(&self.continuation, &other.continuation)
            && StageCarryState::equal_opt(&self.carry, &other.carry)
    }
}

impl PartialEq for StageTransferStateEnvelope {
    fn eq(&self, other: &Self) -> (r: bool) {
        self.equal(other)
    }
}

impl vstd::std_specs::cmp::PartialEqSpecImpl for StageTransferStateEnvelope {
    open spec fn obeys_eq_spec() -> bool {
        true
    }

    open spec fn eq_spec(&self, other: &Self) -> bool {
        self@.agrees(other@)
    }
}

impl StageTransferPayload {
    fn equal(&self, other: &Self) -> (r: bool)
        ensures
            r == (self@ == other@),
    {
        self.request_id == other.request_id && self.kind == other.kind && same_texts(
            &self.stage_trace,
            &other.stage_trace,
        ) && self.hidden_dim == other.hidden_dim && equal_bytes(&self.bytes, &other.bytes)
            && same_opt_text(&self.prompt_text, &other.prompt_text) && self.max_tokens
            == other.max_tokens
    }
}

impl StageTransferFrameModel {
    /// Whether two frames compare equal: their carries number by number, all else exactly.
    pub open spec fn agrees(self, other: Self) -> bool {
        &&& self.version == other.version
        &&& self.model_id == other.model_id
        &&& self.route == other.route
        &&& self.payload == other.payload
        &&& self.state.agrees(other.state)
    }
}

impl StageTransferFrame {
    pub(crate) fn equal(&self, other: &Self) -> (r: bool)
        ensures
            r == self@.agrees(other@),
    {
        self.version == other.version && self.model_id == other.model_id && self.route.equal(
            &other.route,
        ) && self.payload.equal(&other.payload) && self.state.equal(&other.state)
    }
}

impl PartialEq for StageTransferFrame {
    fn eq(&self, other: &Self) -> (r: bool) {
        self.equal(other)
    }
}

impl vstd::std_specs::cmp::PartialEqSpecImpl for StageTransferFrame {
    open spec fn obeys_eq_spec() -> bool {
        true
    }

    open spec fn eq_spec(&self, other: &Self) -> bool {
        self@.agrees(other@)
    }
}

impl TransientSignature {
    /// The checksum of a preview: each bit pattern added to a multiple of the checksum of those
    /// before it, in 64-bit arithmetic that wraps around.
    pub open spec fn checksum_of(preview: Seq<u32>) -> u64
        decreases preview.len(),
    {
        if preview.len() == 0 {
            0
        } else {
            ((Self::checksum_of(preview.drop_last()) * CHECKSUM_MULTIPLIER + preview.last())
                % 0x1_0000_0000_0000_0000) as u64
        }
    }

    /// The signature of a preview with the given averages; all zero for an empty preview.
    pub open spec fn of_preview(
        width: usize,
        preview: Seq<u32>,
        statistics: PreviewStatistics,
    ) -> Self {
        if preview.len() == 0 {
            TransientSignature {
                width,
                preview_len: 0,
                mean_milli: 0,
                mean_abs_milli: 0,
                rms_milli: 0,
                checksum: 0,
            }
        } else {
            TransientSignature {
                width,
                preview_len: preview.len() as usize,
                mean_milli: statistics.mean_milli,
                mean_abs_milli: statistics.mean_abs_milli,
                rms_milli: statistics.rms_milli,
                checksum: Self::checksum_of(preview),
            }
        }
    }

    /// The signature of a preview with the given averages.
    pub fn from_preview(width: usize, preview: &[u32], statistics: PreviewStatistics) -> (r: Self)
        ensures
            r == Self::of_preview(width, preview@, statistics),
    {
        let preview_len: usize = preview.len();
        if preview_len == 0 {
            return TransientSignature {
                width,
                preview_len,
                mean_milli: 0,
                mean_abs_milli: 0,
                rms_milli: 0,
                checksum: 0,
            };
        }
        let mut checksum: u64 = 0;
        let mut index: usize = 0;
        assert(preview@.take(0) =~= Seq::empty());
        while index < preview_len
            invariant
                index <= preview_len == preview@.len(),
                checksum == Self::checksum_of(preview@.take(index as int)),
            decreases preview_len - index,
        {
            proof {
                assert(preview@.take(index + 1).drop_last() =~= preview@.take(index as int));
                assert(preview@.take(index + 1).last() == preview@[index as int]);
                lemma_wrapping_step(checksum, preview@[index as int]);
            }
            checksum =
            checksum.wrapping_mul(CHECKSUM_MULTIPLIER).wrapping_add(preview[index] as u64);
            index += 1;
        }
        assert(preview@.take(index as int) =~= preview@);
        TransientSignature {
            width,
            preview_len,
            mean_milli: statistics.mean_milli,
            mean_abs_milli: statistics.mean_abs_milli,
            rms_milli: statistics.rms_milli,
            checksum,
        }
    }

    /// The signature of an attention preview.
    pub fn from_attention(value: &AttentionContinuation, statistics: PreviewStatistics) -> (r: Self)
        ensures
            r == Self::of_preview(value.width, value@.flattened(), statistics),
    {
        Self::from_preview(value.width, &value.preview_values(), statistics)
    }

    /// The signature of a feed-forward preview.
    pub fn from_ffn(value: &FfnContinuation, statistics: PreviewStatistics) -> (r: Self)
        ensures
            r == Self::of_preview(value.width, value@.flattened(), statistics),
    {
        Self::from_preview(value.width, &value.preview_values(), statistics)
    }
}

/// One step of the checksum, computed with wrapping operations, is the remainder of the exact
/// value.
proof fn lemma_wrapping_step(checksum: u64, bits: u32)
    ensures
        checksum.wrapping_mul(CHECKSUM_MULTIPLIER).wrapping_add(bits as u64) == (checksum
            * CHECKSUM_MULTIPLIER + bits) % 0x1_0000_0000_0000_0000,
{
    let product: int = checksum * CHECKSUM_MULTIPLIER;
    let wrapped: int = product % 0x1_0000_0000_0000_0000;
    assert(product >= 0) by (nonlinear_arith)
        requires
            product == checksum * CHECKSUM_MULTIPLIER,
    ;
    assert((product + bits) % 0x1_0000_0000_0000_0000 == (wrapped + bits)
        % 0x1_0000_0000_0000_0000);
}

impl StageTransferTransientState {
    /// The signatures of a transient state with the given averages.
    pub open spec fn of_transient(
        value: StageTransientStateModel,
        statistics: TransientStatistics,
    ) -> Self {
        StageTransferTransientState {
            attention: match value.attention {
                Some(attention) => Some(
                    TransientSignature::of_preview(
                        attention.width,
                        attention.flattened(),
                        statistics.attention,
                    ),
                ),
                None => None,
            },
            ffn: match value.ffn {
                Some(ffn) => Some(
                    TransientSignature::of_preview(ffn.width, ffn.flattened(), statistics.ffn),
                ),
                None => None,
            },
        }
    }

    /// The signatures of a transient state with the given averages.
    pub fn from_transient(value: &StageTransientState, statistics: &TransientStatistics) -> (r: Self)
        ensures
            r == Self::of_transient(value@, *statistics),
    {
        StageTransferTransientState {
            attention: match &value.attention {
                Some(attention) => Some(
                    TransientSignature::from_attention(attention, statistics.attention),
                ),
                None => None,
            },
            ffn: match &value.ffn {
                Some(ffn) => Some(TransientSignature::from_ffn(ffn, statistics.ffn)),
                None => None,
            },
        }
    }
}

/// The role of the stage with the given layout.
pub open spec fn role_name(is_head: bool, is_tail: bool) -> Seq<char> {
    if is_head {
        "head"@
    } else if is_tail {
        "tail"@
    } else {
        "middle"@
    }
}

/// What is wrong with a payload's trace: it must be empty or end with the source stage.
/// `subject` says which frame it is.
pub open spec fn trace_fault(
    subject: Seq<char>,
    source_stage_id: Seq<char>,
    stage_trace: Seq<Seq<char>>,
) -> Option<Seq<char>> {
    if stage_trace.len() > 0 && stage_trace.last() != source_stage_id {
        Some(
            subject + source_stage_id + " does not match payload trace tail "@
                + crate::text::debug_opt_chars(Some(stage_trace.last())),
        )
    } else {
        None
    }
}

fn check_trace(subject: &str, source_stage_id: &String, stage_trace: &Vec<String>) -> (r: Result<
    (),
    StageError,
>)
    ensures
        crate::model::failure(r) == trace_fault(
            subject@,
            source_stage_id@,
            crate::model::texts(stage_trace@),
        ),
{
    if stage_trace.len() > 0 {
        let tail = &stage_trace[stage_trace.len() - 1];
        if *tail != *source_stage_id {
            return fail_with(
                subject.to_owned().concat(source_stage_id.as_str()).concat(
                    " does not match payload trace tail ",
                ).concat(debug_opt_str(Some(tail)).as_str()),
            );
        }
    }
    Ok(())
}

/// Whether `length` is four times `hidden_dim`.
fn is_four_times(length: usize, hidden_dim: usize) -> (r: bool)
    ensures
        r == (length == hidden_dim * 4),
{
    length % 4 == 0 && length / 4 == hidden_dim
}

impl StageForwardFrameModel {
    /// The frame of a tensor that leaves the stage with the given layout.
    pub open spec fn of_tensor(
        model_id: Seq<char>,
        layout: StageLayoutModel,
        tensor: StageTensorModel,
        target_stage_id: Option<Seq<char>>,
    ) -> Self {
        StageForwardFrameModel {
            version: STAGE_FORWARD_FRAME_VERSION,
            model_id,
            route: StageRouteModel {
                source_stage_id: layout.stage_id,
                source_stage_start: layout.start_layer,
                source_stage_end: layout.end_layer,
                source_stage_role: role_name(layout.is_head, layout.is_tail),
                target_stage_id,
            },
            payload: tensor,
            state: tensor.state(),
        }
    }

    /// What is wrong with the frame: the first rule that it breaks.
    pub open spec fn fault(self) -> Option<Seq<char>> {
        if self.version != STAGE_FORWARD_FRAME_VERSION {
            Some(
                "Unsupported stage forward frame version "@ + crate::text::dec(
                    self.version as nat,
                ),
            )
        } else if self.route.source_stage_start > self.route.source_stage_end {
            Some(
                "Invalid stage range "@ + crate::text::dec(self.route.source_stage_start as nat)
                    + ".."@ + crate::text::dec(self.route.source_stage_end as nat),
            )
        } else if self.payload.hidden_dim == 0 && self.payload.kind == PayloadKind::HiddenState {
            Some("Hidden-state frame must declare hidden_dim"@)
        } else if self.payload.kind == PayloadKind::HiddenState && self.payload.bytes.len()
            != self.payload.hidden_dim * 4 {
            Some(
                "Hidden-state frame bytes "@ + crate::text::dec(self.payload.bytes.len())
                    + " do not match hidden_dim "@ + crate::text::dec(
                    self.payload.hidden_dim as nat,
                ),
            )
        } else if trace_fault(
            "Frame source stage "@,
            self.route.source_stage_id,
            self.payload.stage_trace,
        ) is Some {
            trace_fault(
                "Frame source stage "@,
                self.route.source_stage_id,
                self.payload.stage_trace,
            )
        } else if self.payload.continuation != self.state.continuation {
            Some("Frame payload continuation and state envelope diverged"@)
        } else if !StageTransientStateModel::agree(self.payload.transient, self.state.transient) {
            Some("Frame payload transient and state envelope diverged"@)
        } else if !StageCarryStateModel::agree(self.payload.carry, self.state.carry) {
            Some("Frame payload carry and state envelope diverged"@)
        } else {
            None
        }
    }

    /// The frame at a glance.
    pub open spec fn summary(self) -> StageForwardFrameSummaryModel {
        StageForwardFrameSummaryModel {
            request_id: self.payload.request_id,
            model_id: self.model_id,
            source_stage_id: self.route.source_stage_id,
            source_stage_role: self.route.source_stage_role,
            target_stage_id: self.route.target_stage_id,
            payload_kind: self.payload.kind,
            trace_depth: self.payload.stage_trace.len() as usize,
            hidden_dim: self.payload.hidden_dim,
            hidden_bytes: self.payload.bytes.len() as usize,
            completed_layers: match self.state.continuation {
                Some(continuation) => Some(continuation.completed_layers),
                None => None,
            },
            operator_layers: match self.state.continuation {
                Some(continuation) => Some(continuation.operator_layers),
                None => None,
            },
            has_transient: self.state.transient is Some,
            has_attention_transient: self.state.transient is Some
                && self.state.transient->0.attention is Some,
            has_ffn_transient: self.state.transient is Some && self.state.transient->0.ffn is Some,
        }
    }

    /// What the frame carries under a policy: of its carry, else of its transient state.
    pub open spec fn carry_under(self, policy: StageCarryPolicy) -> Option<StageCarryStateModel> {
        match (self.state.carry, self.state.transient) {
            (Some(carry), _) => Some(carry.under_policy(policy)),
            (None, Some(transient)) => Some(StageCarryStateModel::of_transient(transient, policy)),
            (None, None) => None,
        }
    }

    /// The layer that the frame's request enters next.
    pub open spec fn next_layer(self) -> Option<u32> {
        match self.state.continuation {
            Some(continuation) => continuation.next_layer_index,
            None => None,
        }
    }

    /// What the frame carries to a target that runs `programs`.
    pub open spec fn carry_to(
        self,
        policy: StageCarryPolicy,
        programs: Seq<LayerExecutionProgram>,
    ) -> Option<StageCarryStateModel> {
        let capabilities = StageResumeCapabilities::of_programs(programs, self.next_layer());
        let budgets = StageResumeBudgets::of_programs(programs, self.next_layer(), capabilities);
        match self.carry_under(policy) {
            Some(carry) => carry.narrowed(capabilities, budgets),
            None => None,
        }
    }

    /// The frame in the form in which it crosses a boundary, with the given carry.
    pub open spec fn transfer_with(
        self,
        statistics: TransientStatistics,
        carry: Option<StageCarryStateModel>,
    ) -> StageTransferFrameModel {
        StageTransferFrameModel {
            version: self.version,
            model_id: self.model_id,
            route: self.route,
            payload: StageTransferPayloadModel {
                request_id: self.payload.request_id,
                kind: self.payload.kind,
                stage_trace: self.payload.stage_trace,
                hidden_dim: self.payload.hidden_dim,
                bytes: self.payload.bytes,
                prompt_text: self.payload.prompt_text,
                max_tokens: self.payload.max_tokens,
            },
            state: StageTransferStateEnvelopeModel {
                continuation: self.state.continuation,
                transient: match self.state.transient {
                    Some(transient) => Some(
                        StageTransferTransientState::of_transient(transient, statistics),
                    ),
                    None => None,
                },
                carry,
            },
        }
    }

    /// The frame in the form in which it crosses the boundary to a target with the given layout
    /// and programs.
    pub open spec fn transfer_to(
        self,
        layout: StageLayoutModel,
        programs: Seq<LayerExecutionProgram>,
        statistics: TransientStatistics,
    ) -> StageTransferFrameModel {
        let policy = StageCarryPolicy::execution_boundary(
            layout.is_head,
            layout.is_tail,
            self.state.continuation,
            programs,
        );
        self.transfer_with(statistics, self.carry_to(policy, programs))
    }
}

impl StageForwardFrame {
    /// What the frame carries under a policy.
    pub fn carry_with_policy(&self, policy: &StageCarryPolicy) -> (r: Option<StageCarryState>)
        ensures
            crate::model::opt(r) == self@.carry_under(*policy),
    {
        match (&self.state.carry, &self.state.transient) {
            (Some(carry), _) => Some(carry.with_policy(policy)),
            (None, Some(transient)) => Some(StageCarryState::from_transient(transient, policy)),
            (None, None) => None,
        }
    }

    /// The frame of a tensor that leaves the stage with the given layout.
    pub fn from_tensor(
        model_id: &str,
        layout: &StageLayout,
        tensor: StageTensor,
        target_stage_id: Option<String>,
    ) -> (r: Self)
        ensures
            r@ == StageForwardFrameModel::of_tensor(
                model_id@,
                layout@,
                tensor@,
                crate::model::opt(target_stage_id),
            ),
    {
        let state = StageStateEnvelope::from_tensor(&tensor);
        let source_stage_role = if layout.is_head {
            "head"
        } else if layout.is_tail {
            "tail"
        } else {
            "middle"
        };
        StageForwardFrame {
            version: STAGE_FORWARD_FRAME_VERSION,
            model_id: model_id.to_owned(),
            route: StageRoute {
                source_stage_id: layout.stage_id.clone(),
                source_stage_start: layout.start_layer,
                source_stage_end: layout.end_layer,
                source_stage_role: source_stage_role.to_owned(),
                target_stage_id,
            },
            payload: tensor,
            state,
        }
    }

    /// Checks the frame.
    pub fn validate(&self) -> (r: Result<(), StageError>)
        ensures
            crate::model::failure(r) == self@.fault(),
    {
        if self.version != STAGE_FORWARD_FRAME_VERSION {
            return fail_with(
                "Unsupported stage forward frame version ".to_owned().concat(
                    decimal(self.version as u64).as_str(),
                ),
            );
        }
        if self.route.source_stage_start > self.route.source_stage_end {
            return fail_with(
                "Invalid stage range ".to_owned().concat(
                    decimal(self.route.source_stage_start as u64).as_str(),
                ).concat("..").concat(decimal(self.route.source_stage_end as u64).as_str()),
            );
        }
        if self.payload.hidden_dim == 0 && self.payload.kind == PayloadKind::HiddenState {
            return fail("Hidden-state frame must declare hidden_dim");
        }
        if self.payload.kind == PayloadKind::HiddenState && !is_four_times(
            self.payload.bytes.len(),
            self.payload.hidden_dim,
        ) {
            return fail_with(
                "Hidden-state frame bytes ".to_owned().concat(
                    size_text(self.payload.bytes.len()).as_str(),
                ).concat(" do not match hidden_dim ").concat(
                    size_text(self.payload.hidden_dim).as_str(),
                ),
            );
        }
        let trace = check_trace(
            "Frame source stage ",
            &self.route.source_stage_id,
            &self.payload.stage_trace,
        );
        if trace.is_err() {
            return trace;
        }
        if !StageContinuation::equal_opt(&self.payload.continuation, &self.state.continuation) {
            return fail("Frame payload continuation and state envelope diverged");
        }
        if !StageTransientState::equal_opt(&self.payload.transient, &self.state.transient) {
            return fail("Frame payload transient and state envelope diverged");
        }
        if !StageCarryState::equal_opt(&self.payload.carry, &self.state.carry) {
            return fail("Frame payload carry and state envelope diverged");
        }
        Ok(())
    }

    /// The frame's tensor, with the frame's state.
    pub fn into_tensor(self) -> (r: StageTensor)
        ensures
            r@ == self@.payload.with_state(self@.state),
    {
        let mut payload = self.payload;
        self.state.apply_to_tensor(&mut payload);
        payload
    }

    /// The frame at a glance.
    pub fn summary(&self) -> (r: StageForwardFrameSummary)
        ensures
            r@ == self@.summary(),
    {
        let (completed_layers, operator_layers) = match &self.state.continuation {
            Some(continuation) => (
                Some(continuation.completed_layers),
                Some(continuation.operator_layers),
            ),
            None => (None, None),
        };
        let (has_attention_transient, has_ffn_transient) = match &self.state.transient {
            Some(transient) => (transient.attention.is_some(), transient.ffn.is_some()),
            None => (false, false),
        };
        StageForwardFrameSummary {
            request_id: self.payload.request_id.clone(),
            model_id: self.model_id.clone(),
            source_stage_id: self.route.source_stage_id.clone(),
            source_stage_role: self.route.source_stage_role.clone(),
            target_stage_id: self.route.target_stage_id.clone(),
            payload_kind: self.payload.kind,
            trace_depth: self.payload.stage_trace.len(),
            hidden_dim: self.payload.hidden_dim,
            hidden_bytes: self.payload.bytes.len(),
            completed_layers,
            operator_layers,
            has_transient: self.state.transient.is_some(),
            has_attention_transient,
            has_ffn_transient,
        }
    }

    fn transfer(
        &self,
        statistics: &TransientStatistics,
        carry: Option<StageCarryState>,
    ) -> (r: StageTransferFrame)
        ensures
            r@ == self@.transfer_with(*statistics, crate::model::opt(carry)),
    {
        StageTransferFrame {
            version: self.version,
            model_id: self.model_id.clone(),
            route: self.route.clone(),
            payload: StageTransferPayload {
                request_id: self.payload.request_id.clone(),
                kind: self.payload.kind,
                stage_trace: clone_texts(&self.payload.stage_trace),
                hidden_dim: self.payload.hidden_dim,
                bytes: self.payload.bytes.clone(),
                prompt_text: self.payload.prompt_text.clone(),
                max_tokens: self.payload.max_tokens,
            },
            state: StageTransferStateEnvelope {
                continuation: self.state.continuation.clone(),
                transient: match &self.state.transient {
                    Some(transient) => Some(
                        StageTransferTransientState::from_transient(transient, statistics),
                    ),
                    None => None,
                },
                carry,
            },
        }
    }

    /// The frame for a boundary under the default policy.
    pub fn to_transfer_frame(&self, statistics: &TransientStatistics) -> (r: StageTransferFrame)
        ensures
            r@ == self@.transfer_with(
                *statistics,
                self@.carry_under(StageCarryPolicy { carry_attention: true, carry_ffn: false }),
            ),
    {
        self.to_transfer_frame_with_policy(&StageCarryPolicy::default(), statistics)
    }

    /// The frame for the boundary of the given layout.
    pub fn to_transfer_frame_for_layout(
        &self,
        layout: &StageLayout,
        statistics: &TransientStatistics,
    ) -> (r: StageTransferFrame)
        ensures
            r@ == self@.transfer_with(
                *statistics,
                self@.carry_under(
                    StageCarryPolicy::boundary(
                        layout.is_head,
                        layout.is_tail,
                        self@.state.continuation,
                    ),
                ),
            ),
    {
        let policy = StageCarryPolicy::for_boundary(layout, self.state.continuation.as_ref());
        self.to_transfer_frame_with_policy(&policy, statistics)
    }

    /// The layer that the frame's request enters next.
    pub(crate) fn next_layer_index(&self) -> (r: Option<u32>)
        ensures
            r == self@.next_layer(),
    {
        match &self.state.continuation {
            Some(continuation) => continuation.next_layer_index,
            None => None,
        }
    }

    /// What the frame carries to a target that runs `execution_programs`.
    pub(crate) fn resumable_carry(
        &self,
        policy: &StageCarryPolicy,
        execution_programs: &[LayerExecutionProgram],
    ) -> (r: Option<StageCarryState>)
        ensures
            crate::model::opt(r) == self@.carry_to(*policy, execution_programs@),
    {
        let capabilities = StageResumeCapabilities::from_execution_programs(
            execution_programs,
            self.next_layer_index(),
        );
        let budgets = StageResumeBudgets::from_execution_programs(
            execution_programs,
            self.next_layer_index(),
            &capabilities,
        );
        match self.carry_with_policy(policy) {
            Some(carry) => carry.with_resume_contract(&capabilities, &budgets),
            None => None,
        }
    }

    /// The frame for the boundary to a target with the given layout and programs.
    pub fn to_transfer_frame_for_execution_boundary(
        &self,
        layout: &StageLayout,
        execution_programs: &[LayerExecutionProgram],
        statistics: &TransientStatistics,
    ) -> (r: StageTransferFrame)
        ensures
            r@ == self@.transfer_to(layout@, execution_programs@, *statistics),
    {
        let policy = StageCarryPolicy::for_execution_boundary(
            layout,
            self.state.continuation.as_ref(),
            execution_programs,
        );
        let carry = self.resumable_carry(&policy, execution_programs);
        self.transfer(statistics, carry)
    }

    /// The frame for a boundary under the given policy.
    pub fn to_transfer_frame_with_policy(
        &self,
        policy: &StageCarryPolicy,
        statistics: &TransientStatistics,
    ) -> (r: StageTransferFrame)
        ensures
            r@ == self@.transfer_with(*statistics, self@.carry_under(*policy)),
    {
        let carry = self.carry_with_policy(policy);
        self.transfer(statistics, carry)
    }
}

impl StageTransferFrameModel {
    /// What is wrong with the frame: the first rule that it breaks.
    pub open spec fn fault(self) -> Option<Seq<char>> {
        if self.version != STAGE_FORWARD_FRAME_VERSION {
            Some(
                "Unsupported stage transfer frame version "@ + crate::text::dec(
                    self.version as nat,
                ),
            )
        } else if self.route.source_stage_start > self.route.source_stage_end {
            Some(
                "Invalid transfer stage range "@ + crate::text::dec(
                    self.route.source_stage_start as nat,
                ) + ".."@ + crate::text::dec(self.route.source_stage_end as nat),
            )
        } else if self.payload.kind == PayloadKind::HiddenState && self.payload.bytes.len()
            != self.payload.hidden_dim * 4 {
            Some(
                "Hidden-state transfer frame bytes "@ + crate::text::dec(self.payload.bytes.len())
                    + " do not match hidden_dim "@ + crate::text::dec(
                    self.payload.hidden_dim as nat,
                ),
            )
        } else {
            crate::model::then_check(
                trace_fault(
                    "Transfer frame source stage "@,
                    self.route.source_stage_id,
                    self.payload.stage_trace,
                ),
                match self.state.carry {
                    Some(carry) => carry.fault(),
                    None => None,
                },
            )
        }
    }

    /// The tensor that the frame stands for; its transient state is that of its carry.
    pub open spec fn to_tensor(self) -> StageTensorModel {
        StageTensorModel {
            request_id: self.payload.request_id,
            kind: self.payload.kind,
            stage_trace: self.payload.stage_trace,
            hidden_dim: self.payload.hidden_dim,
            bytes: self.payload.bytes,
            prompt_text: self.payload.prompt_text,
            max_tokens: self.payload.max_tokens,
            continuation: self.state.continuation,
            transient: match self.state.carry {
                Some(carry) => carry.to_transient(),
                None => None,
            },
            carry: self.state.carry,
        }
    }
}

impl StageTransferFrame {
    /// Checks the frame.
    pub fn validate(&self) -> (r: Result<(), StageError>)
        ensures
            crate::model::failure(r) == self@.fault(),
    {
        if self.version != STAGE_FORWARD_FRAME_VERSION {
            return fail_with(
                "Unsupported stage transfer frame version ".to_owned().concat(
                    decimal(self.version as u64).as_str(),
                ),
            );
        }
        if self.route.source_stage_start > self.route.source_stage_end {
            return fail_with(
                "Invalid transfer stage range ".to_owned().concat(
                    decimal(self.route.source_stage_start as u64).as_str(),
                ).concat("..").concat(decimal(self.route.source_stage_end as u64).as_str()),
            );
        }
        if self.payload.kind == PayloadKind::HiddenState && !is_four_times(
            self.payload.bytes.len(),
            self.payload.hidden_dim,
        ) {
            return fail_with(
                "Hidden-state transfer frame bytes ".to_owned().concat(
                    size_text(self.payload.bytes.len()).as_str(),
                ).concat(" do not match hidden_dim ").concat(
                    size_text(self.payload.hidden_dim).as_str(),
                ),
            );
        }
        let trace = check_trace(
            "Transfer frame source stage ",
            &self.route.source_stage_id,
            &self.payload.stage_trace,
        );
        if trace.is_err() {
            return trace;
        }
        match &self.state.carry {
            Some(carry) => carry.check(),
            None => Ok(()),
        }
    }

    /// The tensor that the frame stands for.
    pub fn into_stage_tensor(self) -> (r: StageTensor)
        ensures
            r@ == self@.to_tensor(),
    {
        let transient = match &self.state.carry {
            Some(carry) => carry.to_transient_state(),
            None => None,
        };
        StageTensor {
            request_id: self.payload.request_id,
            kind: self.payload.kind,
            stage_trace: self.payload.stage_trace,
            hidden_dim: self.payload.hidden_dim,
            bytes: self.payload.bytes,
            prompt_text: self.payload.prompt_text,
            max_tokens: self.payload.max_tokens,
            continuation: self.state.continuation,
            transient,
            carry: self.state.carry,
        }
    }
}

/// A tensor put into a frame comes back out of it unchanged.
pub proof fn lemma_frame_round_trip(
    model_id: Seq<char>,
    layout: StageLayoutModel,
    tensor: StageTensorModel,
    target_stage_id: Option<Seq<char>>,
)
    ensures
        ({
            let frame = StageForwardFrameModel::of_tensor(model_id, layout, tensor, target_stage_id);
            frame.payload.with_state(frame.state) == tensor
        }),
{
}

/// The frame of a tensor passes its check where the layout's range is in order, a hidden state
/// has four bytes for each of its dimensions and at least one dimension, the trace ends with the
/// stage, and every preview and carried value is a number.
pub proof fn lemma_frame_of_tensor_is_valid(
    model_id: Seq<char>,
    layout: StageLayoutModel,
    tensor: StageTensorModel,
    target_stage_id: Option<Seq<char>>,
)
    requires
        layout.start_layer <= layout.end_layer,
        tensor.kind == PayloadKind::HiddenState ==> tensor.hidden_dim > 0 && tensor.bytes.len()
            == tensor.hidden_dim * 4,
        tensor.stage_trace.len() > 0 ==> tensor.stage_trace.last() == layout.stage_id,
        tensor.transient matches Some(transient) ==> transient.all_numbers(),
        tensor.carry matches Some(carry) ==> carry.all_numbers(),
    ensures
        StageForwardFrameModel::of_tensor(
            model_id,
            layout,
            tensor,
            target_stage_id,
        ).fault() is None,
{
}

/// A frame that passes its check, and whose carry under the boundary's policy is sound, crosses
/// the boundary as a frame that passes its check.
pub proof fn lemma_transfer_of_valid_frame_is_valid(
    frame: StageForwardFrameModel,
    layout: StageLayoutModel,
    programs: Seq<LayerExecutionProgram>,
    statistics: TransientStatistics,
)
    requires
        frame.fault() is None,
        frame.carry_under(
            StageCarryPolicy::execution_boundary(
                layout.is_head,
                layout.is_tail,
                frame.state.continuation,
                programs,
            ),
        ) matches Some(carry) ==> carry.fault() is None,
    ensures
        frame.transfer_to(layout, programs, statistics).fault() is None,
{
    let policy = StageCarryPolicy::execution_boundary(
        layout.is_head,
        layout.is_tail,
        frame.state.continuation,
        programs,
    );
    if let Some(carry) = frame.carry_under(policy) {
        let capabilities = StageResumeCapabilities::of_programs(programs, frame.next_layer());
        let budgets = StageResumeBudgets::of_programs(programs, frame.next_layer(), capabilities);
        crate::carry::lemma_narrowed_is_sound(carry, capabilities, budgets);
    }
}

/// Crossing a boundary keeps the payload: request, kind, trace, dimension, bytes, prompt, token
/// limit and continuation arrive as they left.
pub proof fn lemma_transfer_keeps_payload(
    frame: StageForwardFrameModel,
    statistics: TransientStatistics,
    carry: Option<StageCarryStateModel>,
)
    ensures
        ({
            let arrived = frame.transfer_with(statistics, carry).to_tensor();
            arrived == frame.payload.with_state(
                StageStateEnvelopeModel {
                    continuation: frame.state.continuation,
                    transient: arrived.transient,
                    carry,
                },
            )
        }),
{
}

} // verus!
