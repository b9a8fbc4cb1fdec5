//! Resume requests, decisions and receipts.
use vstd::prelude::*;
use vstd::string::*;
use crate::boundary::{StageBoundaryPlan, StageBoundaryPlanModel};
use crate::execution::StageResumeContractSummary;
use crate::frame::{StageTransferFrame, StageTransferFrameModel, STAGE_FORWARD_FRAME_VERSION};
use crate::model::{fail, fail_with, same_opt_text, StageError};
use crate::tensor::{kind_text, PayloadKind};
use crate::text::{decimal, size_text};

verus! {

/// A request to resume a transfer at a target stage.
#[derive(Debug)]
pub struct StageResumeRequest {
    pub version: u32,
    pub model_id: String,
    pub target_stage_id: Option<String>,
    pub boundary: StageBoundaryPlan,
    pub transfer: StageTransferFrame,
}

/// What a [`StageResumeRequest`] holds, as mathematical values.
#[verifier::ext_equal]
pub struct StageResumeRequestModel {
    pub version: u32,
    pub model_id: Seq<char>,
    pub target_stage_id: Option<Seq<char>>,
    pub boundary: StageBoundaryPlanModel,
    pub transfer: StageTransferFrameModel,
}

impl View for StageResumeRequest {
    type V = StageResumeRequestModel;

    open spec fn view(&self) -> StageResumeRequestModel {
        StageResumeRequestModel {
            version: self.version,
            model_id: self.model_id@,
            target_stage_id: crate::model::opt(self.target_stage_id),
            boundary: self.boundary@,
            transfer: self.transfer@,
        }
    }
}

impl Clone for StageResumeRequest {
    fn clone(&self) -> (r: Self)
        ensures
            r@ == self@,
    {
        StageResumeRequest {
            version: self.version,
            model_id: self.model_id.clone(),
            target_stage_id: self.target_stage_id.clone(),
            boundary: self.boundary.clone(),
            transfer: self.transfer.clone(),
        }
    }
}

impl StageResumeRequestModel {
    /// Whether two requests compare equal: their carries number by number, all else exactly.
    pub open spec fn agrees(self, other: Self) -> bool {
        &&& self.version == other.version
        &&& self.model_id == other.model_id
        &&& self.target_stage_id == other.target_stage_id
        &&& self.boundary == other.boundary
        &&& self.transfer.agrees(other.transfer)
    }
}

impl StageResumeRequest {
    fn equal(&self, other: &Self) -> (r: bool)
        ensures
            r == self@.agrees(other@),
    {
        self.version == other.version && self.model_id == other.model_id && same_opt_text(
            &self.target_stage_id,
            &other.target_stage_id,
        ) && self.boundary.equal(&other.boundary) && self.transfer.equal(&other.transfer)
    }
}

impl PartialEq for StageResumeRequest {
    fn eq(&self, other: &Self) -> (r: bool) {
        self.equal(other)
    }
}

impl vstd::std_specs::cmp::PartialEqSpecImpl for StageResumeRequest {
    open spec fn obeys_eq_spec() -> bool {
        true
    }

    open spec fn eq_spec(&self, other: &Self) -> bool {
        self@.agrees(other@)
    }
}

/// What a target stage decided about a request.
#[derive(Debug, PartialEq, Eq)]
pub struct StageResumeDecision {
    pub accepted: bool,
    pub accepted_stage_id: Option<String>,
    pub accepted_payload_kind: PayloadKind,
    pub accepted_hidden_dim: usize,
    pub accepted_attention_carry: bool,
    pub accepted_ffn_carry: bool,
    pub accepted_attention_width: Option<usize>,
    pub accepted_attention_lanes: Option<usize>,
    pub accepted_attention_q_resume: bool,
    pub accepted_attention_k_resume: bool,
    pub accepted_attention_v_resume: bool,
    pub accepted_attention_q_lanes: Option<usize>,
    pub accepted_attention_k_lanes: Option<usize>,
    pub accepted_attention_v_lanes: Option<usize>,
    pub accepted_attention_q_max_distance: Option<u32>,
    pub accepted_attention_k_max_distance: Option<u32>,
    pub accepted_attention_v_max_distance: Option<u32>,
    pub accepted_attention_score_max_distance: Option<u32>,
    pub accepted_attention_value_max_distance: Option<u32>,
    pub accepted_attention_contract: StageResumeContractSummary,
    pub accepted_attention_score_lanes: Option<usize>,
    pub accepted_attention_value_lanes: Option<usize>,
    pub accepted_attention_q_distance: Option<u32>,
    pub accepted_attention_k_distance: Option<u32>,
    pub accepted_attention_v_distance: Option<u32>,
    pub accepted_attention_score_distance: Option<u32>,
    pub accepted_attention_value_distance: Option<u32>,
    pub accepted_attention_projection_carry: bool,
    pub accepted_attention_mix_carry: bool,
    pub accepted_attention_projection_lanes: Option<usize>,
    pub accepted_attention_mix_lanes: Option<usize>,
    pub accepted_ffn_width: Option<usize>,
    pub accepted_ffn_lanes: Option<usize>,
    pub accepted_next_layer_index: Option<u32>,
    pub reason: Option<String>,
}

/// What a [`StageResumeDecision`] holds, as mathematical values.
#[verifier::ext_equal]
pub struct StageResumeDecisionModel {
    pub accepted: bool,
    pub accepted_stage_id: Option<Seq<char>>,
    pub accepted_payload_kind: PayloadKind,
    pub accepted_hidden_dim: usize,
    pub accepted_attention_carry: bool,
    pub accepted_ffn_carry: bool,
    pub accepted_attention_width: Option<usize>,
    pub accepted_attention_lanes: Option<usize>,
    pub accepted_attention_q_resume: bool,
    pub accepted_attention_k_resume: bool,
    pub accepted_attention_v_resume: bool,
    pub accepted_attention_q_lanes: Option<usize>,
    pub accepted_attention_k_lanes: Option<usize>,
    pub accepted_attention_v_lanes: Option<usize>,
    pub accepted_attention_q_max_distance: Option<u32>,
    pub accepted_attention_k_max_distance: Option<u32>,
    pub accepted_attention_v_max_distance: Option<u32>,
    pub accepted_attention_score_max_distance: Option<u32>,
    pub accepted_attention_value_max_distance: Option<u32>,
    pub accepted_attention_contract: StageResumeContractSummary,
    pub accepted_attention_score_lanes: Option<usize>,
    pub accepted_attention_value_lanes: Option<usize>,
    pub accepted_attention_q_distance: Option<u32>,
    pub accepted_attention_k_distance: Option<u32>,
    pub accepted_attention_v_distance: Option<u32>,
    pub accepted_attention_score_distance: Option<u32>,
    pub accepted_attention_value_distance: Option<u32>,
    pub accepted_attention_projection_carry: bool,
    pub accepted_attention_mix_carry: bool,
    pub accepted_attention_projection_lanes: Option<usize>,
    pub accepted_attention_mix_lanes: Option<usize>,
    pub accepted_ffn_width: Option<usize>,
    pub accepted_ffn_lanes: Option<usize>,
    pub accepted_next_layer_index: Option<u32>,
    pub reason: Option<Seq<char>>,
}

impl View for StageResumeDecision {
    type V = StageResumeDecisionModel;

    open spec fn view(&self) -> StageResumeDecisionModel {
        StageResumeDecisionModel {
            accepted: self.accepted,
            accepted_stage_id: crate::model::opt(self.accepted_stage_id),
            accepted_payload_kind: self.accepted_payload_kind,
            accepted_hidden_dim: self.accepted_hidden_dim,
            accepted_attention_carry: self.accepted_attention_carry,
            accepted_ffn_carry: self.accepted_ffn_carry,
            accepted_attention_width: self.accepted_attention_width,
            accepted_attention_lanes: self.accepted_attention_lanes,
            accepted_attention_q_resume: self.accepted_attention_q_resume,
            accepted_attention_k_resume: self.accepted_attention_k_resume,
            accepted_attention_v_resume: self.accepted_attention_v_resume,
            accepted_attention_q_lanes: self.accepted_attention_q_lanes,
            accepted_attention_k_lanes: self.accepted_attention_k_lanes,
            accepted_attention_v_lanes: self.accepted_attention_v_lanes,
            accepted_attention_q_max_distance: self.accepted_attention_q_max_distance,
            accepted_attention_k_max_distance: self.accepted_attention_k_max_distance,
            accepted_attention_v_max_distance: self.accepted_attention_v_max_distance,
            accepted_attention_score_max_distance: self.accepted_attention_score_max_distance,
            accepted_attention_value_max_distance: self.accepted_attention_value_max_distance,
            accepted_attention_contract: self.accepted_attention_contract,
            accepted_attention_score_lanes: self.accepted_attention_score_lanes,
            accepted_attention_value_lanes: self.accepted_attention_value_lanes,
            accepted_attention_q_distance: self.accepted_attention_q_distance,
            accepted_attention_k_distance: self.accepted_attention_k_distance,
            accepted_attention_v_distance: self.accepted_attention_v_distance,
            accepted_attention_score_distance: self.accepted_attention_score_distance,
            accepted_attention_value_distance: self.accepted_attention_value_distance,
            accepted_attention_projection_carry: self.accepted_attention_projection_carry,
            accepted_attention_mix_carry: self.accepted_attention_mix_carry,
            accepted_attention_projection_lanes: self.accepted_attention_projection_lanes,
            accepted_attention_mix_lanes: self.accepted_attention_mix_lanes,
            accepted_ffn_width: self.accepted_ffn_width,
            accepted_ffn_lanes: self.accepted_ffn_lanes,
            accepted_next_layer_index: self.accepted_next_layer_index,
            reason: crate::model::opt(self.reason),
        }
    }
}

impl Clone for StageResumeDecision {
    fn clone(&self) -> (r: Self)
        ensures
            r@ == self@,
    {
        StageResumeDecision {
            accepted: self.accepted,
            accepted_stage_id: self.accepted_stage_id.clone(),
            accepted_payload_kind: self.accepted_payload_kind,
            accepted_hidden_dim: self.accepted_hidden_dim,
            accepted_attention_carry: self.accepted_attention_carry,
            accepted_ffn_carry: self.accepted_ffn_carry,
            accepted_attention_width: self.accepted_attention_width,
            accepted_attention_lanes: self.accepted_attention_lanes,
            accepted_attention_q_resume: self.accepted_attention_q_resume,
            accepted_attention_k_resume: self.accepted_attention_k_resume,
            accepted_attention_v_resume: self.accepted_attention_v_resume,
            accepted_attention_q_lanes: self.accepted_attention_q_lanes,
            accepted_attention_k_lanes: self.accepted_attention_k_lanes,
            accepted_attention_v_lanes: self.accepted_attention_v_lanes,
            accepted_attention_q_max_distance: self.accepted_attention_q_max_distance,
            accepted_attention_k_max_distance: self.accepted_attention_k_max_distance,
            accepted_attention_v_max_distance: self.accepted_attention_v_max_distance,
            accepted_attention_score_max_distance: self.accepted_attention_score_max_distance,
            accepted_attention_value_max_distance: self.accepted_attention_value_max_distance,
            accepted_attention_contract: self.accepted_attention_contract,
            accepted_attention_score_lanes: self.accepted_attention_score_lanes,
            accepted_attention_value_lanes: self.accepted_attention_value_lanes,
            accepted_attention_q_distance: self.accepted_attention_q_distance,
            accepted_attention_k_distance: self.accepted_attention_k_distance,
            accepted_attention_v_distance: self.accepted_attention_v_distance,
            accepted_attention_score_distance: self.accepted_attention_score_distance,
            accepted_attention_value_distance: self.accepted_attention_value_distance,
            accepted_attention_projection_carry: self.accepted_attention_projection_carry,
            accepted_attention_mix_carry: self.accepted_attention_mix_carry,
            accepted_attention_projection_lanes: self.accepted_attention_projection_lanes,
            accepted_attention_mix_lanes: self.accepted_attention_mix_lanes,
            accepted_ffn_width: self.accepted_ffn_width,
            accepted_ffn_lanes: self.accepted_ffn_lanes,
            accepted_next_layer_index: self.accepted_next_layer_index,
            reason: self.reason.clone(),
        }
    }
}

/// What a target stage answers to a request.
#[derive(Debug, PartialEq, Eq)]
pub struct StageResumeReceipt {
    pub version: u32,
    pub accepted: bool,
    pub accepted_stage_id: Option<String>,
    pub accepted_payload_kind: PayloadKind,
    pub accepted_hidden_dim: usize,
    pub accepted_attention_carry: bool,
    pub accepted_ffn_carry: bool,
    pub accepted_attention_width: Option<usize>,
    pub accepted_attention_lanes: Option<usize>,
    pub accepted_attention_q_resume: bool,
    pub accepted_attention_k_resume: bool,
    pub accepted_attention_v_resume: bool,
    pub accepted_attention_q_lanes: Option<usize>,
    pub accepted_attention_k_lanes: Option<usize>,
    pub accepted_attention_v_lanes: Option<usize>,
    pub accepted_attention_q_max_distance: Option<u32>,
    pub accepted_attention_k_max_distance: Option<u32>,
    pub accepted_attention_v_max_distance: Option<u32>,
    pub accepted_attention_score_max_distance: Option<u32>,
    pub accepted_attention_value_max_distance: Option<u32>,
    pub accepted_attention_contract: StageResumeContractSummary,
    pub accepted_attention_score_lanes: Option<usize>,
    pub accepted_attention_value_lanes: Option<usize>,
    pub accepted_attention_q_distance: Option<u32>,
    pub accepted_attention_k_distance: Option<u32>,
    pub accepted_attention_v_distance: Option<u32>,
    pub accepted_attention_score_distance: Option<u32>,
    pub accepted_attention_value_distance: Option<u32>,
    pub accepted_attention_projection_carry: bool,
    pub accepted_attention_mix_carry: bool,
    pub accepted_attention_projection_lanes: Option<usize>,
    pub accepted_attention_mix_lanes: Option<usize>,
    pub accepted_ffn_width: Option<usize>,
    pub accepted_ffn_lanes: Option<usize>,
    pub accepted_next_layer_index: Option<u32>,
    pub reason: Option<String>,
}

/// What a [`StageResumeReceipt`] holds, as mathematical values.
#[verifier::ext_equal]
pub struct StageResumeReceiptModel {
    pub version: u32,
    pub accepted: bool,
    pub accepted_stage_id: Option<Seq<char>>,
    pub accepted_payload_kind: PayloadKind,
    pub accepted_hidden_dim: usize,
    pub accepted_attention_carry: bool,
    pub accepted_ffn_carry: bool,
    pub accepted_attention_width: Option<usize>,
    pub accepted_attention_lanes: Option<usize>,
    pub accepted_attention_q_resume: bool,
    pub accepted_attention_k_resume: bool,
    pub accepted_attention_v_resume: bool,
    pub accepted_attention_q_lanes: Option<usize>,
    pub accepted_attention_k_lanes: Option<usize>,
    pub accepted_attention_v_lanes: Option<usize>,
    pub accepted_attention_q_max_distance: Option<u32>,
    pub accepted_attention_k_max_distance: Option<u32>,
    pub accepted_attention_v_max_distance: Option<u32>,
    pub accepted_attention_score_max_distance: Option<u32>,
    pub accepted_attention_value_max_distance: Option<u32>,
    pub accepted_attention_contract: StageResumeContractSummary,
    pub accepted_attention_score_lanes: Option<usize>,
    pub accepted_attention_value_lanes: Option<usize>,
    pub accepted_attention_q_distance: Option<u32>,
    pub accepted_attention_k_distance: Option<u32>,
    pub accepted_attention_v_distance: Option<u32>,
    pub accepted_attention_score_distance: Option<u32>,
    pub accepted_attention_value_distance: Option<u32>,
    pub accepted_attention_projection_carry: bool,
    pub accepted_attention_mix_carry: bool,
    pub accepted_attention_projection_lanes: Option<usize>,
    pub accepted_attention_mix_lanes: Option<usize>,
    pub accepted_ffn_width: Option<usize>,
    pub accepted_ffn_lanes: Option<usize>,
    pub accepted_next_layer_index: Option<u32>,
    pub reason: Option<Seq<char>>,
}

impl View for StageResumeReceipt {
    type V = StageResumeReceiptModel;

    open spec fn view(&self) -> StageResumeReceiptModel {
        StageResumeReceiptModel {
            version: self.version,
            accepted: self.accepted,
            accepted_stage_id: crate::model::opt(self.accepted_stage_id),
            accepted_payload_kind: self.accepted_payload_kind,
            accepted_hidden_dim: self.accepted_hidden_dim,
            accepted_attention_carry: self.accepted_attention_carry,
            accepted_ffn_carry: self.accepted_ffn_carry,
            accepted_attention_width: self.accepted_attention_width,
            accepted_attention_lanes: self.accepted_attention_lanes,
            accepted_attention_q_resume: self.accepted_attention_q_resume,
            accepted_attention_k_resume: self.accepted_attention_k_resume,
            accepted_attention_v_resume: self.accepted_attention_v_resume,
            accepted_attention_q_lanes: self.accepted_attention_q_lanes,
            accepted_attention_k_lanes: self.accepted_attention_k_lanes,
            accepted_attention_v_lanes: self.accepted_attention_v_lanes,
            accepted_attention_q_max_distance: self.accepted_attention_q_max_distance,
            accepted_attention_k_max_distance: self.accepted_attention_k_max_distance,
            accepted_attention_v_max_distance: self.accepted_attention_v_max_distance,
            accepted_attention_score_max_distance: self.accepted_attention_score_max_distance,
            accepted_attention_value_max_distance: self.accepted_attention_value_max_distance,
            accepted_attention_contract: self.accepted_attention_contract,
            accepted_attention_score_lanes: self.accepted_attention_score_lanes,
            accepted_attention_value_lanes: self.accepted_attention_value_lanes,
            accepted_attention_q_distance: self.accepted_attention_q_distance,
            accepted_attention_k_distance: self.accepted_attention_k_distance,
            accepted_attention_v_distance: self.accepted_attention_v_distance,
            accepted_attention_score_distance: self.accepted_attention_score_distance,
            accepted_attention_value_distance: self.accepted_attention_value_distance,
            accepted_attention_projection_carry: self.accepted_attention_projection_carry,
            accepted_attention_mix_carry: self.accepted_attention_mix_carry,
            accepted_attention_projection_lanes: self.accepted_attention_projection_lanes,
            accepted_attention_mix_lanes: self.accepted_attention_mix_lanes,
            accepted_ffn_width: self.accepted_ffn_width,
            accepted_ffn_lanes: self.accepted_ffn_lanes,
            accepted_next_layer_index: self.accepted_next_layer_index,
            reason: crate::model::opt(self.reason),
        }
    }
}

impl Clone for StageResumeReceipt {
    fn clone(&self) -> (r: Self)
        ensures
            r@ == self@,
    {
        StageResumeReceipt {
            version: self.version,
            accepted: self.accepted,
            accepted_stage_id: self.accepted_stage_id.clone(),
            accepted_payload_kind: self.accepted_payload_kind,
            accepted_hidden_dim: self.accepted_hidden_dim,
            accepted_attention_carry: self.accepted_attention_carry,
            accepted_ffn_carry: self.accepted_ffn_carry,
            accepted_attention_width: self.accepted_attention_width,
            accepted_attention_lanes: self.accepted_attention_lanes,
            accepted_attention_q_resume: self.accepted_attention_q_resume,
            accepted_attention_k_resume: self.accepted_attention_k_resume,
            accepted_attention_v_resume: self.accepted_attention_v_resume,
            accepted_attention_q_lanes: self.accepted_attention_q_lanes,
            accepted_attention_k_lanes: self.accepted_attention_k_lanes,
            accepted_attention_v_lanes: self.accepted_attention_v_lanes,
            accepted_attention_q_max_distance: self.accepted_attention_q_max_distance,
            accepted_attention_k_max_distance: self.accepted_attention_k_max_distance,
            accepted_attention_v_max_distance: self.accepted_attention_v_max_distance,
            accepted_attention_score_max_distance: self.accepted_attention_score_max_distance,
            accepted_attention_value_max_distance: self.accepted_attention_value_max_distance,
            accepted_attention_contract: self.accepted_attention_contract,
            accepted_attention_score_lanes: self.accepted_attention_score_lanes,
            accepted_attention_value_lanes: self.accepted_attention_value_lanes,
            accepted_attention_q_distance: self.accepted_attention_q_distance,
            accepted_attention_k_distance: self.accepted_attention_k_distance,
            accepted_attention_v_distance: self.accepted_attention_v_distance,
            accepted_attention_score_distance: self.accepted_attention_score_distance,
            accepted_attention_value_distance: self.accepted_attention_value_distance,
            accepted_attention_projection_carry: self.accepted_attention_projection_carry,
            accepted_attention_mix_carry: self.accepted_attention_mix_carry,
            accepted_attention_projection_lanes: self.accepted_attention_projection_lanes,
            accepted_attention_mix_lanes: self.accepted_attention_mix_lanes,
            accepted_ffn_width: self.accepted_ffn_width,
            accepted_ffn_lanes: self.accepted_ffn_lanes,
            accepted_next_layer_index: self.accepted_next_layer_index,
            reason: self.reason.clone(),
        }
    }
}

impl StageResumeRequestModel {
    /// The request to resume a transfer under a plan.
    pub open spec fn of_plan(plan: StageBoundaryPlanModel, transfer: StageTransferFrameModel) -> Self {
        StageResumeRequestModel {
            version: STAGE_FORWARD_FRAME_VERSION,
            model_id: transfer.model_id,
            target_stage_id: plan.target_stage_id,
            boundary: plan,
            transfer,
        }
    }

    /// What is wrong with the request: its version, its transfer, or the transfer under its plan.
    pub open spec fn fault(self) -> Option<Seq<char>> {
        if self.version != STAGE_FORWARD_FRAME_VERSION {
            Some(
                "Unsupported stage resume request version "@ + crate::text::dec(
                    self.version as nat,
                ),
            )
        } else {
            crate::model::then_check(
                self.transfer.fault(),
                self.boundary.transfer_fault(self.transfer),
            )
        }
    }
}

impl StageResumeReceiptModel {
    /// The receipt of a request that is accepted as planned.
    pub open spec fn accepting(
        request: StageResumeRequestModel,
        accepted_stage_id: Option<Seq<char>>,
    ) -> Self {
        StageResumeReceiptModel {
            version: request.version,
            accepted: true,
            accepted_stage_id: accepted_stage_id,
            accepted_payload_kind: request.transfer.payload.kind,
            accepted_hidden_dim: request.transfer.payload.hidden_dim,
            accepted_attention_carry: request.boundary.expects_attention_carry,
            accepted_ffn_carry: request.boundary.expects_ffn_carry,
            accepted_attention_width: request.boundary.expected_attention_width,
            accepted_attention_lanes: request.boundary.expected_attention_lanes,
            accepted_attention_q_resume: request.boundary.resumable_attention_q,
            accepted_attention_k_resume: request.boundary.resumable_attention_k,
            accepted_attention_v_resume: request.boundary.resumable_attention_v,
            accepted_attention_q_lanes: request.boundary.resumable_attention_q_lanes,
            accepted_attention_k_lanes: request.boundary.resumable_attention_k_lanes,
            accepted_attention_v_lanes: request.boundary.resumable_attention_v_lanes,
            accepted_attention_q_max_distance: request.boundary.resumable_attention_q_max_distance,
            accepted_attention_k_max_distance: request.boundary.resumable_attention_k_max_distance,
            accepted_attention_v_max_distance: request.boundary.resumable_attention_v_max_distance,
            accepted_attention_score_max_distance: request.boundary.resumable_attention_score_max_distance,
            accepted_attention_value_max_distance: request.boundary.resumable_attention_value_max_distance,
            accepted_attention_contract: request.boundary.resumable_attention_contract,
            accepted_attention_score_lanes: request.boundary.expected_attention_score_lanes,
            accepted_attention_value_lanes: request.boundary.expected_attention_value_lanes,
            accepted_attention_q_distance: request.boundary.expected_attention_q_distance,
            accepted_attention_k_distance: request.boundary.expected_attention_k_distance,
            accepted_attention_v_distance: request.boundary.expected_attention_v_distance,
            accepted_attention_score_distance: request.boundary.expected_attention_score_distance,
            accepted_attention_value_distance: request.boundary.expected_attention_value_distance,
            accepted_attention_projection_carry: request.boundary.expects_attention_projection_carry,
            accepted_attention_mix_carry: request.boundary.expects_attention_mix_carry,
            accepted_attention_projection_lanes: request.boundary.expected_attention_projection_lanes,
            accepted_attention_mix_lanes: request.boundary.expected_attention_mix_lanes,
            accepted_ffn_width: request.boundary.expected_ffn_width,
            accepted_ffn_lanes: request.boundary.expected_ffn_lanes,
            accepted_next_layer_index: request.boundary.next_layer_index,
            reason: None,
        }
    }

    /// The receipt of a request that is refused.
    pub open spec fn refusing(request: StageResumeRequestModel, reason: Seq<char>) -> Self {
        StageResumeReceiptModel {
            version: request.version,
            accepted: false,
            accepted_stage_id: request.target_stage_id,
            accepted_payload_kind: request.transfer.payload.kind,
            accepted_hidden_dim: request.transfer.payload.hidden_dim,
            accepted_attention_carry: false,
            accepted_ffn_carry: false,
            accepted_attention_width: None,
            accepted_attention_lanes: None,
            accepted_attention_q_resume: false,
            accepted_attention_k_resume: false,
            accepted_attention_v_resume: false,
            accepted_attention_q_lanes: None,
            accepted_attention_k_lanes: None,
            accepted_attention_v_lanes: None,
            accepted_attention_q_max_distance: None,
            accepted_attention_k_max_distance: None,
            accepted_attention_v_max_distance: None,
            accepted_attention_score_max_distance: None,
            accepted_attention_value_max_distance: None,
            accepted_attention_contract: StageResumeContractSummary::none(),
            accepted_attention_score_lanes: None,
            accepted_attention_value_lanes: None,
            accepted_attention_q_distance: None,
            accepted_attention_k_distance: None,
            accepted_attention_v_distance: None,
            accepted_attention_score_distance: None,
            accepted_attention_value_distance: None,
            accepted_attention_projection_carry: false,
            accepted_attention_mix_carry: false,
            accepted_attention_projection_lanes: None,
            accepted_attention_mix_lanes: None,
            accepted_ffn_width: None,
            accepted_ffn_lanes: None,
            accepted_next_layer_index: request.boundary.next_layer_index,
            reason: Some(reason),
        }
    }

    /// What is wrong with an accepting receipt under the request's plan: the first item on which
    /// they differ.
    pub open spec fn plan_fault(self, request: StageResumeRequestModel) -> Option<Seq<char>> {
        if self.accepted_attention_carry != request.boundary.expects_attention_carry {
            Some("Resume receipt accepted_attention_carry diverged from boundary plan"@)
        } else if self.accepted_ffn_carry != request.boundary.expects_ffn_carry {
            Some("Resume receipt accepted_ffn_carry diverged from boundary plan"@)
        } else if self.accepted_attention_width != request.boundary.expected_attention_width {
            Some("Resume receipt accepted_attention_width diverged from boundary plan"@)
        } else if self.accepted_attention_lanes != request.boundary.expected_attention_lanes {
            Some("Resume receipt accepted_attention_lanes diverged from boundary plan"@)
        } else if self.accepted_attention_q_resume != request.boundary.resumable_attention_q {
            Some("Resume receipt accepted_attention_q_resume diverged from boundary plan"@)
        } else if self.accepted_attention_k_resume != request.boundary.resumable_attention_k {
            Some("Resume receipt accepted_attention_k_resume diverged from boundary plan"@)
        } else if self.accepted_attention_v_resume != request.boundary.resumable_attention_v {
            Some("Resume receipt accepted_attention_v_resume diverged from boundary plan"@)
        } else if self.accepted_attention_q_lanes != request.boundary.resumable_attention_q_lanes {
            Some("Resume receipt accepted_attention_q_lanes diverged from boundary plan"@)
        } else if self.accepted_attention_k_lanes != request.boundary.resumable_attention_k_lanes {
            Some("Resume receipt accepted_attention_k_lanes diverged from boundary plan"@)
        } else if self.accepted_attention_v_lanes != request.boundary.resumable_attention_v_lanes {
            Some("Resume receipt accepted_attention_v_lanes diverged from boundary plan"@)
        } else if self.accepted_attention_q_max_distance
            != request.boundary.resumable_attention_q_max_distance {
            Some("Resume receipt accepted_attention_q_max_distance diverged from boundary plan"@)
        } else if self.accepted_attention_k_max_distance
            != request.boundary.resumable_attention_k_max_distance {
            Some("Resume receipt accepted_attention_k_max_distance diverged from boundary plan"@)
        } else if self.accepted_attention_v_max_distance
            != request.boundary.resumable_attention_v_max_distance {
            Some("Resume receipt accepted_attention_v_max_distance diverged from boundary plan"@)
        } else if self.accepted_attention_score_max_distance
            != request.boundary.resumable_attention_score_max_distance {
            Some("Resume receipt accepted_attention_score_max_distance diverged from boundary plan"@)
        } else if self.accepted_attention_value_max_distance
            != request.boundary.resumable_attention_value_max_distance {
            Some("Resume receipt accepted_attention_value_max_distance diverged from boundary plan"@)
        } else if self.accepted_attention_contract
            != request.boundary.resumable_attention_contract {
            Some("Resume receipt accepted_attention_contract diverged from boundary plan"@)
        } else if self.accepted_attention_score_lanes
            != request.boundary.expected_attention_score_lanes {
            Some("Resume receipt accepted_attention_score_lanes diverged from boundary plan"@)
        } else if self.accepted_attention_value_lanes
            != request.boundary.expected_attention_value_lanes {
            Some("Resume receipt accepted_attention_value_lanes diverged from boundary plan"@)
        } else if self.accepted_attention_q_distance
            != request.boundary.expected_attention_q_distance {
            Some("Resume receipt accepted_attention_q_distance diverged from boundary plan"@)
        } else if self.accepted_attention_k_distance
            != request.boundary.expected_attention_k_distance {
            Some("Resume receipt accepted_attention_k_distance diverged from boundary plan"@)
        } else if self.accepted_attention_v_distance
            != request.boundary.expected_attention_v_distance {
            Some("Resume receipt accepted_attention_v_distance diverged from boundary plan"@)
        } else if self.accepted_attention_score_distance
            != request.boundary.expected_attention_score_distance {
            Some("Resume receipt accepted_attention_score_distance diverged from boundary plan"@)
        } else if self.accepted_attention_value_distance
            != request.boundary.expected_attention_value_distance {
            Some("Resume receipt accepted_attention_value_distance diverged from boundary plan"@)
        } else if self.accepted_attention_projection_carry
            != request.boundary.expects_attention_projection_carry {
            Some("Resume receipt accepted_attention_projection_carry diverged from boundary plan"@)
        } else if self.accepted_attention_mix_carry
            != request.boundary.expects_attention_mix_carry {
            Some("Resume receipt accepted_attention_mix_carry diverged from boundary plan"@)
        } else if self.accepted_attention_projection_lanes
            != request.boundary.expected_attention_projection_lanes {
            Some("Resume receipt accepted_attention_projection_lanes diverged from boundary plan"@)
        } else if self.accepted_attention_mix_lanes
            != request.boundary.expected_attention_mix_lanes {
            Some("Resume receipt accepted_attention_mix_lanes diverged from boundary plan"@)
        } else if self.accepted_ffn_width != request.boundary.expected_ffn_width {
            Some("Resume receipt accepted_ffn_width diverged from boundary plan"@)
        } else if self.accepted_ffn_lanes != request.boundary.expected_ffn_lanes {
            Some("Resume receipt accepted_ffn_lanes diverged from boundary plan"@)
        } else if self.accepted_next_layer_index != request.boundary.next_layer_index {
            Some("Resume receipt next_layer_index diverged from boundary plan"@)
        } else {
            None
        }
    }

    /// What is wrong with the receipt of a request: the first rule that it breaks. A receipt that
    /// refuses answers for version, payload kind and dimension only.
    pub open spec fn fault(self, request: StageResumeRequestModel) -> Option<Seq<char>> {
        if self.version != request.version {
            Some(
                "Resume receipt version "@ + crate::text::dec(self.version as nat)
                    + " does not match request version "@ + crate::text::dec(
                    request.version as nat,
                ),
            )
        } else if self.accepted_payload_kind != request.transfer.payload.kind {
            Some(
                "Resume receipt payload kind "@ + crate::tensor::kind_name(
                    self.accepted_payload_kind,
                ) + " does not match request kind "@ + crate::tensor::kind_name(
                    request.transfer.payload.kind,
                ),
            )
        } else if self.accepted_hidden_dim != request.transfer.payload.hidden_dim {
            Some(
                "Resume receipt hidden_dim "@ + crate::text::dec(self.accepted_hidden_dim as nat)
                    + " does not match request hidden_dim "@ + crate::text::dec(
                    request.transfer.payload.hidden_dim as nat,
                ),
            )
        } else if self.accepted {
            self.plan_fault(request)
        } else {
            None
        }
    }
}

impl StageResumeRequest {
    /// Checks the request.
    pub fn validate(&self) -> (r: Result<(), StageError>)
        ensures
            crate::model::failure(r) == self@.fault(),
    {
        if self.version != STAGE_FORWARD_FRAME_VERSION {
            return fail_with(
                "Unsupported stage resume request version ".to_owned().concat(
                    decimal(self.version as u64).as_str(),
                ),
            );
        }
        let transfer = self.transfer.validate();
        if transfer.is_err() {
            return transfer;
        }
        self.boundary.validate_against_transfer(&self.transfer)
    }

    /// The receipt that accepts the request as planned.
    pub fn accept(&self, accepted_stage_id: Option<String>) -> (r: StageResumeReceipt)
        ensures
            r@ == StageResumeReceiptModel::accepting(self@, crate::model::opt(accepted_stage_id)),
    {
        StageResumeReceipt {
            version: self.version,
            accepted: true,
            accepted_stage_id: accepted_stage_id,
            accepted_payload_kind: self.transfer.payload.kind,
            accepted_hidden_dim: self.transfer.payload.hidden_dim,
            accepted_attention_carry: self.boundary.expects_attention_carry,
            accepted_ffn_carry: self.boundary.expects_ffn_carry,
            accepted_attention_width: self.boundary.expected_attention_width,
            accepted_attention_lanes: self.boundary.expected_attention_lanes,
            accepted_attention_q_resume: self.boundary.resumable_attention_q,
            accepted_attention_k_resume: self.boundary.resumable_attention_k,
            accepted_attention_v_resume: self.boundary.resumable_attention_v,
            accepted_attention_q_lanes: self.boundary.resumable_attention_q_lanes,
            accepted_attention_k_lanes: self.boundary.resumable_attention_k_lanes,
            accepted_attention_v_lanes: self.boundary.resumable_attention_v_lanes,
            accepted_attention_q_max_distance: self.boundary.resumable_attention_q_max_distance,
            accepted_attention_k_max_distance: self.boundary.resumable_attention_k_max_distance,
            accepted_attention_v_max_distance: self.boundary.resumable_attention_v_max_distance,
            accepted_attention_score_max_distance: self.boundary.resumable_attention_score_max_distance,
            accepted_attention_value_max_distance: self.boundary.resumable_attention_value_max_distance,
            accepted_attention_contract: self.boundary.resumable_attention_contract,
            accepted_attention_score_lanes: self.boundary.expected_attention_score_lanes,
            accepted_attention_value_lanes: self.boundary.expected_attention_value_lanes,
            accepted_attention_q_distance: self.boundary.expected_attention_q_distance,
            accepted_attention_k_distance: self.boundary.expected_attention_k_distance,
            accepted_attention_v_distance: self.boundary.expected_attention_v_distance,
            accepted_attention_score_distance: self.boundary.expected_attention_score_distance,
            accepted_attention_value_distance: self.boundary.expected_attention_value_distance,
            accepted_attention_projection_carry: self.boundary.expects_attention_projection_carry,
            accepted_attention_mix_carry: self.boundary.expects_attention_mix_carry,
            accepted_attention_projection_lanes: self.boundary.expected_attention_projection_lanes,
            accepted_attention_mix_lanes: self.boundary.expected_attention_mix_lanes,
            accepted_ffn_width: self.boundary.expected_ffn_width,
            accepted_ffn_lanes: self.boundary.expected_ffn_lanes,
            accepted_next_layer_index: self.boundary.next_layer_index,
            reason: None,
        }
    }

    /// The receipt that refuses the request.
    pub fn reject(&self, reason: &str) -> (r: StageResumeReceipt)
        ensures
            r@ == StageResumeReceiptModel::refusing(self@, reason@),
    {
        StageResumeReceipt {
            version: self.version,
            accepted: false,
            accepted_stage_id: self.target_stage_id.clone(),
            accepted_payload_kind: self.transfer.payload.kind,
            accepted_hidden_dim: self.transfer.payload.hidden_dim,
            accepted_attention_carry: false,
            accepted_ffn_carry: false,
            accepted_attention_width: None,
            accepted_attention_lanes: None,
            accepted_attention_q_resume: false,
            accepted_attention_k_resume: false,
            accepted_attention_v_resume: false,
            accepted_attention_q_lanes: None,
            accepted_attention_k_lanes: None,
            accepted_attention_v_lanes: None,
            accepted_attention_q_max_distance: None,
            accepted_attention_k_max_distance: None,
            accepted_attention_v_max_distance: None,
            accepted_attention_score_max_distance: None,
            accepted_attention_value_max_distance: None,
            accepted_attention_contract: StageResumeContractSummary::default(),
            accepted_attention_score_lanes: None,
            accepted_attention_value_lanes: None,
            accepted_attention_q_distance: None,
            accepted_attention_k_distance: None,
            accepted_attention_v_distance: None,
            accepted_attention_score_distance: None,
            accepted_attention_value_distance: None,
            accepted_attention_projection_carry: false,
            accepted_attention_mix_carry: false,
            accepted_attention_projection_lanes: None,
            accepted_attention_mix_lanes: None,
            accepted_ffn_width: None,
            accepted_ffn_lanes: None,
            accepted_next_layer_index: self.boundary.next_layer_index,
            reason: Some(reason.to_owned()),
        }
    }
}

impl StageResumeDecisionModel {
    /// The decision to refuse.
    pub open spec fn refusal(
        accepted_stage_id: Option<Seq<char>>,
        payload_kind: PayloadKind,
        hidden_dim: usize,
        next_layer_index: Option<u32>,
        reason: Seq<char>,
    ) -> Self {
        StageResumeDecisionModel {
            accepted: false,
            accepted_stage_id: accepted_stage_id,
            accepted_payload_kind: payload_kind,
            accepted_hidden_dim: hidden_dim,
            accepted_attention_carry: false,
            accepted_ffn_carry: false,
            accepted_attention_width: None,
            accepted_attention_lanes: None,
            accepted_attention_q_resume: false,
            accepted_attention_k_resume: false,
            accepted_attention_v_resume: false,
            accepted_attention_q_lanes: None,
            accepted_attention_k_lanes: None,
            accepted_attention_v_lanes: None,
            accepted_attention_q_max_distance: None,
            accepted_attention_k_max_distance: None,
            accepted_attention_v_max_distance: None,
            accepted_attention_score_max_distance: None,
            accepted_attention_value_max_distance: None,
            accepted_attention_contract: StageResumeContractSummary::none(),
            accepted_attention_score_lanes: None,
            accepted_attention_value_lanes: None,
            accepted_attention_q_distance: None,
            accepted_attention_k_distance: None,
            accepted_attention_v_distance: None,
            accepted_attention_score_distance: None,
            accepted_attention_value_distance: None,
            accepted_attention_projection_carry: false,
            accepted_attention_mix_carry: false,
            accepted_attention_projection_lanes: None,
            accepted_attention_mix_lanes: None,
            accepted_ffn_width: None,
            accepted_ffn_lanes: None,
            accepted_next_layer_index: next_layer_index,
            reason: Some(reason),
        }
    }

    /// The receipt that tells of the decision.
    pub open spec fn to_receipt(self, version: u32) -> StageResumeReceiptModel {
        StageResumeReceiptModel {
            version,
            accepted: self.accepted,
            accepted_stage_id: self.accepted_stage_id,
            accepted_payload_kind: self.accepted_payload_kind,
            accepted_hidden_dim: self.accepted_hidden_dim,
            accepted_attention_carry: self.accepted_attention_carry,
            accepted_ffn_carry: self.accepted_ffn_carry,
            accepted_attention_width: self.accepted_attention_width,
            accepted_attention_lanes: self.accepted_attention_lanes,
            accepted_attention_q_resume: self.accepted_attention_q_resume,
            accepted_attention_k_resume: self.accepted_attention_k_resume,
            accepted_attention_v_resume: self.accepted_attention_v_resume,
            accepted_attention_q_lanes: self.accepted_attention_q_lanes,
            accepted_attention_k_lanes: self.accepted_attention_k_lanes,
            accepted_attention_v_lanes: self.accepted_attention_v_lanes,
            accepted_attention_q_max_distance: self.accepted_attention_q_max_distance,
            accepted_attention_k_max_distance: self.accepted_attention_k_max_distance,
            accepted_attention_v_max_distance: self.accepted_attention_v_max_distance,
            accepted_attention_score_max_distance: self.accepted_attention_score_max_distance,
            accepted_attention_value_max_distance: self.accepted_attention_value_max_distance,
            accepted_attention_contract: self.accepted_attention_contract,
            accepted_attention_score_lanes: self.accepted_attention_score_lanes,
            accepted_attention_value_lanes: self.accepted_attention_value_lanes,
            accepted_attention_q_distance: self.accepted_attention_q_distance,
            accepted_attention_k_distance: self.accepted_attention_k_distance,
            accepted_attention_v_distance: self.accepted_attention_v_distance,
            accepted_attention_score_distance: self.accepted_attention_score_distance,
            accepted_attention_value_distance: self.accepted_attention_value_distance,
            accepted_attention_projection_carry: self.accepted_attention_projection_carry,
            accepted_attention_mix_carry: self.accepted_attention_mix_carry,
            accepted_attention_projection_lanes: self.accepted_attention_projection_lanes,
            accepted_attention_mix_lanes: self.accepted_attention_mix_lanes,
            accepted_ffn_width: self.accepted_ffn_width,
            accepted_ffn_lanes: self.accepted_ffn_lanes,
            accepted_next_layer_index: self.accepted_next_layer_index,
            reason: self.reason,
        }
    }
}

impl StageResumeDecision {
    /// The decision to accept, with what is accepted.
    pub fn accept(
        accepted_stage_id: Option<String>,
        payload_kind: PayloadKind,
        hidden_dim: usize,
        attention_carry: bool,
        ffn_carry: bool,
        attention_width: Option<usize>,
        attention_lanes: Option<usize>,
        attention_q_resume: bool,
        attention_k_resume: bool,
        attention_v_resume: bool,
        attention_q_lanes: Option<usize>,
        attention_k_lanes: Option<usize>,
        attention_v_lanes: Option<usize>,
        attention_q_max_distance: Option<u32>,
        attention_k_max_distance: Option<u32>,
        attention_v_max_distance: Option<u32>,
        attention_score_max_distance: Option<u32>,
        attention_value_max_distance: Option<u32>,
        attention_contract: StageResumeContractSummary,
        attention_score_lanes: Option<usize>,
        attention_value_lanes: Option<usize>,
        attention_q_distance: Option<u32>,
        attention_k_distance: Option<u32>,
        attention_v_distance: Option<u32>,
        attention_score_distance: Option<u32>,
        attention_value_distance: Option<u32>,
        attention_projection_carry: bool,
        attention_mix_carry: bool,
        attention_projection_lanes: Option<usize>,
        attention_mix_lanes: Option<usize>,
        ffn_width: Option<usize>,
        ffn_lanes: Option<usize>,
        next_layer_index: Option<u32>,
    ) -> (r: Self)
        ensures
            r@ == (StageResumeDecisionModel {
                accepted: true,
                accepted_stage_id: crate::model::opt(accepted_stage_id),
                accepted_payload_kind: payload_kind,
                accepted_hidden_dim: hidden_dim,
                accepted_attention_carry: attention_carry,
                accepted_ffn_carry: ffn_carry,
                accepted_attention_width: attention_width,
                accepted_attention_lanes: attention_lanes,
                accepted_attention_q_resume: attention_q_resume,
                accepted_attention_k_resume: attention_k_resume,
                accepted_attention_v_resume: attention_v_resume,
                accepted_attention_q_lanes: attention_q_lanes,
                accepted_attention_k_lanes: attention_k_lanes,
                accepted_attention_v_lanes: attention_v_lanes,
                accepted_attention_q_max_distance: attention_q_max_distance,
                accepted_attention_k_max_distance: attention_k_max_distance,
                accepted_attention_v_max_distance: attention_v_max_distance,
                accepted_attention_score_max_distance: attention_score_max_distance,
                accepted_attention_value_max_distance: attention_value_max_distance,
                accepted_attention_contract: attention_contract,
                accepted_attention_score_lanes: attention_score_lanes,
                accepted_attention_value_lanes: attention_value_lanes,
                accepted_attention_q_distance: attention_q_distance,
                accepted_attention_k_distance: attention_k_distance,
                accepted_attention_v_distance: attention_v_distance,
                accepted_attention_score_distance: attention_score_distance,
                accepted_attention_value_distance: attention_value_distance,
                accepted_attention_projection_carry: attention_projection_carry,
                accepted_attention_mix_carry: attention_mix_carry,
                accepted_attention_projection_lanes: attention_projection_lanes,
                accepted_attention_mix_lanes: attention_mix_lanes,
                accepted_ffn_width: ffn_width,
                accepted_ffn_lanes: ffn_lanes,
                accepted_next_layer_index: next_layer_index,
                reason: None,
            }),
    {
        StageResumeDecision {
            accepted: true,
            accepted_stage_id: accepted_stage_id,
            accepted_payload_kind: payload_kind,
            accepted_hidden_dim: hidden_dim,
            accepted_attention_carry: attention_carry,
            accepted_ffn_carry: ffn_carry,
            accepted_attention_width: attention_width,
            accepted_attention_lanes: attention_lanes,
            accepted_attention_q_resume: attention_q_resume,
            accepted_attention_k_resume: attention_k_resume,
            accepted_attention_v_resume: attention_v_resume,
            accepted_attention_q_lanes: attention_q_lanes,
            accepted_attention_k_lanes: attention_k_lanes,
            accepted_attention_v_lanes: attention_v_lanes,
            accepted_attention_q_max_distance: attention_q_max_distance,
            accepted_attention_k_max_distance: attention_k_max_distance,
            accepted_attention_v_max_distance: attention_v_max_distance,
            accepted_attention_score_max_distance: attention_score_max_distance,
            accepted_attention_value_max_distance: attention_value_max_distance,
            accepted_attention_contract: attention_contract,
            accepted_attention_score_lanes: attention_score_lanes,
            accepted_attention_value_lanes: attention_value_lanes,
            accepted_attention_q_distance: attention_q_distance,
            accepted_attention_k_distance: attention_k_distance,
            accepted_attention_v_distance: attention_v_distance,
            accepted_attention_score_distance: attention_score_distance,
            accepted_attention_value_distance: attention_value_distance,
            accepted_attention_projection_carry: attention_projection_carry,
            accepted_attention_mix_carry: attention_mix_carry,
            accepted_attention_projection_lanes: attention_projection_lanes,
            accepted_attention_mix_lanes: attention_mix_lanes,
            accepted_ffn_width: ffn_width,
            accepted_ffn_lanes: ffn_lanes,
            accepted_next_layer_index: next_layer_index,
            reason: None,
        }
    }

    /// The decision to refuse.
    pub fn reject(
        accepted_stage_id: Option<String>,
        payload_kind: PayloadKind,
        hidden_dim: usize,
        next_layer_index: Option<u32>,
        reason: &str,
    ) -> (r: Self)
        ensures
            r@ == StageResumeDecisionModel::refusal(
                crate::model::opt(accepted_stage_id),
                payload_kind,
                hidden_dim,
                next_layer_index,
                reason@,
            ),
    {
        StageResumeDecision {
            accepted: false,
            accepted_stage_id: accepted_stage_id,
            accepted_payload_kind: payload_kind,
            accepted_hidden_dim: hidden_dim,
            accepted_attention_carry: false,
            accepted_ffn_carry: false,
            accepted_attention_width: None,
            accepted_attention_lanes: None,
            accepted_attention_q_resume: false,
            accepted_attention_k_resume: false,
            accepted_attention_v_resume: false,
            accepted_attention_q_lanes: None,
            accepted_attention_k_lanes: None,
            accepted_attention_v_lanes: None,
            accepted_attention_q_max_distance: None,
            accepted_attention_k_max_distance: None,
            accepted_attention_v_max_distance: None,
            accepted_attention_score_max_distance: None,
            accepted_attention_value_max_distance: None,
            accepted_attention_contract: StageResumeContractSummary::default(),
            accepted_attention_score_lanes: None,
            accepted_attention_value_lanes: None,
            accepted_attention_q_distance: None,
            accepted_attention_k_distance: None,
            accepted_attention_v_distance: None,
            accepted_attention_score_distance: None,
            accepted_attention_value_distance: None,
            accepted_attention_projection_carry: false,
            accepted_attention_mix_carry: false,
            accepted_attention_projection_lanes: None,
            accepted_attention_mix_lanes: None,
            accepted_ffn_width: None,
            accepted_ffn_lanes: None,
            accepted_next_layer_index: next_layer_index,
            reason: Some(reason.to_owned()),
        }
    }

    /// The receipt that tells of the decision.
    pub fn into_receipt(self, version: u32) -> (r: StageResumeReceipt)
        ensures
            r@ == self@.to_receipt(version),
    {
        StageResumeReceipt {
            version,
            accepted: self.accepted,
            accepted_stage_id: self.accepted_stage_id,
            accepted_payload_kind: self.accepted_payload_kind,
            accepted_hidden_dim: self.accepted_hidden_dim,
            accepted_attention_carry: self.accepted_attention_carry,
            accepted_ffn_carry: self.accepted_ffn_carry,
            accepted_attention_width: self.accepted_attention_width,
            accepted_attention_lanes: self.accepted_attention_lanes,
            accepted_attention_q_resume: self.accepted_attention_q_resume,
            accepted_attention_k_resume: self.accepted_attention_k_resume,
            accepted_attention_v_resume: self.accepted_attention_v_resume,
            accepted_attention_q_lanes: self.accepted_attention_q_lanes,
            accepted_attention_k_lanes: self.accepted_attention_k_lanes,
            accepted_attention_v_lanes: self.accepted_attention_v_lanes,
            accepted_attention_q_max_distance: self.accepted_attention_q_max_distance,
            accepted_attention_k_max_distance: self.accepted_attention_k_max_distance,
            accepted_attention_v_max_distance: self.accepted_attention_v_max_distance,
            accepted_attention_score_max_distance: self.accepted_attention_score_max_distance,
            accepted_attention_value_max_distance: self.accepted_attention_value_max_distance,
            accepted_attention_contract: self.accepted_attention_contract,
            accepted_attention_score_lanes: self.accepted_attention_score_lanes,
            accepted_attention_value_lanes: self.accepted_attention_value_lanes,
            accepted_attention_q_distance: self.accepted_attention_q_distance,
            accepted_attention_k_distance: self.accepted_attention_k_distance,
            accepted_attention_v_distance: self.accepted_attention_v_distance,
            accepted_attention_score_distance: self.accepted_attention_score_distance,
            accepted_attention_value_distance: self.accepted_attention_value_distance,
            accepted_attention_projection_carry: self.accepted_attention_projection_carry,
            accepted_attention_mix_carry: self.accepted_attention_mix_carry,
            accepted_attention_projection_lanes: self.accepted_attention_projection_lanes,
            accepted_attention_mix_lanes: self.accepted_attention_mix_lanes,
            accepted_ffn_width: self.accepted_ffn_width,
            accepted_ffn_lanes: self.accepted_ffn_lanes,
            accepted_next_layer_index: self.accepted_next_layer_index,
            reason: self.reason,
        }
    }
}

impl StageResumeReceipt {
    fn check_plan(&self, request: &StageResumeRequest) -> (r: Result<(), StageError>)
        ensures
            crate::model::failure(r) == self@.plan_fault(request@),
    {
        if self.accepted_attention_carry != request.boundary.expects_attention_carry {
            return fail("Resume receipt accepted_attention_carry diverged from boundary plan");
        }
        if self.accepted_ffn_carry != request.boundary.expects_ffn_carry {
            return fail("Resume receipt accepted_ffn_carry diverged from boundary plan");
        }
        if self.accepted_attention_width != request.boundary.expected_attention_width {
            return fail("Resume receipt accepted_attention_width diverged from boundary plan");
        }
        if self.accepted_attention_lanes != request.boundary.expected_attention_lanes {
            return fail("Resume receipt accepted_attention_lanes diverged from boundary plan");
        }
        if self.accepted_attention_q_resume != request.boundary.resumable_attention_q {
            return fail("Resume receipt accepted_attention_q_resume diverged from boundary plan");
        }
        if self.accepted_attention_k_resume != request.boundary.resumable_attention_k {
            return fail("Resume receipt accepted_attention_k_resume diverged from boundary plan");
        }
        if self.accepted_attention_v_resume != request.boundary.resumable_attention_v {
            return fail("Resume receipt accepted_attention_v_resume diverged from boundary plan");
        }
        if self.accepted_attention_q_lanes != request.boundary.resumable_attention_q_lanes {
            return fail("Resume receipt accepted_attention_q_lanes diverged from boundary plan");
        }
        if self.accepted_attention_k_lanes != request.boundary.resumable_attention_k_lanes {
            return fail("Resume receipt accepted_attention_k_lanes diverged from boundary plan");
        }
        if self.accepted_attention_v_lanes != request.boundary.resumable_attention_v_lanes {
            return fail("Resume receipt accepted_attention_v_lanes diverged from boundary plan");
        }
        if self.accepted_attention_q_max_distance
            != request.boundary.resumable_attention_q_max_distance {
            return fail("Resume receipt accepted_attention_q_max_distance diverged from boundary plan");
        }
        if self.accepted_attention_k_max_distance
            != request.boundary.resumable_attention_k_max_distance {
            return fail("Resume receipt accepted_attention_k_max_distance diverged from boundary plan");
        }
        if self.accepted_attention_v_max_distance
            != request.boundary.resumable_attention_v_max_distance {
            return fail("Resume receipt accepted_attention_v_max_distance diverged from boundary plan");
        }
        if self.accepted_attention_score_max_distance
            != request.boundary.resumable_attention_score_max_distance {
            return fail("Resume receipt accepted_attention_score_max_distance diverged from boundary plan");
        }
        if self.accepted_attention_value_max_distance
            != request.boundary.resumable_attention_value_max_distance {
            return fail("Resume receipt accepted_attention_value_max_distance diverged from boundary plan");
        }
        if self.accepted_attention_contract != request.boundary.resumable_attention_contract {
            return fail("Resume receipt accepted_attention_contract diverged from boundary plan");
        }
        if self.accepted_attention_score_lanes != request.boundary.expected_attention_score_lanes {
            return fail("Resume receipt accepted_attention_score_lanes diverged from boundary plan");
        }
        if self.accepted_attention_value_lanes != request.boundary.expected_attention_value_lanes {
            return fail("Resume receipt accepted_attention_value_lanes diverged from boundary plan");
        }
        if self.accepted_attention_q_distance != request.boundary.expected_attention_q_distance {
            return fail("Resume receipt accepted_attention_q_distance diverged from boundary plan");
        }
        if self.accepted_attention_k_distance != request.boundary.expected_attention_k_distance {
            return fail("Resume receipt accepted_attention_k_distance diverged from boundary plan");
        }
        if self.accepted_attention_v_distance != request.boundary.expected_attention_v_distance {
            return fail("Resume receipt accepted_attention_v_distance diverged from boundary plan");
        }
        if self.accepted_attention_score_distance
            != request.boundary.expected_attention_score_distance {
            return fail("Resume receipt accepted_attention_score_distance diverged from boundary plan");
        }
        if self.accepted_attention_value_distance
            != request.boundary.expected_attention_value_distance {
            return fail("Resume receipt accepted_attention_value_distance diverged from boundary plan");
        }
        if self.accepted_attention_projection_carry
            != request.boundary.expects_attention_projection_carry {
            return fail("Resume receipt accepted_attention_projection_carry diverged from boundary plan");
        }
        if self.accepted_attention_mix_carry != request.boundary.expects_attention_mix_carry {
            return fail("Resume receipt accepted_attention_mix_carry diverged from boundary plan");
        }
        if self.accepted_attention_projection_lanes
            != request.boundary.expected_attention_projection_lanes {
            return fail("Resume receipt accepted_attention_projection_lanes diverged from boundary plan");
        }
        if self.accepted_attention_mix_lanes != request.boundary.expected_attention_mix_lanes {
            return fail("Resume receipt accepted_attention_mix_lanes diverged from boundary plan");
        }
        if self.accepted_ffn_width != request.boundary.expected_ffn_width {
            return fail("Resume receipt accepted_ffn_width diverged from boundary plan");
        }
        if self.accepted_ffn_lanes != request.boundary.expected_ffn_lanes {
            return fail("Resume receipt accepted_ffn_lanes diverged from boundary plan");
        }
        if self.accepted_next_layer_index != request.boundary.next_layer_index {
            return fail("Resume receipt next_layer_index diverged from boundary plan");
        }
        Ok(())
    }

    /// Checks the receipt against the request that it answers.
    pub fn validate_against_request(&self, request: &StageResumeRequest) -> (r: Result<
        (),
        StageError,
    >)
        ensures
            crate::model::failure(r) == self@.fault(request@),
    {
        if self.version != request.version {
            return fail_with(
                "Resume receipt version ".to_owned().concat(
                    decimal(self.version as u64).as_str(),
                ).concat(" does not match request version ").concat(
                    decimal(request.version as u64).as_str(),
                ),
            );
        }
        if self.accepted_payload_kind != request.transfer.payload.kind {
            return fail_with(
                "Resume receipt payload kind ".to_owned().concat(
                    kind_text(self.accepted_payload_kind),
                ).concat(" does not match request kind ").concat(
                    kind_text(request.transfer.payload.kind),
                ),
            );
        }
        if self.accepted_hidden_dim != request.transfer.payload.hidden_dim {
            return fail_with(
                "Resume receipt hidden_dim ".to_owned().concat(
                    size_text(self.accepted_hidden_dim).as_str(),
                ).concat(" does not match request hidden_dim ").concat(
                    size_text(request.transfer.payload.hidden_dim).as_str(),
                ),
            );
        }
        if self.accepted {
            return self.check_plan(request);
        }
        Ok(())
    }
}

/// The receipt that accepts a request as planned passes the check against it.
pub proof fn lemma_accepting_receipt_is_valid(
    request: StageResumeRequestModel,
    accepted_stage_id: Option<Seq<char>>,
)
    ensures
        StageResumeReceiptModel::accepting(request, accepted_stage_id).fault(request) is None,
{
}

/// The receipt that refuses a request passes the check against it, whatever the reason.
pub proof fn lemma_refusing_receipt_is_valid(request: StageResumeRequestModel, reason: Seq<char>)
    ensures
        StageResumeReceiptModel::refusing(request, reason).fault(request) is None,
{
}

/// A request that is made of a plan passes its check where the transfer passes its own and the
/// plan's.
pub proof fn lemma_planned_request_is_valid(
    plan: StageBoundaryPlanModel,
    transfer: StageTransferFrameModel,
)
    requires
        plan.transfer_fault(transfer) is None,
        transfer.fault() is None,
    ensures
        StageResumeRequestModel::of_plan(plan, transfer).fault() is None,
{
}

} // verus!
