//! A stage that runs out of a packed artifact: which resume requests it admits, and on what terms.
use vstd::prelude::*;
use vstd::string::*;
use crate::boundary::StageBoundaryPlanModel;
use crate::carry::StageCarryPolicy;
use crate::execution::{
    ExecutionOpKind, LayerExecutionProgram, StageResumeBudgets, StageResumeCapabilities,
    StageResumeContractSummary, StageResumeFreshnessPolicy,
};
use crate::frame::{StageForwardFrameModel, StageTransferFrameModel, TransientStatistics};
use crate::model::{fail, fail_with, StageError};
use crate::model_view::StageModelView;
use crate::packed::StageTensorStore;
use crate::resume::{
    StageResumeDecision, StageResumeDecisionModel, StageResumeReceipt, StageResumeRequest,
    StageResumeRequestModel,
};
use crate::tensor::{PayloadKind, StageLayout, StageLayoutModel, StageTensor};
use crate::text::{decimal, size_text};

verus! {

/// A stage that runs out of a packed artifact.
#[derive(Debug)]
pub struct PackedResidencySketchBackend {
    pub index_path: String,
    pub layout: Option<StageLayout>,
    pub store: Option<StageTensorStore>,
    pub model_view: Option<StageModelView>,
    pub debug_layer_cap: Option<usize>,
}

impl LayerExecutionProgram {
    /// The first program that can be run and has an attention operation.
    pub open spec fn first_attention(programs: Seq<LayerExecutionProgram>, from: int) -> Option<int>
        decreases programs.len() - from,
    {
        if from < 0 || from >= programs.len() {
            None
        } else if programs[from].runs_attention() {
            Some(from)
        } else {
            Self::first_attention(programs, from + 1)
        }
    }

    /// The first program that can be run and has a feed-forward operation.
    pub open spec fn first_ffn(programs: Seq<LayerExecutionProgram>, from: int) -> Option<int>
        decreases programs.len() - from,
    {
        if from < 0 || from >= programs.len() {
            None
        } else if programs[from].runs_ffn() {
            Some(from)
        } else {
            Self::first_ffn(programs, from + 1)
        }
    }

    /// The width of the attention state that a stage with these programs carries: that of its
    /// first attention program.
    pub open spec fn attention_width(programs: Seq<LayerExecutionProgram>) -> Option<usize> {
        match Self::first_attention(programs, 0) {
            Some(index) => {
                let program = programs[index];
                match StageResumeBudgets::first_known(
                    StageResumeBudgets::first_known(
                        StageResumeBudgets::first_known(program.q_out_dim, program.k_out_dim),
                        program.v_out_dim,
                    ),
                    program.hidden_dim,
                ) {
                    Some(width) => Some(width as usize),
                    None => None,
                }
            },
            None => None,
        }
    }

    /// The width of the feed-forward state that a stage with these programs carries: that of its
    /// first feed-forward program.
    pub open spec fn ffn_width(programs: Seq<LayerExecutionProgram>) -> Option<usize> {
        match Self::first_ffn(programs, 0) {
            Some(index) => match StageResumeBudgets::first_known(
                programs[index].ffn_inner_dim,
                programs[index].hidden_dim,
            ) {
                Some(width) => Some(width as usize),
                None => None,
            },
            None => None,
        }
    }

    fn has_attention(&self) -> (r: bool)
        ensures
            r == self.runs_attention(),
    {
        if !self.runnable_sketch {
            return false;
        }
        let mut index: usize = 0;
        while index < self.ops.len()
            invariant
                index <= self.ops@.len(),
                self.runnable_sketch,
                forall|i: int| 0 <= i < index ==> !(#[trigger] self.ops@[i]).kind.is_attention(),
            decreases self.ops.len() - index,
        {
            if matches!(
                self.ops[index].kind,
                ExecutionOpKind::AttentionQ | ExecutionOpKind::AttentionK
                    | ExecutionOpKind::AttentionV | ExecutionOpKind::AttentionOut
            ) {
                assert(self.ops@[index as int].kind.is_attention());
                return true;
            }
            index += 1;
        }
        false
    }

    fn has_ffn(&self) -> (r: bool)
        ensures
            r == self.runs_ffn(),
    {
        if !self.runnable_sketch {
            return false;
        }
        let mut index: usize = 0;
        while index < self.ops.len()
            invariant
                index <= self.ops@.len(),
                self.runnable_sketch,
                forall|i: int| 0 <= i < index ==> !(#[trigger] self.ops@[i]).kind.is_ffn(),
            decreases self.ops.len() - index,
        {
            if matches!(
                self.ops[index].kind,
                ExecutionOpKind::FfnGate | ExecutionOpKind::FfnUp | ExecutionOpKind::FfnDown
            ) {
                assert(self.ops@[index as int].kind.is_ffn());
                return true;
            }
            index += 1;
        }
        false
    }
}

/// The reason that more lanes are asked for than the target has room for.
pub open spec fn lanes_reason(
    label: Seq<char>,
    expected: Option<usize>,
    limit: Option<usize>,
) -> Option<Seq<char>> {
    match (expected, limit) {
        (Some(expected), Some(limit)) if expected > limit => Some(
            label + " carry lanes "@ + crate::text::dec(expected as nat) + " exceed target budget "@
                + crate::text::dec(limit as nat),
        ),
        _ => None,
    }
}

/// The reason that a slice is older than the target takes.
pub open spec fn age_reason(
    label: Seq<char>,
    expected: Option<u32>,
    limit: Option<u32>,
) -> Option<Seq<char>> {
    match (expected, limit) {
        (Some(expected), Some(limit)) if expected > limit => Some(
            label + " freshness distance "@ + crate::text::dec(expected as nat)
                + " exceeds target limit "@ + crate::text::dec(limit as nat),
        ),
        _ => None,
    }
}

/// The reason that a state is wider or narrower than the target's.
pub open spec fn width_reason(
    label: Seq<char>,
    expected: Option<usize>,
    actual: Option<usize>,
) -> Option<Seq<char>> {
    match (expected, actual) {
        (Some(expected), Some(actual)) => if actual == expected {
            None
        } else {
            Some(
                label + " carry width mismatch: request "@ + crate::text::dec(expected as nat)
                    + " vs target "@ + crate::text::dec(actual as nat),
            )
        },
        (Some(_), None) => Some(
            label + " carry width requested but target stage has no carry width"@,
        ),
        _ => None,
    }
}

fn check_lanes(label: &str, expected: Option<usize>, limit: Option<usize>) -> (r: Result<
    (),
    StageError,
>)
    ensures
        crate::model::failure(r) == lanes_reason(label@, expected, limit),
{
    if let (Some(expected), Some(limit)) = (expected, limit) {
        if expected > limit {
            return fail_with(
                label.to_owned().concat(" carry lanes ").concat(
                    size_text(expected).as_str(),
                ).concat(" exceed target budget ").concat(size_text(limit).as_str()),
            );
        }
    }
    Ok(())
}

fn check_age(label: &str, expected: Option<u32>, limit: Option<u32>) -> (r: Result<(), StageError>)
    ensures
        crate::model::failure(r) == age_reason(label@, expected, limit),
{
    if let (Some(expected), Some(limit)) = (expected, limit) {
        if expected > limit {
            return fail_with(
                label.to_owned().concat(" freshness distance ").concat(
                    decimal(expected as u64).as_str(),
                ).concat(" exceeds target limit ").concat(decimal(limit as u64).as_str()),
            );
        }
    }
    Ok(())
}

fn check_width(label: &str, expected: Option<usize>, actual: Option<usize>) -> (r: Result<
    (),
    StageError,
>)
    ensures
        crate::model::failure(r) == width_reason(label@, expected, actual),
{
    if let Some(expected) = expected {
        match actual {
            Some(actual) => {
                if actual != expected {
                    return fail_with(
                        label.to_owned().concat(" carry width mismatch: request ").concat(
                            size_text(expected).as_str(),
                        ).concat(" vs target ").concat(size_text(actual).as_str()),
                    );
                }
            },
            None => {
                return fail_with(
                    label.to_owned().concat(
                        " carry width requested but target stage has no carry width",
                    ),
                );
            },
        }
    }
    Ok(())
}

impl StageBoundaryPlanModel {
    /// Whether no attention slice of the planned carry is older than a stage with this policy
    /// takes.
    pub open spec fn is_fresh_for(self, freshness: StageResumeFreshnessPolicy) -> bool {
        &&& is_young(self.expected_attention_q_distance, freshness.attention_q_max_distance)
        &&& is_young(self.expected_attention_k_distance, freshness.attention_k_max_distance)
        &&& is_young(self.expected_attention_v_distance, freshness.attention_v_max_distance)
        &&& is_young(
            self.expected_attention_score_distance,
            freshness.attention_score_max_distance,
        )
        &&& is_young(
            self.expected_attention_value_distance,
            freshness.attention_value_max_distance,
        )
    }
}

/// Whether a distance, where it is known, is within a limit, where there is one.
pub open spec fn is_young(distance: Option<u32>, limit: Option<u32>) -> bool {
    match (distance, limit) {
        (Some(distance), Some(limit)) => distance <= limit,
        _ => true,
    }
}

impl StageResumeRequestModel {
    /// Why a stage with the given layout is not the one that the request is for.
    pub open spec fn layout_reason(self, layout: StageLayoutModel) -> Option<Seq<char>> {
        if layout.is_head {
            Some("head stage cannot admit downstream resume requests"@)
        } else if self.model_id != layout.model_id {
            Some(
                "model mismatch: request "@ + self.model_id + " vs layout "@ + layout.model_id,
            )
        } else if self.target_stage_id is Some && self.target_stage_id->0 != layout.stage_id {
            Some(
                "target stage mismatch: request "@ + self.target_stage_id->0 + " vs layout "@
                    + layout.stage_id,
            )
        } else if self.transfer.payload.kind != PayloadKind::HiddenState {
            Some("downstream resume requires hidden-state payload"@)
        } else if self.boundary.next_layer_index is Some && self.boundary.next_layer_index->0
            != layout.start_layer {
            Some(
                "next-layer mismatch: request "@ + crate::text::dec(
                    self.boundary.next_layer_index->0 as nat,
                ) + " vs layout start "@ + crate::text::dec(layout.start_layer as nat),
            )
        } else {
            None
        }
    }

    /// What the request is promised, of what a stage that runs `programs` can resume.
    pub open spec fn capability_reason(
        self,
        capabilities: StageResumeCapabilities,
        contract: StageResumeContractSummary,
    ) -> Option<Seq<char>> {
        let boundary = self.boundary;
        if boundary.resumable_attention_contract != StageResumeContractSummary::none()
            && boundary.resumable_attention_contract != contract {
            Some("attention resume contract does not match target execution program"@)
        } else if boundary.expects_attention_carry && !capabilities.attention_path {
            Some("attention carry requested but target stage has no runnable attention path"@)
        } else if boundary.expects_attention_projection_carry
            && !capabilities.attention_projection {
            Some(
                "attention projection carry requested but target stage cannot resume q/k/v projection substate"@,
            )
        } else if boundary.expects_attention_mix_carry && !capabilities.attention_mix {
            Some(
                "attention mix carry requested but target stage cannot resume score/value mix substate"@,
            )
        } else if boundary.expects_ffn_carry && !capabilities.ffn_path {
            Some("ffn carry requested but target stage has no runnable ffn path"@)
        } else {
            None
        }
    }

    /// What of the request's carry is too much or too old for a stage with these limits.
    pub open spec fn limit_reason(
        self,
        budgets: StageResumeBudgets,
        freshness: StageResumeFreshnessPolicy,
    ) -> Option<Seq<char>> {
        let boundary = self.boundary;
        let q_lanes = lanes_reason(
            "attention q"@,
            boundary.expected_attention_q_lanes,
            budgets.attention_q_lanes,
        );
        let q_age = age_reason(
            "attention q"@,
            boundary.expected_attention_q_distance,
            freshness.attention_q_max_distance,
        );
        let k_lanes = lanes_reason(
            "attention k"@,
            boundary.expected_attention_k_lanes,
            budgets.attention_k_lanes,
        );
        let k_age = age_reason(
            "attention k"@,
            boundary.expected_attention_k_distance,
            freshness.attention_k_max_distance,
        );
        let v_lanes = lanes_reason(
            "attention v"@,
            boundary.expected_attention_v_lanes,
            budgets.attention_v_lanes,
        );
        let v_age = age_reason(
            "attention v"@,
            boundary.expected_attention_v_distance,
            freshness.attention_v_max_distance,
        );
        let projection_lanes = lanes_reason(
            "attention projection"@,
            boundary.expected_attention_projection_lanes,
            budgets.attention_projection_lanes,
        );
        let mix_lanes = lanes_reason(
            "attention mix"@,
            boundary.expected_attention_mix_lanes,
            budgets.attention_mix_lanes,
        );
        let score_age = age_reason(
            "attention score"@,
            boundary.expected_attention_score_distance,
            freshness.attention_score_max_distance,
        );
        let value_age = age_reason(
            "attention value"@,
            boundary.expected_attention_value_distance,
            freshness.attention_value_max_distance,
        );
        let ffn_lanes = lanes_reason(
            "ffn"@,
            boundary.expected_ffn_lanes,
            budgets.ffn_lanes,
        );
        if q_lanes is Some {
            q_lanes
        } else if q_age is Some {
            q_age
        } else if k_lanes is Some {
            k_lanes
        } else if k_age is Some {
            k_age
        } else if v_lanes is Some {
            v_lanes
        } else if v_age is Some {
            v_age
        } else if projection_lanes is Some {
            projection_lanes
        } else if mix_lanes is Some {
            mix_lanes
        } else if score_age is Some {
            score_age
        } else if value_age is Some {
            value_age
        } else {
            ffn_lanes
        }
    }

    /// What of the request's carry has another width than the state of a stage that runs
    /// `programs`.
    pub open spec fn width_reason(self, programs: Seq<LayerExecutionProgram>) -> Option<Seq<char>> {
        crate::model::then_check(
            width_reason(
                "attention"@,
                self.boundary.expected_attention_width,
                LayerExecutionProgram::attention_width(programs),
            ),
            width_reason(
                "ffn"@,
                self.boundary.expected_ffn_width,
                LayerExecutionProgram::ffn_width(programs),
            ),
        )
    }

    /// Why a stage with the given layout and programs refuses the request; none where it admits
    /// it.
    pub open spec fn refusal_reason(
        self,
        layout: StageLayoutModel,
        programs: Seq<LayerExecutionProgram>,
    ) -> Option<Seq<char>> {
        let next = self.boundary.next_layer_index;
        let capabilities = StageResumeCapabilities::of_programs(programs, next);
        crate::model::then_check(
            self.layout_reason(layout),
            crate::model::then_check(
                self.capability_reason(
                    capabilities,
                    StageResumeContractSummary::of_programs(programs, next, capabilities),
                ),
                crate::model::then_check(
                    self.limit_reason(
                        StageResumeBudgets::of_programs(programs, next, capabilities),
                        StageResumeFreshnessPolicy::of_programs(programs, next, capabilities),
                    ),
                    self.width_reason(programs),
                ),
            ),
        )
    }

    /// The refusal of the request.
    pub open spec fn refused(
        self,
        stage_id: Option<Seq<char>>,
        reason: Seq<char>,
    ) -> StageResumeDecisionModel {
        StageResumeDecisionModel::refusal(
            stage_id,
            self.transfer.payload.kind,
            self.transfer.payload.hidden_dim,
            self.boundary.next_layer_index,
            reason,
        )
    }

    /// The admission of the request at a stage with these capabilities: what its plan expects,
    /// as far as the stage can resume it.
    pub open spec fn admitted(
        self,
        stage_id: Seq<char>,
        capabilities: StageResumeCapabilities,
    ) -> StageResumeDecisionModel {
        StageResumeDecisionModel {
            accepted: true,
            accepted_stage_id: Some(stage_id),
            accepted_payload_kind: self.transfer.payload.kind,
            accepted_hidden_dim: self.transfer.payload.hidden_dim,
            accepted_attention_carry: self.boundary.expects_attention_carry
                && capabilities.attention_path,
            accepted_ffn_carry: self.boundary.expects_ffn_carry
                && capabilities.ffn_path,
            accepted_attention_width: self.boundary.expected_attention_width,
            accepted_attention_lanes: self.boundary.expected_attention_lanes,
            accepted_attention_q_resume: capabilities.attention_q,
            accepted_attention_k_resume: capabilities.attention_k,
            accepted_attention_v_resume: capabilities.attention_v,
            accepted_attention_q_lanes: self.boundary.resumable_attention_q_lanes,
            accepted_attention_k_lanes: self.boundary.resumable_attention_k_lanes,
            accepted_attention_v_lanes: self.boundary.resumable_attention_v_lanes,
            accepted_attention_q_max_distance: self.boundary.resumable_attention_q_max_distance,
            accepted_attention_k_max_distance: self.boundary.resumable_attention_k_max_distance,
            accepted_attention_v_max_distance: self.boundary.resumable_attention_v_max_distance,
            accepted_attention_score_max_distance: self.boundary.resumable_attention_score_max_distance,
            accepted_attention_value_max_distance: self.boundary.resumable_attention_value_max_distance,
            accepted_attention_contract: self.boundary.resumable_attention_contract,
            accepted_attention_score_lanes: self.boundary.expected_attention_score_lanes,
            accepted_attention_value_lanes: self.boundary.expected_attention_value_lanes,
            accepted_attention_q_distance: self.boundary.expected_attention_q_distance,
            accepted_attention_k_distance: self.boundary.expected_attention_k_distance,
            accepted_attention_v_distance: self.boundary.expected_attention_v_distance,
            accepted_attention_score_distance: self.boundary.expected_attention_score_distance,
            accepted_attention_value_distance: self.boundary.expected_attention_value_distance,
            accepted_attention_projection_carry: self.boundary.expects_attention_projection_carry
                && capabilities.attention_projection,
            accepted_attention_mix_carry: self.boundary.expects_attention_mix_carry
                && capabilities.attention_mix,
            accepted_attention_projection_lanes: self.boundary.expected_attention_projection_lanes,
            accepted_attention_mix_lanes: self.boundary.expected_attention_mix_lanes,
            accepted_ffn_width: self.boundary.expected_ffn_width,
            accepted_ffn_lanes: self.boundary.expected_ffn_lanes,
            accepted_next_layer_index: self.boundary.next_layer_index,
            reason: None,
        }
    }

    /// What a stage decides about the request: it refuses an invalid one, and any as long as it
    /// has no layout or no model view; else it goes by its layout and programs.
    pub open spec fn admission(
        self,
        layout: Option<StageLayoutModel>,
        programs: Option<Seq<LayerExecutionProgram>>,
    ) -> StageResumeDecisionModel {
        match (self.fault(), layout, programs) {
            (Some(fault), _, _) => self.refused(None, "invalid resume request: "@ + fault),
            (None, None, _) => self.refused(None, "backend not ready: No stage layout loaded"@),
            (None, Some(layout), None) => self.refused(
                Some(layout.stage_id),
                "missing model view: No stage model view loaded"@,
            ),
            (None, Some(layout), Some(programs)) => match self.refusal_reason(layout, programs) {
                Some(reason) => self.refused(Some(layout.stage_id), reason),
                None => self.admitted(
                    layout.stage_id,
                    StageResumeCapabilities::of_programs(
                        programs,
                        self.boundary.next_layer_index,
                    ),
                ),
            },
        }
    }
}

impl PackedResidencySketchBackend {
    /// The programs that the stage runs, once its model view is there.
    pub open spec fn programs(self) -> Option<Seq<LayerExecutionProgram>> {
        match self.model_view {
            Some(view) => Some(view.execution_programs@),
            None => None,
        }
    }

    /// What the stage decides about a request.
    pub open spec fn decision(self, request: StageResumeRequestModel) -> StageResumeDecisionModel {
        request.admission(crate::model::opt(self.layout), self.programs())
    }

    /// A stage that runs out of the artifact with the given index, and has nothing loaded yet.
    pub fn new(path: String) -> (r: Self)
        ensures
            r.index_path == path,
            r.layout is None,
            r.store is None,
            r.model_view is None,
            r.debug_layer_cap is None,
    {
        PackedResidencySketchBackend {
            index_path: path,
            layout: None,
            store: None,
            model_view: None,
            debug_layer_cap: None,
        }
    }

    /// The same stage, which runs no more than `layer_cap` layers.
    pub fn with_debug_layer_cap(self, layer_cap: usize) -> (r: Self)
        ensures
            r.index_path == self.index_path,
            r.layout == self.layout,
            r.store == self.store,
            r.model_view == self.model_view,
            r.debug_layer_cap == Some(layer_cap),
    {
        PackedResidencySketchBackend {
            index_path: self.index_path,
            layout: self.layout,
            store: self.store,
            model_view: self.model_view,
            debug_layer_cap: Some(layer_cap),
        }
    }

    /// Sets how many layers the stage runs at most.
    pub fn set_debug_layer_cap(&mut self, layer_cap: Option<usize>)
        ensures
            final(self).index_path == old(self).index_path,
            final(self).layout == old(self).layout,
            final(self).store == old(self).store,
            final(self).model_view == old(self).model_view,
            final(self).debug_layer_cap == layer_cap,
    {
        self.debug_layer_cap = layer_cap;
    }

    /// The layout of the stage.
    pub fn layout(&self) -> (r: Result<&StageLayout, StageError>)
        ensures
            match self.layout {
                Some(layout) => r == Ok::<&StageLayout, StageError>(&layout),
                None => crate::model::failure(r) == Some("No stage layout loaded"@),
            },
    {
        match &self.layout {
            Some(layout) => Ok(layout),
            None => fail("No stage layout loaded"),
        }
    }

    /// The tensors of the stage.
    pub fn store(&self) -> (r: Result<&StageTensorStore, StageError>)
        ensures
            match self.store {
                Some(store) => r == Ok::<&StageTensorStore, StageError>(&store),
                None => crate::model::failure(r) == Some("No stage tensor store loaded"@),
            },
    {
        match &self.store {
            Some(store) => Ok(store),
            None => fail("No stage tensor store loaded"),
        }
    }

    /// The model as the stage sees it.
    pub fn model_view(&self) -> (r: Result<&StageModelView, StageError>)
        ensures
            match self.model_view {
                Some(view) => r == Ok::<&StageModelView, StageError>(&view),
                None => crate::model::failure(r) == Some("No stage model view loaded"@),
            },
    {
        match &self.model_view {
            Some(view) => Ok(view),
            None => fail("No stage model view loaded"),
        }
    }

    /// The width of the attention state that a stage with this model view carries.
    pub fn expected_attention_carry_width(view: &StageModelView) -> (r: Option<usize>)
        ensures
            r == LayerExecutionProgram::attention_width(view.execution_programs@),
    {
        let programs = &view.execution_programs;
        let mut index: usize = 0;
        while index < programs.len()
            invariant
                index <= programs@.len(),
                programs@ == view.execution_programs@,
                LayerExecutionProgram::first_attention(programs@, 0)
                    == LayerExecutionProgram::first_attention(programs@, index as int),
            decreases programs.len() - index,
        {
            let program = &programs[index];
            if program.has_attention() {
                let width = if program.q_out_dim.is_some() {
                    program.q_out_dim
                } else if program.k_out_dim.is_some() {
                    program.k_out_dim
                } else if program.v_out_dim.is_some() {
                    program.v_out_dim
                } else {
                    program.hidden_dim
                };
                return match width {
                    Some(width) => Some(width as usize),
                    None => None,
                };
            }
            index += 1;
        }
        None
    }

    /// The width of the feed-forward state that a stage with this model view carries.
    pub fn expected_ffn_carry_width(view: &StageModelView) -> (r: Option<usize>)
        ensures
            r == LayerExecutionProgram::ffn_width(view.execution_programs@),
    {
        let programs = &view.execution_programs;
        let mut index: usize = 0;
        while index < programs.len()
            invariant
                index <= programs@.len(),
                programs@ == view.execution_programs@,
                LayerExecutionProgram::first_ffn(programs@, 0)
                    == LayerExecutionProgram::first_ffn(programs@, index as int),
            decreases programs.len() - index,
        {
            let program = &programs[index];
            if program.has_ffn() {
                let width = if program.ffn_inner_dim.is_some() {
                    program.ffn_inner_dim
                } else {
                    program.hidden_dim
                };
                return match width {
                    Some(width) => Some(width as usize),
                    None => None,
                };
            }
            index += 1;
        }
        None
    }

    fn check_layout(request: &StageResumeRequest, layout: &StageLayout) -> (r: Result<(), StageError>)
        ensures
            crate::model::failure(r) == request@.layout_reason(layout@),
    {
        if layout.is_head {
            return fail("head stage cannot admit downstream resume requests");
        }
        if request.model_id != layout.model_id {
            return fail_with(
                "model mismatch: request ".to_owned().concat(request.model_id.as_str()).concat(
                    " vs layout ",
                ).concat(layout.model_id.as_str()),
            );
        }
        if let Some(target_stage_id) = &request.target_stage_id {
            if *target_stage_id != layout.stage_id {
                return fail_with(
                    "target stage mismatch: request ".to_owned().concat(
                        target_stage_id.as_str(),
                    ).concat(" vs layout ").concat(layout.stage_id.as_str()),
                );
            }
        }
        if request.transfer.payload.kind != PayloadKind::HiddenState {
            return fail("downstream resume requires hidden-state payload");
        }
        if let Some(next_layer_index) = request.boundary.next_layer_index {
            if next_layer_index != layout.start_layer {
                return fail_with(
                    "next-layer mismatch: request ".to_owned().concat(
                        decimal(next_layer_index as u64).as_str(),
                    ).concat(" vs layout start ").concat(
                        decimal(layout.start_layer as u64).as_str(),
                    ),
                );
            }
        }
        Ok(())
    }

    fn check_capabilities(
        request: &StageResumeRequest,
        capabilities: &StageResumeCapabilities,
        contract: StageResumeContractSummary,
    ) -> (r: Result<(), StageError>)
        ensures
            crate::model::failure(r) == request@.capability_reason(*capabilities, contract),
    {
        let boundary = &request.boundary;
        if !boundary.resumable_attention_contract.is_empty()
            && boundary.resumable_attention_contract != contract {
            return fail("attention resume contract does not match target execution program");
        }
        if boundary.expects_attention_carry && !capabilities.attention_path {
            return fail(
                "attention carry requested but target stage has no runnable attention path",
            );
        }
        if boundary.expects_attention_projection_carry && !capabilities.attention_projection {
            return fail(
                "attention projection carry requested but target stage cannot resume q/k/v projection substate",
            );
        }
        if boundary.expects_attention_mix_carry && !capabilities.attention_mix {
            return fail(
                "attention mix carry requested but target stage cannot resume score/value mix substate",
            );
        }
        if boundary.expects_ffn_carry && !capabilities.ffn_path {
            return fail("ffn carry requested but target stage has no runnable ffn path");
        }
        Ok(())
    }

    fn check_limits(
        request: &StageResumeRequest,
        budgets: &StageResumeBudgets,
        freshness: &StageResumeFreshnessPolicy,
    ) -> (r: Result<(), StageError>)
        ensures
            crate::model::failure(r) == request@.limit_reason(*budgets, *freshness),
    {
        let boundary = &request.boundary;
        let q_lanes = check_lanes(
            "attention q",
            boundary.expected_attention_q_lanes,
            budgets.attention_q_lanes,
        );
        if q_lanes.is_err() {
            return q_lanes;
        }
        let q_age = check_age(
            "attention q",
            boundary.expected_attention_q_distance,
            freshness.attention_q_max_distance,
        );
        if q_age.is_err() {
            return q_age;
        }
        let k_lanes = check_lanes(
            "attention k",
            boundary.expected_attention_k_lanes,
            budgets.attention_k_lanes,
        );
        if k_lanes.is_err() {
            return k_lanes;
        }
        let k_age = check_age(
            "attention k",
            boundary.expected_attention_k_distance,
            freshness.attention_k_max_distance,
        );
        if k_age.is_err() {
            return k_age;
        }
        let v_lanes = check_lanes(
            "attention v",
            boundary.expected_attention_v_lanes,
            budgets.attention_v_lanes,
        );
        if v_lanes.is_err() {
            return v_lanes;
        }
        let v_age = check_age(
            "attention v",
            boundary.expected_attention_v_distance,
            freshness.attention_v_max_distance,
        );
        if v_age.is_err() {
            return v_age;
        }
        let projection_lanes = check_lanes(
            "attention projection",
            boundary.expected_attention_projection_lanes,
            budgets.attention_projection_lanes,
        );
        if projection_lanes.is_err() {
            return projection_lanes;
        }
        let mix_lanes = check_lanes(
            "attention mix",
            boundary.expected_attention_mix_lanes,
            budgets.attention_mix_lanes,
        );
        if mix_lanes.is_err() {
            return mix_lanes;
        }
        let score_age = check_age(
            "attention score",
            boundary.expected_attention_score_distance,
            freshness.attention_score_max_distance,
        );
        if score_age.is_err() {
            return score_age;
        }
        let value_age = check_age(
            "attention value",
            boundary.expected_attention_value_distance,
            freshness.attention_value_max_distance,
        );
        if value_age.is_err() {
            return value_age;
        }
        let ffn_lanes = check_lanes(
            "ffn",
            boundary.expected_ffn_lanes,
            budgets.ffn_lanes,
        );
        ffn_lanes
    }

    fn check_widths(request: &StageResumeRequest, view: &StageModelView) -> (r: Result<
        (),
        StageError,
    >)
        ensures
            crate::model::failure(r) == request@.width_reason(view.execution_programs@),
    {
        let attention = check_width(
            "attention",
            request.boundary.expected_attention_width,
            Self::expected_attention_carry_width(view),
        );
        if attention.is_err() {
            return attention;
        }
        check_width(
            "ffn",
            request.boundary.expected_ffn_width,
            Self::expected_ffn_carry_width(view),
        )
    }

    fn check_request(
        request: &StageResumeRequest,
        layout: &StageLayout,
        view: &StageModelView,
        capabilities: &StageResumeCapabilities,
    ) -> (r: Result<(), StageError>)
        requires
            *capabilities == StageResumeCapabilities::of_programs(
                view.execution_programs@,
                request.boundary.next_layer_index,
            ),
        ensures
            crate::model::failure(r) == request@.refusal_reason(
                layout@,
                view.execution_programs@,
            ),
    {
        let next: Option<u32> = request.boundary.next_layer_index;
        let placed = Self::check_layout(request, layout);
        if placed.is_err() {
            return placed;
        }
        let contract = StageResumeContractSummary::from_execution_programs(
            &view.execution_programs,
            next,
            capabilities,
        );
        let capable = Self::check_capabilities(request, capabilities, contract);
        if capable.is_err() {
            return capable;
        }
        let budgets = StageResumeBudgets::from_execution_programs(
            &view.execution_programs,
            next,
            capabilities,
        );
        let freshness = StageResumeFreshnessPolicy::from_execution_programs(
            &view.execution_programs,
            next,
            capabilities,
        );
        let limited = Self::check_limits(request, &budgets, &freshness);
        if limited.is_err() {
            return limited;
        }
        Self::check_widths(request, view)
    }

    fn refuse(request: &StageResumeRequest, stage_id: Option<String>, reason: &str) -> (r:
        StageResumeDecision)
        ensures
            r@ == request@.refused(crate::model::opt(stage_id), reason@),
    {
        StageResumeDecision::reject(
            stage_id,
            request.transfer.payload.kind,
            request.transfer.payload.hidden_dim,
            request.boundary.next_layer_index,
            reason,
        )
    }

    fn grant(
        request: &StageResumeRequest,
        layout: &StageLayout,
        capabilities: &StageResumeCapabilities,
    ) -> (r: StageResumeDecision)
        ensures
            r@ == request@.admitted(layout@.stage_id, *capabilities),
    {
        let boundary = &request.boundary;
        StageResumeDecision::accept(
            Some(layout.stage_id.clone()),
            request.transfer.payload.kind,
            request.transfer.payload.hidden_dim,
            boundary.expects_attention_carry && capabilities.attention_path,
            boundary.expects_ffn_carry && capabilities.ffn_path,
            boundary.expected_attention_width,
            boundary.expected_attention_lanes,
            capabilities.attention_q,
            capabilities.attention_k,
            capabilities.attention_v,
            boundary.resumable_attention_q_lanes,
            boundary.resumable_attention_k_lanes,
            boundary.resumable_attention_v_lanes,
            boundary.resumable_attention_q_max_distance,
            boundary.resumable_attention_k_max_distance,
            boundary.resumable_attention_v_max_distance,
            boundary.resumable_attention_score_max_distance,
            boundary.resumable_attention_value_max_distance,
            boundary.resumable_attention_contract,
            boundary.expected_attention_score_lanes,
            boundary.expected_attention_value_lanes,
            boundary.expected_attention_q_distance,
            boundary.expected_attention_k_distance,
            boundary.expected_attention_v_distance,
            boundary.expected_attention_score_distance,
            boundary.expected_attention_value_distance,
            boundary.expects_attention_projection_carry && capabilities.attention_projection,
            boundary.expects_attention_mix_carry && capabilities.attention_mix,
            boundary.expected_attention_projection_lanes,
            boundary.expected_attention_mix_lanes,
            boundary.expected_ffn_width,
            boundary.expected_ffn_lanes,
            boundary.next_layer_index,
        )
    }

    /// Decides about a request to resume at this stage.
    pub fn admit_resume_request(&self, request: &StageResumeRequest) -> (r: StageResumeDecision)
        ensures
            r@ == self.decision(request@),
    {
        if let Err(error) = request.validate() {
            return Self::refuse(
                request,
                None,
                "invalid resume request: ".to_owned().concat(error.message.as_str()).as_str(),
            );
        }
        let layout = match &self.layout {
            Some(layout) => layout,
            None => return Self::refuse(
                request,
                None,
                "backend not ready: No stage layout loaded",
            ),
        };
        let view = match &self.model_view {
            Some(view) => view,
            None => return Self::refuse(
                request,
                Some(layout.stage_id.clone()),
                "missing model view: No stage model view loaded",
            ),
        };
        let capabilities = StageResumeCapabilities::from_execution_programs(
            &view.execution_programs,
            request.boundary.next_layer_index,
        );
        match Self::check_request(request, layout, view, &capabilities) {
            Err(error) => Self::refuse(
                request,
                Some(layout.stage_id.clone()),
                error.message.as_str(),
            ),
            Ok(_) => Self::grant(request, layout, &capabilities),
        }
    }

    /// The tensor that an admitted request resumes with, and the receipt that answers it; an
    /// error where the stage refuses the request, or where the receipt does not fit it.
    pub fn resume_input(&self, request: StageResumeRequest) -> (r: Result<
        (StageTensor, StageResumeReceipt),
        StageError,
    >)
        ensures
            ({
                let receipt = self.decision(request@).to_receipt(request.version);
                match (receipt.fault(request@), receipt.accepted) {
                    (Some(fault), _) => crate::model::failure(r) == Some(fault),
                    (None, false) => crate::model::failure(r) == receipt.reason,
                    (None, true) => r matches Ok(resumed) && resumed.0@
                        == request@.transfer.to_tensor() && resumed.1@ == receipt,
                }
            }),
    {
        let decision = self.admit_resume_request(&request);
        let receipt = decision.into_receipt(request.version);
        if let Err(error) = receipt.validate_against_request(&request) {
            return Err(error);
        }
        if !receipt.accepted {
            return match receipt.reason {
                Some(reason) => fail_with(reason),
                None => fail("resume request rejected"),
            };
        }
        Ok((request.transfer.into_stage_tensor(), receipt))
    }
}

/// Whatever the reason, the receipt of a refused request passes the check against the request: a
/// refusal always reaches the one who asked.
pub proof fn lemma_refusal_is_answered(
    request: StageResumeRequestModel,
    layout: Option<StageLayoutModel>,
    programs: Option<Seq<LayerExecutionProgram>>,
)
    requires
        !request.admission(layout, programs).accepted,
    ensures
        request.admission(layout, programs).to_receipt(request.version).fault(request) is None,
        request.admission(layout, programs).reason is Some,
{
}

/// Where the plan of a request tells what the target's programs can resume of query, key and
/// value, the receipt of an admitted request passes the check against it.
pub proof fn lemma_admission_is_answered(
    request: StageResumeRequestModel,
    layout: Option<StageLayoutModel>,
    programs: Option<Seq<LayerExecutionProgram>>,
)
    requires
        request.admission(layout, programs).accepted,
        ({
            let capabilities = StageResumeCapabilities::of_programs(
                programs->0,
                request.boundary.next_layer_index,
            );
            &&& request.boundary.resumable_attention_q == capabilities.attention_q
            &&& request.boundary.resumable_attention_k == capabilities.attention_k
            &&& request.boundary.resumable_attention_v == capabilities.attention_v
        }),
    ensures
        request.admission(layout, programs).to_receipt(request.version).fault(request) is None,
{
}

/// A request that is planned for a target's layout and programs gets a receipt from that target
/// that passes the check against it, whether the target admits the request or not.
pub proof fn lemma_planned_request_is_answered(
    frame: StageForwardFrameModel,
    transfer: StageTransferFrameModel,
    layout: StageLayoutModel,
    programs: Seq<LayerExecutionProgram>,
)
    ensures
        ({
            let request = StageResumeRequestModel::of_plan(
                StageBoundaryPlanModel::of_boundary(frame, layout, programs),
                transfer,
            );
            request.admission(Some(layout), Some(programs)).to_receipt(request.version).fault(
                request,
            ) is None
        }),
{
    let request = StageResumeRequestModel::of_plan(
        StageBoundaryPlanModel::of_boundary(frame, layout, programs),
        transfer,
    );
    if request.admission(Some(layout), Some(programs)).accepted {
        lemma_admission_is_answered(request, Some(layout), Some(programs));
    } else {
        lemma_refusal_is_answered(request, Some(layout), Some(programs));
    }
}

/// What a request planned for a target's programs carries, the target can resume, and it has room
/// for every slice of it.
pub proof fn lemma_planned_carry_fits(
    frame: StageForwardFrameModel,
    transfer: StageTransferFrameModel,
    layout: StageLayoutModel,
    programs: Seq<LayerExecutionProgram>,
)
    ensures
        ({
            let request = StageResumeRequestModel::of_plan(
                StageBoundaryPlanModel::of_boundary(frame, layout, programs),
                transfer,
            );
            let boundary = request.boundary;
            let next = boundary.next_layer_index;
            let capabilities = StageResumeCapabilities::of_programs(programs, next);
            let budgets = StageResumeBudgets::of_programs(programs, next, capabilities);
            &&& request.capability_reason(
                capabilities,
                StageResumeContractSummary::of_programs(programs, next, capabilities),
            ) is None
            &&& lanes_reason(
                "attention q"@,
                boundary.expected_attention_q_lanes,
                budgets.attention_q_lanes,
            ) is None
            &&& lanes_reason(
                "attention k"@,
                boundary.expected_attention_k_lanes,
                budgets.attention_k_lanes,
            ) is None
            &&& lanes_reason(
                "attention v"@,
                boundary.expected_attention_v_lanes,
                budgets.attention_v_lanes,
            ) is None
            &&& lanes_reason(
                "attention mix"@,
                boundary.expected_attention_mix_lanes,
                budgets.attention_mix_lanes,
            ) is None
            &&& lanes_reason("ffn"@, boundary.expected_ffn_lanes, budgets.ffn_lanes) is None
        }),
{
    let policy = StageCarryPolicy::execution_boundary(
        layout.is_head,
        layout.is_tail,
        frame.state.continuation,
        programs,
    );
    let capabilities = StageResumeCapabilities::of_programs(programs, frame.next_layer());
    let budgets = StageResumeBudgets::of_programs(programs, frame.next_layer(), capabilities);
    if let Some(carry) = frame.carry_under(policy) {
        crate::carry::lemma_narrowed_within_budgets(carry, capabilities, budgets);
    }
}

/// A frame with a hidden state that is planned and sent to the stage it is for is admitted there:
/// where frame and carry are sound, the carry is fresh enough and has the widths of the target's
/// states, and the target has as much room for queries as for keys and values.
pub proof fn lemma_planned_request_is_admitted(
    frame: StageForwardFrameModel,
    layout: StageLayoutModel,
    programs: Seq<LayerExecutionProgram>,
    statistics: TransientStatistics,
)
    requires
        frame.fault() is None,
        frame.carry_under(
            StageCarryPolicy::execution_boundary(
                layout.is_head,
                layout.is_tail,
                frame.state.continuation,
                programs,
            ),
        ) matches Some(carry) ==> carry.fault() is None,
        frame.payload.kind == PayloadKind::HiddenState,
        !layout.is_head,
        frame.model_id == layout.model_id,
        frame.route.target_stage_id matches Some(target) ==> target == layout.stage_id,
        frame.next_layer() matches Some(next) ==> next == layout.start_layer,
        ({
            let request = StageResumeRequestModel::of_plan(
                StageBoundaryPlanModel::of_boundary(frame, layout, programs),
                frame.transfer_to(layout, programs, statistics),
            );
            let capabilities = StageResumeCapabilities::of_programs(programs, frame.next_layer());
            let budgets = StageResumeBudgets::of_programs(
                programs,
                frame.next_layer(),
                capabilities,
            );
            &&& request.boundary.is_fresh_for(
                StageResumeFreshnessPolicy::of_programs(
                    programs,
                    frame.next_layer(),
                    capabilities,
                ),
            )
            &&& budgets.attention_q_lanes == budgets.attention_k_lanes
            &&& budgets.attention_k_lanes == budgets.attention_v_lanes
            &&& request.width_reason(programs) is None
        }),
    ensures
        ({
            let request = StageResumeRequestModel::of_plan(
                StageBoundaryPlanModel::of_boundary(frame, layout, programs),
                frame.transfer_to(layout, programs, statistics),
            );
            request.admission(Some(layout), Some(programs)) == request.admitted(
                layout.stage_id,
                StageResumeCapabilities::of_programs(programs, frame.next_layer()),
            )
        }),
{
    let plan = StageBoundaryPlanModel::of_boundary(frame, layout, programs);
    let transfer = frame.transfer_to(layout, programs, statistics);
    crate::boundary::lemma_plan_fits_its_transfer(frame, layout, programs, statistics);
    crate::frame::lemma_transfer_of_valid_frame_is_valid(frame, layout, programs, statistics);
    crate::resume::lemma_planned_request_is_valid(plan, transfer);
    lemma_planned_carry_fits(frame, transfer, layout, programs);
}

} // verus!
