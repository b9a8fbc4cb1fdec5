//! Equality of states: number by number, so that both zeros are equal and what is not a number
//! equals nothing.
use stage_forward_lab::frame::{PreviewStatistics, TransientStatistics};
use stage_forward_lab::{
    AttentionContinuation, CarryableAttentionMixState, CarryableAttentionProjectionState,
    CarryableAttentionState, CarryableFfnState, FfnContinuation, PayloadKind, StageBoundaryPlan,
    StageCarryPolicy, StageCarryState, StageContinuation, StageForwardFrame, StageLayout,
    StageResumeContractSummary, StageResumeRequest, StageStateEnvelope, StageTensor,
    StageTransferFrame, StageTransientState,
};

fn attention(value: f32) -> AttentionContinuation {
    let one = vec![1.0f32.to_bits()];
    AttentionContinuation {
        width: 1,
        lane_indices: vec![0],
        q_preview: one.clone(),
        k_preview: one.clone(),
        v_preview: one.clone(),
        score_preview: one,
        value_preview: vec![value.to_bits()],
    }
}

fn ffn(value: f32) -> FfnContinuation {
    let one = vec![1.0f32.to_bits()];
    FfnContinuation {
        width: 1,
        lane_indices: vec![0],
        gate_preview: one.clone(),
        up_preview: one,
        activation_preview: vec![value.to_bits()],
    }
}

fn projection(value: f32) -> CarryableAttentionProjectionState {
    let one = vec![1.0f32.to_bits()];
    CarryableAttentionProjectionState {
        width: 1,
        q_provenance: None,
        k_provenance: None,
        v_provenance: None,
        q_lane_indices: vec![0],
        k_lane_indices: vec![0],
        v_lane_indices: vec![0],
        q: one.clone(),
        k: one,
        v: vec![value.to_bits()],
    }
}

fn mix(value: f32) -> CarryableAttentionMixState {
    CarryableAttentionMixState {
        width: 1,
        score_provenance: None,
        value_provenance: None,
        score_lane_indices: vec![0],
        value_lane_indices: vec![0],
        scores: vec![1.0f32.to_bits()],
        values: vec![value.to_bits()],
    }
}

fn carried_attention(value: f32) -> CarryableAttentionState {
    CarryableAttentionState {
        contract: StageResumeContractSummary::default(),
        projection: Some(projection(1.0)),
        mix: Some(mix(value)),
    }
}

fn carried_ffn(value: f32) -> CarryableFfnState {
    let one = vec![1.0f32.to_bits()];
    CarryableFfnState {
        width: 1,
        lane_indices: vec![0],
        gate_head: one.clone(),
        up_head: one,
        activation_head: vec![value.to_bits()],
    }
}

fn transient(value: f32) -> StageTransientState {
    StageTransientState { attention: Some(attention(1.0)), ffn: Some(ffn(value)) }
}

fn carry(value: f32) -> StageCarryState {
    StageCarryState { attention: Some(carried_attention(value)), ffn: Some(carried_ffn(1.0)) }
}

fn continuation() -> StageContinuation {
    StageContinuation {
        version: 1,
        stage_role: "head".into(),
        next_layer_index: Some(1),
        completed_layers: 1,
        operator_layers: 1,
        has_attention_path: true,
        has_ffn_path: true,
        has_projection_path: false,
    }
}

fn envelope(value: f32) -> StageStateEnvelope {
    StageStateEnvelope {
        continuation: Some(continuation()),
        transient: Some(transient(1.0)),
        carry: Some(carry(value)),
    }
}

fn tensor(value: f32) -> StageTensor {
    StageTensor {
        request_id: "req".into(),
        kind: PayloadKind::HiddenState,
        stage_trace: vec!["head".into()],
        hidden_dim: 1,
        bytes: vec![0; 4],
        prompt_text: Some("hello".into()),
        max_tokens: Some(4),
        continuation: Some(continuation()),
        transient: Some(transient(value)),
        carry: Some(carry(1.0)),
    }
}

fn layout() -> StageLayout {
    StageLayout {
        model_id: "toy".into(),
        stage_id: "head".into(),
        start_layer: 0,
        end_layer: 0,
        is_head: true,
        is_tail: false,
    }
}

fn frame(value: f32) -> StageForwardFrame {
    StageForwardFrame::from_tensor("toy", &layout(), tensor(value), Some("tail".into()))
}

fn transfer(value: f32) -> StageTransferFrame {
    let nothing = PreviewStatistics { mean_milli: 0, mean_abs_milli: 0, rms_milli: 0 };
    let statistics = TransientStatistics { attention: nothing, ffn: nothing };
    let mut transfer =
        frame(1.0).to_transfer_frame_with_policy(&StageCarryPolicy::full(), &statistics);
    transfer.state.carry = Some(carry(value));
    transfer
}

fn request(value: f32) -> StageResumeRequest {
    StageResumeRequest {
        version: 1,
        model_id: "toy".into(),
        target_stage_id: Some("tail".into()),
        boundary: StageBoundaryPlan::from_frame(&frame(1.0), StageCarryPolicy::full()),
        transfer: transfer(value),
    }
}

/// Checks what `==` says of values that hold the given numbers.
fn compares_by_number<T: PartialEq>(holding: fn(f32) -> T) {
    assert!(holding(0.5) == holding(0.5));
    assert!(holding(0.5) != holding(0.25));
    assert!(holding(0.0) == holding(-0.0));
    assert!(holding(f32::NAN) != holding(f32::NAN));
    assert!(holding(f32::INFINITY) == holding(f32::INFINITY));
    assert!(holding(f32::INFINITY) != holding(f32::NEG_INFINITY));
}

#[test]
fn previews_are_compared_number_by_number() {
    compares_by_number(attention);
    compares_by_number(ffn);
    compares_by_number(transient);
}

#[test]
fn carries_are_compared_number_by_number() {
    compares_by_number(projection);
    compares_by_number(mix);
    compares_by_number(carried_attention);
    compares_by_number(carried_ffn);
    compares_by_number(carry);
}

#[test]
fn what_holds_a_state_is_compared_number_by_number() {
    compares_by_number(envelope);
    compares_by_number(tensor);
    compares_by_number(frame);
    compares_by_number(transfer);
    compares_by_number(|value| transfer(value).state);
    compares_by_number(request);
}

#[test]
fn all_else_is_compared_exactly() {
    let mut other = attention(1.0);
    other.lane_indices = vec![1];
    assert!(other != attention(1.0));
    let mut other = projection(1.0);
    other.width = 2;
    assert!(other != projection(1.0));
    let mut other = carry(1.0);
    other.ffn = None;
    assert!(other != carry(1.0));
    let mut other = tensor(1.0);
    other.bytes[3] = 1;
    assert!(other != tensor(1.0));
    let mut other = tensor(1.0);
    other.stage_trace.push("tail".into());
    assert!(other != tensor(1.0));
    let mut other = frame(1.0);
    other.route.target_stage_id = None;
    assert!(other != frame(1.0));
    let mut other = transfer(1.0);
    other.payload.prompt_text = None;
    assert!(other != transfer(1.0));
    let mut other = transfer(1.0);
    other.state.transient = None;
    assert!(other != transfer(1.0));
    let mut other = request(1.0);
    other.boundary.resumable_projection_path = !other.boundary.resumable_projection_path;
    assert!(other != request(1.0));
    let mut other = request(1.0);
    other.boundary.source_stage_role = "middle".into();
    assert!(other != request(1.0));
}
