//! Stages that stand in for a model.
use stage_forward_lab::stub::{check_forward, check_prompt, check_sample, join_texts};
use stage_forward_lab::{
    DeterministicStubBackend, PayloadKind, StageForwardBackend, StageLayout, StageTensor,
};

fn head_layout() -> StageLayout {
    StageLayout {
        model_id: "gemma-4-e4b-q4".into(),
        stage_id: "0-13".into(),
        start_layer: 0,
        end_layer: 13,
        is_head: true,
        is_tail: false,
    }
}

fn tail_layout() -> StageLayout {
    StageLayout {
        model_id: "gemma-4-e4b-q4".into(),
        stage_id: "14-27".into(),
        start_layer: 14,
        end_layer: 27,
        is_head: false,
        is_tail: true,
    }
}

#[test]
fn begin_prompt_emits_hidden_state_payload() {
    let mut backend = DeterministicStubBackend::default();
    backend.load_layout(head_layout()).unwrap();

    let tensor = backend
        .begin_prompt("req-1", "hello", Some(32), 2048)
        .unwrap();

    assert_eq!(tensor.kind, PayloadKind::HiddenState);
    assert_eq!(tensor.prompt_text.as_deref(), Some("hello"));
    assert_eq!(tensor.stage_trace, vec!["0-13"]);
    assert_eq!(tensor.hidden_state_len(), 2048);
}

#[test]
fn continue_forward_requires_hidden_state() {
    let mut backend = DeterministicStubBackend::default();
    backend.load_layout(tail_layout()).unwrap();

    let err = backend
        .continue_forward(StageTensor {
            request_id: "req-1".into(),
            kind: PayloadKind::PromptIngress,
            stage_trace: vec![],
            hidden_dim: 2048,
            bytes: vec![],
            prompt_text: Some("hello".into()),
            max_tokens: Some(32),
            continuation: None,
            transient: None,
            carry: None,
        })
        .unwrap_err()
        .to_string();

    assert!(err.contains("hidden-state payloads"));
}

#[test]
fn two_stage_roundtrip_samples_from_tail() {
    let mut head = DeterministicStubBackend::default();
    head.load_layout(head_layout()).unwrap();
    let mut tail = DeterministicStubBackend::default();
    tail.load_layout(tail_layout()).unwrap();

    let head_tensor = head
        .begin_prompt("req-1", "reply exactly STAGE LAB", Some(64), 2048)
        .unwrap();
    let tail_tensor = tail.continue_forward(head_tensor).unwrap();
    let sample = tail.sample_tail(tail_tensor).unwrap();

    assert!(sample.text.contains("STAGE LAB"));
    assert!(sample.text.contains("0-13 -> 14-27"));
    assert_eq!(sample.model_id, "gemma-4-e4b-q4");
}

#[test]
fn every_stage_adds_itself_to_the_trace() {
    let mut tail = DeterministicStubBackend::default();
    tail.load_layout(tail_layout()).unwrap();
    let tensor = StageTensor::from_prompt("r", "0-13", 8, vec![1, 2, 3], "p", None);
    let next = tail.continue_forward(tensor.clone()).unwrap();
    assert_eq!(next.stage_trace, ["0-13", "14-27"]);
    assert_ne!(next.bytes, tensor.bytes);
    assert_eq!(
        tail.continue_forward(next).unwrap_err().to_string(),
        "Stage 14-27 already applied to payload"
    );
}

#[test]
fn a_stage_without_a_layout_does_nothing() {
    let stub = DeterministicStubBackend::default();
    let tensor = StageTensor::from_prompt("r", "0-13", 8, vec![1, 2, 3], "p", None);
    let told = "No stage layout loaded";
    assert_eq!(stub.begin_prompt("r", "p", None, 8).unwrap_err().to_string(), told);
    assert_eq!(stub.continue_forward(tensor.clone()).unwrap_err().to_string(), told);
    assert_eq!(stub.sample_tail(tensor).unwrap_err().to_string(), told);
}

#[test]
fn a_stage_does_only_its_own_part() {
    let tensor = StageTensor::from_prompt("r", "x", 8, vec![1, 2, 3], "p", None);
    assert_eq!(
        check_prompt(&Some(tail_layout())).unwrap_err().to_string(),
        "Only the head stage may accept prompt ingress"
    );
    assert_eq!(check_prompt(&Some(head_layout())).unwrap(), &head_layout());
    assert_eq!(
        check_forward(&Some(head_layout()), PayloadKind::HiddenState).unwrap_err().to_string(),
        "Head stage should use begin_prompt, not continue_forward"
    );
    assert_eq!(
        check_sample(&Some(head_layout()), PayloadKind::HiddenState).unwrap_err().to_string(),
        "Only the tail stage may sample output"
    );
    assert_eq!(
        check_sample(&Some(tail_layout()), PayloadKind::PromptIngress).unwrap_err().to_string(),
        "Tail sampling requires hidden-state payloads"
    );
    let mut head = DeterministicStubBackend::default();
    head.load_layout(head_layout()).unwrap();
    assert!(head.continue_forward(tensor).is_err());
}

#[test]
fn the_same_prompt_gives_the_same_state() {
    let stub = DeterministicStubBackend::default();
    let one = stub.synthesize_hidden_state("hello", &[], 64, "0-13");
    assert_eq!(one, stub.synthesize_hidden_state("hello", &[], 64, "0-13"));
    assert_ne!(one, stub.synthesize_hidden_state("hellp", &[], 64, "0-13"));
    assert_ne!(one, stub.synthesize_hidden_state("hello", &[], 64, "14-27"));
}

#[test]
fn texts_are_joined_with_something_between() {
    assert_eq!(join_texts(&["a".into(), "".into(), "é".into()], " -> "), "a ->  -> é");
    assert_eq!(join_texts(&[], ", "), "");
}
