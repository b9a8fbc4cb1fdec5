//! Small dense models.
use stage_forward_lab::toy::{
    TOY_HIDDEN_DIM, TOY_TOTAL_LAYERS, projection_weight, prompt_slots, toy_token_count,
};
use stage_forward_lab::{
    ArtifactBackedToyBackend, StageLayout, StageSample, ToyLayerArtifact, ToyProjectionArtifact,
    ToyShardArtifact,
};

/// The bit patterns of numbers.
fn bits(values: &[f32]) -> Vec<u32> {
    values.iter().map(|value| value.to_bits()).collect()
}

fn layout() -> StageLayout {
    StageLayout {
        model_id: "toy".into(),
        stage_id: "2-3".into(),
        start_layer: 2,
        end_layer: 3,
        is_head: false,
        is_tail: true,
    }
}

fn shard() -> ToyShardArtifact {
    let layer = |index: u32| ToyLayerArtifact {
        index,
        weights: vec![bits(&[1.0, 0.0]), bits(&[0.0, 1.0])],
        bias: bits(&[0.0, 0.5]),
    };
    ToyShardArtifact {
        model_id: "toy".into(),
        hidden_dim: 2,
        start_layer: 2,
        end_layer: 3,
        total_layers: 4,
        layers: vec![layer(2), layer(3)],
        projection: Some(ToyProjectionArtifact {
            vocab: vec!["a".into(), "b".into()],
            weights: vec![bits(&[1.0, 0.0]), bits(&[0.0, 1.0])],
            bias: bits(&[0.0, 0.0]),
        }),
    }
}

#[test]
fn shards_with_the_right_shape_are_loaded() {
    let mut backend = ArtifactBackedToyBackend::new("shard.json".into());
    assert_eq!(backend.loaded().unwrap_err().to_string(), "No stage layout loaded");
    backend.load_shard(shard(), layout()).unwrap();
    let (layout_of, artifact) = backend.loaded().unwrap();
    assert_eq!(layout_of, &layout());
    assert_eq!(artifact.model_id, shard().model_id);
    assert_eq!(artifact.start_layer, shard().start_layer);
    assert_eq!(artifact.end_layer, shard().end_layer);
    assert_eq!(artifact.layers.len(), shard().layers.len());
    assert_eq!(artifact.layers[1].weights, shard().layers[1].weights);
    assert_eq!(artifact.layers[1].bias, shard().layers[1].bias);
    assert_eq!(ArtifactBackedToyBackend::head(artifact).unwrap().vocab, ["a", "b"]);
}

#[test]
fn shards_of_another_model_or_range_are_refused() {
    let refusal = |shard: ToyShardArtifact| {
        let mut backend = ArtifactBackedToyBackend::new("shard.json".into());
        backend.load_shard(shard, layout()).unwrap_err().to_string()
    };
    let mut other = shard();
    other.model_id = "other".into();
    assert_eq!(refusal(other), "Artifact model other does not match layout model toy");
    let mut other = shard();
    other.start_layer = 1;
    assert_eq!(refusal(other), "Artifact layer range 1-3 does not match layout 2-3");
    let mut other = shard();
    other.layers.pop();
    assert_eq!(refusal(other), "Artifact layer count does not match layout range");
}

#[test]
fn weights_of_the_wrong_shape_are_refused() {
    let good = shard();
    good.layers[0].check_shape(2).unwrap();
    let mut other = shard();
    other.layers[1].weights.pop();
    assert_eq!(
        other.layers[1].check_shape(2).unwrap_err().to_string(),
        "Layer 3 shape mismatch"
    );
    other.layers[0].weights[1].push(0);
    assert_eq!(
        other.layers[0].check_shape(2).unwrap_err().to_string(),
        "Layer 2 row 1 shape mismatch"
    );
    let mut head = shard().projection.unwrap();
    head.check_shape(2).unwrap();
    head.weights[0].pop();
    assert_eq!(
        head.check_shape(2).unwrap_err().to_string(),
        "Projection row 0 shape mismatch"
    );
    head.bias.pop();
    assert_eq!(head.check_shape(2).unwrap_err().to_string(), "Projection shape mismatch");
}

#[test]
fn a_tail_shard_needs_a_head() {
    let mut headless = shard();
    headless.projection = None;
    assert_eq!(
        ArtifactBackedToyBackend::head(&headless).unwrap_err().to_string(),
        "Tail artifact is missing a projection head"
    );
}

#[test]
fn the_number_of_tokens_is_kept_within_limits() {
    assert_eq!(toy_token_count(None), 12);
    assert_eq!(toy_token_count(Some(0)), 4);
    assert_eq!(toy_token_count(Some(9)), 9);
    assert_eq!(toy_token_count(Some(99)), 16);
}

#[test]
fn a_prompt_byte_goes_to_two_places() {
    assert_eq!(prompt_slots(0, 16, 7, 3), (0, 3));
    assert_eq!(prompt_slots(18, 16, 7, 3), (2, 1));
    assert_eq!(prompt_slots(5, TOY_HIDDEN_DIM, 3, 1), (5, 0));
}

#[test]
fn reference_weights_are_below_seventeen() {
    assert_eq!(projection_weight(0, 0, 0), 3);
    assert_eq!(projection_weight(4, 7, 2), 5 * 10 * 3 % 17);
    assert_eq!(TOY_TOTAL_LAYERS, 4);
}

#[test]
fn a_sample_has_a_token_for_each_character() {
    let sample = StageSample::from_text("r".into(), "m".into(), "aé".into());
    assert_eq!(sample.token_ids, [97, 233]);
    assert_eq!(sample.completion_tokens, 2);
    assert_eq!(sample.text, "aé");
}
