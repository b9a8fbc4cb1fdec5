//! Small dense models in two stages and in one.
use stage_forward_lab::hidden::{decode_hidden_state, encode_hidden_state};
use stage_forward_lab::stub::{check_forward, check_prompt, check_sample};
use stage_forward_lab::toy::{
    SHARD_PROMPT_SHARE_MILLI, SHARD_PROMPT_SHIFT, SHARD_PROMPT_STEP, TOY_HIDDEN_DIM,
    TOY_PROMPT_SHARE_MILLI, TOY_PROMPT_SHIFT, TOY_PROMPT_STEP, TOY_TOTAL_LAYERS, TOY_VOCAB_LEN,
    layer_range, projection_weight, prompt_slots, text_of_choices, toy_token_count,
};
use stage_forward_lab::{
    ArtifactBackedToyBackend, StageLayout, StageSample, StageTensor, ToyLayerArtifact,
    ToyProjectionArtifact, ToyShardArtifact,
};

fn bits(values: &[f32]) -> Vec<u32> {
    values.iter().map(|value| value.to_bits()).collect()
}

fn numbers(bits: &[u32]) -> Vec<f32> {
    bits.iter().map(|bits| f32::from_bits(*bits)).collect()
}

fn head_layout() -> StageLayout {
    StageLayout {
        model_id: "toy-linear-4l".into(),
        stage_id: "0-1".into(),
        start_layer: 0,
        end_layer: 1,
        is_head: true,
        is_tail: false,
    }
}

fn tail_layout() -> StageLayout {
    StageLayout {
        model_id: "toy-linear-4l".into(),
        stage_id: "2-3".into(),
        start_layer: 2,
        end_layer: 3,
        is_head: false,
        is_tail: true,
    }
}

fn embedding(prompt: &str, dim: usize, step: usize, shift: usize, share_milli: u16) -> Vec<f32> {
    let mut state = vec![0.0f32; dim];
    for (index, byte) in prompt.bytes().enumerate() {
        let (slot, other) = prompt_slots(index, dim, step, shift);
        let normalized = byte as f32 / 255.0;
        state[slot] += normalized;
        state[other] += normalized * (share_milli as f32 / 1000.0);
    }
    let scale = 1.0 / prompt.len() as f32;
    state.iter().map(|value| value * scale).collect()
}

fn reference_layer(mut state: Vec<f32>, layer_idx: u32) -> Vec<f32> {
    let len = state.len();
    let bias = 0.03125 * (layer_idx as f32 + 1.0);
    let scale = 1.05 + (layer_idx as f32 * 0.015);
    for idx in 0..len {
        let prev = state[(idx + len - 1) % len];
        let next = state[(idx + 1) % len];
        let mix = prev * 0.17 + next * 0.11;
        let pos = ((idx as f32 + 1.0) / len as f32) * 0.07;
        state[idx] = ((state[idx] * scale) + mix + bias + pos).tanh();
    }
    state
}

fn reference_layers(mut state: Vec<f32>, start_layer: u32, end_layer: u32) -> Vec<f32> {
    for layer in layer_range(start_layer, end_layer) {
        state = reference_layer(state, layer);
    }
    state
}

fn reference_text(state: &[f32], max_tokens: Option<u32>) -> String {
    let mut choices = Vec::new();
    for token_idx in 0..toy_token_count(max_tokens) {
        let mut best_score = f32::MIN;
        let mut choice = 0;
        for vocab_idx in 0..TOY_VOCAB_LEN {
            let mut score = 0.0f32;
            for (dim, value) in state.iter().enumerate() {
                score += *value * (projection_weight(vocab_idx, dim, token_idx) as f32 * 0.03125);
            }
            if score > best_score {
                best_score = score;
                choice = vocab_idx;
            }
        }
        choices.push(choice);
    }
    text_of_choices(&choices)
}

fn reference_embedding(prompt: &str) -> Vec<f32> {
    embedding(prompt, TOY_HIDDEN_DIM, TOY_PROMPT_STEP, TOY_PROMPT_SHIFT, TOY_PROMPT_SHARE_MILLI)
}

#[test]
fn toy_linear_two_stage_matches_single_node_reference() {
    let prompt = "reply exactly STAGE LAB";

    let loaded = Some(head_layout());
    let head = check_prompt(&loaded).unwrap();
    let state = reference_layers(reference_embedding(prompt), head.start_layer, head.end_layer);
    let stage1 = StageTensor::from_prompt(
        "toy-req",
        &head.stage_id,
        TOY_HIDDEN_DIM,
        encode_hidden_state(&bits(&state)),
        prompt,
        Some(12),
    );

    let loaded = Some(tail_layout());
    let tail = check_forward(&loaded, stage1.kind).unwrap();
    let state = numbers(&decode_hidden_state(&stage1.bytes, stage1.hidden_dim).unwrap());
    let state = reference_layers(state, tail.start_layer, tail.end_layer);
    let hidden_dim = stage1.hidden_dim;
    let stage2 =
        stage1.continue_with(&tail.stage_id, hidden_dim, encode_hidden_state(&bits(&state)));
    assert_eq!(stage2.stage_trace, vec!["0-1".to_string(), "2-3".to_string()]);

    let tail = check_sample(&loaded, stage2.kind).unwrap();
    let state = numbers(&decode_hidden_state(&stage2.bytes, stage2.hidden_dim).unwrap());
    let text = reference_text(&state, stage2.max_tokens);
    let distributed = StageSample::from_text(stage2.request_id, tail.model_id.clone(), text);

    let state = reference_layers(reference_embedding(prompt), 0, TOY_TOTAL_LAYERS - 1);
    let single = StageSample::from_text(
        "single-node-reference".into(),
        "toy-linear-4l".into(),
        reference_text(&state, Some(12)),
    );

    assert_eq!(distributed.text, single.text);
    assert_eq!(distributed.completion_tokens, single.completion_tokens);
}

fn layer(index: u32, weights: [[f32; 4]; 4], bias: [f32; 4]) -> ToyLayerArtifact {
    ToyLayerArtifact {
        index,
        weights: weights.iter().map(|row| bits(row)).collect(),
        bias: bits(&bias),
    }
}

fn head_layers() -> Vec<ToyLayerArtifact> {
    vec![
        layer(
            0,
            [
                [0.90, 0.10, 0.00, 0.00],
                [0.05, 0.85, 0.05, 0.00],
                [0.00, 0.10, 0.80, 0.10],
                [0.00, 0.00, 0.15, 0.75],
            ],
            [0.05, 0.02, -0.01, 0.03],
        ),
        layer(
            1,
            [
                [0.82, 0.12, 0.06, 0.00],
                [0.04, 0.88, 0.06, 0.02],
                [0.03, 0.09, 0.79, 0.09],
                [0.01, 0.02, 0.12, 0.85],
            ],
            [0.01, 0.03, 0.02, -0.02],
        ),
    ]
}

fn tail_layers() -> Vec<ToyLayerArtifact> {
    vec![
        layer(
            2,
            [
                [0.84, 0.08, 0.05, 0.03],
                [0.06, 0.86, 0.05, 0.03],
                [0.02, 0.08, 0.83, 0.07],
                [0.04, 0.02, 0.10, 0.84],
            ],
            [0.00, 0.01, 0.04, 0.02],
        ),
        layer(
            3,
            [
                [0.88, 0.06, 0.03, 0.03],
                [0.03, 0.90, 0.03, 0.04],
                [0.02, 0.05, 0.89, 0.04],
                [0.04, 0.03, 0.05, 0.88],
            ],
            [0.03, 0.00, 0.02, 0.01],
        ),
    ]
}

fn projection() -> ToyProjectionArtifact {
    ToyProjectionArtifact {
        vocab: ["A", "B", "C", "D", "E", "F"].iter().map(|token| token.to_string()).collect(),
        weights: vec![
            bits(&[0.9, 0.3, 0.2, 0.1]),
            bits(&[0.2, 0.8, 0.1, 0.4]),
            bits(&[0.1, 0.2, 0.9, 0.3]),
            bits(&[0.3, 0.1, 0.3, 0.8]),
            bits(&[0.6, 0.4, 0.2, 0.1]),
            bits(&[0.1, 0.5, 0.4, 0.7]),
        ],
        bias: bits(&[0.02, -0.01, 0.03, 0.01, 0.00, 0.02]),
    }
}

fn shard(
    start_layer: u32,
    end_layer: u32,
    layers: Vec<ToyLayerArtifact>,
    projection: Option<ToyProjectionArtifact>,
) -> ToyShardArtifact {
    ToyShardArtifact {
        model_id: "toy-linear-4l".into(),
        hidden_dim: 4,
        start_layer,
        end_layer,
        total_layers: 4,
        layers,
        projection,
    }
}

fn shard_layers(mut state: Vec<f32>, shard: &ToyShardArtifact) -> Vec<f32> {
    for layer in &shard.layers {
        layer.check_shape(state.len()).unwrap();
        let bias = numbers(&layer.bias);
        state = layer
            .weights
            .iter()
            .zip(bias)
            .map(|(row, bias)| {
                let mut acc = bias;
                for (weight, value) in numbers(row).iter().zip(&state) {
                    acc += weight * value;
                }
                acc.tanh()
            })
            .collect();
    }
    state
}

fn shard_text(head: &ToyProjectionArtifact, state: &[f32], max_tokens: Option<u32>) -> String {
    head.check_shape(state.len()).unwrap();
    let bias = numbers(&head.bias);
    let mut out = String::new();
    for token_idx in 0..toy_token_count(max_tokens) {
        let modifier = 1.0 + (token_idx as f32 * 0.015);
        let mut best_score = f32::MIN;
        let mut best_token = "";
        for (row, token) in head.vocab.iter().enumerate() {
            let mut score = bias[row];
            for (weight, value) in numbers(&head.weights[row]).iter().zip(state) {
                score += weight * value * modifier;
            }
            if score > best_score {
                best_score = score;
                best_token = token;
            }
        }
        out.push_str(best_token);
    }
    out
}

fn shard_embedding(prompt: &str, hidden_dim: usize) -> Vec<f32> {
    embedding(
        prompt,
        hidden_dim,
        SHARD_PROMPT_STEP,
        SHARD_PROMPT_SHIFT,
        SHARD_PROMPT_SHARE_MILLI,
    )
}

#[test]
fn artifact_backed_two_stage_matches_single_node_reference() {
    let prompt = "reply exactly STAGE LAB";

    let mut head = ArtifactBackedToyBackend::new("toy-head.json".into());
    head.load_shard(shard(0, 1, head_layers(), None), head_layout()).unwrap();
    let mut tail = ArtifactBackedToyBackend::new("toy-tail.json".into());
    tail.load_shard(shard(2, 3, tail_layers(), Some(projection())), tail_layout()).unwrap();

    let (layout, loaded) = head.loaded().unwrap();
    check_prompt(&head.layout).unwrap();
    let state = shard_layers(shard_embedding(prompt, loaded.hidden_dim), loaded);
    let stage1 = StageTensor::from_prompt(
        "artifact-req",
        &layout.stage_id,
        loaded.hidden_dim,
        encode_hidden_state(&bits(&state)),
        prompt,
        Some(12),
    );

    let (layout, loaded) = tail.loaded().unwrap();
    check_forward(&tail.layout, stage1.kind).unwrap();
    let state = numbers(&decode_hidden_state(&stage1.bytes, loaded.hidden_dim).unwrap());
    let state = shard_layers(state, loaded);
    let stage2 = stage1.continue_with(
        &layout.stage_id,
        loaded.hidden_dim,
        encode_hidden_state(&bits(&state)),
    );

    check_sample(&tail.layout, stage2.kind).unwrap();
    let state = numbers(&decode_hidden_state(&stage2.bytes, loaded.hidden_dim).unwrap());
    let text =
        shard_text(ArtifactBackedToyBackend::head(loaded).unwrap(), &state, stage2.max_tokens);
    let distributed = StageSample::from_text(stage2.request_id, layout.model_id.clone(), text);

    let mut layers = head_layers();
    layers.extend(tail_layers());
    let full = shard(0, 3, layers, Some(projection()));
    let state = shard_layers(shard_embedding(prompt, full.hidden_dim), &full);
    let text = shard_text(ArtifactBackedToyBackend::head(&full).unwrap(), &state, Some(12));
    let single =
        StageSample::from_text("artifact-single-reference".into(), full.model_id.clone(), text);

    assert_eq!(distributed.text, single.text);
    assert_eq!(distributed.completion_tokens, single.completion_tokens);
}

#[test]
fn a_stage_runs_its_layers_from_the_first_to_the_last() {
    assert_eq!(layer_range(2, 5), vec![2, 3, 4, 5]);
    assert_eq!(layer_range(7, 7), vec![7]);
    assert_eq!(layer_range(3, 2), Vec::<u32>::new());
    assert_eq!(layer_range(u32::MAX - 1, u32::MAX), vec![u32::MAX - 1, u32::MAX]);
    let mut joined = layer_range(0, 20);
    joined.extend(layer_range(21, 41));
    assert_eq!(joined, layer_range(0, 41));
}

#[test]
fn choices_become_text_without_the_space_around() {
    assert_eq!(text_of_choices(&[0, 1, 2, 0, 26, 27, 28, 0]), "AB Z:-");
    assert_eq!(text_of_choices(&[0, 0]), "");
    assert_eq!(text_of_choices(&[]), "");
}
