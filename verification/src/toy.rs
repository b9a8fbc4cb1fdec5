//! Small dense models: the shapes of their weights, and what a stage checks before it runs them.
//! The weights are single-precision numbers, held as their bit patterns.
use vstd::prelude::*;
use vstd::string::*;
use crate::model::{fail, fail_with, StageError};
use crate::tensor::{StageLayout, StageLayoutModel, StageSample, StageSampleModel};
use crate::text::{chars_of, decimal, size_text, text_of, trimmed_chars};

verus! {

/// The layers of the reference model.
pub const TOY_TOTAL_LAYERS: u32 = 4;

/// The width of the reference model's hidden state.
pub const TOY_HIDDEN_DIM: usize = 16;

/// The number of characters that the reference model samples from.
pub const TOY_VOCAB_LEN: usize = 29;

/// How the second place of a prompt's byte is reached in the reference model: by this step.
pub const TOY_PROMPT_STEP: usize = 7;

/// How the second place of a prompt's byte is reached in the reference model: with this shift.
pub const TOY_PROMPT_SHIFT: usize = 3;

/// The share of a prompt's byte that its second place gets in the reference model, in thousandths.
pub const TOY_PROMPT_SHARE_MILLI: u16 = 500;

/// How the second place of a prompt's byte is reached in a shard: by this step.
pub const SHARD_PROMPT_STEP: usize = 5;

/// How the second place of a prompt's byte is reached in a shard: with this shift.
pub const SHARD_PROMPT_SHIFT: usize = 1;

/// The share of a prompt's byte that its second place gets in a shard, in thousandths.
pub const SHARD_PROMPT_SHARE_MILLI: u16 = 350;

/// One layer of a model.
#[derive(Debug)]
pub struct ToyLayerArtifact {
    pub index: u32,
    pub weights: Vec<Vec<u32>>,
    pub bias: Vec<u32>,
}

/// What a [`ToyLayerArtifact`] holds, as mathematical values.
#[verifier::ext_equal]
pub struct ToyLayerArtifactModel {
    pub index: u32,
    pub weights: Seq<Seq<u32>>,
    pub bias: Seq<u32>,
}

impl View for ToyLayerArtifact {
    type V = ToyLayerArtifactModel;

    open spec fn view(&self) -> ToyLayerArtifactModel {
        ToyLayerArtifactModel {
            index: self.index,
            weights: crate::model::views(self.weights@),
            bias: self.bias@,
        }
    }
}

/// The head of a model: a row of weights for each token.
#[derive(Debug)]
pub struct ToyProjectionArtifact {
    pub vocab: Vec<String>,
    pub weights: Vec<Vec<u32>>,
    pub bias: Vec<u32>,
}

/// What a [`ToyProjectionArtifact`] holds, as mathematical values.
#[verifier::ext_equal]
pub struct ToyProjectionArtifactModel {
    pub vocab: Seq<Seq<char>>,
    pub weights: Seq<Seq<u32>>,
    pub bias: Seq<u32>,
}

impl View for ToyProjectionArtifact {
    type V = ToyProjectionArtifactModel;

    open spec fn view(&self) -> ToyProjectionArtifactModel {
        ToyProjectionArtifactModel {
            vocab: crate::model::texts(self.vocab@),
            weights: crate::model::views(self.weights@),
            bias: self.bias@,
        }
    }
}

/// The part of a model that one stage runs.
#[derive(Debug)]
pub struct ToyShardArtifact {
    pub model_id: String,
    pub hidden_dim: usize,
    pub start_layer: u32,
    pub end_layer: u32,
    pub total_layers: u32,
    pub layers: Vec<ToyLayerArtifact>,
    pub projection: Option<ToyProjectionArtifact>,
}

/// What a [`ToyShardArtifact`] holds, as mathematical values.
#[verifier::ext_equal]
pub struct ToyShardArtifactModel {
    pub model_id: Seq<char>,
    pub hidden_dim: usize,
    pub start_layer: u32,
    pub end_layer: u32,
    pub total_layers: u32,
    pub layers: Seq<ToyLayerArtifactModel>,
    pub projection: Option<ToyProjectionArtifactModel>,
}

impl View for ToyShardArtifact {
    type V = ToyShardArtifactModel;

    open spec fn view(&self) -> ToyShardArtifactModel {
        ToyShardArtifactModel {
            model_id: self.model_id@,
            hidden_dim: self.hidden_dim,
            start_layer: self.start_layer,
            end_layer: self.end_layer,
            total_layers: self.total_layers,
            layers: crate::model::views(self.layers@),
            projection: crate::model::opt(self.projection),
        }
    }
}

/// The first row whose length is not `dim`, from `from` on.
pub open spec fn first_ragged(rows: Seq<Seq<u32>>, dim: nat, from: int) -> Option<int>
    decreases rows.len() - from,
{
    if from < 0 || from >= rows.len() {
        None
    } else if rows[from].len() != dim {
        Some(from)
    } else {
        first_ragged(rows, dim, from + 1)
    }
}

fn find_ragged(rows: &[Vec<u32>], dim: usize) -> (r: Option<usize>)
    ensures
        match r {
            Some(at) => first_ragged(crate::model::views(rows@), dim as nat, 0) == Some(at as int),
            None => first_ragged(crate::model::views(rows@), dim as nat, 0) is None,
        },
{
    let ghost models = crate::model::views(rows@);
    let mut index: usize = 0;
    while index < rows.len()
        invariant
            index <= rows@.len(),
            models == crate::model::views(rows@),
            first_ragged(models, dim as nat, 0) == first_ragged(models, dim as nat, index as int),
        decreases rows.len() - index,
    {
        assert(models[index as int] == rows@[index as int]@);
        if rows[index].len() != dim {
            return Some(index);
        }
        index += 1;
    }
    None
}

impl ToyLayerArtifactModel {
    /// What is wrong with the shape of a layer on a state of `dim` numbers.
    pub open spec fn shape_fault(self, dim: nat) -> Option<Seq<char>> {
        if self.bias.len() != dim || self.weights.len() != dim {
            Some("Layer "@ + crate::text::dec(self.index as nat) + " shape mismatch"@)
        } else {
            match first_ragged(self.weights, dim, 0) {
                Some(row) => Some(
                    "Layer "@ + crate::text::dec(self.index as nat) + " row "@ + crate::text::dec(
                        row as nat,
                    ) + " shape mismatch"@,
                ),
                None => None,
            }
        }
    }
}

impl ToyLayerArtifact {
    /// Checks that the layer can be applied to a state of `dim` numbers.
    pub fn check_shape(&self, dim: usize) -> (r: Result<(), StageError>)
        ensures
            crate::model::failure(r) == self@.shape_fault(dim as nat),
    {
        if self.bias.len() != dim || self.weights.len() != dim {
            return fail_with(
                "Layer ".to_owned().concat(decimal(self.index as u64).as_str()).concat(
                    " shape mismatch",
                ),
            );
        }
        match find_ragged(&self.weights, dim) {
            Some(row) => fail_with(
                "Layer ".to_owned().concat(decimal(self.index as u64).as_str()).concat(
                    " row ",
                ).concat(size_text(row).as_str()).concat(" shape mismatch"),
            ),
            None => Ok(()),
        }
    }
}

impl ToyProjectionArtifactModel {
    /// What is wrong with the shape of a head on a state of `dim` numbers.
    pub open spec fn shape_fault(self, dim: nat) -> Option<Seq<char>> {
        if self.bias.len() != self.vocab.len() || self.weights.len() != self.vocab.len() {
            Some("Projection shape mismatch"@)
        } else {
            match first_ragged(self.weights, dim, 0) {
                Some(row) => Some(
                    "Projection row "@ + crate::text::dec(row as nat) + " shape mismatch"@,
                ),
                None => None,
            }
        }
    }
}

impl ToyProjectionArtifact {
    /// Checks that the head can be applied to a state of `dim` numbers.
    pub fn check_shape(&self, dim: usize) -> (r: Result<(), StageError>)
        ensures
            crate::model::failure(r) == self@.shape_fault(dim as nat),
    {
        if self.bias.len() != self.vocab.len() || self.weights.len() != self.vocab.len() {
            return fail("Projection shape mismatch");
        }
        match find_ragged(&self.weights, dim) {
            Some(row) => fail_with(
                "Projection row ".to_owned().concat(size_text(row).as_str()).concat(
                    " shape mismatch",
                ),
            ),
            None => Ok(()),
        }
    }
}

impl ToyShardArtifactModel {
    /// Whether the shard is of the model and of the layers that a layout tells of.
    pub open spec fn is_of(self, layout: StageLayoutModel) -> bool {
        self.model_id == layout.model_id && self.start_layer == layout.start_layer
            && self.end_layer == layout.end_layer
    }

    /// What is wrong with a shard under a layout: its model, its layer range, or the number of its
    /// layers, which is counted in 32 bits.
    pub open spec fn layout_fault(self, layout: StageLayoutModel) -> Option<Seq<char>> {
        if self.model_id != layout.model_id {
            Some(
                "Artifact model "@ + self.model_id + " does not match layout model "@
                    + layout.model_id,
            )
        } else if self.start_layer != layout.start_layer || self.end_layer != layout.end_layer {
            Some(
                "Artifact layer range "@ + crate::text::dec(self.start_layer as nat) + "-"@
                    + crate::text::dec(self.end_layer as nat) + " does not match layout "@
                    + crate::text::dec(layout.start_layer as nat) + "-"@ + crate::text::dec(
                    layout.end_layer as nat,
                ),
            )
        } else if self.layers.len() % 0x1_0000_0000 != layout.end_layer - layout.start_layer + 1 {
            Some("Artifact layer count does not match layout range"@)
        } else {
            None
        }
    }
}

impl ToyShardArtifact {
    /// Checks that the shard is the one that a layout tells of.
    pub fn check_layout(&self, layout: &StageLayout) -> (r: Result<(), StageError>)
        requires
            self@.is_of(layout@) ==> layout.start_layer <= layout.end_layer && layout.end_layer
                - layout.start_layer < u32::MAX,
        ensures
            crate::model::failure(r) == self@.layout_fault(layout@),
    {
        if self.model_id != layout.model_id {
            return fail_with(
                "Artifact model ".to_owned().concat(self.model_id.as_str()).concat(
                    " does not match layout model ",
                ).concat(layout.model_id.as_str()),
            );
        }
        if self.start_layer != layout.start_layer || self.end_layer != layout.end_layer {
            return fail_with(
                "Artifact layer range ".to_owned().concat(
                    decimal(self.start_layer as u64).as_str(),
                ).concat("-").concat(decimal(self.end_layer as u64).as_str()).concat(
                    " does not match layout ",
                ).concat(decimal(layout.start_layer as u64).as_str()).concat("-").concat(
                    decimal(layout.end_layer as u64).as_str(),
                ),
            );
        }
        let count: u64 = self.layers.len() as u64 % 0x1_0000_0000;
        if count != (layout.end_layer - layout.start_layer + 1) as u64 {
            return fail("Artifact layer count does not match layout range");
        }
        Ok(())
    }
}

/// A stage that runs a shard.
#[derive(Debug)]
pub struct ArtifactBackedToyBackend {
    pub artifact_path: String,
    pub layout: Option<StageLayout>,
    pub artifact: Option<ToyShardArtifact>,
}

/// A stage that runs layers of the reference model.
#[derive(Debug)]
pub struct ToyLinearBackend {
    pub layout: Option<StageLayout>,
}

impl Default for ToyLinearBackend {
    fn default() -> (r: Self)
        ensures
            r.layout is None,
    {
        ToyLinearBackend { layout: None }
    }
}

impl Default for ArtifactBackedToyBackend {
    fn default() -> (r: Self)
        ensures
            r.artifact_path@ == "artifact.json"@,
            r.layout is None,
            r.artifact is None,
    {
        Self::new("artifact.json".to_owned())
    }
}

/// That a stage has no layout or no shard.
pub open spec fn absence_fault(has_layout: bool, has_artifact: bool) -> Option<Seq<char>> {
    if !has_layout {
        Some("No stage layout loaded"@)
    } else if !has_artifact {
        Some("No shard artifact loaded"@)
    } else {
        None
    }
}

impl ArtifactBackedToyBackend {
    /// A stage that will run the shard at the given path.
    pub fn new(path: String) -> (r: Self)
        ensures
            r.artifact_path == path,
            r.layout is None,
            r.artifact is None,
    {
        ArtifactBackedToyBackend { artifact_path: path, layout: None, artifact: None }
    }

    /// Loads a shard under a layout. Nothing changes where the shard is not the one that the
    /// layout tells of.
    pub fn load_shard(&mut self, artifact: ToyShardArtifact, layout: StageLayout) -> (r: Result<
        (),
        StageError,
    >)
        requires
            artifact@.is_of(layout@) ==> layout.start_layer <= layout.end_layer && layout.end_layer
                - layout.start_layer < u32::MAX,
        ensures
            crate::model::failure(r) == artifact@.layout_fault(layout@),
            final(self).artifact_path == old(self).artifact_path,
            r is Err ==> *final(self) == *old(self),
            r is Ok ==> final(self).layout == Some(layout) && final(self).artifact == Some(
                artifact,
            ),
    {
        if let Err(error) = artifact.check_layout(&layout) {
            return Err(error);
        }
        self.layout = Some(layout);
        self.artifact = Some(artifact);
        Ok(())
    }

    /// The layout and the shard of the stage.
    pub fn loaded(&self) -> (r: Result<(&StageLayout, &ToyShardArtifact), StageError>)
        ensures
            crate::model::failure(r) == absence_fault(self.layout is Some, self.artifact is Some),
            r matches Ok(found) ==> self.layout == Some(*found.0) && self.artifact == Some(
                *found.1,
            ),
    {
        let layout = match &self.layout {
            Some(layout) => layout,
            None => return fail("No stage layout loaded"),
        };
        match &self.artifact {
            Some(artifact) => Ok((layout, artifact)),
            None => fail("No shard artifact loaded"),
        }
    }

    /// The head of the shard.
    pub fn head(artifact: &ToyShardArtifact) -> (r: Result<&ToyProjectionArtifact, StageError>)
        ensures
            match artifact.projection {
                Some(projection) => r matches Ok(found) && *found == projection,
                None => crate::model::failure(r) == Some(
                    "Tail artifact is missing a projection head"@,
                ),
            },
    {
        match &artifact.projection {
            Some(projection) => Ok(projection),
            None => fail("Tail artifact is missing a projection head"),
        }
    }
}

/// The layers that a stage runs, in order: the first one to the last one that it is told.
pub open spec fn layers_of(start_layer: u32, end_layer: u32) -> Seq<u32> {
    Seq::new(
        if start_layer <= end_layer {
            (end_layer - start_layer + 1) as nat
        } else {
            0
        },
        |place: int| (start_layer + place) as u32,
    )
}

/// The layers that a stage runs, in order.
pub fn layer_range(start_layer: u32, end_layer: u32) -> (r: Vec<u32>)
    ensures
        r@ == layers_of(start_layer, end_layer),
{
    let ghost expected = layers_of(start_layer, end_layer);
    let mut layers: Vec<u32> = Vec::new();
    if start_layer > end_layer {
        assert(layers@ =~= expected);
        return layers;
    }
    let mut layer: u32 = start_layer;
    while layer < end_layer
        invariant
            start_layer <= layer <= end_layer,
            expected == layers_of(start_layer, end_layer),
            layers@ == expected.take(layer - start_layer),
        decreases end_layer - layer,
    {
        assert(expected.take(layer + 1 - start_layer) =~= expected.take(layer - start_layer).push(
            layer,
        ));
        layers.push(layer);
        layer += 1;
    }
    layers.push(end_layer);
    assert(layers@ =~= expected);
    layers
}

/// What a state becomes when layers run on it one after the other, where `layer` tells what each
/// of them does to it.
pub open spec fn run_on(
    layer: spec_fn(Seq<u32>, u32) -> Seq<u32>,
    state: Seq<u32>,
    layers: Seq<u32>,
) -> Seq<u32> {
    layers.fold_left(state, layer)
}

/// Two stages in a row do what one would that has the layers of both: whatever the layers do, the
/// state that the first one hands over as bytes becomes what the one stage makes of it.
pub proof fn lemma_two_stages_are_one(
    layer: spec_fn(Seq<u32>, u32) -> Seq<u32>,
    state: Seq<u32>,
    start_layer: u32,
    middle_layer: u32,
    end_layer: u32,
)
    requires
        start_layer <= middle_layer < end_layer,
    ensures
        ({
            let handed_over = crate::hidden::encoded_state(
                run_on(layer, state, layers_of(start_layer, middle_layer)),
            );
            run_on(
                layer,
                crate::hidden::decoded_state(handed_over),
                layers_of((middle_layer + 1) as u32, end_layer),
            ) == run_on(layer, state, layers_of(start_layer, end_layer))
        }),
{
    let first = layers_of(start_layer, middle_layer);
    let second = layers_of((middle_layer + 1) as u32, end_layer);
    let both = layers_of(start_layer, end_layer);
    let count = first.len() as int;
    crate::hidden::lemma_state_round_trip(run_on(layer, state, first));
    assert(both.subrange(0, count) =~= first);
    assert(both.subrange(count, both.len() as int) =~= second);
    both.lemma_fold_left_split(state, layer, count);
}

/// The number of tokens that a small model samples: what is asked for, within limits.
pub open spec fn toy_take(max_tokens: Option<u32>) -> nat {
    match max_tokens {
        Some(count) => if count < 4 {
            4
        } else if count > 16 {
            16
        } else {
            count as nat
        },
        None => 12,
    }
}

/// The number of tokens that a small model samples.
pub fn toy_token_count(max_tokens: Option<u32>) -> (r: usize)
    ensures
        r == toy_take(max_tokens),
{
    match max_tokens {
        Some(count) => if count < 4 {
            4
        } else if count > 16 {
            16
        } else {
            count as usize
        },
        None => 12,
    }
}

/// The characters that the reference model samples from.
pub open spec fn toy_vocabulary() -> Seq<char> {
    " ABCDEFGHIJKLMNOPQRSTUVWXYZ:-"@
}

/// The text that the reference model samples: the chosen characters, without the space around.
pub open spec fn toy_text(choices: Seq<usize>) -> Seq<char> {
    crate::text::trim(choices.map_values(|choice: usize| toy_vocabulary()[choice as int]))
}

/// The text that the reference model samples, out of its choices.
pub fn text_of_choices(choices: &[usize]) -> (r: String)
    requires
        forall|i: int| 0 <= i < choices@.len() ==> #[trigger] choices@[i] < TOY_VOCAB_LEN,
    ensures
        r@ == toy_text(choices@),
{
    proof {
        reveal_strlit(" ABCDEFGHIJKLMNOPQRSTUVWXYZ:-");
    }
    let vocabulary = chars_of(" ABCDEFGHIJKLMNOPQRSTUVWXYZ:-");
    let mut out: Vec<char> = Vec::new();
    let mut index: usize = 0;
    while index < choices.len()
        invariant
            index <= choices@.len(),
            forall|i: int| 0 <= i < choices@.len() ==> #[trigger] choices@[i] < TOY_VOCAB_LEN,
            vocabulary@ == toy_vocabulary(),
            vocabulary@.len() == TOY_VOCAB_LEN,
            out@.len() == index,
            forall|i: int|
                0 <= i < index ==> #[trigger] out@[i] == toy_vocabulary()[choices@[i] as int],
        decreases choices@.len() - index,
    {
        out.push(vocabulary[choices[index]]);
        index += 1;
    }
    assert(out@ =~= choices@.map_values(|choice: usize| toy_vocabulary()[choice as int]));
    text_of(&trimmed_chars(&out))
}

/// The two places of a hidden state that the byte at `index` of a prompt goes to: its own, over
/// and over, and one that is reached from there by a step.
pub open spec fn prompt_places(index: nat, hidden_dim: nat, step: nat, shift: nat) -> (nat, nat) {
    (index % hidden_dim, (index % hidden_dim * step + shift) % hidden_dim)
}

/// The two places of a hidden state that the byte at `index` of a prompt goes to.
pub fn prompt_slots(index: usize, hidden_dim: usize, step: usize, shift: usize) -> (r: (usize, usize))
    requires
        0 < hidden_dim,
        hidden_dim * step + shift <= usize::MAX,
    ensures
        (r.0 as nat, r.1 as nat) == prompt_places(
            index as nat,
            hidden_dim as nat,
            step as nat,
            shift as nat,
        ),
        r.0 < hidden_dim,
        r.1 < hidden_dim,
{
    let slot: usize = index % hidden_dim;
    assert(slot * step <= hidden_dim * step) by (nonlinear_arith)
        requires
            slot < hidden_dim,
    ;
    (slot, (slot * step + shift) % hidden_dim)
}

/// The weight of a number of the state for a character and a token, before it is scaled.
pub open spec fn reference_weight(vocab_idx: nat, dim: nat, token_idx: nat) -> nat {
    ((vocab_idx + 1) * (dim + 3) * (token_idx + 1)) % 17
}

/// The weight of a number of the state for a character and a token, before it is scaled.
pub fn projection_weight(vocab_idx: usize, dim: usize, token_idx: usize) -> (r: u32)
    requires
        (vocab_idx + 1) * (dim + 3) <= usize::MAX,
        (vocab_idx + 1) * (dim + 3) * (token_idx + 1) <= usize::MAX,
        vocab_idx < usize::MAX,
        dim < usize::MAX - 3,
        token_idx < usize::MAX,
    ensures
        r == reference_weight(vocab_idx as nat, dim as nat, token_idx as nat),
        r < 17,
{
    let product: usize = (vocab_idx + 1) * (dim + 3);
    (product * (token_idx + 1) % 17) as u32
}

impl StageSampleModel {
    /// The sample of a text: a token for each character.
    pub open spec fn of_text(request_id: Seq<char>, model_id: Seq<char>, text: Seq<char>) -> Self {
        StageSampleModel {
            request_id,
            model_id,
            text,
            token_ids: text.map_values(|ch: char| ch as u32),
            completion_tokens: text.len() as u32,
        }
    }
}

impl StageSample {
    /// The sample of a text: a token for each character.
    pub fn from_text(request_id: String, model_id: String, text: String) -> (r: Self)
        ensures
            r@ == StageSampleModel::of_text(request_id@, model_id@, text@),
    {
        let token_ids = StageSample::text_token_ids(text.as_str());
        let completion_tokens: u32 = token_ids.len() as u32;
        StageSample { request_id, model_id, text, token_ids, completion_tokens }
    }
}

} // verus!
