//! Stages that work on bytes alone: what every backend of a stage does, and one that makes up its
//! hidden states.
use vstd::prelude::*;
use vstd::string::*;
use crate::model::{fail, fail_with, StageError};
use crate::names::holds_name;
use crate::tensor::{
    PayloadKind, StageLayout, StageLayoutModel, StageSample, StageSampleModel, StageTensor,
    StageTensorModel,
};
use crate::text::{chars_of, text_of};

verus! {

/// A backend that runs one stage of a model.
pub trait StageForwardBackend {
    /// Whether prompts can be handed to the backend.
    spec fn takes_prompts(&self) -> bool;

    /// Whether a tensor can be handed to the backend.
    spec fn takes(&self, input: StageTensor) -> bool;

    /// Tells the backend which stage it runs.
    fn load_layout(&mut self, layout: StageLayout) -> (r: Result<(), StageError>);

    /// Starts a prompt at the head stage.
    fn begin_prompt(
        &self,
        request_id: &str,
        prompt: &str,
        max_tokens: Option<u32>,
        hidden_dim_hint: usize,
    ) -> (r: Result<StageTensor, StageError>)
        requires
            self.takes_prompts(),
    ;

    /// Runs the stage on what the stage before it handed over.
    fn continue_forward(&self, input: StageTensor) -> (r: Result<StageTensor, StageError>)
        requires
            self.takes(input),
    ;

    /// Samples the output of the tail stage.
    fn sample_tail(&self, input: StageTensor) -> (r: Result<StageSample, StageError>);
}

/// What is wrong with a prompt at a stage with the given layout.
pub open spec fn prompt_fault(layout: Option<StageLayoutModel>) -> Option<Seq<char>> {
    match layout {
        None => Some("No stage layout loaded"@),
        Some(layout) => if layout.is_head {
            None
        } else {
            Some("Only the head stage may accept prompt ingress"@)
        },
    }
}

/// What is wrong with a tensor that a stage with the given layout is to continue.
pub open spec fn forward_fault(layout: Option<StageLayoutModel>, kind: PayloadKind) -> Option<
    Seq<char>,
> {
    match layout {
        None => Some("No stage layout loaded"@),
        Some(layout) => if kind != PayloadKind::HiddenState {
            Some("Stage forward requires hidden-state payloads"@)
        } else if layout.is_head {
            Some("Head stage should use begin_prompt, not continue_forward"@)
        } else {
            None
        },
    }
}

/// What is wrong with a tensor that a stage with the given layout is to sample.
pub open spec fn sample_fault(layout: Option<StageLayoutModel>, kind: PayloadKind) -> Option<
    Seq<char>,
> {
    match layout {
        None => Some("No stage layout loaded"@),
        Some(layout) => if !layout.is_tail {
            Some("Only the tail stage may sample output"@)
        } else if kind != PayloadKind::HiddenState {
            Some("Tail sampling requires hidden-state payloads"@)
        } else {
            None
        },
    }
}

/// Checks that a stage may start a prompt.
pub fn check_prompt(layout: &Option<StageLayout>) -> (r: Result<&StageLayout, StageError>)
    ensures
        crate::model::failure(r) == prompt_fault(crate::model::opt(*layout)),
        r matches Ok(found) ==> *layout == Some(*found),
{
    match layout {
        None => fail("No stage layout loaded"),
        Some(layout) => if layout.is_head {
            Ok(layout)
        } else {
            fail("Only the head stage may accept prompt ingress")
        },
    }
}

/// Checks that a stage may continue a tensor.
pub fn check_forward(layout: &Option<StageLayout>, kind: PayloadKind) -> (r: Result<
    &StageLayout,
    StageError,
>)
    ensures
        crate::model::failure(r) == forward_fault(crate::model::opt(*layout), kind),
        r matches Ok(found) ==> *layout == Some(*found),
{
    match layout {
        None => fail("No stage layout loaded"),
        Some(layout) => if kind != PayloadKind::HiddenState {
            fail("Stage forward requires hidden-state payloads")
        } else if layout.is_head {
            fail("Head stage should use begin_prompt, not continue_forward")
        } else {
            Ok(layout)
        },
    }
}

/// Checks that a stage may sample a tensor.
pub fn check_sample(layout: &Option<StageLayout>, kind: PayloadKind) -> (r: Result<
    &StageLayout,
    StageError,
>)
    ensures
        crate::model::failure(r) == sample_fault(crate::model::opt(*layout), kind),
        r matches Ok(found) ==> *layout == Some(*found),
{
    match layout {
        None => fail("No stage layout loaded"),
        Some(layout) => if !layout.is_tail {
            fail("Only the tail stage may sample output")
        } else if kind != PayloadKind::HiddenState {
            fail("Tail sampling requires hidden-state payloads")
        } else {
            Ok(layout)
        },
    }
}

impl StageTensorModel {
    /// The tensor that a head stage starts with: the state of a prompt, and no carried state.
    pub open spec fn of_prompt(
        request_id: Seq<char>,
        stage_id: Seq<char>,
        hidden_dim: usize,
        bytes: Seq<u8>,
        prompt: Seq<char>,
        max_tokens: Option<u32>,
    ) -> Self {
        StageTensorModel {
            request_id,
            kind: PayloadKind::HiddenState,
            stage_trace: seq![stage_id],
            hidden_dim,
            bytes,
            prompt_text: Some(prompt),
            max_tokens,
            continuation: None,
            transient: None,
            carry: None,
        }
    }

    /// The tensor that a stage hands on: the new state, the trace with the stage at its end, and
    /// no carried state.
    pub open spec fn continued(self, stage_id: Seq<char>, hidden_dim: usize, bytes: Seq<u8>) -> Self {
        StageTensorModel {
            request_id: self.request_id,
            kind: PayloadKind::HiddenState,
            stage_trace: self.stage_trace.push(stage_id),
            hidden_dim,
            bytes,
            prompt_text: self.prompt_text,
            max_tokens: self.max_tokens,
            continuation: None,
            transient: None,
            carry: None,
        }
    }
}

impl StageTensor {
    /// The tensor that a head stage starts with.
    pub fn from_prompt(
        request_id: &str,
        stage_id: &str,
        hidden_dim: usize,
        bytes: Vec<u8>,
        prompt: &str,
        max_tokens: Option<u32>,
    ) -> (r: Self)
        ensures
            r@ == StageTensorModel::of_prompt(
                request_id@,
                stage_id@,
                hidden_dim,
                bytes@,
                prompt@,
                max_tokens,
            ),
    {
        let mut stage_trace: Vec<String> = Vec::new();
        stage_trace.push(stage_id.to_owned());
        assert(crate::model::texts(stage_trace@) =~= seq![stage_id@]);
        StageTensor {
            request_id: request_id.to_owned(),
            kind: PayloadKind::HiddenState,
            stage_trace,
            hidden_dim,
            bytes,
            prompt_text: Some(prompt.to_owned()),
            max_tokens,
            continuation: None,
            transient: None,
            carry: None,
        }
    }

    /// The tensor that a stage hands on.
    pub fn continue_with(self, stage_id: &str, hidden_dim: usize, bytes: Vec<u8>) -> (r: Self)
        ensures
            r@ == self@.continued(stage_id@, hidden_dim, bytes@),
    {
        let mut stage_trace = self.stage_trace;
        let ghost before = stage_trace@;
        stage_trace.push(stage_id.to_owned());
        assert(crate::model::texts(stage_trace@) =~= crate::model::texts(before).push(stage_id@));
        StageTensor {
            request_id: self.request_id,
            kind: PayloadKind::HiddenState,
            stage_trace,
            hidden_dim,
            bytes,
            prompt_text: self.prompt_text,
            max_tokens: self.max_tokens,
            continuation: None,
            transient: None,
            carry: None,
        }
    }
}

/// A backend that makes up its hidden states from the bytes it is handed and the stage's name.
#[derive(Debug)]
pub struct DeterministicStubBackend {
    pub layout: Option<StageLayout>,
}

impl Default for DeterministicStubBackend {
    fn default() -> (r: Self)
        ensures
            r.layout is None,
    {
        DeterministicStubBackend { layout: None }
    }
}

/// The width of a made-up hidden state: what is asked for, within limits.
pub open spec fn stub_width(hidden_dim_hint: usize) -> usize {
    if hidden_dim_hint < 64 {
        64
    } else if hidden_dim_hint > 4096 {
        4096
    } else {
        hidden_dim_hint
    }
}

/// The bytes of a text.
pub open spec fn text_bytes(text: Seq<char>) -> Seq<u8> {
    vstd::utf8::encode_utf8(text)
}

/// The bytes that a made-up hidden state grows from: those that were handed over, else those of
/// the prompt and the stage's name.
pub open spec fn stub_seed(prompt: Seq<char>, prior: Seq<u8>, stage_id: Seq<char>) -> Seq<u8> {
    if prior.len() > 0 {
        prior
    } else if text_bytes(prompt).len() + text_bytes(stage_id).len() > 0 {
        text_bytes(prompt) + text_bytes(stage_id)
    } else {
        text_bytes("compute-backend"@)
    }
}

/// A made-up hidden state: seed and stage name over and over, added to a count, each as a byte.
pub open spec fn stub_state(
    prompt: Seq<char>,
    prior: Seq<u8>,
    hidden_dim_hint: usize,
    stage_id: Seq<char>,
) -> Seq<u8> {
    let seed = stub_seed(prompt, prior, stage_id);
    let stage = text_bytes(stage_id);
    Seq::new(
        stub_width(hidden_dim_hint) as nat,
        |i: int|
            ((seed[i % seed.len() as int] + stage[i % stage.len() as int] + i % 251) % 256) as u8,
    )
}

/// A byte in hexadecimal, with two digits.
pub open spec fn hex_byte(byte: u8) -> Seq<char> {
    seq![hex_digit(byte as int / 16), hex_digit(byte as int % 16)]
}

/// A hexadecimal digit.
pub open spec fn hex_digit(value: int) -> char {
    if value < 10 {
        ('0' as int + value) as char
    } else {
        ('a' as int + (value - 10)) as char
    }
}

/// Bytes in hexadecimal.
pub open spec fn hex_text(bytes: Seq<u8>) -> Seq<char>
    decreases bytes.len(),
{
    if bytes.len() == 0 {
        Seq::empty()
    } else {
        hex_text(bytes.drop_last()) + hex_byte(bytes.last())
    }
}

/// Texts one after the other, with `between` between them.
pub open spec fn joined(texts: Seq<Seq<char>>, between: Seq<char>) -> Seq<char>
    decreases texts.len(),
{
    if texts.len() == 0 {
        Seq::empty()
    } else if texts.len() == 1 {
        texts[0]
    } else {
        joined(texts.drop_last(), between) + between + texts.last()
    }
}

/// The number of characters that a stub samples: what is asked for, within limits.
pub open spec fn stub_take(max_tokens: Option<u32>) -> u32 {
    match max_tokens {
        Some(count) => if count < 96 {
            count
        } else {
            96
        },
        None => 48,
    }
}

/// The text that a stub samples: the prompt, the trace, the model and the first bytes of the
/// state, cut to length.
pub open spec fn stub_text(input: StageTensorModel, model_id: Seq<char>) -> Seq<char> {
    let prompt = match input.prompt_text {
        Some(prompt) => prompt,
        None => ""@,
    };
    crate::lanes::prefix(
        prompt + " :: "@ + joined(input.stage_trace, " -> "@) + " :: "@ + model_id + " :: "@
            + hex_text(crate::lanes::prefix(input.bytes, 16)),
        stub_take(input.max_tokens) as usize,
    )
}

fn push_all(out: &mut Vec<u8>, bytes: &[u8])
    ensures
        final(out)@ == old(out)@ + bytes@,
{
    out.extend_from_slice(bytes);
    assert(out@ =~= old(out)@ + bytes@);
}

fn hex_of(value: u8) -> (r: char)
    requires
        value < 16,
    ensures
        r == hex_digit(value as int),
{
    if value < 10 {
        (0x30u8 + value) as char
    } else {
        (0x61u8 + (value - 10)) as char
    }
}

fn hex_chars(bytes: &[u8]) -> (r: Vec<char>)
    ensures
        r@ == hex_text(bytes@),
{
    let mut out: Vec<char> = Vec::new();
    let mut index: usize = 0;
    assert(bytes@.take(0) =~= Seq::empty());
    while index < bytes.len()
        invariant
            index <= bytes@.len(),
            out@ == hex_text(bytes@.take(index as int)),
        decreases bytes.len() - index,
    {
        proof {
            assert(bytes@.take(index + 1).drop_last() =~= bytes@.take(index as int));
            assert(bytes@.take(index + 1).last() == bytes@[index as int]);
        }
        let ghost before = out@;
        out.push(hex_of(bytes[index] / 16));
        out.push(hex_of(bytes[index] % 16));
        assert(out@ =~= before + hex_byte(bytes@[index as int]));
        index += 1;
    }
    assert(bytes@.take(index as int) =~= bytes@);
    out
}

/// Texts one after the other, with `between` between them.
pub fn join_texts(texts: &[String], between: &str) -> (r: String)
    ensures
        r@ == joined(crate::model::texts(texts@), between@),
{
    let ghost models = crate::model::texts(texts@);
    if texts.len() == 0 {
        return String::new();
    }
    let mut out: String = texts[0].clone();
    let mut index: usize = 1;
    assert(models.take(1) =~= seq![models[0]]);
    while index < texts.len()
        invariant
            1 <= index <= texts@.len(),
            models == crate::model::texts(texts@),
            out@ == joined(models.take(index as int), between@),
        decreases texts.len() - index,
    {
        proof {
            assert(models.take(index + 1).drop_last() =~= models.take(index as int));
            assert(models.take(index + 1).last() == models[index as int]);
        }
        out = out.concat(between).concat(texts[index].as_str());
        index += 1;
    }
    assert(models.take(index as int) =~= models);
    out
}

/// A stage is in the trace of what it hands on, so it is not run on it a second time.
pub proof fn lemma_stage_is_traced(
    input: StageTensorModel,
    stage_id: Seq<char>,
    hidden_dim: usize,
    bytes: Seq<u8>,
)
    ensures
        input.continued(stage_id, hidden_dim, bytes).stage_trace.contains(stage_id),
{
    let trace = input.continued(stage_id, hidden_dim, bytes).stage_trace;
    assert(trace[input.stage_trace.len() as int] == stage_id);
}

/// A text that is not empty has bytes.
pub proof fn lemma_text_has_bytes(text: Seq<char>)
    requires
        text.len() > 0,
    ensures
        text_bytes(text).len() > 0,
{
}

impl DeterministicStubBackend {
    /// The made-up hidden state of a stage.
    pub fn synthesize_hidden_state(
        &self,
        prompt: &str,
        prior: &[u8],
        hidden_dim_hint: usize,
        stage_id: &str,
    ) -> (r: Vec<u8>)
        requires
            stage_id@.len() > 0,
        ensures
            r@ == stub_state(prompt@, prior@, hidden_dim_hint, stage_id@),
    {
        proof {
            lemma_text_has_bytes(stage_id@);
        }
        let stage = stage_id.as_bytes();
        let mut seed: Vec<u8> = Vec::new();
        if prior.len() == 0 {
            push_all(&mut seed, prompt.as_bytes());
            push_all(&mut seed, stage);
        } else {
            push_all(&mut seed, prior);
        }
        assert(seed@ =~= stub_seed(prompt@, prior@, stage_id@));
        let width: usize = if hidden_dim_hint < 64 {
            64
        } else if hidden_dim_hint > 4096 {
            4096
        } else {
            hidden_dim_hint
        };
        let mut out: Vec<u8> = Vec::new();
        let mut index: usize = 0;
        while index < width
            invariant
                index <= width,
                width == stub_width(hidden_dim_hint),
                seed@ == stub_seed(prompt@, prior@, stage_id@),
                stage@ == text_bytes(stage_id@),
                seed@.len() > 0,
                stage@.len() > 0,
                out@.len() == index,
                forall|i: int|
                    0 <= i < index ==> #[trigger] out@[i] == stub_state(
                        prompt@,
                        prior@,
                        hidden_dim_hint,
                        stage_id@,
                    )[i],
            decreases width - index,
        {
            let sum: u32 = seed[index % seed.len()] as u32 + stage[index % stage.len()] as u32 + (
            index % 251) as u32;
            out.push((sum % 256) as u8);
            index += 1;
        }
        assert(out@ =~= stub_state(prompt@, prior@, hidden_dim_hint, stage_id@));
        out
    }
}

impl StageForwardBackend for DeterministicStubBackend {
    /// A head stage has a name.
    open spec fn takes_prompts(&self) -> bool {
        prompt_fault(crate::model::opt(self.layout)) is None ==> self.layout->0@.stage_id.len() > 0
    }

    /// A stage that is still to be run has a name.
    open spec fn takes(&self, input: StageTensor) -> bool {
        forward_fault(crate::model::opt(self.layout), input.kind) is None
            && !input@.stage_trace.contains(self.layout->0@.stage_id)
            ==> self.layout->0@.stage_id.len() > 0
    }

    fn load_layout(&mut self, layout: StageLayout) -> (r: Result<(), StageError>)
        ensures
            r is Ok,
            final(self).layout == Some(layout),
    {
        self.layout = Some(layout);
        Ok(())
    }

    fn begin_prompt(
        &self,
        request_id: &str,
        prompt: &str,
        max_tokens: Option<u32>,
        hidden_dim_hint: usize,
    ) -> (r: Result<StageTensor, StageError>)
        ensures
            crate::model::failure(r) == prompt_fault(crate::model::opt(self.layout)),
            r matches Ok(tensor) ==> tensor@ == StageTensorModel::of_prompt(
                request_id@,
                self.layout->0@.stage_id,
                stub_width(hidden_dim_hint),
                stub_state(prompt@, Seq::empty(), hidden_dim_hint, self.layout->0@.stage_id),
                prompt@,
                max_tokens,
            ),
    {
        let layout = match check_prompt(&self.layout) {
            Ok(layout) => layout,
            Err(error) => return Err(error),
        };
        let nothing: Vec<u8> = Vec::new();
        assert(nothing@ =~= Seq::empty());
        let bytes = self.synthesize_hidden_state(
            prompt,
            &nothing,
            hidden_dim_hint,
            layout.stage_id.as_str(),
        );
        let hidden_dim: usize = bytes.len();
        Ok(
            StageTensor::from_prompt(
                request_id,
                layout.stage_id.as_str(),
                hidden_dim,
                bytes,
                prompt,
                max_tokens,
            ),
        )
    }

    fn continue_forward(&self, input: StageTensor) -> (r: Result<StageTensor, StageError>)
        ensures
            ({
                let layout = crate::model::opt(self.layout);
                match forward_fault(layout, input.kind) {
                    Some(fault) => crate::model::failure(r) == Some(fault),
                    None => if input@.stage_trace.contains(layout->0.stage_id) {
                        crate::model::failure(r) == Some(
                            "Stage "@ + layout->0.stage_id + " already applied to payload"@,
                        )
                    } else {
                        r matches Ok(tensor) && tensor@ == input@.continued(
                            layout->0.stage_id,
                            input.hidden_dim,
                            stub_state(
                                match input@.prompt_text {
                                    Some(prompt) => prompt,
                                    None => Seq::empty(),
                                },
                                input@.bytes,
                                input.hidden_dim,
                                layout->0.stage_id,
                            ),
                        )
                    },
                }
            }),
    {
        let layout = match check_forward(&self.layout, input.kind) {
            Ok(layout) => layout,
            Err(error) => return Err(error),
        };
        if holds_name(&input.stage_trace, layout.stage_id.as_str()) {
            return fail_with(
                "Stage ".to_owned().concat(layout.stage_id.as_str()).concat(
                    " already applied to payload",
                ),
            );
        }
        let prompt = match &input.prompt_text {
            Some(prompt) => prompt.clone(),
            None => String::new(),
        };
        let bytes = self.synthesize_hidden_state(
            prompt.as_str(),
            &input.bytes,
            input.hidden_dim,
            layout.stage_id.as_str(),
        );
        let hidden_dim: usize = input.hidden_dim;
        Ok(input.continue_with(layout.stage_id.as_str(), hidden_dim, bytes))
    }

    fn sample_tail(&self, input: StageTensor) -> (r: Result<StageSample, StageError>)
        ensures
            ({
                let layout = crate::model::opt(self.layout);
                match sample_fault(layout, input.kind) {
                    Some(fault) => crate::model::failure(r) == Some(fault),
                    None => r matches Ok(sample) && sample@ == (StageSampleModel {
                        request_id: input@.request_id,
                        model_id: layout->0.model_id,
                        text: stub_text(input@, layout->0.model_id),
                        token_ids: stub_text(input@, layout->0.model_id).map_values(
                            |ch: char| ch as u32,
                        ),
                        completion_tokens: stub_take(input.max_tokens),
                    }),
                }
            }),
    {
        let layout = match check_sample(&self.layout, input.kind) {
            Ok(layout) => layout,
            Err(error) => return Err(error),
        };
        let prompt = match &input.prompt_text {
            Some(prompt) => prompt.clone(),
            None => "".to_owned(),
        };
        let trace = join_texts(&input.stage_trace, " -> ");
        let take: u32 = match input.max_tokens {
            Some(count) => if count < 96 {
                count
            } else {
                96
            },
            None => 48,
        };
        let head = crate::lanes::take_prefix(&input.bytes, 16);
        let digest = text_of(&hex_chars(&head));
        let full = prompt.concat(" :: ").concat(trace.as_str()).concat(" :: ").concat(
            layout.model_id.as_str(),
        ).concat(" :: ").concat(digest.as_str());
        let chars = chars_of(full.as_str());
        let text = text_of(&crate::lanes::take_prefix(&chars, take as usize));
        let token_ids = StageSample::text_token_ids(text.as_str());
        Ok(
            StageSample {
                request_id: input.request_id,
                model_id: layout.model_id.clone(),
                text,
                token_ids,
                completion_tokens: take,
            },
        )
    }
}

} // verus!
