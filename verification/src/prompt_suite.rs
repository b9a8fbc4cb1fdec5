//! The prompts that a model is validated with, and what its answers must look like.
use vstd::array::array_as_slice;
use vstd::prelude::*;
use crate::text::{chars_of, has_chars, lower_chars, same_text, text_of, trimmed, trimmed_chars};

verus! {

/// What an answer must look like: a text, white space around it aside, or any text that holds
/// one of several, whatever the case of ASCII letters.
#[derive(Debug, Clone, Copy)]
pub enum PromptExpectation {
    Exact(&'static str),
    ContainsAny(&'static [&'static str]),
}

/// What a [`PromptExpectation`] holds, as mathematical values.
#[verifier::ext_equal]
pub enum PromptExpectationModel {
    Exact(Seq<char>),
    ContainsAny(Seq<Seq<char>>),
}

impl View for PromptExpectation {
    type V = PromptExpectationModel;

    open spec fn view(&self) -> PromptExpectationModel {
        match self {
            PromptExpectation::Exact(expected) => PromptExpectationModel::Exact(expected@),
            PromptExpectation::ContainsAny(candidates) => PromptExpectationModel::ContainsAny(
                literals(candidates@),
            ),
        }
    }
}

/// The texts of a list of literals.
pub open spec fn literals(values: Seq<&'static str>) -> Seq<Seq<char>> {
    values.map_values(|value: &'static str| value@)
}

/// Whether a prompt belongs to the short suite.
#[derive(Debug, Clone, Copy, PartialEq, Eq, Structural)]
pub enum ValidationPromptTier {
    Core,
    Extended,
}

/// Which prompts to run.
#[derive(Debug, Clone, Copy, PartialEq, Eq, Structural)]
pub enum ValidationPromptSuiteMode {
    Core,
    All,
}

impl ValidationPromptSuiteMode {
    /// The mode that a text names, white space around it and the case of ASCII letters aside.
    pub open spec fn named(value: Seq<char>) -> Option<Self> {
        let name = crate::text::lower(crate::text::trim(value));
        if name == "core"@ || name == "default"@ {
            Some(ValidationPromptSuiteMode::Core)
        } else if name == "all"@ || name == "extended"@ || name == "full"@ {
            Some(ValidationPromptSuiteMode::All)
        } else {
            None
        }
    }

    /// The name of the mode.
    pub open spec fn name(self) -> Seq<char> {
        match self {
            ValidationPromptSuiteMode::Core => "core"@,
            ValidationPromptSuiteMode::All => "all"@,
        }
    }

    /// Whether the mode runs prompts of the given tier.
    pub open spec fn runs(self, tier: ValidationPromptTier) -> bool {
        self is All || tier is Core
    }

    /// The mode that a text names.
    pub fn parse(value: &str) -> (r: Option<Self>)
        ensures
            r == Self::named(value@),
    {
        let name = text_of(&lower_chars(&trimmed_chars(&chars_of(value))));
        let name = name.as_str();
        if same_text(name, "core") || same_text(name, "default") {
            Some(ValidationPromptSuiteMode::Core)
        } else if same_text(name, "all") || same_text(name, "extended") || same_text(name, "full") {
            Some(ValidationPromptSuiteMode::All)
        } else {
            None
        }
    }

    /// The name of the mode.
    pub fn as_str(self) -> (r: &'static str)
        ensures
            r@ == self.name(),
    {
        match self {
            ValidationPromptSuiteMode::Core => "core",
            ValidationPromptSuiteMode::All => "all",
        }
    }
}

/// A prompt, with what its answer must look like.
#[derive(Debug, Clone, Copy)]
pub struct ValidationPromptCase {
    pub tier: ValidationPromptTier,
    pub name: &'static str,
    pub prompt: &'static str,
    pub max_tokens: u32,
    pub stop_sequences: &'static [&'static str],
    pub first_token_expectation: PromptExpectation,
    pub continuation_expectation: PromptExpectation,
}

/// What a [`ValidationPromptCase`] holds, as mathematical values.
#[verifier::ext_equal]
pub struct ValidationPromptCaseModel {
    pub tier: ValidationPromptTier,
    pub name: Seq<char>,
    pub prompt: Seq<char>,
    pub max_tokens: u32,
    pub stop_sequences: Seq<Seq<char>>,
    pub first_token_expectation: PromptExpectationModel,
    pub continuation_expectation: PromptExpectationModel,
}

impl View for ValidationPromptCase {
    type V = ValidationPromptCaseModel;

    open spec fn view(&self) -> ValidationPromptCaseModel {
        ValidationPromptCaseModel {
            tier: self.tier,
            name: self.name@,
            prompt: self.prompt@,
            max_tokens: self.max_tokens,
            stop_sequences: literals(self.stop_sequences@),
            first_token_expectation: self.first_token_expectation@,
            continuation_expectation: self.continuation_expectation@,
        }
    }
}

/// All prompts, in order.
pub open spec fn gemma_cases() -> Seq<ValidationPromptCaseModel> {
    seq![
        ValidationPromptCaseModel {
            tier: ValidationPromptTier::Core,
            name: "france_one_word"@,
            prompt: "Reply with one word. What is the capital of France?"@,
            max_tokens: 4,
            stop_sequences: Seq::empty(),
            first_token_expectation: PromptExpectationModel::ContainsAny(seq!["Paris"@]),
            continuation_expectation: PromptExpectationModel::ContainsAny(seq!["Paris"@]),
        },
        ValidationPromptCaseModel {
            tier: ValidationPromptTier::Core,
            name: "france_exact_output"@,
            prompt: "Reply with exactly 'Paris' and nothing else."@,
            max_tokens: 4,
            stop_sequences: Seq::empty(),
            first_token_expectation: PromptExpectationModel::ContainsAny(seq!["Paris"@]),
            continuation_expectation: PromptExpectationModel::Exact("Paris"@),
        },
        ValidationPromptCaseModel {
            tier: ValidationPromptTier::Core,
            name: "sky_blue_sentence"@,
            prompt: "In one sentence, explain why the sky looks blue during the day."@,
            max_tokens: 6,
            stop_sequences: Seq::empty(),
            first_token_expectation: PromptExpectationModel::ContainsAny(seq!["As"@, "Because"@, "Rayleigh"@]),
            continuation_expectation: PromptExpectationModel::ContainsAny(seq!["Rayleigh"@, "scattering"@]),
        },
        ValidationPromptCaseModel {
            tier: ValidationPromptTier::Core,
            name: "sky_red_sentence"@,
            prompt: "In one sentence, explain why the sky looks red at sunset."@,
            max_tokens: 6,
            stop_sequences: Seq::empty(),
            first_token_expectation: PromptExpectationModel::ContainsAny(seq!["As"@, "Because"@, "When"@]),
            continuation_expectation: PromptExpectationModel::ContainsAny(seq!["sun"@, "low"@, "sunset"@]),
        },
        ValidationPromptCaseModel {
            tier: ValidationPromptTier::Core,
            name: "cache_reason_sentence"@,
            prompt: "Answer in one concise sentence. Why can continuation tokens be faster than the first generated token when per-request decode caches are reused across steps?"@,
            max_tokens: 8,
            stop_sequences: Seq::empty(),
            first_token_expectation: PromptExpectationModel::ContainsAny(seq!["Because"@, "The"@, "Continuation"@, "Cached"@]),
            continuation_expectation: PromptExpectationModel::ContainsAny(seq!["cache"@, "reuse"@, "reused"@, "prefill"@, "initial token"@, "full"@]),
        },
        ValidationPromptCaseModel {
            tier: ValidationPromptTier::Extended,
            name: "yes_exact_output"@,
            prompt: "Answer with exactly 'Yes' and nothing else. Is Paris in France?"@,
            max_tokens: 4,
            stop_sequences: Seq::empty(),
            first_token_expectation: PromptExpectationModel::ContainsAny(seq!["Yes"@]),
            continuation_expectation: PromptExpectationModel::Exact("Yes"@),
        },
        ValidationPromptCaseModel {
            tier: ValidationPromptTier::Extended,
            name: "no_exact_output"@,
            prompt: "Answer with exactly 'No' and nothing else. Is Paris in Germany?"@,
            max_tokens: 4,
            stop_sequences: Seq::empty(),
            first_token_expectation: PromptExpectationModel::ContainsAny(seq!["No"@]),
            continuation_expectation: PromptExpectationModel::Exact("No"@),
        },
        ValidationPromptCaseModel {
            tier: ValidationPromptTier::Extended,
            name: "kv_cache_exact_output"@,
            prompt: "Reply with exactly 'KV cache' and nothing else. What allows continuation tokens to be faster after the first generated token?"@,
            max_tokens: 4,
            stop_sequences: Seq::empty(),
            first_token_expectation: PromptExpectationModel::ContainsAny(seq!["KV"@]),
            continuation_expectation: PromptExpectationModel::Exact("KV cache"@),
        },
        ValidationPromptCaseModel {
            tier: ValidationPromptTier::Extended,
            name: "paris_comma_stop"@,
            prompt: "Reply with exactly 'Paris,' and nothing else."@,
            max_tokens: 4,
            stop_sequences: seq![","@],
            first_token_expectation: PromptExpectationModel::ContainsAny(seq!["Paris"@]),
            continuation_expectation: PromptExpectationModel::Exact("Paris"@),
        },
    ]
}

fn no_texts() -> (r: &'static [&'static str])
    ensures
        r@.len() == 0,
{
    array_as_slice(&[])
}

/// All prompts, in order.
pub fn gemma_validation_prompt_cases() -> (r: Vec<ValidationPromptCase>)
    ensures
        crate::model::views(r@) == gemma_cases(),
{
    let mut cases: Vec<ValidationPromptCase> = Vec::new();
    cases.push(
        ValidationPromptCase {
            tier: ValidationPromptTier::Core,
            name: "france_one_word",
            prompt: "Reply with one word. What is the capital of France?",
            max_tokens: 4,
            stop_sequences: no_texts(),
            first_token_expectation: PromptExpectation::ContainsAny(array_as_slice(&["Paris"])),
            continuation_expectation: PromptExpectation::ContainsAny(array_as_slice(&["Paris"])),
        },
    );
    cases.push(
        ValidationPromptCase {
            tier: ValidationPromptTier::Core,
            name: "france_exact_output",
            prompt: "Reply with exactly 'Paris' and nothing else.",
            max_tokens: 4,
            stop_sequences: no_texts(),
            first_token_expectation: PromptExpectation::ContainsAny(array_as_slice(&["Paris"])),
            continuation_expectation: PromptExpectation::Exact("Paris"),
        },
    );
    cases.push(
        ValidationPromptCase {
            tier: ValidationPromptTier::Core,
            name: "sky_blue_sentence",
            prompt: "In one sentence, explain why the sky looks blue during the day.",
            max_tokens: 6,
            stop_sequences: no_texts(),
            first_token_expectation: PromptExpectation::ContainsAny(array_as_slice(&["As", "Because", "Rayleigh"])),
            continuation_expectation: PromptExpectation::ContainsAny(array_as_slice(&["Rayleigh", "scattering"])),
        },
    );
    cases.push(
        ValidationPromptCase {
            tier: ValidationPromptTier::Core,
            name: "sky_red_sentence",
            prompt: "In one sentence, explain why the sky looks red at sunset.",
            max_tokens: 6,
            stop_sequences: no_texts(),
            first_token_expectation: PromptExpectation::ContainsAny(array_as_slice(&["As", "Because", "When"])),
            continuation_expectation: PromptExpectation::ContainsAny(array_as_slice(&["sun", "low", "sunset"])),
        },
    );
    cases.push(
        ValidationPromptCase {
            tier: ValidationPromptTier::Core,
            name: "cache_reason_sentence",
            prompt: "Answer in one concise sentence. Why can continuation tokens be faster than the first generated token when per-request decode caches are reused across steps?",
            max_tokens: 8,
            stop_sequences: no_texts(),
            first_token_expectation: PromptExpectation::ContainsAny(array_as_slice(&["Because", "The", "Continuation", "Cached"])),
            continuation_expectation: PromptExpectation::ContainsAny(array_as_slice(&["cache", "reuse", "reused", "prefill", "initial token", "full"])),
        },
    );
    cases.push(
        ValidationPromptCase {
            tier: ValidationPromptTier::Extended,
            name: "yes_exact_output",
            prompt: "Answer with exactly 'Yes' and nothing else. Is Paris in France?",
            max_tokens: 4,
            stop_sequences: no_texts(),
            first_token_expectation: PromptExpectation::ContainsAny(array_as_slice(&["Yes"])),
            continuation_expectation: PromptExpectation::Exact("Yes"),
        },
    );
    cases.push(
        ValidationPromptCase {
            tier: ValidationPromptTier::Extended,
            name: "no_exact_output",
            prompt: "Answer with exactly 'No' and nothing else. Is Paris in Germany?",
            max_tokens: 4,
            stop_sequences: no_texts(),
            first_token_expectation: PromptExpectation::ContainsAny(array_as_slice(&["No"])),
            continuation_expectation: PromptExpectation::Exact("No"),
        },
    );
    cases.push(
        ValidationPromptCase {
            tier: ValidationPromptTier::Extended,
            name: "kv_cache_exact_output",
            prompt: "Reply with exactly 'KV cache' and nothing else. What allows continuation tokens to be faster after the first generated token?",
            max_tokens: 4,
            stop_sequences: no_texts(),
            first_token_expectation: PromptExpectation::ContainsAny(array_as_slice(&["KV"])),
            continuation_expectation: PromptExpectation::Exact("KV cache"),
        },
    );
    cases.push(
        ValidationPromptCase {
            tier: ValidationPromptTier::Extended,
            name: "paris_comma_stop",
            prompt: "Reply with exactly 'Paris,' and nothing else.",
            max_tokens: 4,
            stop_sequences: array_as_slice(&[","]),
            first_token_expectation: PromptExpectation::ContainsAny(array_as_slice(&["Paris"])),
            continuation_expectation: PromptExpectation::Exact("Paris"),
        },
    );
    assert(crate::model::views(cases@) =~~= gemma_cases());
    cases
}

/// The prompts that a mode runs, in order.
pub open spec fn cases_of(mode: ValidationPromptSuiteMode) -> Seq<ValidationPromptCaseModel> {
    gemma_cases().filter(|case: ValidationPromptCaseModel| mode.runs(case.tier))
}

/// The prompts that a mode runs, in order.
pub fn validation_prompt_cases(mode: ValidationPromptSuiteMode) -> (r: Vec<ValidationPromptCase>)
    ensures
        crate::model::views(r@) == cases_of(mode),
{
    let all = gemma_validation_prompt_cases();
    let ghost models = gemma_cases();
    let ghost wanted = |case: ValidationPromptCaseModel| mode.runs(case.tier);
    let mut out: Vec<ValidationPromptCase> = Vec::new();
    let mut index: usize = 0;
    assert(models.take(0) =~= Seq::empty());
    proof {
        reveal(Seq::filter);
    }
    assert(crate::model::views(out@) =~= models.take(0).filter(wanted));
    while index < all.len()
        invariant
            index <= all@.len(),
            all@.len() == models.len(),
            models == crate::model::views(all@),
            wanted == (|case: ValidationPromptCaseModel| mode.runs(case.tier)),
            crate::model::views(out@) == models.take(index as int).filter(wanted),
        decreases all.len() - index,
    {
        let case = all[index];
        proof {
            reveal(Seq::filter);
            assert(models.take(index + 1).drop_last() =~= models.take(index as int));
            assert(models.take(index + 1).last() == case@);
        }
        if matches!(mode, ValidationPromptSuiteMode::All) || case.tier == ValidationPromptTier::Core {
            let ghost before = out@;
            out.push(case);
            assert(crate::model::views(out@) =~= crate::model::views(before).push(case@));
        }
        index += 1;
    }
    assert(models.take(index as int) =~= models);
    out
}

impl PromptExpectationModel {
    /// Whether an answer looks as expected.
    pub open spec fn accepts(self, text: Seq<char>) -> bool {
        match self {
            PromptExpectationModel::Exact(expected) => crate::text::trim(text) == expected,
            PromptExpectationModel::ContainsAny(candidates) => holds_any(text, candidates),
        }
    }
}

/// Whether a text holds one of several others, whatever the case of ASCII letters.
pub open spec fn holds_any(text: Seq<char>, candidates: Seq<Seq<char>>) -> bool {
    exists|i: int|
        0 <= i < candidates.len() && crate::text::contains(
            crate::text::lower(text),
            crate::text::lower(#[trigger] candidates[i]),
        )
}

/// Whether an answer looks as expected.
pub fn expectation_matches(expectation: PromptExpectation, text: &str) -> (r: bool)
    ensures
        r == expectation@.accepts(text@),
{
    match expectation {
        PromptExpectation::Exact(expected) => same_text(trimmed(text).as_str(), expected),
        PromptExpectation::ContainsAny(candidates) => {
            let haystack = lower_chars(&chars_of(text));
            let ghost models = literals(candidates@);
            let mut index: usize = 0;
            while index < candidates.len()
                invariant
                    index <= candidates@.len(),
                    models == literals(candidates@),
                    haystack@ == crate::text::lower(text@),
                    expectation@ == PromptExpectationModel::ContainsAny(models),
                    forall|i: int|
                        0 <= i < index ==> !crate::text::contains(
                            haystack@,
                            crate::text::lower(#[trigger] models[i]),
                        ),
                decreases candidates.len() - index,
            {
                let needle = text_of(&lower_chars(&chars_of(candidates[index])));
                assert(models[index as int] == candidates@[index as int]@);
                if has_chars(&haystack, needle.as_str()) {
                    assert(holds_any(text@, models));
                    return true;
                }
                index += 1;
            }
            false
        },
    }
}

/// The mode's name is read back as the mode.
pub proof fn lemma_suite_mode_round_trip(mode: ValidationPromptSuiteMode)
    ensures
        ValidationPromptSuiteMode::named(mode.name()) == Some(mode),
{
    reveal_strlit("core");
    reveal_strlit("all");
    reveal_strlit("default");
    reveal_strlit("extended");
    reveal_strlit("full");
    assert(crate::text::trim(mode.name()) == mode.name());
    assert(crate::text::lower(mode.name()) =~= mode.name());
}

/// Every prompt of the short suite is a prompt of the whole suite.
pub proof fn lemma_core_cases_are_cases(case: ValidationPromptCaseModel)
    ensures
        cases_of(ValidationPromptSuiteMode::Core).contains(case) ==> cases_of(
            ValidationPromptSuiteMode::All,
        ).contains(case),
{
    let core = |case: ValidationPromptCaseModel| ValidationPromptSuiteMode::Core.runs(case.tier);
    let all = |case: ValidationPromptCaseModel| ValidationPromptSuiteMode::All.runs(case.tier);
    if cases_of(ValidationPromptSuiteMode::Core).contains(case) {
        gemma_cases().lemma_filter_contains_rev(core, case);
        let i = choose|i: int| 0 <= i < gemma_cases().len() && gemma_cases()[i] == case;
        gemma_cases().lemma_filter_contains(all, i);
    }
}

} // verus!
