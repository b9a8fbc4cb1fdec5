//! Prompts: how they are wrapped, and the suite that models are held to.
use stage_forward_lab::prompt_suite::{
    expectation_matches, gemma_validation_prompt_cases, validation_prompt_cases, PromptExpectation,
    ValidationPromptSuiteMode, ValidationPromptTier,
};
use stage_forward_lab::prompting::{format_gemma_prompt, GemmaPromptMode};

#[test]
fn exact_expectation_trims_outer_whitespace() {
    assert!(expectation_matches(
        PromptExpectation::Exact("Paris"),
        " Paris "
    ));
}

#[test]
fn contains_any_is_case_insensitive() {
    assert!(expectation_matches(
        PromptExpectation::ContainsAny(&["rayleigh"]),
        "As Rayleigh scattering explains it."
    ));
}

#[test]
fn core_mode_excludes_extended_cases() {
    assert_eq!(
        validation_prompt_cases(ValidationPromptSuiteMode::Core).len(),
        5
    );
}

#[test]
fn all_mode_includes_extended_cases() {
    assert_eq!(
        validation_prompt_cases(ValidationPromptSuiteMode::All).len(),
        9
    );
}

#[test]
fn gemma_instruct_prompt_wraps_single_turn_user_content() {
    assert_eq!(
        format_gemma_prompt(GemmaPromptMode::GemmaInstruct, "Hello"),
        "<|turn>user\nHello<turn|>\n<|turn>model\n"
    );
}

#[test]
fn gemma_instruct_prompt_trims_outer_whitespace() {
    assert_eq!(
        format_gemma_prompt(GemmaPromptMode::GemmaInstruct, "  Hello  "),
        "<|turn>user\nHello<turn|>\n<|turn>model\n"
    );
}

#[test]
fn an_exact_expectation_refuses_more_than_the_text() {
    assert!(!expectation_matches(PromptExpectation::Exact("Paris"), "Paris."));
    assert!(!expectation_matches(PromptExpectation::Exact("Paris"), "paris"));
    assert!(expectation_matches(PromptExpectation::Exact(""), " \t\n"));
}

#[test]
fn contains_any_takes_one_of_several() {
    let expectation = PromptExpectation::ContainsAny(&["Scatter", "sky"]);
    assert!(expectation_matches(expectation, "because SCATTERing"));
    assert!(expectation_matches(expectation, "the Sky"));
    assert!(!expectation_matches(expectation, "the sea"));
    assert!(!expectation_matches(PromptExpectation::ContainsAny(&[]), "anything"));
    assert!(expectation_matches(PromptExpectation::ContainsAny(&[""]), ""));
}

#[test]
fn every_space_is_trimmed_around_an_expected_text() {
    for code in 0..=0x10FFFFu32 {
        if let Some(letter) = char::from_u32(code) {
            let text = format!("{letter}Paris{letter}");
            assert_eq!(
                expectation_matches(PromptExpectation::Exact("Paris"), &text),
                letter.is_whitespace(),
                "{code:x}"
            );
        }
    }
}

#[test]
fn core_cases_are_the_cases_of_the_core_tier() {
    let core: Vec<&str> = gemma_validation_prompt_cases()
        .iter()
        .filter(|case| case.tier == ValidationPromptTier::Core)
        .map(|case| case.name)
        .collect();
    let chosen: Vec<&str> = validation_prompt_cases(ValidationPromptSuiteMode::Core)
        .iter()
        .map(|case| case.name)
        .collect();
    assert_eq!(chosen, core);
}

#[test]
fn suite_modes_are_read_back_from_their_names() {
    for mode in [ValidationPromptSuiteMode::Core, ValidationPromptSuiteMode::All] {
        assert_eq!(ValidationPromptSuiteMode::parse(mode.as_str()), Some(mode));
    }
    assert_eq!(ValidationPromptSuiteMode::parse("neither"), None);
}

#[test]
fn prompt_modes_are_read_back_from_their_names() {
    for mode in [GemmaPromptMode::Raw, GemmaPromptMode::GemmaInstruct] {
        assert_eq!(GemmaPromptMode::parse(mode.as_str()), Some(mode));
    }
    assert_eq!(GemmaPromptMode::parse("neither"), None);
}

#[test]
fn a_raw_prompt_is_left_alone() {
    assert_eq!(format_gemma_prompt(GemmaPromptMode::Raw, " Hi "), " Hi ");
}
