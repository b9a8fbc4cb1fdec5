//! Prompt formatting.
use vstd::prelude::*;
use vstd::string::*;
use crate::text::{chars_of, lower_chars, same_text, text_of, trimmed, trimmed_chars};

verus! {

/// How a prompt is handed to the model.
#[derive(Debug, Clone, Copy, PartialEq, Eq, Structural)]
pub enum GemmaPromptMode {
    Raw,
    GemmaInstruct,
}

impl Default for GemmaPromptMode {
    fn default() -> (r: Self)
        ensures
            r == GemmaPromptMode::GemmaInstruct,
    {
        GemmaPromptMode::GemmaInstruct
    }
}

impl GemmaPromptMode {
    /// The mode that a text names, white space around it and the case of ASCII letters aside.
    pub open spec fn named(value: Seq<char>) -> Option<Self> {
        let name = crate::text::lower(crate::text::trim(value));
        if name == "raw"@ || name == "plain"@ || name == "text"@ {
            Some(GemmaPromptMode::Raw)
        } else if name == "gemma"@ || name == "gemma_instruct"@ || name == "gemma-instruct"@ || name
            == "instruct"@ || name == "chat"@ {
            Some(GemmaPromptMode::GemmaInstruct)
        } else {
            None
        }
    }

    /// The name of the mode.
    pub open spec fn name(self) -> Seq<char> {
        match self {
            GemmaPromptMode::Raw => "raw"@,
            GemmaPromptMode::GemmaInstruct => "gemma_instruct"@,
        }
    }

    /// The mode that a text names.
    pub fn parse(value: &str) -> (r: Option<Self>)
        ensures
            r == Self::named(value@),
    {
        let name = text_of(&lower_chars(&trimmed_chars(&chars_of(value))));
        let name = name.as_str();
        if same_text(name, "raw") || same_text(name, "plain") || same_text(name, "text") {
            Some(GemmaPromptMode::Raw)
        } else if same_text(name, "gemma") || same_text(name, "gemma_instruct") || same_text(
            name,
            "gemma-instruct",
        ) || same_text(name, "instruct") || same_text(name, "chat") {
            Some(GemmaPromptMode::GemmaInstruct)
        } else {
            None
        }
    }

    /// The name of the mode.
    pub fn as_str(self) -> (r: &'static str)
        ensures
            r@ == self.name(),
    {
        match self {
            GemmaPromptMode::Raw => "raw",
            GemmaPromptMode::GemmaInstruct => "gemma_instruct",
        }
    }
}

/// The prompt as the model sees it: as it is, or trimmed and wrapped as a user's turn.
pub open spec fn formatted(mode: GemmaPromptMode, prompt: Seq<char>) -> Seq<char> {
    match mode {
        GemmaPromptMode::Raw => prompt,
        GemmaPromptMode::GemmaInstruct => "<|turn>user\n"@ + crate::text::trim(prompt)
            + "<turn|>\n<|turn>model\n"@,
    }
}

/// The prompt as the model sees it.
pub fn format_gemma_prompt(mode: GemmaPromptMode, prompt: &str) -> (r: String)
    ensures
        r@ == formatted(mode, prompt@),
{
    match mode {
        GemmaPromptMode::Raw => prompt.to_owned(),
        GemmaPromptMode::GemmaInstruct => "<|turn>user\n".to_owned().concat(
            trimmed(prompt).as_str(),
        ).concat("<turn|>\n<|turn>model\n"),
    }
}

/// The mode's name is read back as the mode.
pub proof fn lemma_prompt_mode_round_trip(mode: GemmaPromptMode)
    ensures
        GemmaPromptMode::named(mode.name()) == Some(mode),
{
    reveal_strlit("raw");
    reveal_strlit("gemma_instruct");
    reveal_strlit("plain");
    reveal_strlit("text");
    reveal_strlit("gemma");
    reveal_strlit("gemma-instruct");
    reveal_strlit("instruct");
    reveal_strlit("chat");
    assert(crate::text::trim(mode.name()) == mode.name());
    assert(crate::text::lower(mode.name()) =~= mode.name());
}

/// White space around a prompt does not change how it is wrapped.
pub proof fn lemma_wrapping_ignores_outer_space(prompt: Seq<char>, before: char, after: char)
    requires
        crate::text::is_space(before),
        crate::text::is_space(after),
    ensures
        formatted(GemmaPromptMode::GemmaInstruct, seq![before] + prompt + seq![after]) == formatted(
            GemmaPromptMode::GemmaInstruct,
            prompt,
        ),
{
    let padded = seq![before] + prompt + seq![after];
    assert(padded.drop_first() =~= prompt + seq![after]);
    crate::text::lemma_trim_after(prompt, after);
}

} // verus!
