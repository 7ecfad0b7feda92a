//! What the overlay shows once the provider was asked: the summary, or a
//! message in its place. The call itself is made elsewhere.

use vstd::prelude::*;
use crate::prompts::{missing_key_message, missing_key_text};
use crate::text::{contains_text, has_part, trim_text, trimmed};

verus! {

/// What is shown where the provider answered without a text.
pub const NO_SUMMARY: &'static str = "No summary received.";

/// What precedes the text of an error of the provider.
pub const ERROR_PREFIX: &'static str = "Gemini API error: ";

/// How a call of the provider ended.
#[derive(Debug)]
pub enum FetchOutcome {
    /// The provider answered: the text of the first part of its first
    /// candidate, if there is one.
    Answer(Option<String>),
    /// The call failed: what the error says, and what its source says where
    /// it has one.
    Failure { message: String, source: Option<String> },
}

/// `FetchOutcome` as mathematical values.
pub enum OutcomeModel {
    Answer(Option<Seq<char>>),
    Failure { message: Seq<char>, source: Option<Seq<char>> },
}

impl View for FetchOutcome {
    type V = OutcomeModel;

    open spec fn view(&self) -> OutcomeModel {
        match self {
            FetchOutcome::Answer(text) => OutcomeModel::Answer(
                match text {
                    Some(t) => Some(t@),
                    None => None,
                },
            ),
            FetchOutcome::Failure { message, source } => OutcomeModel::Failure {
                message: message@,
                source: match source {
                    Some(s) => Some(s@),
                    None => None,
                },
            },
        }
    }
}

/// Whether the source of an error says that the credential is missing or
/// was refused.
pub open spec fn blames_credential(source: Seq<char>) -> bool {
    has_part(source, "API key must be set"@) || has_part(source, "GEMINI_API_KEY"@) || has_part(
        source,
        "401"@,
    )
}

/// What the overlay shows for an outcome. An answer is shown without the
/// white space around it. A failure whose source blames the credential
/// becomes the advice where to put one; any other failure is shown as what
/// its source says, or what the error itself says where it has no source.
pub open spec fn summary_of(outcome: OutcomeModel, config_path: Seq<char>) -> Seq<char> {
    match outcome {
        OutcomeModel::Answer(Some(text)) => trimmed(text),
        OutcomeModel::Answer(None) => NO_SUMMARY@,
        OutcomeModel::Failure { message, source: Some(source) } => if blames_credential(source) {
            missing_key_text(config_path)
        } else {
            ERROR_PREFIX@ + source
        },
        OutcomeModel::Failure { message, source: None } => ERROR_PREFIX@ + message,
    }
}

/// What the overlay shows for an outcome of the call.
pub fn summary_text(outcome: &FetchOutcome, config_path: &str) -> (text: String)
    ensures
        text@ == summary_of(outcome@, config_path@),
{
    match outcome {
        FetchOutcome::Answer(Some(answer)) => trim_text(answer.as_str()),
        FetchOutcome::Answer(None) => NO_SUMMARY.to_owned(),
        FetchOutcome::Failure { message, source: Some(source) } => {
            let inner = source.as_str();
            if contains_text(inner, "API key must be set") || contains_text(
                inner,
                "GEMINI_API_KEY",
            ) || contains_text(inner, "401") {
                missing_key_message(config_path)
            } else {
                let mut text = ERROR_PREFIX.to_owned();
                text.append(inner);
                text
            }
        },
        FetchOutcome::Failure { message, source: None } => {
            let mut text = ERROR_PREFIX.to_owned();
            text.append(message.as_str());
            text
        },
    }
}

} // verus!
