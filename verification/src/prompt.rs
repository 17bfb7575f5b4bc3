//! The authorization code as the user pasted it.
//!
//! Reading the terminal is a caller's business. What was read, or why nothing
//! was, arrives here as a value and is checked.

use vstd::prelude::*;
use crate::error::{result_view, AuthError, AuthErrorView};
use crate::outside::{is_whitespace, trim};
use crate::token::diagnostic;

verus! {

/// Why no line could be read from the user.
#[derive(Debug, Clone, PartialEq, Eq)]
pub enum PromptError {
    /// The prompt could not be written out; the text says why.
    Flush(String),
    /// The line could not be read; the text says why.
    Read(String),
}

/// Mathematical value of a [`PromptError`].
pub enum PromptErrorView {
    Flush(Seq<char>),
    Read(Seq<char>),
}

impl View for PromptError {
    type V = PromptErrorView;

    open spec fn view(&self) -> PromptErrorView {
        match self {
            PromptError::Flush(why) => PromptErrorView::Flush(why@),
            PromptError::Read(why) => PromptErrorView::Read(why@),
        }
    }
}

/// `text` without the whitespace it begins with.
pub open spec fn trim_start(text: Seq<char>) -> Seq<char>
    decreases text.len(),
{
    if text.len() > 0 && is_whitespace(text.first()) {
        trim_start(text.drop_first())
    } else {
        text
    }
}

/// `text` without the whitespace it ends with.
pub open spec fn trim_end(text: Seq<char>) -> Seq<char>
    decreases text.len(),
{
    if text.len() > 0 && is_whitespace(text.last()) {
        trim_end(text.drop_last())
    } else {
        text
    }
}

/// `text` without the whitespace around it.
pub open spec fn trimmed(text: Seq<char>) -> Seq<char> {
    trim_end(trim_start(text))
}

/// The authorization code that a user's input stands for, or the reason why
/// it stands for none.
pub open spec fn spec_authorization_code(input: Result<Seq<char>, PromptErrorView>) -> Result<
    Seq<char>,
    AuthErrorView,
> {
    match input {
        Err(PromptErrorView::Flush(why)) => Err(
            AuthErrorView::ConfigError("Failed to flush stdout: "@ + why),
        ),
        Err(PromptErrorView::Read(why)) => Err(
            AuthErrorView::ConfigError("Failed to read authorization code: "@ + why),
        ),
        Ok(line) => if trimmed(line).len() == 0 {
            Err(AuthErrorView::ConfigError("Authorization code cannot be empty"@))
        } else {
            Ok(trimmed(line))
        },
    }
}

/// Checks what was read from the user and yields the authorization code.
///
/// A failure to prompt or to read is a `ConfigError` that quotes the reason. A
/// line that is empty once the whitespace around it is removed is a
/// `ConfigError` too. Any other line yields its trimmed text.
pub fn authorization_code(input: Result<String, PromptError>) -> (code: Result<
    String,
    AuthError,
>)
    ensures
        result_view(code) == spec_authorization_code(result_view(input)),
{
    match input {
        Err(PromptError::Flush(why)) => Err(
            AuthError::ConfigError(diagnostic("Failed to flush stdout: ", why.as_str())),
        ),
        Err(PromptError::Read(why)) => Err(
            AuthError::ConfigError(diagnostic("Failed to read authorization code: ", why.as_str())),
        ),
        Ok(line) => {
            let inner = trim(line.as_str());
            if inner.is_empty() {
                Err(AuthError::ConfigError(String::from_str("Authorization code cannot be empty")))
            } else {
                Ok(String::from_str(inner))
            }
        },
    }
}

/// An empty line holds no authorization code.
pub proof fn lemma_empty_input_is_rejected()
    ensures
        spec_authorization_code(Ok(Seq::empty())) == Err::<Seq<char>, AuthErrorView>(
            AuthErrorView::ConfigError("Authorization code cannot be empty"@),
        ),
{
}

/// A line made of whitespace alone holds no authorization code.
pub proof fn lemma_blank_input_is_rejected(line: Seq<char>)
    requires
        forall|i: int| 0 <= i < line.len() ==> is_whitespace(#[trigger] line[i]),
    ensures
        spec_authorization_code(Ok(line)) == Err::<Seq<char>, AuthErrorView>(
            AuthErrorView::ConfigError("Authorization code cannot be empty"@),
        ),
    decreases line.len(),
{
    lemma_trim_start_of_blank(line);
}

/// Trimming whitespace alone at the start leaves nothing.
proof fn lemma_trim_start_of_blank(line: Seq<char>)
    requires
        forall|i: int| 0 <= i < line.len() ==> is_whitespace(#[trigger] line[i]),
    ensures
        trim_start(line).len() == 0,
    decreases line.len(),
{
    if line.len() > 0 {
        lemma_trim_start_of_blank(line.drop_first());
    }
}

} // verus!
