use vstd::prelude::*;

verus! {

/// Why a run stopped before it was done.
#[derive(Debug, Clone)]
pub enum RunError {
    /// No API credential was configured.
    MissingApiKey,
    /// The completion response held no candidate.
    NoCompletion,
    /// The commit tool exited with a failure; the text holds what it wrote to stderr.
    CommitFailed(String),
    /// An event came that the current stage does not wait for.
    UnexpectedEvent,
}

impl RunError {
    /// A line that describes the error to the user.
    pub fn describe(&self) -> (r: String)
        ensures
            self is MissingApiKey ==> r@ == MISSING_API_KEY_TEXT@,
            self is NoCompletion ==> r@ == NO_COMPLETION_TEXT@,
            self is CommitFailed ==> r@ == self->CommitFailed_0@,
            self is UnexpectedEvent ==> r@ == UNEXPECTED_EVENT_TEXT@,
    {
        match self {
            RunError::MissingApiKey => String::from_str(MISSING_API_KEY_TEXT),
            RunError::NoCompletion => String::from_str(NO_COMPLETION_TEXT),
            RunError::CommitFailed(text) => text.clone(),
            RunError::UnexpectedEvent => String::from_str(UNEXPECTED_EVENT_TEXT),
        }
    }
}

pub const MISSING_API_KEY_TEXT: &'static str = "GROQ_API_KEY is not set";

pub const NO_COMPLETION_TEXT: &'static str = "no completion produced";

pub const UNEXPECTED_EVENT_TEXT: &'static str = "event does not fit the current stage";

} // verus!
