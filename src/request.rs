use vstd::prelude::*;

use crate::error::RunError;
use crate::text::{trim_seq, trim_str};

verus! {

/// The model that writes the commit message.
pub const MODEL: &'static str = "mixtral-8x7b-32768";

/// The chat-completion endpoint that the request is posted to.
pub const COMPLETIONS_URL: &'static str = "https://api.groq.com/openai/v1/chat/completions";

/// The role of the single message of a request.
pub const USER_ROLE: &'static str = "user";

/// The instruction that stands before the diff.
pub const PROMPT_HEAD: &'static str = "Generate a concise commit message for the following git diff:\n";

/// The instruction that stands after the diff.
pub const PROMPT_TAIL: &'static str = "\n\nDO NOT INCLUDE ANYTHING BUT THE COMMIT MESSAGE IN YOUR RESPONSE.";

/// Sampling temperature in hundredths (70 stands for 0.7).
pub const TEMPERATURE_HUNDREDTHS: u32 = 70;

/// The ceiling on generated tokens.
pub const MAX_TOKENS: u32 = 1000;

/// What goes before the credential in the authorization header.
pub const BEARER_PREFIX: &'static str = "Bearer ";

/// One role-tagged entry of a completion request.
#[derive(Debug, Clone)]
pub struct Message {
    pub role: String,
    pub content: String,
}

/// The body of a completion request.
#[derive(Debug, Clone)]
pub struct GroqRequest {
    pub model: String,
    pub messages: Vec<Message>,
    pub temperature_hundredths: u32,
    pub max_tokens: u32,
}

/// The text of a candidate.
#[derive(Debug, Clone)]
pub struct ResponseMessage {
    pub content: String,
}

/// One generated candidate.
#[derive(Debug, Clone)]
pub struct Choice {
    pub message: ResponseMessage,
}

/// The body of a completion response.
#[derive(Debug, Clone)]
pub struct GroqResponse {
    pub id: String,
    pub choices: Vec<Choice>,
}

/// The prompt sent for `diff`: the instruction wrapped round the diff text.
pub open spec fn prompt_text(diff: Seq<char>) -> Seq<char> {
    PROMPT_HEAD@ + diff + PROMPT_TAIL@
}

/// Whether `r` is the request for `diff`: the fixed model, temperature and
/// token ceiling, and one user message that holds the prompt for `diff`.
pub open spec fn is_request_for(r: GroqRequest, diff: Seq<char>) -> bool {
    &&& r.model@ == MODEL@
    &&& r.messages@.len() == 1
    &&& r.messages@[0].role@ == USER_ROLE@
    &&& r.messages@[0].content@ == prompt_text(diff)
    &&& r.temperature_hundredths == TEMPERATURE_HUNDREDTHS
    &&& r.max_tokens == MAX_TOKENS
}

/// The authorization header value for `key`.
pub open spec fn bearer_text(key: Seq<char>) -> Seq<char> {
    BEARER_PREFIX@ + key
}

/// The message taken from a response: the first candidate's text without
/// white space at either end.
pub open spec fn first_message_text(resp: GroqResponse) -> Seq<char>
    recommends
        resp.choices@.len() > 0,
{
    trim_seq(resp.choices@[0].message.content@)
}

/// The instruction wrapped round `diff`.
pub fn prompt_for(diff: &str) -> (r: String)
    ensures
        r@ == prompt_text(diff@),
{
    let mut content = String::from_str(PROMPT_HEAD);
    content.append(diff);
    content.append(PROMPT_TAIL);
    content
}

/// The completion request for `diff`.
pub fn build_request(diff: &str) -> (r: GroqRequest)
    ensures
        is_request_for(r, diff@),
{
    let message = Message { role: String::from_str(USER_ROLE), content: prompt_for(diff) };
    let mut messages: Vec<Message> = Vec::new();
    messages.push(message);
    GroqRequest {
        model: String::from_str(MODEL),
        messages,
        temperature_hundredths: TEMPERATURE_HUNDREDTHS,
        max_tokens: MAX_TOKENS,
    }
}

/// The authorization header value that carries `key` as a bearer token.
pub fn bearer_header(key: &str) -> (r: String)
    ensures
        r@ == bearer_text(key@),
{
    let mut header = String::from_str(BEARER_PREFIX);
    header.append(key);
    header
}

/// The commit message of a response: the first candidate trimmed, or
/// `NoCompletion` when there is no candidate.
pub fn first_message(resp: &GroqResponse) -> (r: Result<String, RunError>)
    ensures
        r is Ok <==> resp.choices@.len() > 0,
        r is Ok ==> r->Ok_0@ == first_message_text(*resp),
        r is Err ==> r->Err_0 is NoCompletion,
{
    if resp.choices.len() == 0 {
        return Err(RunError::NoCompletion);
    }
    let trimmed = trim_str(resp.choices[0].message.content.as_str());
    Ok(String::from_str(trimmed))
}

} // verus!
