//! The model provider: the prompt, the request for a completion, and the
//! reading of its answer.

use vstd::prelude::*;
use vstd::string::*;
use crate::actions::ACTIONS_PROMPT;
use crate::json::{json_document, parse_json, text_in, Json};
use crate::text::{concat2, join, joined};

verus! {

/// Where a completion is asked for.
pub const COMPLETIONS_URL: &'static str = "https://api.openai.com/v1/chat/completions";

/// The most tokens a completion may hold.
pub const MAX_TOKENS: u32 = 500;

/// Why no completion was had.
#[derive(Clone, Copy, Debug, PartialEq, Eq, Structural)]
pub enum GatewayError {
    /// The answer's first choice names no role.
    NoRole,
    /// The answer's first choice has a role and no content.
    NoContent,
    /// The answer is no JSON document.
    NotJson,
    /// The provider could not be reached or did not answer.
    Transport,
}

/// A request for a completion: the model, the turns as (role, content) with
/// the system prompt first, and the bound on the answer's length.
#[derive(Clone, Debug, PartialEq, Eq)]
pub struct CompletionRequest {
    pub model: String,
    pub messages: Vec<(String, String)>,
    pub max_tokens: Option<u32>,
}

/// The system prompt: the standing instructions, after them the
/// instructions on actions where actions are enabled, then a line break and
/// the facts, one per line, oldest first.
pub open spec fn prompt_text(initial: Seq<char>, actions_enabled: bool, facts: Seq<String>) -> Seq<
    char,
> {
    let instructions = if actions_enabled {
        initial + ACTIONS_PROMPT@
    } else {
        initial
    };
    instructions + "\n"@ + joined(facts, "\n"@)
}

/// See [`prompt_text`].
pub fn get_chatbot_prompt(initial_prompt: &str, actions_enabled: bool, facts: &Vec<String>) -> (r:
    String)
    ensures
        r@ == prompt_text(initial_prompt@, actions_enabled, facts@),
{
    let mut prompt = String::from_str(initial_prompt);
    if actions_enabled {
        prompt.append(ACTIONS_PROMPT);
    }
    prompt.append("\n");
    let lines = join(facts, "\n");
    prompt.append(lines.as_str());
    prompt
}

/// The header value that authorizes a request with `key`.
pub fn bearer(key: &str) -> (r: String)
    ensures
        r@ == "Bearer "@ + key@,
{
    concat2("Bearer ", key)
}

/// The request for the completion of `role_contents` by `model` under the
/// system prompt `prompt`.
pub fn completion_request(model: &str, prompt: &str, role_contents: &Vec<(String, String)>) -> (r:
    CompletionRequest)
    ensures
        r.model@ == model@,
        r.max_tokens == Some(MAX_TOKENS),
        r.messages@.len() == role_contents@.len() + 1,
        r.messages@[0].0@ == "system"@,
        r.messages@[0].1@ == prompt@,
        forall|i: int|
            0 <= i < role_contents@.len() ==> (#[trigger] r.messages@[i + 1]).0@
                == role_contents@[i].0@ && r.messages@[i + 1].1@ == role_contents@[i].1@,
{
    let mut messages: Vec<(String, String)> = Vec::new();
    messages.push(("system".to_owned(), String::from_str(prompt)));
    let mut i: usize = 0;
    while i < role_contents.len()
        invariant
            i <= role_contents.len(),
            messages@.len() == i + 1,
            messages@[0].0@ == "system"@,
            messages@[0].1@ == prompt@,
            forall|k: int|
                0 <= k < i ==> (#[trigger] messages@[k + 1]).0@ == role_contents@[k].0@
                    && messages@[k + 1].1@ == role_contents@[k].1@,
        decreases role_contents.len() - i,
    {
        messages.push((role_contents[i].0.clone(), role_contents[i].1.clone()));
        i += 1;
    }
    CompletionRequest { model: String::from_str(model), messages, max_tokens: Some(MAX_TOKENS) }
}

/// The message of the first choice of an answer.
pub open spec fn first_choice(doc: Json) -> Option<Json> {
    match doc.member("choices"@) {
        Some(choices) => match choices.element(0) {
            Some(choice) => choice.member("message"@),
            None => None,
        },
        None => None,
    }
}

/// The completion in an answer: the content of the first choice where that
/// names a role by a string and has a string as content.
pub open spec fn completion_in(doc: Json) -> Result<Seq<char>, GatewayError> {
    match first_choice(doc) {
        Some(message) => if text_in(message.member("role"@)) is Some {
            match text_in(message.member("content"@)) {
                Some(content) => Ok(content),
                None => Err(GatewayError::NoContent),
            }
        } else {
            Err(GatewayError::NoRole)
        },
        None => Err(GatewayError::NoRole),
    }
}

/// The characters of a completion or the failure.
pub open spec fn outcome_text(r: Result<String, GatewayError>) -> Result<Seq<char>, GatewayError> {
    match r {
        Ok(s) => Ok(s@),
        Err(e) => Err(e),
    }
}

/// Reads the completion out of a provider's answer.
pub fn completion_of(doc: &Json) -> (r: Result<String, GatewayError>)
    ensures
        outcome_text(r) == completion_in(*doc),
{
    let message = match doc.get("choices") {
        Some(choices) => match choices.at(0) {
            Some(choice) => choice.get("message"),
            None => None,
        },
        None => None,
    };
    match message {
        Some(message) => {
            let has_role = match message.get("role") {
                Some(role) => role.as_text().is_some(),
                None => false,
            };
            if has_role {
                match message.get("content") {
                    Some(content) => match content.as_text() {
                        Some(text) => Ok(text.clone()),
                        None => Err(GatewayError::NoContent),
                    },
                    None => Err(GatewayError::NoContent),
                }
            } else {
                Err(GatewayError::NoRole)
            }
        },
        None => Err(GatewayError::NoRole),
    }
}

/// Reads the completion out of the body of a provider's answer.
pub fn read_completion(body: &str) -> (r: Result<String, GatewayError>)
    ensures
        outcome_text(r) == match json_document(body@) {
            Some(doc) => completion_in(doc),
            None => Err(GatewayError::NotJson),
        },
{
    match parse_json(body) {
        Some(doc) => completion_of(&doc),
        None => Err(GatewayError::NotJson),
    }
}

} // verus!
