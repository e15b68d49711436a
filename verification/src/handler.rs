//! The decision a completions request handler takes for one inbound
//! request: reject it when no usable key stands in the `Authorization`
//! header, otherwise translate the conversation and hand it on, with the
//! key, to the upstream collaborator.
//!
//! The surrounding HTTP layer reads the header and deserializes the body,
//! hands both in as plain values, and performs the upstream call on a
//! forwarding decision; nothing here suspends or touches the network.

use vstd::prelude::*;

use crate::auth::{extract_gemini_api_key, spec_extract_key, starts_with_key_prefix};
use crate::messages::{convert_messages, translate_messages, GeminiMessage, OpenAIMessage};

verus! {

/// The status the adapter answers a request with when the header carries
/// no usable key.
pub const UNAUTHORIZED_STATUS: u16 = 401;

/// The status the adapter answers a request with on the happy path.
pub const SUCCESS_STATUS: u16 = 200;

/// The body of an inbound completions request: an ordered conversation,
/// possibly empty.
pub struct CompletionsRequestBody {
    pub messages: Vec<OpenAIMessage>,
}

/// What the handler decides for one inbound request: reject it for want of
/// a key, or forward the translated conversation and the key upstream.
pub enum CompletionsAction {
    Unauthorized,
    Forward { gemini_api_key: String, messages: Vec<GeminiMessage> },
}

impl CompletionsAction {
    /// The HTTP status the adapter answers with for this decision.
    pub fn status_code(&self) -> (r: u16)
        ensures
            self is Unauthorized ==> r == UNAUTHORIZED_STATUS,
            self is Forward ==> r == SUCCESS_STATUS,
    {
        match self {
            CompletionsAction::Unauthorized => UNAUTHORIZED_STATUS,
            CompletionsAction::Forward { .. } => SUCCESS_STATUS,
        }
    }
}

/// The fixed message of the error payload for a rejected request.
pub fn unauthorized_message() -> (r: String)
    ensures
        r@ == "Unauthorized"@,
{
    "Unauthorized".to_owned()
}

/// Decides one inbound completions request. With no header, or with one
/// that carries no usable key, the request is rejected and nothing else is
/// done; otherwise the conversation is translated and handed on together
/// with the extracted key.
pub fn route_completions(authorization: Option<&str>, body: CompletionsRequestBody) -> (r:
    CompletionsAction)
    ensures
        r is Unauthorized <==> match authorization {
            None => true,
            Some(header) => !starts_with_key_prefix(header@),
        },
        r matches CompletionsAction::Forward { gemini_api_key, messages } ==> {
            &&& authorization matches Some(header)
                && spec_extract_key(header@) == Some(gemini_api_key@)
            &&& messages.deep_view() == translate_messages(body.messages.deep_view())
        },
{
    let header = match authorization {
        Some(header) => header,
        None => {
            return CompletionsAction::Unauthorized;
        },
    };
    let gemini_api_key = match extract_gemini_api_key(header) {
        Some(key) => key,
        None => {
            return CompletionsAction::Unauthorized;
        },
    };
    let messages = convert_messages(body.messages);
    CompletionsAction::Forward { gemini_api_key, messages }
}

} // verus!
