//! Customer support answered by a language model.
use vstd::prelude::*;

use crate::text;

verus! {

/// The most tokens that an answer may have.
pub const SUPPORT_MAX_TOKENS: i32 = 1024;

/// What the model is told about its part.
pub const SUPPORT_SYSTEM_PROMPT: &'static str =
    "You are a helpful and friendly customer support agent for OrignaGTA, a Canadian e-commerce platform specializing in handcrafted goods and sustainable products.

Your responsibilities:
- Help customers with product inquiries, order issues, shipping, and returns
- Be empathetic and professional in all interactions
- Provide accurate information about our policies
- Offer practical solutions
- If you cannot resolve an issue or the customer repeatedly needs escalation, indicate that the issue should be escalated to a human agent

Always be clear and concise. Format responses in a friendly, conversational tone.";

#[derive(Debug)]
pub struct SupportChatRequest {
    pub messages: Vec<SupportMessage>,
    pub customer_email: String,
    pub customer_id: String,
}

#[derive(Debug)]
pub struct SupportMessage {
    pub role: String,
    pub content: String,
}

#[derive(Debug)]
pub struct SupportChatResponse {
    pub reply: String,
    pub escalated: bool,
}

/// What the model is asked.
#[derive(Debug)]
pub struct ModelRequest {
    pub model: String,
    pub max_tokens: i32,
    pub system: String,
    pub messages: Vec<SupportMessage>,
}

/// The question to the model `model`: the customer's messages under the system
/// prompt.
pub fn model_request(payload: SupportChatRequest, model: &str) -> (r: ModelRequest)
    ensures
        r.model@ == model@,
        r.max_tokens == SUPPORT_MAX_TOKENS,
        r.system@ == SUPPORT_SYSTEM_PROMPT@,
        r.messages == payload.messages,
{
    ModelRequest {
        model: model.to_owned(),
        max_tokens: SUPPORT_MAX_TOKENS,
        system: SUPPORT_SYSTEM_PROMPT.to_owned(),
        messages: payload.messages,
    }
}

/// The reply speaks of handing the customer on.
pub open spec fn escalates(reply: Seq<char>) -> bool {
    let low = text::lowercase(reply);
    ||| text::occurs(low, "escalat"@)
    ||| text::occurs(low, "human agent"@)
    ||| text::occurs(low, "supervisor"@)
    ||| text::occurs(low, "manager"@)
}

/// Whether a reply in small letters speaks of handing the customer on.
pub fn mentions_escalation(low: &str) -> (r: bool)
    ensures
        r == (text::occurs(low@, "escalat"@) || text::occurs(low@, "human agent"@) || text::occurs(
            low@,
            "supervisor"@,
        ) || text::occurs(low@, "manager"@)),
{
    text::contains(low, "escalat") || text::contains(low, "human agent") || text::contains(
        low,
        "supervisor",
    ) || text::contains(low, "manager")
}

/// The text that the model answered with: its first part.
pub open spec fn first_part(parts: Seq<String>) -> Seq<char> {
    if parts.len() > 0 {
        parts[0]@
    } else {
        Seq::empty()
    }
}

/// The answer to the customer, from the parts that the model answered with.
pub fn support_answer(parts: &Vec<String>) -> (r: SupportChatResponse)
    ensures
        r.reply@ == first_part(parts@),
        r.escalated == escalates(r.reply@),
{
    let reply = if parts.len() > 0 {
        parts[0].clone()
    } else {
        String::new()
    };
    let low = text::to_lowercase(reply.as_str());
    let escalated = mentions_escalation(low.as_str());
    SupportChatResponse { reply, escalated }
}

/// How a call to the model can fail.
#[derive(Debug, Clone, Copy, PartialEq, Eq)]
pub enum SupportFailure {
    /// No key for the service is configured.
    NotConfigured,
    /// The service did not answer in time.
    TimedOut,
    /// The service could not be reached.
    Unreachable,
    /// The service answered with an error.
    Refused,
    /// The service's answer could not be read.
    Unreadable,
}

/// The HTTP status of a failure.
pub open spec fn failure_status(f: SupportFailure) -> u16 {
    match f {
        SupportFailure::NotConfigured => 500,
        SupportFailure::TimedOut => 504,
        SupportFailure::Unreachable => 502,
        SupportFailure::Refused => 502,
        SupportFailure::Unreadable => 500,
    }
}

/// The message of a failure.
pub open spec fn failure_message(f: SupportFailure) -> Seq<char> {
    match f {
        SupportFailure::NotConfigured => "Configuration error: AI service unavailable"@,
        SupportFailure::TimedOut => "Support service timeout"@,
        SupportFailure::Unreachable => "Support service unavailable"@,
        SupportFailure::Refused => "Support service error"@,
        SupportFailure::Unreadable => "Response parsing error"@,
    }
}

/// The HTTP status and the message that a failure is answered with.
pub fn failure_answer(f: SupportFailure) -> (r: (u16, String))
    ensures
        r.0 == failure_status(f),
        r.1@ == failure_message(f),
{
    match f {
        SupportFailure::NotConfigured => (
            500,
            "Configuration error: AI service unavailable".to_owned(),
        ),
        SupportFailure::TimedOut => (504, "Support service timeout".to_owned()),
        SupportFailure::Unreachable => (502, "Support service unavailable".to_owned()),
        SupportFailure::Refused => (502, "Support service error".to_owned()),
        SupportFailure::Unreadable => (500, "Response parsing error".to_owned()),
    }
}

/// A reply hands the customer on exactly where, in small letters, it speaks of
/// escalating, a human agent, a supervisor or a manager; it is the first part
/// of what the model answered with.
pub proof fn law_handed_on_by_its_words(parts: Seq<String>, reply: Seq<char>, word: Seq<char>)
    ensures
        (word == "escalat"@ || word == "human agent"@ || word == "supervisor"@ || word
            == "manager"@) && text::occurs(text::lowercase(reply), word) ==> escalates(reply),
        escalates(reply) ==> text::occurs(text::lowercase(reply), "escalat"@) || text::occurs(
            text::lowercase(reply),
            "human agent"@,
        ) || text::occurs(text::lowercase(reply), "supervisor"@) || text::occurs(
            text::lowercase(reply),
            "manager"@,
        ),
        parts.len() > 0 ==> first_part(parts) == parts[0]@,
        parts.len() == 0 ==> first_part(parts).len() == 0,
{
}

} // verus!
