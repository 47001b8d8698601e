//! The shape of an OpenAI chat-completion response and the extraction
//! of its generated text.

use vstd::prelude::*;

verus! {

/// One generated message.
pub struct Message {
    pub role: String,
    pub content: String,
}

/// One completion choice; the generated text sits in its message.
pub struct Choice {
    pub index: u32,
    pub message: Message,
    pub finish_reason: String,
}

/// Token accounting reported with a completion.
pub struct Usage {
    pub prompt_tokens: u32,
    pub completion_tokens: u32,
    pub total_tokens: u32,
}

/// A whole chat-completion response.
pub struct ChatGptResponse {
    pub id: String,
    pub object: String,
    pub created: u64,
    pub model: String,
    pub choices: Vec<Choice>,
    pub usage: Usage,
}

/// A bare list of choices, as some endpoints answer.
pub struct GptResponse {
    pub data: Vec<Choice>,
}

/// The generated text of a response: the first choice's message
/// content, or nothing where the response carries no choice at all
/// (a malformed reply, surfaced as a generation failure rather than a
/// panic).
pub fn extract_text(resp: &ChatGptResponse) -> (r: Option<String>)
    ensures
        resp.choices@.len() > 0 ==> (r matches Some(t) && t@
            == resp.choices@[0].message.content@),
        resp.choices@.len() == 0 ==> r is None,
{
    if resp.choices.len() > 0 {
        Some(resp.choices[0].message.content.clone())
    } else {
        None
    }
}

} // verus!
