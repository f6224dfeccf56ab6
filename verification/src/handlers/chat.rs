//! `POST /api/chat`: which messages go to the backend, and the reply built
//! from the backend's answer.

use vstd::prelude::*;
use crate::clock::{is_utc_rfc3339_shape, now_rfc3339};
use crate::handlers::{backend_error, duration_nanos, nanos_u64, ErrorReply};
use crate::models::ollama::{ChatRequest, ChatResponse, Message};
use crate::text::{count_words, text_eq, word_count, word_count_u32};

verus! {

/// Who wrote a message, in the backend's terms.
#[derive(Clone, Copy, Debug, PartialEq, Eq)]
pub enum Speaker {
    User,
    Assistant,
}

/// The backend speaker for an Ollama role: `assistant` stays the assistant,
/// every other role (`user`, `system`, anything else) is sent as the user.
pub open spec fn speaker_for_role(role: Seq<char>) -> Speaker {
    if role == "assistant"@ {
        Speaker::Assistant
    } else {
        Speaker::User
    }
}

/// One message of the conversation history handed to the backend.
#[derive(Clone, Debug)]
pub struct PlannedMessage {
    pub speaker: Speaker,
    pub content: String,
}

/// What the chat handler sends: the earlier messages, replayed in order as
/// history, and the content of the last message, sent by the user.
#[derive(Clone, Debug)]
pub struct ChatPlan {
    pub history: Vec<PlannedMessage>,
    pub last: String,
}

/// Maps an Ollama role to the backend speaker.
pub fn speaker_of(role: &str) -> (s: Speaker)
    ensures
        s == speaker_for_role(role@),
{
    if text_eq(role, "assistant") {
        Speaker::Assistant
    } else {
        Speaker::User
    }
}

/// Splits a conversation into the history replayed to the backend and the
/// message that is sent.  A request without messages is not answered.
pub fn plan_chat(req: &ChatRequest) -> (p: ChatPlan)
    requires
        req.messages.len() > 0,
    ensures
        p.history.len() == req.messages.len() - 1,
        forall|i: int|
            0 <= i < p.history.len() ==> {
                &&& (#[trigger] p.history[i]).speaker == speaker_for_role(req.messages[i].role@)
                &&& p.history[i].content@ == req.messages[i].content@
            },
        p.last@ == req.messages[req.messages.len() - 1].content@,
{
    let n: usize = req.messages.len() - 1;
    let mut history: Vec<PlannedMessage> = Vec::new();
    let mut i: usize = 0;
    while i < n
        invariant
            n == req.messages.len() - 1,
            i <= n,
            history.len() == i,
            forall|j: int|
                0 <= j < i ==> {
                    &&& (#[trigger] history[j]).speaker == speaker_for_role(req.messages[j].role@)
                    &&& history[j].content@ == req.messages[j].content@
                },
        decreases n - i,
    {
        let msg = &req.messages[i];
        let speaker = speaker_of(msg.role.as_str());
        history.push(PlannedMessage { speaker, content: msg.content.clone() });
        i = i + 1;
    }
    ChatPlan { history, last: req.messages[n].content.clone() }
}

/// Every field of a successful chat reply but its timestamp: the model, the
/// assistant message carrying the backend's answer, `done` with reason
/// `stop`, the elapsed time as total and evaluation duration, zero load and
/// prompt evaluation durations, and the word counts of the prompt and of the
/// answer as token counts.
pub open spec fn chat_response_matches(
    r: ChatResponse,
    model: Seq<char>,
    prompt: Seq<char>,
    answer: Seq<char>,
    elapsed_nanos: u128,
) -> bool {
    &&& r.model@ == model
    &&& r.message.role@ == "assistant"@
    &&& r.message.content@ == answer
    &&& r.message.images is None
    &&& r.done
    &&& r.done_reason matches Some(reason) && reason@ == "stop"@
    &&& r.total_duration == Some(nanos_u64(elapsed_nanos))
    &&& r.load_duration == Some(0u64)
    &&& r.prompt_eval_count == Some(word_count_u32(prompt))
    &&& r.prompt_eval_duration == Some(0u64)
    &&& r.eval_count == Some(word_count_u32(answer))
    &&& r.eval_duration == Some(nanos_u64(elapsed_nanos))
}

/// The reply to a chat request, given the backend's outcome and the time at
/// which it is answered: the answer becomes an assistant message; a failure
/// becomes a 500 reply carrying its message.
pub fn chat_reply_at(
    model: &str,
    prompt: &str,
    outcome: Result<String, String>,
    elapsed_nanos: u128,
    created_at: String,
) -> (r: Result<ChatResponse, ErrorReply>)
    ensures
        outcome matches Ok(answer) ==> r matches Ok(resp) && chat_response_matches(
            resp,
            model@,
            prompt@,
            answer@,
            elapsed_nanos,
        ) && resp.created_at == created_at && resp.done && resp.done_reason is Some
            && resp.done_reason->0@ == "stop"@,
        outcome matches Err(e) ==> r matches Err(err) && err.status == 500 && err.error@ == e@,
{
    match outcome {
        Ok(answer) => {
            let nanos: u64 = duration_nanos(elapsed_nanos);
            let prompt_count: u32 = count_words(prompt);
            let answer_count: u32 = count_words(answer.as_str());
            Ok(
                ChatResponse {
                    model: String::from_str(model),
                    created_at,
                    message: Message {
                        role: String::from_str("assistant"),
                        content: answer,
                        images: None,
                    },
                    done: true,
                    done_reason: Some(String::from_str("stop")),
                    total_duration: Some(nanos),
                    load_duration: Some(0),
                    prompt_eval_count: Some(prompt_count),
                    prompt_eval_duration: Some(0),
                    eval_count: Some(answer_count),
                    eval_duration: Some(nanos),
                },
            )
        },
        Err(e) => Err(backend_error(e)),
    }
}

/// The reply to a chat request, stamped with the current UTC time when the
/// backend answered.
pub fn chat_reply(model: &str, prompt: &str, outcome: Result<String, String>, elapsed_nanos: u128) -> (r:
    Result<ChatResponse, ErrorReply>)
    ensures
        outcome matches Ok(answer) ==> r matches Ok(resp) && chat_response_matches(
            resp,
            model@,
            prompt@,
            answer@,
            elapsed_nanos,
        ) && is_utc_rfc3339_shape(resp.created_at@) && resp.done && resp.done_reason is Some
            && resp.done_reason->0@ == "stop"@,
        outcome matches Err(e) ==> r matches Err(err) && err.status == 500 && err.error@ == e@,
{
    match outcome {
        Ok(answer) => {
            let created_at = now_rfc3339();
            chat_reply_at(model, prompt, Ok(answer), elapsed_nanos, created_at)
        },
        Err(e) => chat_reply_at(model, prompt, Err(e), elapsed_nanos, String::new()),
    }
}

/// A successful chat reply is one complete, non-streamed assistant message:
/// `done` with reason `stop`, the backend's answer as the content of an
/// assistant message without images, the same elapsed time as total and
/// evaluation duration, no load or prompt evaluation time, and the last
/// message's and the answer's word counts as token counts.
pub proof fn lemma_chat_reply_is_complete(
    r: ChatResponse,
    model: Seq<char>,
    prompt: Seq<char>,
    answer: Seq<char>,
    elapsed_nanos: u128,
)
    requires
        chat_response_matches(r, model, prompt, answer, elapsed_nanos),
    ensures
        r.done,
        r.done_reason is Some && r.done_reason->0@ == "stop"@,
        r.model@ == model,
        r.message.role@ == "assistant"@,
        r.message.content@ == answer,
        r.message.images is None,
        r.total_duration == r.eval_duration,
        r.total_duration == Some((elapsed_nanos % 0x1_0000_0000_0000_0000) as u64),
        r.load_duration == Some(0u64),
        r.prompt_eval_duration == Some(0u64),
        r.prompt_eval_count == Some((word_count(prompt) % 0x1_0000_0000) as u32),
        r.eval_count == Some((word_count(answer) % 0x1_0000_0000) as u32),
{
}

} // verus!
