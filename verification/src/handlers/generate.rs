//! `POST /api/generate`: the reply built from the backend's answer to a
//! single prompt.

use vstd::prelude::*;
use crate::clock::{is_utc_rfc3339_shape, now_rfc3339};
use crate::handlers::{backend_error, duration_nanos, nanos_u64, ErrorReply};
use crate::handlers::chat::ChatPlan;
use crate::models::ollama::{GenerateRequest, GenerateResponse};
use crate::text::{count_words, word_count, word_count_u32};

verus! {

/// What the generate handler sends: no history, since a generation is a
/// single turn, and the prompt, sent by the user.
pub fn plan_generate(req: &GenerateRequest) -> (p: ChatPlan)
    ensures
        p.history.len() == 0,
        p.last@ == req.prompt@,
{
    ChatPlan { history: Vec::new(), last: req.prompt.clone() }
}

/// Every field of a successful generate reply but its timestamp: the model,
/// the backend's answer, `done` with reason `stop`, an empty context, the
/// elapsed time as total and evaluation duration, zero load and prompt
/// evaluation durations, and the word counts of prompt and answer.
pub open spec fn generate_response_matches(
    r: GenerateResponse,
    model: Seq<char>,
    prompt: Seq<char>,
    answer: Seq<char>,
    elapsed_nanos: u128,
) -> bool {
    &&& r.model@ == model
    &&& r.response@ == answer
    &&& r.done
    &&& r.done_reason matches Some(reason) && reason@ == "stop"@
    &&& r.context matches Some(ctx) && ctx@.len() == 0
    &&& r.total_duration == Some(nanos_u64(elapsed_nanos))
    &&& r.load_duration == Some(0u64)
    &&& r.prompt_eval_count == Some(word_count_u32(prompt))
    &&& r.prompt_eval_duration == Some(0u64)
    &&& r.eval_count == Some(word_count_u32(answer))
    &&& r.eval_duration == Some(nanos_u64(elapsed_nanos))
}

/// The reply to a generate request, given the backend's outcome and the time
/// at which it is answered; a failure becomes a 500 reply with its message.
pub fn generate_reply_at(
    model: &str,
    prompt: &str,
    outcome: Result<String, String>,
    elapsed_nanos: u128,
    created_at: String,
) -> (r: Result<GenerateResponse, ErrorReply>)
    ensures
        outcome matches Ok(answer) ==> r matches Ok(resp) && generate_response_matches(
            resp,
            model@,
            prompt@,
            answer@,
            elapsed_nanos,
        ) && resp.created_at == created_at && resp.done && resp.done_reason is Some
            && resp.done_reason->0@ == "stop"@,
        outcome matches Err(e) ==> r matches Err(err) && err.status == 500 && err.error@ == e@,
{
    match outcome {
        Ok(answer) => {
            let nanos: u64 = duration_nanos(elapsed_nanos);
            let prompt_count: u32 = count_words(prompt);
            let answer_count: u32 = count_words(answer.as_str());
            Ok(
                GenerateResponse {
                    model: String::from_str(model),
                    created_at,
                    response: answer,
                    done: true,
                    done_reason: Some(String::from_str("stop")),
                    context: Some(Vec::new()),
                    total_duration: Some(nanos),
                    load_duration: Some(0),
                    prompt_eval_count: Some(prompt_count),
                    prompt_eval_duration: Some(0),
                    eval_count: Some(answer_count),
                    eval_duration: Some(nanos),
                },
            )
        },
        Err(e) => Err(backend_error(e)),
    }
}

/// The reply to a generate request, stamped with the current UTC time when
/// the backend answered.
pub fn generate_reply(
    model: &str,
    prompt: &str,
    outcome: Result<String, String>,
    elapsed_nanos: u128,
) -> (r: Result<GenerateResponse, ErrorReply>)
    ensures
        outcome matches Ok(answer) ==> r matches Ok(resp) && generate_response_matches(
            resp,
            model@,
            prompt@,
            answer@,
            elapsed_nanos,
        ) && is_utc_rfc3339_shape(resp.created_at@) && resp.done && resp.done_reason is Some
            && resp.done_reason->0@ == "stop"@,
        outcome matches Err(e) ==> r matches Err(err) && err.status == 500 && err.error@ == e@,
{
    match outcome {
        Ok(answer) => {
            let created_at = now_rfc3339();
            generate_reply_at(model, prompt, Ok(answer), elapsed_nanos, created_at)
        },
        Err(e) => generate_reply_at(model, prompt, Err(e), elapsed_nanos, String::new()),
    }
}

/// A successful generate reply is one complete, non-streamed answer: `done`
/// with reason `stop`, the backend's answer as the response, no context, the
/// same elapsed time as total and evaluation duration, no load or prompt
/// evaluation time, and the prompt's and the answer's word counts as token
/// counts.
pub proof fn lemma_generate_reply_is_complete(
    r: GenerateResponse,
    model: Seq<char>,
    prompt: Seq<char>,
    answer: Seq<char>,
    elapsed_nanos: u128,
)
    requires
        generate_response_matches(r, model, prompt, answer, elapsed_nanos),
    ensures
        r.done,
        r.done_reason is Some && r.done_reason->0@ == "stop"@,
        r.model@ == model,
        r.response@ == answer,
        r.context is Some && r.context->0@.len() == 0,
        r.total_duration == r.eval_duration,
        r.total_duration == Some((elapsed_nanos % 0x1_0000_0000_0000_0000) as u64),
        r.load_duration == Some(0u64),
        r.prompt_eval_duration == Some(0u64),
        r.prompt_eval_count == Some((word_count(prompt) % 0x1_0000_0000) as u32),
        r.eval_count == Some((word_count(answer) % 0x1_0000_0000) as u32),
{
}

} // verus!
