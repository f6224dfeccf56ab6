use tllama::handlers::chat::{chat_reply, chat_reply_at, plan_chat, speaker_of, Speaker};
use tllama::handlers::generate::{generate_reply, generate_reply_at, plan_generate};
use tllama::handlers::{duration_nanos, quoted_session_id};
use tllama::models::ollama::{ChatRequest, GenerateRequest, Message};

fn msg(role: &str, content: &str) -> Message {
    Message { role: role.to_string(), content: content.to_string(), images: None }
}

#[test]
fn chat_plan_replays_history_and_sends_last() {
    let req = ChatRequest {
        model: "gpt-4o".to_string(),
        messages: vec![
            msg("system", "be brief"),
            msg("user", "hi"),
            msg("assistant", "hello"),
            msg("user", "how are you?"),
        ],
    };
    let plan = plan_chat(&req);
    assert_eq!(plan.history.len(), 3);
    assert_eq!(plan.history[0].speaker, Speaker::User);
    assert_eq!(plan.history[0].content, "be brief");
    assert_eq!(plan.history[1].speaker, Speaker::User);
    assert_eq!(plan.history[2].speaker, Speaker::Assistant);
    assert_eq!(plan.history[2].content, "hello");
    assert_eq!(plan.last, "how are you?");
}

#[test]
fn chat_plan_single_message_has_no_history() {
    let req = ChatRequest { model: "m".to_string(), messages: vec![msg("assistant", "only")] };
    let plan = plan_chat(&req);
    assert!(plan.history.is_empty());
    assert_eq!(plan.last, "only");
}

#[test]
fn roles_map_to_speakers() {
    assert_eq!(speaker_of("assistant"), Speaker::Assistant);
    assert_eq!(speaker_of("user"), Speaker::User);
    assert_eq!(speaker_of("Assistant"), Speaker::User);
    assert_eq!(speaker_of(""), Speaker::User);
}

#[test]
fn chat_reply_fills_ollama_fields() {
    let r = chat_reply_at(
        "llama-3.3-70b",
        "why is the sky blue",
        Ok("Rayleigh  scattering\tof light".to_string()),
        1_500,
        "2025-11-21T10:00:00+00:00".to_string(),
    )
    .unwrap();
    assert_eq!(r.model, "llama-3.3-70b");
    assert_eq!(r.created_at, "2025-11-21T10:00:00+00:00");
    assert_eq!(r.message.role, "assistant");
    assert_eq!(r.message.content, "Rayleigh  scattering\tof light");
    assert!(r.message.images.is_none());
    assert!(r.done);
    assert_eq!(r.done_reason.as_deref(), Some("stop"));
    assert_eq!(r.total_duration, Some(1_500));
    assert_eq!(r.load_duration, Some(0));
    assert_eq!(r.prompt_eval_count, Some(5));
    assert_eq!(r.prompt_eval_duration, Some(0));
    assert_eq!(r.eval_count, Some(4));
    assert_eq!(r.eval_duration, Some(1_500));
}

#[test]
fn chat_reply_error_is_500() {
    let r = chat_reply("m", "p", Err("backend down".to_string()), 7);
    let e = r.err().unwrap();
    assert_eq!(e.status, 500);
    assert_eq!(e.error, "backend down");
}

#[test]
fn chat_reply_is_stamped_now() {
    let r = chat_reply("m", "p", Ok("a".to_string()), 7).unwrap();
    assert!(r.created_at.ends_with("+00:00"));
    assert!(r.created_at.len() >= 25);
}

#[test]
fn generate_reply_fills_ollama_fields() {
    let r = generate_reply_at(
        "gpt-4o",
        "  one two  ",
        Ok("three".to_string()),
        u128::from(u64::MAX) + 5,
        "t".to_string(),
    )
    .unwrap();
    assert_eq!(r.model, "gpt-4o");
    assert_eq!(r.response, "three");
    assert_eq!(r.context, Some(vec![]));
    assert_eq!(r.done_reason.as_deref(), Some("stop"));
    assert_eq!(r.prompt_eval_count, Some(2));
    assert_eq!(r.eval_count, Some(1));
    // Durations keep the low 64 bits, as `as u64` does.
    assert_eq!(r.total_duration, Some(4));
    assert_eq!(r.eval_duration, Some(4));
    let e = generate_reply("m", "p", Err("x".to_string()), 0).err().unwrap();
    assert_eq!(e.status, 500);
    assert_eq!(e.error, "x");
}

#[test]
fn generate_reply_is_stamped_now() {
    let r = generate_reply("m", "p", Ok(String::new()), 0).unwrap();
    assert!(r.created_at.ends_with("+00:00"));
    assert_eq!(r.eval_count, Some(0));
}

#[test]
fn durations_keep_low_bits() {
    assert_eq!(duration_nanos(12), 12);
    assert_eq!(duration_nanos(1u128 << 64), 0);
}

#[test]
fn session_id_is_quoted() {
    assert_eq!(quoted_session_id("abc"), "\"abc\"");
    assert_eq!(quoted_session_id(""), "\"\"");
}

/// The RFC 3339 form chrono writes for a UTC time in years 0 to 9999.
fn is_rfc3339_utc(s: &str) -> bool {
    let b = s.as_bytes();
    if b.len() < 25 || !s.ends_with("+00:00") {
        return false;
    }
    let digit = |i: usize| b[i].is_ascii_digit();
    let head = (0..4).all(digit)
        && b[4] == b'-'
        && (5..7).all(digit)
        && b[7] == b'-'
        && (8..10).all(digit)
        && b[10] == b'T'
        && (11..13).all(digit)
        && b[13] == b':'
        && (14..16).all(digit)
        && b[16] == b':'
        && (17..19).all(digit);
    let frac = &b[19..b.len() - 6];
    head && (frac.is_empty()
        || ([4, 7, 10].contains(&frac.len()) && frac[0] == b'.' && frac[1..].iter().all(u8::is_ascii_digit)))
}

#[test]
fn replies_are_stamped_in_rfc3339() {
    let c = chat_reply("m", "p", Ok("a".to_string()), 1).unwrap();
    assert!(is_rfc3339_utc(&c.created_at), "{}", c.created_at);
    let g = generate_reply("m", "p", Ok("a".to_string()), 1).unwrap();
    assert!(is_rfc3339_utc(&g.created_at), "{}", g.created_at);
    let m = tllama::handlers::models::create_model_info("x");
    assert!(is_rfc3339_utc(&m.modified_at), "{}", m.modified_at);
}

#[test]
fn generate_plan_is_a_single_turn() {
    let req = GenerateRequest { model: "gpt-4o".to_string(), prompt: "Why is the sky blue?".to_string() };
    let plan = plan_generate(&req);
    assert!(plan.history.is_empty());
    assert_eq!(plan.last, "Why is the sky blue?");
}
