use tllama::config::Config;
use tllama::handlers::models::{
    copy_model, create_model_info, delete_model, fetch_log_record, list_models_reply,
    list_running, model_info_at, pull_model, show_model,
};

fn is_uuid_v4(s: &str) -> bool {
    let chars: Vec<char> = s.chars().collect();
    if chars.len() != 36 {
        return false;
    }
    for (i, c) in chars.iter().enumerate() {
        if i == 8 || i == 13 || i == 18 || i == 23 {
            if *c != '-' {
                return false;
            }
        } else if !(c.is_ascii_digit() || ('a'..='f').contains(c)) {
            return false;
        }
    }
    chars[14] == '4' && "89ab".contains(chars[19])
}

#[test]
fn test_list_models_empty_on_error() {
    let config = Config {
        port: 3000,
        cookies: "invalid".to_string(),
        convex_session_id: "invalid".to_string(),
    };
    // The backend refuses the invalid credentials.
    let fetched: Result<usize, String> =
        Err(format!("unauthorized session {}", config.convex_session_id));
    let (list, log) = list_models_reply(&fetched);
    assert!(!list.models.is_empty());
    assert_eq!(log.level, "error");
}

#[test]
fn list_models_names_the_listed_models() {
    let (list, log) = list_models_reply(&Ok(42));
    let names: Vec<&str> = list.models.iter().map(|m| m.name.as_str()).collect();
    assert_eq!(names, vec!["gemini:latest", "codellama:latest"]);
    assert_eq!(log.level, "status");
    assert_eq!(log.message, "Successfully fetched 42 models from t3.chat");
    for m in &list.models {
        assert_eq!(m.size, 0);
        assert!(m.digest.starts_with("sha256:"));
        assert!(is_uuid_v4(&m.digest["sha256:".len()..]));
        assert!(m.modified_at.ends_with("+00:00"));
        assert_eq!(m.details.format, "t3chat");
        assert_eq!(m.details.family, "t3");
        assert_eq!(m.details.families, vec!["t3".to_string()]);
        assert_eq!(m.details.parameter_size, "cloud");
        assert_eq!(m.details.quantization_level, "cloud");
    }
}

#[test]
fn fetch_log_records_failure_reason() {
    let log = fetch_log_record(&Err("connection refused".to_string()));
    assert_eq!(log.level, "error");
    assert_eq!(log.message, "Failed to fetch models from t3.chat: connection refused");
    let log = fetch_log_record(&Ok(0));
    assert_eq!(log.message, "Successfully fetched 0 models from t3.chat");
    let log = fetch_log_record(&Ok(1234567));
    assert_eq!(log.message, "Successfully fetched 1234567 models from t3.chat");
}

#[test]
fn model_info_at_builds_the_entry() {
    let m = model_info_at(
        "llama-3.3-70b",
        "2025-01-02T03:04:05+00:00".to_string(),
        "0f8e2d6a-1b2c-4d3e-8f90-a1b2c3d4e5f6",
    );
    assert_eq!(m.name, "llama-3.3-70b");
    assert_eq!(m.modified_at, "2025-01-02T03:04:05+00:00");
    assert_eq!(m.digest, "sha256:0f8e2d6a-1b2c-4d3e-8f90-a1b2c3d4e5f6");
    assert_eq!(m.size, 0);
}

#[test]
fn created_model_infos_get_fresh_digests() {
    let a = create_model_info("gpt-4o");
    let b = create_model_info("gpt-4o");
    assert_eq!(a.name, "gpt-4o");
    assert!(is_uuid_v4(&a.digest[7..]));
    assert_ne!(a.digest, b.digest);
}

#[test]
fn unsupported_model_endpoints() {
    assert!(list_running().models.is_empty());
    for r in [show_model(), copy_model(), delete_model()] {
        assert_eq!(r.status, 501);
        assert_eq!(r.body, "Not implemented");
    }
    let r = pull_model();
    assert_eq!(r.status, 200);
    assert_eq!(r.body, "success");
}
