use tllama::handlers::health::{root, version};

#[test]
fn test_root_health_check() {
    let response = root();
    assert_eq!(response.status, 200);
    assert_eq!(response.body, "Ollama is running (TLlama replication layer)");
}

#[test]
fn version_reports_0_1_0() {
    let response = version();
    assert_eq!(response.status, 200);
    assert_eq!(response.body, "0.1.0");
}
