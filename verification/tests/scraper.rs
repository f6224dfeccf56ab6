use tllama::routes::{docs_mount, routes, Endpoint, Method};
use tllama::t3_scraper::{
    chunk_urls_from_homepage, fallback_models, model_in_chunk, models_or_fallback, parse_chunk,
    FetchStep, ModelFetch, ScrapeError, KNOWN_CHUNK_URL,
};

fn catalogue(n: usize) -> String {
    let ids: Vec<String> = (0..n).map(|i| format!("\"model-{i}\"")).collect();
    let mut js = format!("var a=1;let q = [{}];", ids.join(", "));
    for i in 0..n {
        js.push_str(&format!(
            "\"model-{i}\": {{id: \"model-{i}\", name: \"Model {i}\", provider: \"p{i}\", developer: \"d{i}\", shortDescription: \"short {i}\", fullDescription: \"full {i}\"}},"
        ));
    }
    js
}

#[test]
fn chunk_models_are_read() {
    let js = r#"let m = ["gpt-4o", "odd.one"]; "gpt-4o": {id: "gpt-4o", name: "GPT 4o", provider: "openai", developer: "OpenAI", shortDescription: "fast"}"#;
    let models = parse_chunk(js).unwrap();
    assert_eq!(models.len(), 2);
    assert_eq!(models[0].id, "gpt-4o");
    assert_eq!(models[0].name, "GPT 4o");
    assert_eq!(models[0].provider, "openai");
    assert_eq!(models[0].developer, "OpenAI");
    assert_eq!(models[0].short_description, "fast");
    assert_eq!(models[0].full_description, "");
    // No definition for "odd.one": the placeholder, with the dot escaped in the pattern.
    assert_eq!(models[1].id, "odd.one");
    assert_eq!(models[1].name, "ODD.ONE");
    assert_eq!(models[1].provider, "Unknown");
    assert_eq!(models[1].developer, "Unknown");
    assert_eq!(models[1].short_description, "odd.one model");
    assert!(!models[1].requires_pro && !models[1].premium);
}

#[test]
fn chunk_without_list_has_no_models() {
    assert!(parse_chunk("console.log(1)").unwrap().is_empty());
}

#[test]
fn model_ids_match_literally() {
    // "a.c" must not match the definition of "abc".
    let js = r#""abc": {id: "abc", name: "ABC", provider: "x", developer: "y", shortDescription: "z"}"#;
    let m = model_in_chunk(js, "a.c");
    assert_eq!(m.name, "A.C");
    assert_eq!(m.provider, "Unknown");
    let m = model_in_chunk(js, "abc");
    assert_eq!(m.name, "ABC");
}

#[test]
fn homepage_chunk_urls() {
    let html = r#"<html><script async src="/_next/static/chunks/ab12.js?v=1"></script><script defer src="/_next/static/chunks/ff.js"></script></html>"#;
    let urls = chunk_urls_from_homepage(html).unwrap();
    assert_eq!(
        urls,
        vec![
            "https://t3.chat/_next/static/chunks/ab12.js?v=1".to_string(),
            "https://t3.chat/_next/static/chunks/ff.js".to_string()
        ]
    );
    assert!(matches!(chunk_urls_from_homepage("<html></html>"), Err(ScrapeError::NoChunkUrls)));
}

#[test]
fn fetch_keeps_known_chunk_with_catalogue() {
    let (mut fetch, step) = ModelFetch::start();
    match step {
        FetchStep::FetchChunk(url) => assert_eq!(url, KNOWN_CHUNK_URL),
        other => panic!("unexpected {other:?}"),
    }
    match fetch.step(Ok(catalogue(11))) {
        FetchStep::Finished(Ok(models)) => {
            assert_eq!(models.len(), 11);
            assert_eq!(models[3].name, "Model 3");
            assert_eq!(models[3].full_description, "full 3");
        }
        other => panic!("unexpected {other:?}"),
    }
    assert!(fetch.is_done());
}

#[test]
fn fetch_falls_back_to_homepage_chunks() {
    let (mut fetch, _) = ModelFetch::start();
    // Ten models are not enough.
    assert!(matches!(fetch.step(Ok(catalogue(10))), FetchStep::FetchHomepage));
    let html = r#"<script src="/_next/static/chunks/aa.js"></script><script src="/_next/static/chunks/bb.js"></script>"#;
    match fetch.step(Ok(html.to_string())) {
        FetchStep::FetchChunk(url) => assert_eq!(url, "https://t3.chat/_next/static/chunks/aa.js"),
        other => panic!("unexpected {other:?}"),
    }
    match fetch.step(Err("timeout".to_string())) {
        FetchStep::FetchChunk(url) => assert_eq!(url, "https://t3.chat/_next/static/chunks/bb.js"),
        other => panic!("unexpected {other:?}"),
    }
    match fetch.step(Ok(catalogue(12))) {
        FetchStep::Finished(Ok(models)) => assert_eq!(models.len(), 12),
        other => panic!("unexpected {other:?}"),
    }
}

#[test]
fn fetch_gives_up_after_last_chunk() {
    let (mut fetch, _) = ModelFetch::start();
    assert!(matches!(fetch.step(Err("dns".to_string())), FetchStep::FetchHomepage));
    let html = r#"<script src="/_next/static/chunks/aa.js"></script>"#;
    assert!(matches!(fetch.step(Ok(html.to_string())), FetchStep::FetchChunk(_)));
    let step = fetch.step(Ok("nothing".to_string()));
    assert!(matches!(step, FetchStep::Finished(Err(ScrapeError::NoModelDefinitions))));
    assert!(fetch.is_done());
    if let FetchStep::Finished(r) = step {
        let models = models_or_fallback(r);
        assert_eq!(models.len(), 1);
        assert_eq!(models[0].id, "gemini-2.5-flash");
    }
}

#[test]
fn fetch_fails_on_homepage_errors() {
    let (mut fetch, _) = ModelFetch::start();
    fetch.step(Ok(String::new()));
    match fetch.step(Err("503".to_string())) {
        FetchStep::Finished(Err(ScrapeError::Http(m))) => assert_eq!(m, "503"),
        other => panic!("unexpected {other:?}"),
    }
    let (mut fetch, _) = ModelFetch::start();
    fetch.step(Ok(String::new()));
    assert!(matches!(
        fetch.step(Ok("<html/>".to_string())),
        FetchStep::Finished(Err(ScrapeError::NoChunkUrls))
    ));
}

#[test]
fn fallback_catalogue_is_gemini_flash() {
    let models = fallback_models();
    assert_eq!(models.len(), 1);
    assert_eq!(models[0].name, "gemini-2.5-flash");
    assert_eq!(models[0].provider, "Google");
    assert_eq!(models[0].developer, "Google");
    assert_eq!(models[0].short_description, "Google's state of the art fast model");
    let kept = models_or_fallback(Ok(vec![]));
    assert!(kept.is_empty());
}

#[test]
fn route_table_covers_ollama_api() {
    let table = routes();
    assert_eq!(table.len(), 10);
    assert!(table.iter().any(|r| r.path == "/api/tags" && r.method == Method::Get && r.endpoint == Endpoint::ListModels));
    assert!(table.iter().any(|r| r.path == "/api/delete" && r.method == Method::Delete));
    let mut paths: Vec<&str> = table.iter().map(|r| r.path).collect();
    paths.sort();
    paths.dedup();
    assert_eq!(paths.len(), 10);
    assert_eq!(docs_mount(), ("/docs", "target/doc"));
}
