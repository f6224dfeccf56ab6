use tllama::config::{Config, ConfigError};
use tllama::text::{count_words, decimal_string, join2, join3, parse_u16_decimal, text_eq};

#[test]
fn words_are_counted_like_split_whitespace() {
    for s in ["", "   ", "a", " a ", "a b", "a\u{3000}b\u{2028}c", "tab\tand\nnewline", "x\u{85}y"] {
        assert_eq!(count_words(s) as usize, s.split_whitespace().count(), "{s:?}");
    }
    assert_eq!(count_words("why is the sky blue?"), 5);
}

#[test]
fn decimal_spelling() {
    assert_eq!(decimal_string(0), "0");
    assert_eq!(decimal_string(7), "7");
    assert_eq!(decimal_string(10), "10");
    assert_eq!(decimal_string(u64::MAX), u64::MAX.to_string());
}

#[test]
fn ports_parse_like_std() {
    for s in ["0", "80", "+80", "0080", "65535", "65536", "", "+", "-1", "8 0", " 80", "80 ", "++1", "99999999999"] {
        assert_eq!(parse_u16_decimal(s), s.parse::<u16>().ok(), "{s:?}");
    }
}

#[test]
fn decimal_spelling_parses_back() {
    for n in [0u16, 1, 9, 10, 11434, 65535] {
        assert_eq!(parse_u16_decimal(&decimal_string(n as u64)), Some(n));
    }
}

#[test]
fn config_defaults_port_to_ollama() {
    let c = Config::from_env(None, Some("c=1".to_string()), Some("sid".to_string())).unwrap();
    assert_eq!(c.port, 11434);
    assert_eq!(c.cookies, "c=1");
    assert_eq!(c.convex_session_id, "sid");
}

#[test]
fn config_reads_port() {
    let c = Config::from_env(Some("3000".to_string()), Some("k".to_string()), Some("s".to_string()))
        .unwrap();
    assert_eq!(c.port, 3000);
}

#[test]
fn config_errors_in_order() {
    let e = Config::from_env(Some("http".to_string()), None, None).err().unwrap();
    assert_eq!(e, ConfigError::InvalidPort);
    assert_eq!(e.message(), "Invalid PORT");
    let e = Config::from_env(None, None, None).err().unwrap();
    assert_eq!(e, ConfigError::MissingCookies);
    assert_eq!(e.message(), "T3_COOKIES environment variable required");
    let e = Config::from_env(None, Some("k".to_string()), None).err().unwrap();
    assert_eq!(e, ConfigError::MissingSessionId);
    assert_eq!(e.message(), "T3_CONVEX_SESSION_ID environment variable required");
}

#[test]
fn text_helpers() {
    assert!(text_eq("assistant", "assistant"));
    assert!(!text_eq("assistant", "assistan"));
    assert!(!text_eq("ab", "ba"));
    assert_eq!(join2("a", "bc"), "abc");
    assert_eq!(join3("a", "", "c"), "ac");
}
