use text_intelligence::config::{
    bind_address, init_session_secret, load_api_key, load_config, startup_banner, Config,
};
use text_intelligence::reply::{
    error_response, handle_health, handle_metadata, handle_not_found, Body, MetadataSource, Reply,
};
use text_intelligence::text::{contains, is_blank, same_text, starts_with};

#[test]
fn config_defaults() {
    let c = load_config(None, None);
    assert_eq!(c, Config { port: "8081".to_string(), host: "0.0.0.0".to_string() });
}

#[test]
fn config_takes_set_values_as_they_are() {
    let c = load_config(Some("9000".to_string()), Some(String::new()));
    assert_eq!(c.port, "9000");
    assert_eq!(c.host, "");
}

#[test]
fn bind_address_joins_host_and_port() {
    let c = load_config(None, Some("127.0.0.1".to_string()));
    assert_eq!(bind_address(&c), "127.0.0.1:8081");
}

#[test]
fn api_key_must_be_set_and_not_empty() {
    assert_eq!(load_api_key(None), None);
    assert_eq!(load_api_key(Some(String::new())), None);
    assert_eq!(load_api_key(Some("k".to_string())), Some("k".to_string()));
}

#[test]
fn session_secret_from_environment() {
    assert_eq!(init_session_secret(Some("s3cr\u{e9}t".to_string())), "s3cr\u{e9}t".as_bytes().to_vec());
}

#[test]
fn session_secret_is_random_otherwise() {
    let a = init_session_secret(None);
    let b = init_session_secret(Some(String::new()));
    assert_eq!(a.len(), 32);
    assert_eq!(b.len(), 32);
    assert_ne!(a, b);
}

#[test]
fn banner_lines() {
    let lines = startup_banner("8081");
    let rule = "=".repeat(70);
    let expected = vec![
        String::new(),
        rule.clone(),
        "Backend API running at http://localhost:8081".to_string(),
        String::new(),
        "GET  /api/session".to_string(),
        "POST /api/text-intelligence (auth required)".to_string(),
        "GET  /api/metadata".to_string(),
        "GET  /health".to_string(),
        rule,
        String::new(),
    ];
    assert_eq!(lines, expected);
}

#[test]
fn health_reply() {
    assert_eq!(
        handle_health(),
        Reply {
            status: 200,
            body: Body::Status { status: "ok".to_string(), service: "text-intelligence".to_string() }
        }
    );
}

#[test]
fn not_found_reply() {
    assert_eq!(
        handle_not_found(),
        Reply {
            status: 404,
            body: Body::Notice { error: "Not Found".to_string(), message: "Endpoint not found".to_string() }
        }
    );
}

#[test]
fn error_response_has_details() {
    assert_eq!(
        error_response(400, "t", "c", "m"),
        Reply {
            status: 400,
            body: Body::Error {
                err_type: "t".to_string(),
                code: "c".to_string(),
                message: "m".to_string(),
                details: true
            }
        }
    );
}

#[test]
fn metadata_replies() {
    let r = handle_metadata(MetadataSource::Parsed { meta: Some("{\"title\":\"x\"}".to_string()) });
    assert_eq!(r, Reply { status: 200, body: Body::Json { document: "{\"title\":\"x\"}".to_string() } });
    let missing = handle_metadata(MetadataSource::Parsed { meta: None });
    assert_eq!(
        missing,
        Reply {
            status: 500,
            body: Body::Notice {
                error: "INTERNAL_SERVER_ERROR".to_string(),
                message: "Missing [meta] section in deepgram.toml".to_string()
            }
        }
    );
    let failed = Reply {
        status: 500,
        body: Body::Notice {
            error: "INTERNAL_SERVER_ERROR".to_string(),
            message: "Failed to read metadata from deepgram.toml".to_string(),
        },
    };
    assert_eq!(handle_metadata(MetadataSource::Unreadable), failed);
    assert_eq!(handle_metadata(MetadataSource::Unparsable), failed);
}

#[test]
fn text_helpers() {
    assert!(contains("abc ExpiredSignature x", "ExpiredSignature"));
    assert!(!contains("Expired", "ExpiredSignature"));
    assert!(contains("abc", ""));
    assert!(starts_with("Bearer x", "Bearer "));
    assert!(!starts_with("Bear", "Bearer "));
    assert!(same_text("v1", "v1"));
    assert!(!same_text("v1", "v10"));
    assert!(is_blank(""));
    assert!(is_blank(" \u{2028}\u{85}"));
    assert!(!is_blank("\u{200b}"));
}

#[test]
fn blank_agrees_with_char_is_whitespace() {
    for c in (0u32..=0x10FFFF).filter_map(char::from_u32) {
        assert_eq!(is_blank(&c.to_string()), c.is_whitespace(), "{:?}", c);
    }
}
