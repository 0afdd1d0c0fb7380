use text_intelligence::analysis::{
    analyze_text, begin_analysis, continue_after_fetch, deepgram_read_url, finish_analysis,
    handle_text_intelligence, results_reply, url_step, AnalysisEvent, FeatureParams, FetchEvent, Step, TextRequest,
};
use text_intelligence::reply::{Body, Reply};
use text_intelligence::session::create_jwt;

const SECRET: &[u8] = b"analysis-test-secret";
const KEY: &str = "dg-key";
const BASE: &str = "https://api.deepgram.com/v1/read?language=";

fn params() -> FeatureParams {
    FeatureParams { summarize: None, topics: None, sentiment: None, intents: None, language: None }
}

fn request(text: Option<&str>, url: Option<&str>) -> TextRequest {
    TextRequest { text: text.map(|s| s.to_string()), url: url.map(|s| s.to_string()) }
}

fn reply_of(step: Step) -> Reply {
    match step {
        Step::Reply(r) => r,
        other => panic!("not a reply: {:?}", other),
    }
}

fn error_of(reply: &Reply) -> (u16, &str, &str, &str) {
    match &reply.body {
        Body::Error { err_type, code, message, details } => {
            assert!(*details);
            (reply.status, err_type.as_str(), code.as_str(), message.as_str())
        }
        other => panic!("not an error body: {:?}", other),
    }
}

#[test]
fn read_url_with_defaults() {
    assert_eq!(deepgram_read_url("en", "", "", "", ""), format!("{}en", BASE));
}

#[test]
fn read_url_with_every_feature() {
    assert_eq!(
        deepgram_read_url("en", "true", "true", "true", "true"),
        format!("{}en&summarize=v2&topics=true&sentiment=true&intents=true", BASE)
    );
    assert_eq!(deepgram_read_url("en", "v2", "", "", ""), format!("{}en&summarize=v2", BASE));
}

#[test]
fn read_url_ignores_other_flag_values() {
    assert_eq!(
        deepgram_read_url("en", "yes", "TRUE", "1", "false"),
        format!("{}en", BASE)
    );
}

#[test]
fn read_url_percent_encodes_language() {
    assert_eq!(deepgram_read_url("zh CN", "", "", "", ""), format!("{}zh%20CN", BASE));
    assert_eq!(deepgram_read_url("en&topics=true", "", "", "", ""), format!("{}en%26topics%3Dtrue", BASE));
    assert_eq!(deepgram_read_url("é", "", "", "", ""), format!("{}%C3%A9", BASE));
    assert_eq!(deepgram_read_url("a-b_c.d~", "", "", "", ""), format!("{}a-b_c.d~", BASE));
}

#[test]
fn analyze_builds_the_deepgram_call() {
    let mut p = params();
    p.language = Some("es".to_string());
    p.topics = Some("true".to_string());
    match analyze_text("hola mundo".to_string(), &p, KEY) {
        Step::Analyze { url, authorization, text, timeout_secs } => {
            assert_eq!(url, format!("{}es&topics=true", BASE));
            assert_eq!(authorization, "Token dg-key");
            assert_eq!(text, "hola mundo");
            assert_eq!(timeout_secs, 30);
        }
        other => panic!("unexpected step {:?}", other),
    }
}

#[test]
fn blank_text_is_refused() {
    for t in ["", "   ", "\t\n\r", "\u{a0}\u{3000}"] {
        let r = reply_of(analyze_text(t.to_string(), &params(), KEY));
        assert_eq!(
            error_of(&r),
            (400, "validation_error", "EMPTY_TEXT", "Text content cannot be empty")
        );
    }
}

#[test]
fn text_with_one_visible_char_is_not_blank() {
    assert!(matches!(analyze_text("  x ".to_string(), &params(), KEY), Step::Analyze { .. }));
}

#[test]
fn summarize_v1_is_refused() {
    let mut p = params();
    p.summarize = Some("v1".to_string());
    let r = reply_of(analyze_text("hello".to_string(), &p, KEY));
    assert_eq!(
        error_of(&r),
        (
            400,
            "validation_error",
            "INVALID_TEXT",
            "Summarization v1 is no longer supported. Please use v2 or true."
        )
    );
}

#[test]
fn neither_text_nor_url_is_refused() {
    let r = reply_of(begin_analysis(None, &request(None, None), &params(), KEY));
    assert_eq!(
        error_of(&r),
        (400, "validation_error", "INVALID_TEXT", "Request must contain either 'text' or 'url' field")
    );
    let r = reply_of(begin_analysis(None, &request(Some(""), Some("")), &params(), KEY));
    assert_eq!(error_of(&r).3, "Request must contain either 'text' or 'url' field");
}

#[test]
fn both_text_and_url_are_refused() {
    let r = reply_of(begin_analysis(
        None,
        &request(Some("hi"), Some("https://example.com")),
        &params(),
        KEY,
    ));
    assert_eq!(
        error_of(&r),
        (400, "validation_error", "INVALID_TEXT", "Request must contain either 'text' or 'url', not both")
    );
}

#[test]
fn invalid_url_is_refused() {
    let r = reply_of(begin_analysis(None, &request(None, Some("not a url")), &params(), KEY));
    assert_eq!(error_of(&r), (400, "validation_error", "INVALID_URL", "Invalid URL format"));
}

#[test]
fn valid_url_is_fetched() {
    let step = begin_analysis(None, &request(Some(""), Some("https://example.com/a.txt")), &params(), KEY);
    assert_eq!(step, Step::Fetch { url: "https://example.com/a.txt".to_string() });
}

#[test]
fn text_goes_to_analysis() {
    let step = begin_analysis(None, &request(Some("some text"), None), &params(), KEY);
    assert!(matches!(step, Step::Analyze { .. }));
}

#[test]
fn refusal_is_passed_on() {
    let refusal = Reply {
        status: 401,
        body: Body::Notice { error: "x".to_string(), message: "y".to_string() },
    };
    let step = begin_analysis(Some(refusal.clone()), &request(Some("t"), None), &params(), KEY);
    assert_eq!(step, Step::Reply(refusal));
}

#[test]
fn request_without_token_is_refused_before_anything_else() {
    let step = handle_text_intelligence("", SECRET, KEY, &request(Some("t"), None), &params());
    let r = reply_of(step);
    assert_eq!(r.status, 401);
}

#[test]
fn request_with_token_is_analysed() {
    let token = create_jwt(SECRET).unwrap();
    let header = format!("Bearer {}", token);
    let step = handle_text_intelligence(&header, SECRET, KEY, &request(Some("t"), None), &params());
    assert!(matches!(step, Step::Analyze { .. }));
}

#[test]
fn fetch_failures_are_reported() {
    let r = reply_of(continue_after_fetch(FetchEvent::SendFailed("dns".to_string()), &params(), KEY));
    assert_eq!(error_of(&r), (400, "validation_error", "INVALID_URL", "Failed to fetch URL: dns"));
    let r = reply_of(continue_after_fetch(
        FetchEvent::Status { code: 404, text: "404 Not Found".to_string() },
        &params(),
        KEY,
    ));
    assert_eq!(error_of(&r).3, "Failed to fetch URL: 404 Not Found");
    let r = reply_of(continue_after_fetch(FetchEvent::ReadFailed("eof".to_string()), &params(), KEY));
    assert_eq!(error_of(&r).3, "Failed to read URL content: eof");
}

#[test]
fn fetch_success_reads_and_analyses() {
    for code in [200u16, 204, 299] {
        let step = continue_after_fetch(FetchEvent::Status { code, text: String::new() }, &params(), KEY);
        assert_eq!(step, Step::ReadFetched);
    }
    let step = continue_after_fetch(FetchEvent::Status { code: 300, text: "300".to_string() }, &params(), KEY);
    assert!(matches!(step, Step::Reply(_)));
    let step = continue_after_fetch(FetchEvent::Body("page text".to_string()), &params(), KEY);
    assert!(matches!(step, Step::Analyze { .. }));
    let step = continue_after_fetch(FetchEvent::Body("  ".to_string()), &params(), KEY);
    assert_eq!(error_of(&reply_of(step)).2, "EMPTY_TEXT");
}

#[test]
fn deepgram_results_are_returned() {
    let r = finish_analysis(AnalysisEvent::Received {
        status: 200,
        body: "{\"metadata\":{},\"results\":{\"summary\":{\"text\":\"hi\"}}}".to_string(),
    });
    assert_eq!(r.status, 200);
    assert_eq!(r.body, Body::Results { results: "{\"summary\":{\"text\":\"hi\"}}".to_string() });
}

#[test]
fn deepgram_without_results_gives_empty_object() {
    let r = finish_analysis(AnalysisEvent::Received { status: 200, body: "{\"a\":1}".to_string() });
    assert_eq!(r.body, Body::Results { results: "{}".to_string() });
    let r = finish_analysis(AnalysisEvent::Received { status: 201, body: "[1,2]".to_string() });
    assert_eq!(r.body, Body::Results { results: "{}".to_string() });
}

#[test]
fn deepgram_failures_are_reported() {
    let r = finish_analysis(AnalysisEvent::SendFailed("timeout".to_string()));
    assert_eq!(error_of(&r), (400, "processing_error", "INVALID_TEXT", "Failed to process text: timeout"));
    let r = finish_analysis(AnalysisEvent::ReadFailed);
    assert_eq!(error_of(&r), (500, "processing_error", "INVALID_TEXT", "Failed to read Deepgram response"));
    let r = finish_analysis(AnalysisEvent::Received { status: 401, body: "{}".to_string() });
    assert_eq!(error_of(&r), (400, "processing_error", "INVALID_TEXT", "Failed to process text"));
    let r = finish_analysis(AnalysisEvent::Received { status: 200, body: "not json".to_string() });
    assert_eq!(error_of(&r), (500, "processing_error", "INVALID_TEXT", "Failed to parse Deepgram response"));
}

#[test]
fn url_step_for_each_parse_outcome() {
    let url = "https://example.com".to_string();
    assert_eq!(url_step(&url, true), Step::Fetch { url: url.clone() });
    let r = reply_of(url_step(&url, false));
    assert_eq!(error_of(&r), (400, "validation_error", "INVALID_URL", "Invalid URL format"));
}

#[test]
fn results_reply_for_each_parse_outcome() {
    assert_eq!(
        results_reply(Some(Some("[1]".to_string()))).body,
        Body::Results { results: "[1]".to_string() }
    );
    assert_eq!(results_reply(Some(None)).body, Body::Results { results: "{}".to_string() });
    let r = results_reply(None);
    assert_eq!(error_of(&r), (500, "processing_error", "INVALID_TEXT", "Failed to parse Deepgram response"));
}
