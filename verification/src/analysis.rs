//! The text-analysis endpoint as a sequence of decisions: the caller performs each step it
//! is given (fetch a URL, read the fetched body, call the Deepgram Read API) and hands back
//! what came of it.

use vstd::prelude::*;
use vstd::utf8::encode_utf8;

use crate::reply::{error_view, error_response, Body, BodyView, Reply, ReplyView, STATUS_OK};
use crate::reply::{STATUS_BAD_REQUEST, STATUS_INTERNAL_SERVER_ERROR};
use crate::session::{option_reply_view, require_session, session_gate};
use crate::text::{concat, is_blank, is_blank_text, occurs_in, same_text};

verus! {

broadcast use vstd::string::group_string_axioms;

/// The error type of `serde_json`.
#[verifier::external_type_specification]
#[verifier::external_body]
pub struct ExJsonError(serde_json::Error);

/// Base of the Deepgram Read API request, up to the language parameter.
pub open spec fn read_api_base() -> Seq<char> {
    "https://api.deepgram.com/v1/read?language="@
}

/// Seconds that the Deepgram request may take.
pub const ANALYSIS_TIMEOUT_SECS: u64 = 30;

// ---------------------------------------------------------------------------------------
// Outside calls
// ---------------------------------------------------------------------------------------

/// Whether `url::Url::parse` accepts the text as an absolute URL.
pub uninterp spec fn parses_as_url(s: Seq<char>) -> bool;

/// The JSON text of the member `key` of the JSON document `text`, as `serde_json` parses the
/// document into a `Value`, takes `Value::get(key)` and prints it: `None` when the document
/// does not parse, `Some(None)` when it has no such member (or is not an object).
pub uninterp spec fn json_member_text(text: Seq<char>, key: Seq<char>) -> Option<Option<Seq<char>>>;

/// `url::Url::parse(s).is_ok()`; the contract names the result.
#[verifier::external_body]
fn url_is_valid(s: &str) -> (b: bool)
    ensures
        b == parses_as_url(s@),
{
    url::Url::parse(s).is_ok()
}

/// `serde_json::from_str::<Value>(text)`, then `get(key)` printed with `to_string`; the
/// contract names the result.
#[verifier::external_body]
fn json_member(text: &str, key: &str) -> (r: Result<Option<String>, serde_json::Error>)
    ensures
        r is Ok <==> json_member_text(text@, key@) is Some,
        r matches Ok(m) ==> json_member_text(text@, key@) == Some(
            match m {
                Some(s) => Some(s@),
                None => None::<Seq<char>>,
            },
        ),
{
    serde_json::from_str::<serde_json::Value>(text).map(|v| v.get(key).map(|m| m.to_string()))
}

/// A byte that `urlencoding` leaves as it is: ASCII letters, digits, `-`, `.`, `_`, `~`.
pub open spec fn is_unreserved(b: u8) -> bool {
    ||| 48 <= b <= 57
    ||| 65 <= b <= 90
    ||| 97 <= b <= 122
    ||| b == 45
    ||| b == 46
    ||| b == 95
    ||| b == 126
}

/// An upper-case hexadecimal digit.
pub open spec fn hex_digit(d: u8) -> char {
    if d < 10 {
        (48 + d) as char
    } else {
        (55 + d) as char
    }
}

/// One byte, percent-encoded.
pub open spec fn encode_byte(b: u8) -> Seq<char> {
    if is_unreserved(b) {
        seq![b as char]
    } else {
        seq!['%', hex_digit(b / 16), hex_digit(b % 16)]
    }
}

/// Bytes, each percent-encoded in turn.
pub open spec fn percent_encode_bytes(bytes: Seq<u8>) -> Seq<char>
    decreases bytes.len(),
{
    if bytes.len() == 0 {
        Seq::empty()
    } else {
        encode_byte(bytes[0]) + percent_encode_bytes(bytes.drop_first())
    }
}

/// Text percent-encoded as `urlencoding::encode` does it: every byte of its UTF-8 encoding
/// except the unreserved ones becomes `%` and two upper-case hex digits.
pub open spec fn percent_encoded(s: Seq<char>) -> Seq<char> {
    percent_encode_bytes(encode_utf8(s))
}

/// `urlencoding::encode(s)`, whose whole behaviour the crate documents and its source shows:
/// "percent-encodes every byte except alphanumerics and `-`, `_`, `.`, `~`", with upper-case
/// hex digits, over the UTF-8 bytes of `s`.
#[verifier::external_body]
fn url_encode(s: &str) -> (r: String)
    ensures
        r@ == percent_encoded(s@),
{
    urlencoding::encode(s).into_owned()
}

// ---------------------------------------------------------------------------------------
// Requests, steps and events
// ---------------------------------------------------------------------------------------

/// The JSON body of an analysis request.
#[derive(Debug, Clone, PartialEq, Eq)]
pub struct TextRequest {
    pub text: Option<String>,
    pub url: Option<String>,
}

/// The query parameters of an analysis request.
#[derive(Debug, Clone, PartialEq, Eq)]
pub struct FeatureParams {
    pub summarize: Option<String>,
    pub topics: Option<String>,
    pub sentiment: Option<String>,
    pub intents: Option<String>,
    pub language: Option<String>,
}

/// What the caller does next.
#[derive(Debug, Clone, PartialEq, Eq)]
pub enum Step {
    /// Send this reply; the request is done.
    Reply(Reply),
    /// GET this URL and hand back a `FetchEvent`.
    Fetch { url: String },
    /// Read the body of the fetched response and hand back a `FetchEvent`.
    ReadFetched,
    /// POST `{"text": text}` as JSON to `url` with the header `Authorization: authorization`
    /// and this timeout, and hand back an `AnalysisEvent`.
    Analyze { url: String, authorization: String, text: String, timeout_secs: u64 },
}

/// A step, with its strings as character sequences.
pub enum StepView {
    Reply(ReplyView),
    Fetch { url: Seq<char> },
    ReadFetched,
    Analyze { url: Seq<char>, authorization: Seq<char>, text: Seq<char>, timeout_secs: u64 },
}

impl View for Step {
    type V = StepView;

    open spec fn view(&self) -> StepView {
        match self {
            Step::Reply(r) => StepView::Reply(r@),
            Step::Fetch { url } => StepView::Fetch { url: url@ },
            Step::ReadFetched => StepView::ReadFetched,
            Step::Analyze { url, authorization, text, timeout_secs } => StepView::Analyze {
                url: url@,
                authorization: authorization@,
                text: text@,
                timeout_secs: *timeout_secs,
            },
        }
    }
}

/// What came of fetching the URL of a request.
#[derive(Debug, Clone, PartialEq, Eq)]
pub enum FetchEvent {
    /// The request could not be sent; the error's text.
    SendFailed(String),
    /// The response arrived with this status code and its text (such as "404 Not Found").
    Status { code: u16, text: String },
    /// The body of a successful response could not be read; the error's text.
    ReadFailed(String),
    /// The body of a successful response.
    Body(String),
}

/// What came of calling the Deepgram Read API.
#[derive(Debug, Clone, PartialEq, Eq)]
pub enum AnalysisEvent {
    /// The request could not be sent; the error's text.
    SendFailed(String),
    /// The response body could not be read.
    ReadFailed,
    /// The response arrived with this status code and body.
    Received { status: u16, body: String },
}

// ---------------------------------------------------------------------------------------
// Specification
// ---------------------------------------------------------------------------------------

/// The text of an optional parameter, or `default` when it is absent.
pub open spec fn text_or(o: Option<String>, default: Seq<char>) -> Seq<char> {
    match o {
        Some(s) => s@,
        None => default,
    }
}

/// An optional field that is present and not empty.
pub open spec fn present(o: Option<String>) -> bool {
    o matches Some(s) && s@.len() > 0
}

/// A 2xx status code.
pub open spec fn is_success(code: u16) -> bool {
    200 <= code <= 299
}

/// `part` when `on` holds, else nothing.
pub open spec fn flag(on: bool, part: Seq<char>) -> Seq<char> {
    if on {
        part
    } else {
        Seq::empty()
    }
}

/// The Deepgram Read API URL for the given feature parameters.
pub open spec fn read_url(
    language: Seq<char>,
    summarize: Seq<char>,
    topics: Seq<char>,
    sentiment: Seq<char>,
    intents: Seq<char>,
) -> Seq<char> {
    read_api_base() + percent_encoded(language) + flag(
        summarize == "true"@ || summarize == "v2"@,
        "&summarize=v2"@,
    ) + flag(topics == "true"@, "&topics=true"@) + flag(sentiment == "true"@, "&sentiment=true"@)
        + flag(intents == "true"@, "&intents=true"@)
}

/// A 400 `validation_error` reply.
pub open spec fn validation_view(code: Seq<char>, message: Seq<char>) -> StepView {
    StepView::Reply(error_view(400, "validation_error"@, code, message, true))
}

/// The step for text to analyse with the given parameters and API key.
pub open spec fn analyze_view(text: Seq<char>, params: FeatureParams, api_key: Seq<char>) -> StepView {
    let summarize = text_or(params.summarize, Seq::empty());
    if is_blank_text(text) {
        validation_view("EMPTY_TEXT"@, "Text content cannot be empty"@)
    } else if summarize == "v1"@ {
        validation_view(
            "INVALID_TEXT"@,
            "Summarization v1 is no longer supported. Please use v2 or true."@,
        )
    } else {
        StepView::Analyze {
            url: read_url(
                text_or(params.language, "en"@),
                summarize,
                text_or(params.topics, Seq::empty()),
                text_or(params.sentiment, Seq::empty()),
                text_or(params.intents, Seq::empty()),
            ),
            authorization: "Token "@ + api_key,
            text,
            timeout_secs: 30,
        }
    }
}

/// The first step for a request, given the session check's refusal (if any).
pub open spec fn begin_view(
    refusal: Option<ReplyView>,
    request: TextRequest,
    params: FeatureParams,
    api_key: Seq<char>,
) -> StepView {
    let has_text = present(request.text);
    let has_url = present(request.url);
    if refusal is Some {
        StepView::Reply(refusal->0)
    } else if !has_text && !has_url {
        validation_view("INVALID_TEXT"@, "Request must contain either 'text' or 'url' field"@)
    } else if has_text && has_url {
        validation_view("INVALID_TEXT"@, "Request must contain either 'text' or 'url', not both"@)
    } else if has_url {
        url_step_view(request.url->0@, parses_as_url(request.url->0@))
    } else {
        analyze_view(request.text->0@, params, api_key)
    }
}

/// The step after an event of fetching the request's URL.
pub open spec fn fetch_view(event: FetchEvent, params: FeatureParams, api_key: Seq<char>) -> StepView {
    match event {
        FetchEvent::SendFailed(e) => validation_view("INVALID_URL"@, "Failed to fetch URL: "@ + e@),
        FetchEvent::Status { code, text } => if is_success(code) {
            StepView::ReadFetched
        } else {
            validation_view("INVALID_URL"@, "Failed to fetch URL: "@ + text@)
        },
        FetchEvent::ReadFailed(e) => validation_view(
            "INVALID_URL"@,
            "Failed to read URL content: "@ + e@,
        ),
        FetchEvent::Body(text) => analyze_view(text@, params, api_key),
    }
}

/// A `processing_error` reply with the given status and message.
pub open spec fn processing_view(status: u16, message: Seq<char>) -> ReplyView {
    error_view(status, "processing_error"@, "INVALID_TEXT"@, message, true)
}

/// The reply for what came of the Deepgram call.
pub open spec fn analysis_view(event: AnalysisEvent) -> ReplyView {
    match event {
        AnalysisEvent::SendFailed(e) => processing_view(400, "Failed to process text: "@ + e@),
        AnalysisEvent::ReadFailed => processing_view(500, "Failed to read Deepgram response"@),
        AnalysisEvent::Received { status, body } => if !is_success(status) {
            processing_view(400, "Failed to process text"@)
        } else {
            results_view(json_member_text(body@, "results"@))
        },
    }
}

/// The reply for a Deepgram response body that parsed to `parsed` (`None` when it is not
/// JSON; otherwise its `results` member, if any, as JSON text).
pub open spec fn results_view(parsed: Option<Option<Seq<char>>>) -> ReplyView {
    match parsed {
        None => processing_view(500, "Failed to parse Deepgram response"@),
        Some(Some(r)) => ReplyView { status: 200, body: BodyView::Results { results: r } },
        Some(None) => ReplyView { status: 200, body: BodyView::Results { results: "{}"@ } },
    }
}

/// The step for a URL in the request, given whether it parses as a URL.
pub open spec fn url_step_view(url: Seq<char>, parses: bool) -> StepView {
    if parses {
        StepView::Fetch { url }
    } else {
        validation_view("INVALID_URL"@, "Invalid URL format"@)
    }
}

// ---------------------------------------------------------------------------------------
// Implementation
// ---------------------------------------------------------------------------------------

fn validation_step(code: &str, message: &str) -> (s: Step)
    ensures
        s@ == validation_view(code@, message@),
{
    Step::Reply(error_response(STATUS_BAD_REQUEST, "validation_error", code, message))
}

/// The text of an optional parameter, or `default`.
fn param_or(o: &Option<String>, default: &str) -> (r: String)
    ensures
        r@ == text_or(*o, default@),
{
    match o {
        Some(s) => s.clone(),
        None => default.to_owned(),
    }
}

/// Whether an optional field is present and not empty.
fn is_present(o: &Option<String>) -> (b: bool)
    ensures
        b == present(*o),
{
    match o {
        Some(s) => !s.as_str().is_empty(),
        None => false,
    }
}

/// `extra` appended to `url` when `on` holds.
fn add_flag(url: String, on: bool, extra: &str) -> (r: String)
    ensures
        r@ == url@ + flag(on, extra@),
{
    if on {
        concat(url.as_str(), extra)
    } else {
        assert(url@ + flag(on, extra@) =~= url@);
        url
    }
}

/// The Deepgram Read API URL for the given feature parameters: the language, percent-encoded,
/// then a query flag for each feature that is switched on.
pub fn deepgram_read_url(
    language: &str,
    summarize: &str,
    topics: &str,
    sentiment: &str,
    intents: &str,
) -> (u: String)
    ensures
        u@ == read_url(language@, summarize@, topics@, sentiment@, intents@),
{
    let encoded = url_encode(language);
    let url = concat("https://api.deepgram.com/v1/read?language=", encoded.as_str());
    let summary = same_text(summarize, "true") || same_text(summarize, "v2");
    let url = add_flag(url, summary, "&summarize=v2");
    let url = add_flag(url, same_text(topics, "true"), "&topics=true");
    let url = add_flag(url, same_text(sentiment, "true"), "&sentiment=true");
    let url = add_flag(url, same_text(intents, "true"), "&intents=true");
    url
}

/// The step for text to analyse: refuse blank text and the retired summarizer, else call
/// Deepgram with the feature parameters.
pub fn analyze_text(text: String, params: &FeatureParams, api_key: &str) -> (s: Step)
    ensures
        s@ == analyze_view(text@, *params, api_key@),
{
    if is_blank(text.as_str()) {
        return validation_step("EMPTY_TEXT", "Text content cannot be empty");
    }
    let language = param_or(&params.language, "en");
    let summarize = param_or(&params.summarize, "");
    let topics = param_or(&params.topics, "");
    let sentiment = param_or(&params.sentiment, "");
    let intents = param_or(&params.intents, "");
    proof {
        reveal_strlit("");
        assert(""@ =~= Seq::<char>::empty());
    }
    if same_text(summarize.as_str(), "v1") {
        return validation_step(
            "INVALID_TEXT",
            "Summarization v1 is no longer supported. Please use v2 or true.",
        );
    }
    let url = deepgram_read_url(
        language.as_str(),
        summarize.as_str(),
        topics.as_str(),
        sentiment.as_str(),
        intents.as_str(),
    );
    let authorization = concat("Token ", api_key);
    Step::Analyze { url, authorization, text, timeout_secs: ANALYSIS_TIMEOUT_SECS }
}

/// The first step for a request whose session check gave `refusal`.
pub fn begin_analysis(
    refusal: Option<Reply>,
    request: &TextRequest,
    params: &FeatureParams,
    api_key: &str,
) -> (s: Step)
    ensures
        s@ == begin_view(option_reply_view(refusal), *request, *params, api_key@),
{
    if let Some(r) = refusal {
        return Step::Reply(r);
    }
    let has_text = is_present(&request.text);
    let has_url = is_present(&request.url);
    if !has_text && !has_url {
        return validation_step("INVALID_TEXT", "Request must contain either 'text' or 'url' field");
    }
    if has_text && has_url {
        return validation_step(
            "INVALID_TEXT",
            "Request must contain either 'text' or 'url', not both",
        );
    }
    if has_url {
        match &request.url {
            Some(url) => {
                let parses = url_is_valid(url.as_str());
                url_step(url, parses)
            },
            None => validation_step("INVALID_URL", "Invalid URL format"),
        }
    } else {
        match &request.text {
            Some(text) => analyze_text(text.clone(), params, api_key),
            None => validation_step("EMPTY_TEXT", "Text content cannot be empty"),
        }
    }
}

/// Analysis endpoint, first step: the session check, then the checks of the request body.
pub fn handle_text_intelligence(
    auth_header: &str,
    secret: &[u8],
    api_key: &str,
    request: &TextRequest,
    params: &FeatureParams,
) -> (s: Step)
    ensures
        exists|g: Option<ReplyView>|
            session_gate(auth_header@, secret@, g) && s@ == begin_view(
                g,
                *request,
                *params,
                api_key@,
            ),
{
    let refusal = require_session(auth_header, secret);
    begin_analysis(refusal, request, params, api_key)
}

/// Analysis endpoint, steps after fetching the request's URL.
pub fn continue_after_fetch(event: FetchEvent, params: &FeatureParams, api_key: &str) -> (s: Step)
    ensures
        s@ == fetch_view(event, *params, api_key@),
{
    match event {
        FetchEvent::SendFailed(e) => {
            let m = concat("Failed to fetch URL: ", e.as_str());
            validation_step("INVALID_URL", m.as_str())
        },
        FetchEvent::Status { code, text } => {
            if 200 <= code && code <= 299 {
                Step::ReadFetched
            } else {
                let m = concat("Failed to fetch URL: ", text.as_str());
                validation_step("INVALID_URL", m.as_str())
            }
        },
        FetchEvent::ReadFailed(e) => {
            let m = concat("Failed to read URL content: ", e.as_str());
            validation_step("INVALID_URL", m.as_str())
        },
        FetchEvent::Body(text) => analyze_text(text, params, api_key),
    }
}

fn processing_reply(status: u16, message: &str) -> (r: Reply)
    ensures
        r@ == processing_view(status, message@),
{
    error_response(status, "processing_error", "INVALID_TEXT", message)
}

/// The step for a URL in the request, given whether it parses as a URL: fetch it, or refuse
/// it as `INVALID_URL`.
pub fn url_step(url: &String, parses: bool) -> (s: Step)
    ensures
        s@ == url_step_view(url@, parses),
{
    if parses {
        Step::Fetch { url: url.clone() }
    } else {
        validation_step("INVALID_URL", "Invalid URL format")
    }
}

/// The reply for a successful Deepgram response whose body parsed to `parsed`: the
/// `results` member, `{}` when there is none, or a 500 error when the body is not JSON.
pub fn results_reply(parsed: Option<Option<String>>) -> (r: Reply)
    ensures
        r@ == results_view(
            match parsed {
                None => None,
                Some(Some(s)) => Some(Some(s@)),
                Some(None) => Some(None::<Seq<char>>),
            },
        ),
{
    match parsed {
        None => processing_reply(STATUS_INTERNAL_SERVER_ERROR, "Failed to parse Deepgram response"),
        Some(Some(results)) => Reply { status: STATUS_OK, body: Body::Results { results } },
        Some(None) => Reply { status: STATUS_OK, body: Body::Results { results: "{}".to_owned() } },
    }
}

/// Analysis endpoint, last step: the reply for what came of the Deepgram call; on success the
/// `results` member of Deepgram's JSON, or `{}` when it has none.
pub fn finish_analysis(event: AnalysisEvent) -> (r: Reply)
    ensures
        r@ == analysis_view(event),
{
    match event {
        AnalysisEvent::SendFailed(e) => {
            let m = concat("Failed to process text: ", e.as_str());
            processing_reply(STATUS_BAD_REQUEST, m.as_str())
        },
        AnalysisEvent::ReadFailed => processing_reply(
            STATUS_INTERNAL_SERVER_ERROR,
            "Failed to read Deepgram response",
        ),
        AnalysisEvent::Received { status, body } => {
            if !(200 <= status && status <= 299) {
                return processing_reply(STATUS_BAD_REQUEST, "Failed to process text");
            }
            let parsed = match json_member(body.as_str(), "results") {
                Err(_) => None,
                Ok(member) => Some(member),
            };
            results_reply(parsed)
        },
    }
}

// ---------------------------------------------------------------------------------------
// Laws
// ---------------------------------------------------------------------------------------

/// A character that may stand in a percent-encoded query value: an unreserved ASCII
/// character or `%`.
pub open spec fn is_query_safe(c: char) -> bool {
    (c as u32) < 128 && is_unreserved(c as u8) || c == '%'
}

/// Every character that percent-encoding writes is query-safe.
pub proof fn lemma_percent_encode_bytes_safe(bytes: Seq<u8>)
    ensures
        forall|i: int|
            0 <= i < percent_encode_bytes(bytes).len() ==> is_query_safe(
                #[trigger] percent_encode_bytes(bytes)[i],
            ),
    decreases bytes.len(),
{
    if bytes.len() > 0 {
        lemma_percent_encode_bytes_safe(bytes.drop_first());
        let b = bytes[0];
        let head = encode_byte(b);
        let rest = percent_encode_bytes(bytes.drop_first());
        assert(percent_encode_bytes(bytes) == head + rest);
        assert forall|i: int| 0 <= i < head.len() implies is_query_safe(#[trigger] head[i]) by {
            if !is_unreserved(b) {
                assert(b / 16 < 16 && b % 16 < 16);
            }
        }
        assert forall|i: int|
            0 <= i < percent_encode_bytes(bytes).len() implies is_query_safe(
                #[trigger] percent_encode_bytes(bytes)[i],
            ) by {
            if i < head.len() {
                assert(percent_encode_bytes(bytes)[i] == head[i]);
            } else {
                assert(percent_encode_bytes(bytes)[i] == rest[i - head.len()]);
            }
        }
    }
}

/// The language value cannot change the shape of the Deepgram query: once percent-encoded
/// it holds no `&`, `=`, `#`, `?`, space or any other character but unreserved ASCII and `%`.
pub proof fn lemma_encoded_language_is_query_safe(language: Seq<char>)
    ensures
        forall|i: int|
            0 <= i < percent_encoded(language).len() ==> is_query_safe(
                #[trigger] percent_encoded(language)[i],
            ),
{
    lemma_percent_encode_bytes_safe(encode_utf8(language));
}

/// Every Deepgram request URL starts with the Read API base followed by the encoded language.
pub proof fn lemma_read_url_prefix(
    language: Seq<char>,
    summarize: Seq<char>,
    topics: Seq<char>,
    sentiment: Seq<char>,
    intents: Seq<char>,
)
    ensures
        read_url(language, summarize, topics, sentiment, intents).take(
            (read_api_base() + percent_encoded(language)).len() as int,
        ) == read_api_base() + percent_encoded(language),
{
    let p = read_api_base() + percent_encoded(language);
    let u = read_url(language, summarize, topics, sentiment, intents);
    assert(u.take(p.len() as int) =~= p);
}

/// A request that the session check refuses gets that refusal and nothing else: no URL is
/// fetched and Deepgram is not called.
pub proof fn lemma_refused_session_stops_request(
    refusal: ReplyView,
    request: TextRequest,
    params: FeatureParams,
    api_key: Seq<char>,
)
    ensures
        begin_view(Some(refusal), request, params, api_key) == StepView::Reply(refusal),
{
}

/// A request must carry exactly one of `text` and `url`: with both or neither it is refused
/// with `400 validation_error INVALID_TEXT`.
pub proof fn lemma_exactly_one_source(request: TextRequest, params: FeatureParams, api_key: Seq<char>)
    requires
        present(request.text) == present(request.url),
    ensures
        begin_view(None, request, params, api_key) == validation_view(
            "INVALID_TEXT"@,
            if present(request.text) {
                "Request must contain either 'text' or 'url', not both"@
            } else {
                "Request must contain either 'text' or 'url' field"@
            },
        ),
{
}

/// Summarization v1 is never sent to Deepgram: text that is not blank with `summarize=v1`
/// is refused.
pub proof fn lemma_summarize_v1_refused(text: Seq<char>, params: FeatureParams, api_key: Seq<char>)
    requires
        !is_blank_text(text),
        params.summarize matches Some(s) && s@ == "v1"@,
    ensures
        analyze_view(text, params, api_key) == validation_view(
            "INVALID_TEXT"@,
            "Summarization v1 is no longer supported. Please use v2 or true."@,
        ),
{
}

/// Blank text (empty, or only white space) is never sent to Deepgram.
pub proof fn lemma_blank_text_refused(text: Seq<char>, params: FeatureParams, api_key: Seq<char>)
    requires
        is_blank_text(text),
    ensures
        analyze_view(text, params, api_key) == validation_view(
            "EMPTY_TEXT"@,
            "Text content cannot be empty"@,
        ),
{
}

/// The part of a Deepgram URL before its feature flags: the base and the encoded language.
spec fn url_head(language: Seq<char>) -> Seq<char> {
    read_api_base() + percent_encoded(language)
}

/// The summary flag of a Deepgram URL.
spec fn summarize_part(summarize: Seq<char>) -> Seq<char> {
    flag(summarize == "true"@ || summarize == "v2"@, "&summarize=v2"@)
}

/// The topics flag of a Deepgram URL.
spec fn topics_part(topics: Seq<char>) -> Seq<char> {
    flag(topics == "true"@, "&topics=true"@)
}

/// The sentiment flag of a Deepgram URL.
spec fn sentiment_part(sentiment: Seq<char>) -> Seq<char> {
    flag(sentiment == "true"@, "&sentiment=true"@)
}

/// The intents flag of a Deepgram URL.
spec fn intents_part(intents: Seq<char>) -> Seq<char> {
    flag(intents == "true"@, "&intents=true"@)
}

/// A Deepgram URL is its head followed by the four flags in order.
proof fn lemma_read_url_parts(
    language: Seq<char>,
    summarize: Seq<char>,
    topics: Seq<char>,
    sentiment: Seq<char>,
    intents: Seq<char>,
)
    ensures
        read_url(language, summarize, topics, sentiment, intents) == url_head(language)
            + summarize_part(summarize) + topics_part(topics) + sentiment_part(sentiment)
            + intents_part(intents),
        summarize_part(summarize).len() == 0 || summarize_part(summarize) == "&summarize=v2"@,
        topics_part(topics).len() == 0 || topics_part(topics) == "&topics=true"@,
        sentiment_part(sentiment).len() == 0 || sentiment_part(sentiment) == "&sentiment=true"@,
        intents_part(intents).len() == 0 || intents_part(intents) == "&intents=true"@,
{
}

/// The characters of the literals that make up a Deepgram URL.
proof fn lemma_url_literals()
    ensures
        "https://api.deepgram.com/v1/read?language="@.len() == 42,
        forall|j: int|
            0 <= j < 42 ==> #[trigger] "https://api.deepgram.com/v1/read?language="@[j] != '&',
        "&summarize=v2"@ =~= seq!['&', 's', 'u', 'm', 'm', 'a', 'r', 'i', 'z', 'e', '=', 'v', '2'],
        "&topics=true"@ =~= seq!['&', 't', 'o', 'p', 'i', 'c', 's', '=', 't', 'r', 'u', 'e'],
        "&sentiment=true"@ =~= seq![
            '&', 's', 'e', 'n', 't', 'i', 'm', 'e', 'n', 't', '=', 't', 'r', 'u', 'e',
        ],
        "&intents=true"@ =~= seq!['&', 'i', 'n', 't', 'e', 'n', 't', 's', '=', 't', 'r', 'u', 'e'],
        read_api_base() == "https://api.deepgram.com/v1/read?language="@,
{
    reveal_strlit("https://api.deepgram.com/v1/read?language=");
    reveal_strlit("&summarize=v2");
    reveal_strlit("&topics=true");
    reveal_strlit("&sentiment=true");
    reveal_strlit("&intents=true");
    assert forall|j: int| 0 <= j < 42 implies #[trigger] "https://api.deepgram.com/v1/read?language="@[j]
        != '&' by {}
}

/// In a Deepgram URL, `&` stands only where a feature flag begins.
proof fn lemma_amp_only_at_flags(
    language: Seq<char>,
    summarize: Seq<char>,
    topics: Seq<char>,
    sentiment: Seq<char>,
    intents: Seq<char>,
    k: int,
)
    requires
        0 <= k < read_url(language, summarize, topics, sentiment, intents).len(),
        read_url(language, summarize, topics, sentiment, intents)[k] == '&',
    ensures
        (k == url_head(language).len() && summarize_part(summarize).len() > 0) || (k
            == url_head(language).len() + summarize_part(summarize).len() && topics_part(topics).len()
            > 0) || (k == url_head(language).len() + summarize_part(summarize).len() + topics_part(
            topics,
        ).len() && sentiment_part(sentiment).len() > 0) || (k == url_head(language).len()
            + summarize_part(summarize).len() + topics_part(topics).len() + sentiment_part(
            sentiment,
        ).len() && intents_part(intents).len() > 0),
{
    lemma_read_url_parts(language, summarize, topics, sentiment, intents);
    lemma_url_literals();
    lemma_encoded_language_is_query_safe(language);
    let u = read_url(language, summarize, topics, sentiment, intents);
    let base = read_api_base();
    let e = percent_encoded(language);
    let h = url_head(language);
    let a = summarize_part(summarize);
    let b = topics_part(topics);
    let c = sentiment_part(sentiment);
    let d = intents_part(intents);
    if k < base.len() {
        assert(u[k] == base[k]);
    } else if k < h.len() {
        assert(u[k] == e[k - base.len()]);
        assert(is_query_safe(e[k - base.len()]));
    } else if k < h.len() + a.len() {
        assert(u[k] == a[k - h.len()]);
    } else if k < h.len() + a.len() + b.len() {
        assert(u[k] == b[k - h.len() - a.len()]);
    } else if k < h.len() + a.len() + b.len() + c.len() {
        assert(u[k] == c[k - h.len() - a.len() - b.len()]);
    } else {
        assert(u[k] == d[k - h.len() - a.len() - b.len() - c.len()]);
    }
}

/// An occurrence of `n` at `k` gives the characters of `n` from `k` on.
proof fn lemma_occurrence_at(u: Seq<char>, n: Seq<char>, k: int)
    requires
        0 <= k,
        k + n.len() <= u.len(),
        u.subrange(k, k + n.len()) == n,
    ensures
        forall|j: int| 0 <= j < n.len() ==> u[k + j] == #[trigger] n[j],
{
    assert forall|j: int| 0 <= j < n.len() implies u[k + j] == #[trigger] n[j] by {
        assert(u.subrange(k, k + n.len())[j] == u[k + j]);
    }
}

/// The Deepgram URL asks for a summary exactly when the `summarize` parameter is `"true"` or
/// `"v2"`, whatever the other parameters are.
pub proof fn lemma_read_url_summarize_flag(
    language: Seq<char>,
    summarize: Seq<char>,
    topics: Seq<char>,
    sentiment: Seq<char>,
    intents: Seq<char>,
)
    ensures
        occurs_in(read_url(language, summarize, topics, sentiment, intents), "&summarize=v2"@) <==> (
        summarize == "true"@ || summarize == "v2"@),
{
    lemma_read_url_parts(language, summarize, topics, sentiment, intents);
    lemma_url_literals();
    let u = read_url(language, summarize, topics, sentiment, intents);
    let n = "&summarize=v2"@;
    let h = url_head(language);
    let a = summarize_part(summarize);
    let b = topics_part(topics);
    let c = sentiment_part(sentiment);
    if summarize == "true"@ || summarize == "v2"@ {
        assert(u.subrange(h.len() as int, (h.len() + n.len()) as int) =~= n);
    } else if occurs_in(u, n) {
        let k = choose|k: int|
            0 <= k && k + n.len() <= u.len() && #[trigger] u.subrange(k, k + n.len()) == n;
        lemma_occurrence_at(u, n, k);
        assert(u[k + 0] == n[0]);
        assert(u[k + 1] == n[1]);
        lemma_amp_only_at_flags(language, summarize, topics, sentiment, intents, k);
        if k == h.len() + a.len() && b.len() > 0 {
            assert(u[k + 1] == b[1]);
        } else if k == h.len() + a.len() + b.len() && c.len() > 0 {
            assert(u[k + 2] == n[2]);
            assert(u[k + 2] == c[2]);
        } else {
            assert(u[k + 1] == intents_part(intents)[1]);
        }
    }
}

/// The Deepgram URL asks for topics exactly when the `topics` parameter is `"true"`, whatever
/// the other parameters are.
pub proof fn lemma_read_url_topics_flag(
    language: Seq<char>,
    summarize: Seq<char>,
    topics: Seq<char>,
    sentiment: Seq<char>,
    intents: Seq<char>,
)
    ensures
        occurs_in(read_url(language, summarize, topics, sentiment, intents), "&topics=true"@) <==> topics
            == "true"@,
{
    lemma_read_url_parts(language, summarize, topics, sentiment, intents);
    lemma_url_literals();
    let u = read_url(language, summarize, topics, sentiment, intents);
    let n = "&topics=true"@;
    let h = url_head(language);
    let a = summarize_part(summarize);
    let b = topics_part(topics);
    let c = sentiment_part(sentiment);
    if topics == "true"@ {
        assert(u.subrange((h.len() + a.len()) as int, (h.len() + a.len() + n.len()) as int) =~= n);
    } else if occurs_in(u, n) {
        let k = choose|k: int|
            0 <= k && k + n.len() <= u.len() && #[trigger] u.subrange(k, k + n.len()) == n;
        lemma_occurrence_at(u, n, k);
        assert(u[k + 0] == n[0]);
        assert(u[k + 1] == n[1]);
        lemma_amp_only_at_flags(language, summarize, topics, sentiment, intents, k);
        if k == h.len() && a.len() > 0 {
            assert(u[k + 1] == a[1]);
        } else if k == h.len() + a.len() + b.len() && c.len() > 0 {
            assert(u[k + 1] == c[1]);
        } else {
            assert(u[k + 1] == intents_part(intents)[1]);
        }
    }
}

/// The Deepgram URL asks for sentiment exactly when the `sentiment` parameter is `"true"`,
/// whatever the other parameters are.
pub proof fn lemma_read_url_sentiment_flag(
    language: Seq<char>,
    summarize: Seq<char>,
    topics: Seq<char>,
    sentiment: Seq<char>,
    intents: Seq<char>,
)
    ensures
        occurs_in(read_url(language, summarize, topics, sentiment, intents), "&sentiment=true"@)
            <==> sentiment == "true"@,
{
    lemma_read_url_parts(language, summarize, topics, sentiment, intents);
    lemma_url_literals();
    let u = read_url(language, summarize, topics, sentiment, intents);
    let n = "&sentiment=true"@;
    let h = url_head(language);
    let a = summarize_part(summarize);
    let b = topics_part(topics);
    let c = sentiment_part(sentiment);
    if sentiment == "true"@ {
        let k: int = (h.len() + a.len() + b.len()) as int;
        assert(u.subrange(k, k + n.len()) =~= n);
    } else if occurs_in(u, n) {
        let k = choose|k: int|
            0 <= k && k + n.len() <= u.len() && #[trigger] u.subrange(k, k + n.len()) == n;
        lemma_occurrence_at(u, n, k);
        assert(u[k + 0] == n[0]);
        assert(u[k + 1] == n[1]);
        lemma_amp_only_at_flags(language, summarize, topics, sentiment, intents, k);
        if k == h.len() && a.len() > 0 {
            assert(u[k + 2] == n[2]);
            assert(u[k + 2] == a[2]);
        } else if k == h.len() + a.len() && b.len() > 0 {
            assert(u[k + 1] == b[1]);
        } else {
            assert(u[k + 1] == intents_part(intents)[1]);
        }
    }
}

/// The Deepgram URL asks for intents exactly when the `intents` parameter is `"true"`,
/// whatever the other parameters are.
pub proof fn lemma_read_url_intents_flag(
    language: Seq<char>,
    summarize: Seq<char>,
    topics: Seq<char>,
    sentiment: Seq<char>,
    intents: Seq<char>,
)
    ensures
        occurs_in(read_url(language, summarize, topics, sentiment, intents), "&intents=true"@) <==> intents
            == "true"@,
{
    lemma_read_url_parts(language, summarize, topics, sentiment, intents);
    lemma_url_literals();
    let u = read_url(language, summarize, topics, sentiment, intents);
    let n = "&intents=true"@;
    let h = url_head(language);
    let a = summarize_part(summarize);
    let b = topics_part(topics);
    let c = sentiment_part(sentiment);
    if intents == "true"@ {
        let k: int = (h.len() + a.len() + b.len() + c.len()) as int;
        assert(u.subrange(k, k + n.len()) =~= n);
    } else if occurs_in(u, n) {
        let k = choose|k: int|
            0 <= k && k + n.len() <= u.len() && #[trigger] u.subrange(k, k + n.len()) == n;
        lemma_occurrence_at(u, n, k);
        assert(u[k + 0] == n[0]);
        assert(u[k + 1] == n[1]);
        lemma_amp_only_at_flags(language, summarize, topics, sentiment, intents, k);
        if k == h.len() && a.len() > 0 {
            assert(u[k + 1] == a[1]);
        } else if k == h.len() + a.len() && b.len() > 0 {
            assert(u[k + 1] == b[1]);
        } else {
            assert(u[k + 1] == c[1]);
        }
    }
}

/// Percent-encoding leaves `en` as it is.
proof fn lemma_encode_en()
    ensures
        percent_encoded("en"@) == "en"@,
{
    reveal_strlit("en");
    let s = "en"@;
    assert(vstd::utf8::is_ascii_chars(s));
    vstd::utf8::is_ascii_chars_encode_utf8(s);
    let bytes = encode_utf8(s);
    assert(bytes[0] == 101u8 && bytes[1] == 110u8);
    assert(bytes.drop_first().drop_first().len() == 0);
    assert(percent_encode_bytes(bytes.drop_first()) =~= encode_byte(110u8) + percent_encode_bytes(
        bytes.drop_first().drop_first(),
    ));
    assert(percent_encode_bytes(bytes) =~= encode_byte(101u8) + percent_encode_bytes(bytes.drop_first()));
    assert(percent_encode_bytes(bytes) =~= s);
}

/// The optional parameter is present with the text `v`.
pub open spec fn param_is(o: Option<String>, v: Seq<char>) -> bool {
    o matches Some(s) && s@ == v
}

/// The URL is a Deepgram Read API request whose language value is `value`: it starts with
/// the Read API base and `value`, and the value runs to the end or to the next `&`.
pub open spec fn url_language_is(url: Seq<char>, value: Seq<char>) -> bool {
    let n: int = 42 + value.len() as int;
    &&& url.len() >= n
    &&& url.take(n) == "https://api.deepgram.com/v1/read?language="@ + value
    &&& (url.len() == n || url[n] == '&')
}

/// The language value of a Deepgram URL is the percent-encoded language.
pub proof fn lemma_read_url_language(
    language: Seq<char>,
    summarize: Seq<char>,
    topics: Seq<char>,
    sentiment: Seq<char>,
    intents: Seq<char>,
)
    ensures
        url_language_is(
            read_url(language, summarize, topics, sentiment, intents),
            percent_encoded(language),
        ),
{
    lemma_read_url_parts(language, summarize, topics, sentiment, intents);
    lemma_url_literals();
    let u = read_url(language, summarize, topics, sentiment, intents);
    let h = url_head(language);
    let a = summarize_part(summarize);
    let b = topics_part(topics);
    let c = sentiment_part(sentiment);
    let d = intents_part(intents);
    assert(u.take(h.len() as int) =~= h);
    if a.len() > 0 {
        assert(u[h.len() as int] == a[0]);
    } else if b.len() > 0 {
        assert(u[h.len() as int] == b[0]);
    } else if c.len() > 0 {
        assert(u[h.len() as int] == c[0]);
    } else if d.len() > 0 {
        assert(u[h.len() as int] == d[0]);
    }
}

/// Text that is not blank and does not ask for summarization v1 is sent to Deepgram: the text
/// itself, with the authorization `Token ` and the API key and a 30 s timeout, to the Read API
/// in the request's language (English when it names none), asking for each feature exactly
/// when its own parameter asks for it.
pub proof fn lemma_analysis_request(text: Seq<char>, params: FeatureParams, api_key: Seq<char>)
    requires
        !is_blank_text(text),
        !param_is(params.summarize, "v1"@),
    ensures
        analyze_view(text, params, api_key) is Analyze,
        analyze_view(text, params, api_key)->Analyze_authorization == "Token "@ + api_key,
        analyze_view(text, params, api_key)->Analyze_text == text,
        analyze_view(text, params, api_key)->Analyze_timeout_secs == 30,
        params.language is None ==> url_language_is(
            analyze_view(text, params, api_key)->Analyze_url,
            "en"@,
        ),
        params.language is Some ==> url_language_is(
            analyze_view(text, params, api_key)->Analyze_url,
            percent_encoded(params.language->Some_0@),
        ),
        occurs_in(analyze_view(text, params, api_key)->Analyze_url, "&summarize=v2"@) <==> (
        param_is(params.summarize, "true"@) || param_is(params.summarize, "v2"@)),
        occurs_in(analyze_view(text, params, api_key)->Analyze_url, "&topics=true"@) <==> param_is(
            params.topics,
            "true"@,
        ),
        occurs_in(analyze_view(text, params, api_key)->Analyze_url, "&sentiment=true"@)
            <==> param_is(params.sentiment, "true"@),
        occurs_in(analyze_view(text, params, api_key)->Analyze_url, "&intents=true"@) <==> param_is(
            params.intents,
            "true"@,
        ),
{
    reveal_strlit("v1");
    reveal_strlit("v2");
    reveal_strlit("true");
    let summarize = text_or(params.summarize, Seq::empty());
    let language = text_or(params.language, "en"@);
    let topics = text_or(params.topics, Seq::empty());
    let sentiment = text_or(params.sentiment, Seq::empty());
    let intents = text_or(params.intents, Seq::empty());
    assert(summarize != "v1"@);
    lemma_read_url_summarize_flag(language, summarize, topics, sentiment, intents);
    lemma_read_url_topics_flag(language, summarize, topics, sentiment, intents);
    lemma_read_url_sentiment_flag(language, summarize, topics, sentiment, intents);
    lemma_read_url_intents_flag(language, summarize, topics, sentiment, intents);
    lemma_read_url_language(language, summarize, topics, sentiment, intents);
    lemma_encode_en();
}

/// Text fetched from the request's URL is analysed as the same text given directly would
/// be: with the request's own feature parameters and the same API key.
pub proof fn lemma_fetched_text_analysed_like_given_text(
    text: String,
    params: FeatureParams,
    api_key: Seq<char>,
)
    ensures
        fetch_view(FetchEvent::Body(text), params, api_key) == analyze_view(text@, params, api_key),
{
}

/// A request that passed the session check and carries only text goes straight to the
/// analysis of that text, with the request's feature parameters and the configured API key.
pub proof fn lemma_text_request_analysed(request: TextRequest, params: FeatureParams, api_key: Seq<char>)
    requires
        present(request.text),
        !present(request.url),
    ensures
        begin_view(None, request, params, api_key) == analyze_view(
            request.text->Some_0@,
            params,
            api_key,
        ),
{
}

/// Every call to Deepgram that a request leads to, from its text or from the text fetched
/// from its URL, carries the authorization `Token ` followed by the configured API key.
pub proof fn lemma_deepgram_calls_carry_api_key(
    request: TextRequest,
    event: FetchEvent,
    params: FeatureParams,
    api_key: Seq<char>,
)
    ensures
        begin_view(None, request, params, api_key) is Analyze ==> begin_view(
            None,
            request,
            params,
            api_key,
        )->Analyze_authorization == "Token "@ + api_key,
        fetch_view(event, params, api_key) is Analyze ==> fetch_view(
            event,
            params,
            api_key,
        )->Analyze_authorization == "Token "@ + api_key,
{
}

/// A Deepgram URL asks for each feature at most once: its length is the base, the encoded
/// language, and one flag for each feature that is switched on.
pub proof fn lemma_read_url_length(
    language: Seq<char>,
    summarize: Seq<char>,
    topics: Seq<char>,
    sentiment: Seq<char>,
    intents: Seq<char>,
)
    ensures
        read_url(language, summarize, topics, sentiment, intents).len() == 42 + percent_encoded(
            language,
        ).len() + (if summarize == "true"@ || summarize == "v2"@ {
            13int
        } else {
            0int
        }) + (if topics == "true"@ {
            12int
        } else {
            0int
        }) + (if sentiment == "true"@ {
            15int
        } else {
            0int
        }) + (if intents == "true"@ {
            13int
        } else {
            0int
        }),
{
    lemma_read_url_parts(language, summarize, topics, sentiment, intents);
    lemma_url_literals();
}

/// A request's URL is fetched when it parses as a URL, and refused as `INVALID_URL` when it
/// does not.
pub proof fn lemma_url_request_fetched(request: TextRequest, params: FeatureParams, api_key: Seq<char>)
    requires
        present(request.url),
        !present(request.text),
    ensures
        parses_as_url(request.url->Some_0@) ==> begin_view(None, request, params, api_key)
            == (StepView::Fetch { url: request.url->Some_0@ }),
        !parses_as_url(request.url->Some_0@) ==> begin_view(None, request, params, api_key)
            == StepView::Reply(
            error_view(400, "validation_error"@, "INVALID_URL"@, "Invalid URL format"@, true),
        ),
{
}

/// Fetching the request's URL: a 2xx response is read next; a failure to send, another status
/// or a failure to read the body is answered `400 validation_error INVALID_URL` with the
/// failure's text.
pub proof fn lemma_fetch_outcomes(
    code: u16,
    text: String,
    e: String,
    params: FeatureParams,
    api_key: Seq<char>,
)
    ensures
        200 <= code <= 299 ==> fetch_view((FetchEvent::Status { code, text }), params, api_key)
            == StepView::ReadFetched,
        !(200 <= code <= 299) ==> fetch_view((FetchEvent::Status { code, text }), params, api_key)
            == StepView::Reply(
            error_view(
                400,
                "validation_error"@,
                "INVALID_URL"@,
                "Failed to fetch URL: "@ + text@,
                true,
            ),
        ),
        fetch_view(FetchEvent::SendFailed(e), params, api_key) == StepView::Reply(
            error_view(400, "validation_error"@, "INVALID_URL"@, "Failed to fetch URL: "@ + e@, true),
        ),
        fetch_view(FetchEvent::ReadFailed(e), params, api_key) == StepView::Reply(
            error_view(
                400,
                "validation_error"@,
                "INVALID_URL"@,
                "Failed to read URL content: "@ + e@,
                true,
            ),
        ),
{
}

/// What Deepgram's answer becomes: a failure to send is a 400 with its text, an unreadable
/// body a 500, a non-2xx status a 400; a 2xx body that is not JSON a 500; otherwise a 200
/// with the body's `results` member, or `{}` when it has none.
pub proof fn lemma_deepgram_outcomes(status: u16, body: String, e: String)
    ensures
        analysis_view(AnalysisEvent::SendFailed(e)) == error_view(
            400,
            "processing_error"@,
            "INVALID_TEXT"@,
            "Failed to process text: "@ + e@,
            true,
        ),
        analysis_view(AnalysisEvent::ReadFailed) == error_view(
            500,
            "processing_error"@,
            "INVALID_TEXT"@,
            "Failed to read Deepgram response"@,
            true,
        ),
        !(200 <= status <= 299) ==> analysis_view((AnalysisEvent::Received { status, body }))
            == error_view(400, "processing_error"@, "INVALID_TEXT"@, "Failed to process text"@, true),
        200 <= status <= 299 && json_member_text(body@, "results"@) is None ==> analysis_view(
            (AnalysisEvent::Received { status, body }),
        ) == error_view(
            500,
            "processing_error"@,
            "INVALID_TEXT"@,
            "Failed to parse Deepgram response"@,
            true,
        ),
        200 <= status <= 299 && json_member_text(body@, "results"@) is Some
            && json_member_text(body@, "results"@)->Some_0 is Some ==> analysis_view(
            (AnalysisEvent::Received { status, body }),
        ) == (ReplyView {
            status: 200,
            body: BodyView::Results { results: json_member_text(body@, "results"@)->Some_0->Some_0 },
        }),
        200 <= status <= 299 && json_member_text(body@, "results"@) is Some
            && json_member_text(body@, "results"@)->Some_0 is None ==> analysis_view(
            (AnalysisEvent::Received { status, body }),
        ) == (ReplyView { status: 200, body: BodyView::Results { results: "{}"@ } }),
{
}

} // verus!
