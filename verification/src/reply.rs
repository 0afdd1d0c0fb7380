//! HTTP replies of the service: a status code and one of the JSON body shapes it sends.

use vstd::prelude::*;

verus! {

/// The JSON body of a reply.
#[derive(Debug, Clone, PartialEq, Eq)]
pub enum Body {
    /// `{"error": {"type", "code", "message"}}`, with `"details": {}` inside when `details` holds.
    Error { err_type: String, code: String, message: String, details: bool },
    /// `{"error": error, "message": message}`.
    Notice { error: String, message: String },
    /// `{"token": token}`.
    Token { token: String },
    /// `{"results": results}`, where `results` is a JSON document.
    Results { results: String },
    /// A JSON document sent as it is.
    Json { document: String },
    /// `{"status": status, "service": service}`.
    Status { status: String, service: String },
}

/// A reply: HTTP status code and body.
#[derive(Debug, Clone, PartialEq, Eq)]
pub struct Reply {
    pub status: u16,
    pub body: Body,
}

/// The body of a reply, with its strings as character sequences.
pub enum BodyView {
    Error { err_type: Seq<char>, code: Seq<char>, message: Seq<char>, details: bool },
    Notice { error: Seq<char>, message: Seq<char> },
    Token { token: Seq<char> },
    Results { results: Seq<char> },
    Json { document: Seq<char> },
    Status { status: Seq<char>, service: Seq<char> },
}

/// A reply, with its strings as character sequences.
pub struct ReplyView {
    pub status: u16,
    pub body: BodyView,
}

impl View for Body {
    type V = BodyView;

    open spec fn view(&self) -> BodyView {
        match self {
            Body::Error { err_type, code, message, details } => BodyView::Error {
                err_type: err_type@,
                code: code@,
                message: message@,
                details: *details,
            },
            Body::Notice { error, message } => BodyView::Notice { error: error@, message: message@ },
            Body::Token { token } => BodyView::Token { token: token@ },
            Body::Results { results } => BodyView::Results { results: results@ },
            Body::Json { document } => BodyView::Json { document: document@ },
            Body::Status { status, service } => BodyView::Status {
                status: status@,
                service: service@,
            },
        }
    }
}

impl View for Reply {
    type V = ReplyView;

    open spec fn view(&self) -> ReplyView {
        ReplyView { status: self.status, body: self.body@ }
    }
}

pub const STATUS_OK: u16 = 200;

pub const STATUS_BAD_REQUEST: u16 = 400;

pub const STATUS_UNAUTHORIZED: u16 = 401;

pub const STATUS_NOT_FOUND: u16 = 404;

pub const STATUS_INTERNAL_SERVER_ERROR: u16 = 500;

/// The reply `{"error": {type, code, message[, "details": {}]}}` with the given status.
pub open spec fn error_view(
    status: u16,
    err_type: Seq<char>,
    code: Seq<char>,
    message: Seq<char>,
    details: bool,
) -> ReplyView {
    ReplyView {
        status,
        body: BodyView::Error { err_type, code, message, details },
    }
}

/// A structured error reply that carries an empty `details` object.
pub fn error_response(status: u16, err_type: &str, code: &str, message: &str) -> (r: Reply)
    ensures
        r@ == error_view(status, err_type@, code@, message@, true),
{
    Reply {
        status,
        body: Body::Error {
            err_type: err_type.to_owned(),
            code: code.to_owned(),
            message: message.to_owned(),
            details: true,
        },
    }
}

/// A structured error reply without the `details` object, as the session check sends.
pub fn bare_error_response(status: u16, err_type: &str, code: &str, message: &str) -> (r: Reply)
    ensures
        r@ == error_view(status, err_type@, code@, message@, false),
{
    Reply {
        status,
        body: Body::Error {
            err_type: err_type.to_owned(),
            code: code.to_owned(),
            message: message.to_owned(),
            details: false,
        },
    }
}

/// Health check: `200 {"status": "ok", "service": "text-intelligence"}`.
pub fn handle_health() -> (r: Reply)
    ensures
        r@ == (ReplyView {
            status: 200,
            body: BodyView::Status { status: "ok"@, service: "text-intelligence"@ },
        }),
{
    Reply {
        status: STATUS_OK,
        body: Body::Status { status: "ok".to_owned(), service: "text-intelligence".to_owned() },
    }
}

/// Fallback for unmatched routes: `404 {"error": "Not Found", "message": "Endpoint not found"}`.
pub fn handle_not_found() -> (r: Reply)
    ensures
        r@ == (ReplyView {
            status: 404,
            body: BodyView::Notice { error: "Not Found"@, message: "Endpoint not found"@ },
        }),
{
    Reply {
        status: STATUS_NOT_FOUND,
        body: Body::Notice {
            error: "Not Found".to_owned(),
            message: "Endpoint not found".to_owned(),
        },
    }
}

/// What became of reading `deepgram.toml` and taking its `[meta]` section.
#[derive(Debug, Clone, PartialEq, Eq)]
pub enum MetadataSource {
    /// The file could not be read.
    Unreadable,
    /// The file is not valid TOML of the expected shape.
    Unparsable,
    /// The file parsed; `meta` is the `[meta]` section as a JSON document, if there is one.
    Parsed { meta: Option<String> },
}

/// The reply of the metadata endpoint for each outcome of reading the metadata file.
pub open spec fn metadata_view(source: MetadataSource) -> ReplyView {
    match source {
        MetadataSource::Parsed { meta: Some(doc) } => ReplyView {
            status: 200,
            body: BodyView::Json { document: doc@ },
        },
        MetadataSource::Parsed { meta: None } => ReplyView {
            status: 500,
            body: BodyView::Notice {
                error: "INTERNAL_SERVER_ERROR"@,
                message: "Missing [meta] section in deepgram.toml"@,
            },
        },
        _ => ReplyView {
            status: 500,
            body: BodyView::Notice {
                error: "INTERNAL_SERVER_ERROR"@,
                message: "Failed to read metadata from deepgram.toml"@,
            },
        },
    }
}

/// Metadata endpoint: the `[meta]` section of `deepgram.toml`, or a 500 notice.
pub fn handle_metadata(source: MetadataSource) -> (r: Reply)
    ensures
        r@ == metadata_view(source),
{
    match source {
        MetadataSource::Parsed { meta: Some(doc) } => Reply {
            status: STATUS_OK,
            body: Body::Json { document: doc },
        },
        MetadataSource::Parsed { meta: None } => Reply {
            status: STATUS_INTERNAL_SERVER_ERROR,
            body: Body::Notice {
                error: "INTERNAL_SERVER_ERROR".to_owned(),
                message: "Missing [meta] section in deepgram.toml".to_owned(),
            },
        },
        _ => Reply {
            status: STATUS_INTERNAL_SERVER_ERROR,
            body: Body::Notice {
                error: "INTERNAL_SERVER_ERROR".to_owned(),
                message: "Failed to read metadata from deepgram.toml".to_owned(),
            },
        },
    }
}

} // verus!
