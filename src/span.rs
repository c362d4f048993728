use vstd::prelude::*;
use actix_web::http::StatusCode;

verus! {

/// Verbosity at which a root span is emitted.
#[derive(Clone, Copy, Debug, PartialEq, Eq, Structural)]
pub enum Level {
    Trace,
    Debug,
    Info,
    Warn,
    Error,
}

/// HTTP protocol version of an inbound request.
#[derive(Clone, Copy, Debug, PartialEq, Eq, Structural)]
pub enum HttpVersion {
    Http09,
    Http10,
    Http11,
    Http2,
    Http3,
}

impl HttpVersion {
    /// The `http.flavor` text of this version.
    pub open spec fn flavor_spec(self) -> Seq<char> {
        match self {
            HttpVersion::Http09 => "0.9"@,
            HttpVersion::Http10 => "1.0"@,
            HttpVersion::Http11 => "1.1"@,
            HttpVersion::Http2 => "2.0"@,
            HttpVersion::Http3 => "3.0"@,
        }
    }

    pub fn flavor(&self) -> (r: String)
        ensures
            r@ == self.flavor_spec(),
    {
        match self {
            HttpVersion::Http09 => "0.9".to_owned(),
            HttpVersion::Http10 => "1.0".to_owned(),
            HttpVersion::Http11 => "1.1".to_owned(),
            HttpVersion::Http2 => "2.0".to_owned(),
            HttpVersion::Http3 => "3.0".to_owned(),
        }
    }
}

/// What a root span reads from an inbound request.
pub struct RequestInfo {
    pub method: String,
    /// The route template that matched the request, if any.
    pub route: Option<String>,
    pub version: HttpVersion,
    pub host: String,
    /// The client address as reported by the connection or its forwarding headers.
    pub client_ip: Option<String>,
    /// The `User-Agent` header, if present and readable as text.
    pub user_agent: Option<String>,
    /// Path and query of the request URI.
    pub target: Option<String>,
    pub request_id: String,
    /// The trace identifier, when one is known.
    pub trace_id: Option<String>,
}

/// Display and debug renderings of an error, taken when the request ended.
pub struct ErrorReport {
    pub message: String,
    pub details: String,
}

/// How request handling ended.
pub enum Outcome {
    /// A response was produced; it may carry the error it was built from.
    Response { status: u16, error: Option<ErrorReport> },
    /// Handling ended with an error, which maps to the given status.
    Failure { status: u16, error: ErrorReport },
}

impl Outcome {
    pub open spec fn status_spec(self) -> u16 {
        match self {
            Outcome::Response { status, .. } => status,
            Outcome::Failure { status, .. } => status,
        }
    }

    pub open spec fn error_spec(self) -> Option<ErrorReport> {
        match self {
            Outcome::Response { error, .. } => error,
            Outcome::Failure { error, .. } => Some(error),
        }
    }

    /// The status is a valid HTTP status code.
    pub open spec fn wf(self) -> bool {
        100 <= self.status_spec() <= 999
    }

    pub fn status(&self) -> (r: u16)
        ensures
            r == self.status_spec(),
    {
        match self {
            Outcome::Response { status, .. } => *status,
            Outcome::Failure { status, .. } => *status,
        }
    }
}

/// OpenTelemetry status classification of a finished request.
#[derive(Clone, Copy, Debug, PartialEq, Eq, Structural)]
pub enum OtelStatus {
    Success,
    Failure,
}

impl OtelStatus {
    pub open spec fn text(self) -> Seq<char> {
        match self {
            OtelStatus::Success => "OK"@,
            OtelStatus::Failure => "ERROR"@,
        }
    }

    /// The `otel.status_code` text.
    pub fn as_str(&self) -> (r: &'static str)
        ensures
            r@ == self.text(),
    {
        match self {
            OtelStatus::Success => "OK",
            OtelStatus::Failure => "ERROR",
        }
    }
}

/// A status code in 400..=499.
pub open spec fn is_client_error_code(code: u16) -> bool {
    400 <= code && code < 500
}

/// The classification recorded for an error that maps to `code`.
pub open spec fn error_classification(code: u16) -> OtelStatus {
    if is_client_error_code(code) {
        OtelStatus::Success
    } else {
        OtelStatus::Failure
    }
}

pub open spec fn text_or(o: Option<String>, absent: Seq<char>) -> Seq<char> {
    match o {
        Some(s) => s@,
        None => absent,
    }
}

pub open spec fn opt_view(o: Option<String>) -> Option<Seq<char>> {
    match o {
        Some(s) => Some(s@),
        None => None,
    }
}

/// Relies on actix_web::http::StatusCode::from_u16, which accepts every code in
/// 100..=999, and StatusCode::is_client_error, true exactly for 400..=499.
#[verifier::external_body]
fn status_is_client_error(code: u16) -> (r: bool)
    requires
        100 <= code <= 999,
    ensures
        r == is_client_error_code(code),
{
    match StatusCode::from_u16(code) {
        Ok(status) => status.is_client_error(),
        Err(_) => false,
    }
}

/// The fields of the root span of one request.
///
/// The request attributes are set when the span opens; the outcome fields
/// start empty (`None`) and are recorded when the request ends.
pub struct RootSpan {
    pub level: Level,
    pub http_method: String,
    pub http_route: String,
    pub http_flavor: String,
    pub http_host: String,
    pub http_client_ip: String,
    pub http_user_agent: String,
    pub http_target: String,
    pub request_id: String,
    pub trace_id: Option<String>,
    pub otel_kind: String,
    pub http_status_code: Option<i32>,
    pub otel_status_code: Option<OtelStatus>,
    pub exception_message: Option<String>,
    pub exception_details: Option<String>,
}

impl RootSpan {
    /// The attributes taken from the request agree, as text.
    pub open spec fn same_request_fields(self, other: RootSpan) -> bool {
        &&& self.http_method@ == other.http_method@
        &&& self.http_route@ == other.http_route@
        &&& self.http_flavor@ == other.http_flavor@
        &&& self.http_host@ == other.http_host@
        &&& self.http_client_ip@ == other.http_client_ip@
        &&& self.http_user_agent@ == other.http_user_agent@
        &&& self.http_target@ == other.http_target@
        &&& self.request_id@ == other.request_id@
        &&& opt_view(self.trace_id) == opt_view(other.trace_id)
        &&& self.otel_kind@ == other.otel_kind@
    }

    /// The fields recorded when the request ends agree.
    pub open spec fn same_outcome_fields(self, other: RootSpan) -> bool {
        &&& self.http_status_code == other.http_status_code
        &&& self.otel_status_code == other.otel_status_code
        &&& opt_view(self.exception_message) == opt_view(other.exception_message)
        &&& opt_view(self.exception_details) == opt_view(other.exception_details)
    }

    /// Every field but the level agrees.
    pub open spec fn same_fields(self, other: RootSpan) -> bool {
        self.same_request_fields(other) && self.same_outcome_fields(other)
    }

    /// This is the span opened at `level` for `request`.
    pub open spec fn opened_from(self, level: Level, request: RequestInfo) -> bool {
        &&& self.level == level
        &&& self.http_method@ == request.method@
        &&& self.http_route@ == text_or(request.route, "default"@)
        &&& self.http_flavor@ == request.version.flavor_spec()
        &&& self.http_host@ == request.host@
        &&& self.http_client_ip@ == text_or(request.client_ip, ""@)
        &&& self.http_user_agent@ == text_or(request.user_agent, ""@)
        &&& self.http_target@ == text_or(request.target, ""@)
        &&& self.request_id@ == request.request_id@
        &&& opt_view(self.trace_id) == opt_view(request.trace_id)
        &&& self.otel_kind@ == "server"@
        &&& self.http_status_code is None
        &&& self.otel_status_code is None
        &&& self.exception_message is None
        &&& self.exception_details is None
    }

    /// `status` is recorded for a request that succeeded; the exception fields
    /// keep the values of `before`.
    pub open spec fn records_success(self, before: RootSpan, status: u16) -> bool {
        &&& self.http_status_code == Some(status as i32)
        &&& self.otel_status_code == Some(OtelStatus::Success)
        &&& opt_view(self.exception_message) == opt_view(before.exception_message)
        &&& opt_view(self.exception_details) == opt_view(before.exception_details)
    }

    /// `status` and `error` are recorded for a request that failed.
    pub open spec fn records_error(self, status: u16, error: ErrorReport) -> bool {
        &&& self.http_status_code == Some(status as i32)
        &&& self.otel_status_code == Some(error_classification(status))
        &&& opt_view(self.exception_message) == Some(error.message@)
        &&& opt_view(self.exception_details) == Some(error.details@)
    }

    /// This is `before` with `outcome` recorded.
    pub open spec fn ended_from(self, before: RootSpan, outcome: Outcome) -> bool {
        &&& self.level == before.level
        &&& self.same_request_fields(before)
        &&& match outcome.error_spec() {
            None => self.records_success(before, outcome.status_spec()),
            Some(error) => self.records_error(outcome.status_spec(), error),
        }
    }
}

fn copy_text(s: &Option<String>) -> (r: Option<String>)
    ensures
        opt_view(r) == opt_view(*s),
{
    match s {
        Some(t) => Some(t.clone()),
        None => None,
    }
}

fn text_or_empty(s: &Option<String>) -> (r: String)
    ensures
        r@ == text_or(*s, ""@),
{
    match s {
        Some(t) => t.clone(),
        None => "".to_owned(),
    }
}

/// Opens the root span of `request` at `level`, with every request attribute
/// set and the outcome fields empty.
pub fn root_span(level: Level, request: &RequestInfo) -> (r: RootSpan)
    ensures
        r.opened_from(level, *request),
{
    let route = match &request.route {
        Some(t) => t.clone(),
        None => "default".to_owned(),
    };
    RootSpan {
        level,
        http_method: request.method.clone(),
        http_route: route,
        http_flavor: request.version.flavor(),
        http_host: request.host.clone(),
        http_client_ip: text_or_empty(&request.client_ip),
        http_user_agent: text_or_empty(&request.user_agent),
        http_target: text_or_empty(&request.target),
        request_id: request.request_id.clone(),
        trace_id: copy_text(&request.trace_id),
        otel_kind: "server".to_owned(),
        http_status_code: None,
        otel_status_code: None,
        exception_message: None,
        exception_details: None,
    }
}

/// Records an error that maps to `status`: its texts, the status, and a
/// classification that is `Success` for a client error and `Failure` otherwise.
pub fn handle_error(span: &mut RootSpan, status: u16, error: &ErrorReport)
    requires
        100 <= status <= 999,
    ensures
        final(span).level == old(span).level,
        final(span).same_request_fields(*old(span)),
        final(span).records_error(status, *error),
{
    span.exception_message = Some(error.message.clone());
    span.exception_details = Some(error.details.clone());
    span.http_status_code = Some(status as i32);
    if status_is_client_error(status) {
        span.otel_status_code = Some(OtelStatus::Success);
    } else {
        span.otel_status_code = Some(OtelStatus::Failure);
    }
}

/// Records how the request ended on its root span.
pub fn record_outcome(span: &mut RootSpan, outcome: &Outcome)
    requires
        outcome.wf(),
    ensures
        final(span).ended_from(*old(span), *outcome),
{
    match outcome {
        Outcome::Response { status, error } => match error {
            Some(e) => handle_error(span, *status, e),
            None => {
                span.http_status_code = Some(*status as i32);
                span.otel_status_code = Some(OtelStatus::Success);
            },
        },
        Outcome::Failure { status, error } => handle_error(span, *status, error),
    }
}

} // verus!
