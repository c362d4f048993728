use vstd::prelude::*;
use crate::span::{Level, Outcome, RequestInfo, RootSpan, record_outcome, root_span};

verus! {

/// Opens the root span of each request and records on it how the request ended.
pub trait RootSpanBuilder {
    /// The level at which this builder opens spans.
    spec fn span_level() -> Level;

    fn on_request_start(request: &RequestInfo) -> (span: RootSpan)
        ensures
            span.opened_from(Self::span_level(), *request),
    ;

    fn on_request_end(span: &mut RootSpan, outcome: &Outcome)
        requires
            outcome.wf(),
        ensures
            final(span).ended_from(*old(span), *outcome),
    ;
}

/// The default builder: spans at the info level.
pub struct DefaultRootSpanBuilder;

impl RootSpanBuilder for DefaultRootSpanBuilder {
    open spec fn span_level() -> Level {
        Level::Info
    }

    fn on_request_start(request: &RequestInfo) -> (span: RootSpan) {
        root_span(Level::Info, request)
    }

    fn on_request_end(span: &mut RootSpan, outcome: &Outcome) {
        record_outcome(span, outcome)
    }
}

/// Spans at the trace level; otherwise as [`DefaultRootSpanBuilder`].
pub struct TraceRootSpanBuilder;

impl RootSpanBuilder for TraceRootSpanBuilder {
    open spec fn span_level() -> Level {
        Level::Trace
    }

    fn on_request_start(request: &RequestInfo) -> (span: RootSpan) {
        root_span(Level::Trace, request)
    }

    fn on_request_end(span: &mut RootSpan, outcome: &Outcome) {
        DefaultRootSpanBuilder::on_request_end(span, outcome)
    }
}

/// Spans at the debug level; otherwise as [`DefaultRootSpanBuilder`].
pub struct DebugRootSpanBuilder;

impl RootSpanBuilder for DebugRootSpanBuilder {
    open spec fn span_level() -> Level {
        Level::Debug
    }

    fn on_request_start(request: &RequestInfo) -> (span: RootSpan) {
        root_span(Level::Debug, request)
    }

    fn on_request_end(span: &mut RootSpan, outcome: &Outcome) {
        DefaultRootSpanBuilder::on_request_end(span, outcome)
    }
}

/// Spans at the info level; otherwise as [`DefaultRootSpanBuilder`].
pub struct InfoRootSpanBuilder;

impl RootSpanBuilder for InfoRootSpanBuilder {
    open spec fn span_level() -> Level {
        Level::Info
    }

    fn on_request_start(request: &RequestInfo) -> (span: RootSpan) {
        root_span(Level::Info, request)
    }

    fn on_request_end(span: &mut RootSpan, outcome: &Outcome) {
        DefaultRootSpanBuilder::on_request_end(span, outcome)
    }
}

/// Spans at the warn level; otherwise as [`DefaultRootSpanBuilder`].
pub struct WarnRootSpanBuilder;

impl RootSpanBuilder for WarnRootSpanBuilder {
    open spec fn span_level() -> Level {
        Level::Warn
    }

    fn on_request_start(request: &RequestInfo) -> (span: RootSpan) {
        root_span(Level::Warn, request)
    }

    fn on_request_end(span: &mut RootSpan, outcome: &Outcome) {
        DefaultRootSpanBuilder::on_request_end(span, outcome)
    }
}

/// Spans at the error level; otherwise as [`DefaultRootSpanBuilder`].
pub struct ErrorRootSpanBuilder;

impl RootSpanBuilder for ErrorRootSpanBuilder {
    open spec fn span_level() -> Level {
        Level::Error
    }

    fn on_request_start(request: &RequestInfo) -> (span: RootSpan) {
        root_span(Level::Error, request)
    }

    fn on_request_end(span: &mut RootSpan, outcome: &Outcome) {
        DefaultRootSpanBuilder::on_request_end(span, outcome)
    }
}

/// Two spans opened for one request hold the same fields, whatever the levels
/// they were opened at; each of the five level builders opens at its own
/// level, and the default builder at the info level.
pub proof fn lemma_builders_open_same_fields(
    request: RequestInfo,
    default_span: RootSpan,
    span: RootSpan,
    level: Level,
)
    requires
        default_span.opened_from(DefaultRootSpanBuilder::span_level(), request),
        span.opened_from(level, request),
    ensures
        span.same_fields(default_span),
        span.level == level,
        DefaultRootSpanBuilder::span_level() == Level::Info,
        TraceRootSpanBuilder::span_level() == Level::Trace,
        DebugRootSpanBuilder::span_level() == Level::Debug,
        InfoRootSpanBuilder::span_level() == Level::Info,
        WarnRootSpanBuilder::span_level() == Level::Warn,
        ErrorRootSpanBuilder::span_level() == Level::Error,
{
}

/// Recording an outcome does not depend on the span's level: from two spans
/// with the same fields, one outcome yields spans with the same fields, each
/// keeping its own level.
pub proof fn lemma_outcome_ignores_level(
    before_a: RootSpan,
    before_b: RootSpan,
    after_a: RootSpan,
    after_b: RootSpan,
    outcome: Outcome,
)
    requires
        before_a.same_fields(before_b),
        after_a.ended_from(before_a, outcome),
        after_b.ended_from(before_b, outcome),
    ensures
        after_a.same_fields(after_b),
        after_a.level == before_a.level,
        after_b.level == before_b.level,
{
}

} // verus!
