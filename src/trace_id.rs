//! The identifier of the trace that the current execution context belongs to.

use crate::config::TelemetryConfig;
use opentelemetry::trace::TraceContextExt;
use tracing_opentelemetry::OpenTelemetrySpanExt;
use vstd::prelude::*;

verus! {

#[verifier::external_type_specification]
#[verifier::external_body]
pub struct ExSpan(tracing::Span);

/// A 128-bit trace identifier; zero is the invalid identifier.
#[derive(PartialEq, Eq, Structural, Debug, Clone, Copy)]
pub struct TraceId {
    pub value: u128,
}

/// The identifier that stands for "no trace".
pub open spec fn invalid_trace_id() -> TraceId {
    TraceId { value: 0 }
}

impl TraceId {
    /// The invalid (all-zero) identifier.
    pub fn invalid() -> (r: TraceId)
        ensures
            r == invalid_trace_id(),
    {
        TraceId { value: 0 }
    }

    /// The identifier with the given 128-bit value.
    pub fn from_u128(value: u128) -> (r: TraceId)
        ensures
            r.value == value,
    {
        TraceId { value }
    }

    /// The 128-bit value of this identifier.
    pub fn to_u128(&self) -> (r: u128)
        ensures
            r == self.value,
    {
        self.value
    }

    /// Whether this identifier names a trace, that is, is not all zero.
    pub fn is_valid(&self) -> (r: bool)
        ensures
            r == (self.value != 0),
    {
        self.value != 0
    }
}

/// The trace id for a span: the one in its span context when a span is
/// active, the invalid id when none is.
pub fn trace_id_for_span(span_active: bool, context_trace_id: u128) -> (r: TraceId)
    ensures
        !span_active ==> r == invalid_trace_id(),
        span_active ==> r.value == context_trace_id,
{
    if span_active {
        TraceId::from_u128(context_trace_id)
    } else {
        TraceId::invalid()
    }
}

/// Relies on `tracing::Span::current`: the span the current thread is in,
/// or a disabled span; which one depends on the ambient subscriber.
#[verifier::external_body]
fn current_span() -> (r: tracing::Span) {
    tracing::Span::current()
}

/// Relies on `tracing::Span::is_disabled`: whether the span does not exist.
#[verifier::external_body]
fn span_is_disabled(span: &tracing::Span) -> (r: bool) {
    span.is_disabled()
}

/// Relies on `OpenTelemetrySpanExt::context` of `tracing-opentelemetry` and
/// on `TraceContextExt::span`, `SpanRef::span_context` and
/// `SpanContext::trace_id` of `opentelemetry`: the trace id that the
/// OpenTelemetry layer gave the span, as its 128-bit value.
#[verifier::external_body]
fn span_context_trace_id(span: &tracing::Span) -> (r: u128) {
    let cx = span.context();
    let id = cx.span().span_context().trace_id();
    u128::from_be_bytes(id.to_bytes())
}

impl TelemetryConfig {
    /// The trace id of the span active in the current execution context; the
    /// invalid id when no span is active. The result depends on the ambient
    /// span alone.
    pub fn get_trace_id(&self) -> (r: TraceId) {
        let span = current_span();
        let active = !span_is_disabled(&span);
        let raw: u128 = if active {
            span_context_trace_id(&span)
        } else {
            0
        };
        trace_id_for_span(active, raw)
    }
}

} // verus!
