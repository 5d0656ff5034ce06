use tembo_telemetry::{trace_id_for_span, TelemetryConfig, TraceId};

#[test]
fn no_active_span_gives_invalid_trace_id() {
    let id = TelemetryConfig::default().get_trace_id();
    assert_eq!(id, TraceId::invalid());
    assert_eq!(id.to_u128(), 0);
    assert!(!id.is_valid());
}

#[test]
fn inactive_span_ignores_context_value() {
    assert_eq!(trace_id_for_span(false, 42), TraceId::invalid());
}

#[test]
fn active_span_keeps_context_value() {
    let id = trace_id_for_span(true, 126642714606581564793456114182061442190);
    assert_eq!(id.to_u128(), 126642714606581564793456114182061442190);
    assert!(id.is_valid());
    assert_eq!(TraceId::from_u128(42).to_u128(), 42);
}
