//! Telemetry setup for web services: a configuration that decides how tracing
//! and logging are installed, the identifier of the active trace, and a
//! request-logging filter that leaves out an exact list of routes.

pub mod config;
pub mod routes;
pub mod trace_id;

pub use config::{ExporterPlan, InitError, InitGuard, InitPlan, LogFormat, TelemetryConfig};
pub use routes::{
    get_tracing_logger, CustomFilterRootSpanBuilder, CustomLoggerBuilder, RootSpanDecision,
};
pub use trace_id::{trace_id_for_span, TraceId};
