//! The telemetry configuration and the decisions taken when it is installed.
//!
//! Installing telemetry touches process-wide state (a propagator, a subscriber,
//! an exporter, a tracer); [`TelemetryConfig::init_plan`] decides what is
//! installed, and [`InitGuard`] makes sure it is installed at most once.

use vstd::prelude::*;

verus! {

/// The value of `env` that selects human-readable compact log lines.
pub open spec fn development_env() -> Seq<char> {
    "development"@
}

/// An optional string as an optional character sequence.
pub open spec fn opt_view(o: Option<String>) -> Option<Seq<char>> {
    match o {
        Some(s) => Some(s@),
        None => None,
    }
}

/// What a configuration holds, as plain values.
pub struct TelemetryConfigView {
    pub app_name: Seq<char>,
    pub env: Seq<char>,
    pub endpoint_url: Option<Seq<char>>,
    pub tracer_id: Option<Seq<char>>,
}

/// The view of a default configuration: both strings empty, both options absent.
pub open spec fn default_config_view() -> TelemetryConfigView {
    TelemetryConfigView {
        app_name: Seq::empty(),
        env: Seq::empty(),
        endpoint_url: None,
        tracer_id: None,
    }
}

/// Configuration for telemetry setup.
#[derive(Debug)]
pub struct TelemetryConfig {
    /// Name of the application, sent as the `service.name` resource attribute.
    pub app_name: String,
    /// The environment: `"development"` selects compact text logs, anything
    /// else structured JSON.
    pub env: String,
    /// Address of the collector; without it no exporter is built.
    pub endpoint_url: Option<String>,
    /// Name of a global tracer to register.
    pub tracer_id: Option<String>,
}

impl View for TelemetryConfig {
    type V = TelemetryConfigView;

    open spec fn view(&self) -> TelemetryConfigView {
        TelemetryConfigView {
            app_name: self.app_name@,
            env: self.env@,
            endpoint_url: opt_view(self.endpoint_url),
            tracer_id: opt_view(self.tracer_id),
        }
    }
}

fn clone_opt(o: &Option<String>) -> (r: Option<String>)
    ensures
        opt_view(r) == opt_view(*o),
{
    match o {
        Some(s) => Some(s.clone()),
        None => None,
    }
}

impl Clone for TelemetryConfig {
    fn clone(&self) -> (r: Self)
        ensures
            r@ == self@,
    {
        TelemetryConfig {
            app_name: self.app_name.clone(),
            env: self.env.clone(),
            endpoint_url: clone_opt(&self.endpoint_url),
            tracer_id: clone_opt(&self.tracer_id),
        }
    }
}

impl Default for TelemetryConfig {
    fn default() -> (r: Self)
        ensures
            r@ == default_config_view(),
    {
        TelemetryConfig {
            app_name: String::new(),
            env: String::new(),
            endpoint_url: None,
            tracer_id: None,
        }
    }
}

/// Default configurations are all alike: two of them hold the same values.
pub proof fn lemma_default_config_unique(a: TelemetryConfig, b: TelemetryConfig)
    requires
        a@ == default_config_view(),
        b@ == default_config_view(),
    ensures
        a@ == b@,
        a.app_name@ == b.app_name@,
        a.env@ == b.env@,
        a.endpoint_url is None && b.endpoint_url is None,
        a.tracer_id is None && b.tracer_id is None,
{
}

/// Layout of the log lines.
#[derive(PartialEq, Eq, Structural, Debug, Clone, Copy)]
pub enum LogFormat {
    /// Compact single-line text.
    Compact,
    /// Structured JSON, with span start and end events left out.
    Json,
}

/// The log layout that an environment selects.
pub open spec fn log_format_for(env: Seq<char>) -> LogFormat {
    if env == development_env() {
        LogFormat::Compact
    } else {
        LogFormat::Json
    }
}

/// A batch span exporter to build: every trace is sampled, and every span
/// carries `service.name = service_name`.
pub struct ExporterPlan {
    pub endpoint: String,
    pub service_name: String,
}

/// What installing a configuration does, after the trace-context propagator,
/// which is always installed.
pub struct InitPlan {
    /// The exporter to build; `None` means no network exporter at all.
    pub exporter: Option<ExporterPlan>,
    /// The layout of the formatting layer.
    pub log_format: LogFormat,
    /// The global tracer to register by name, if any.
    pub tracer_name: Option<String>,
}

/// `plan` is what `config` asks for.
pub open spec fn plan_matches(config: TelemetryConfigView, plan: InitPlan) -> bool {
    &&& (match plan.exporter {
        Some(e) => config.endpoint_url == Some(e.endpoint@) && e.service_name@ == config.app_name,
        None => config.endpoint_url is None,
    })
    &&& plan.log_format == log_format_for(config.env)
    &&& opt_view(plan.tracer_name) == config.tracer_id
}

impl TelemetryConfig {
    /// Decides what installing this configuration does: an exporter exactly
    /// when an endpoint is given, compact logs exactly in the development
    /// environment, and a named tracer exactly when a tracer id is given.
    pub fn init_plan(&self) -> (r: InitPlan)
        ensures
            plan_matches(self@, r),
    {
        let exporter = match &self.endpoint_url {
            Some(url) => Some(ExporterPlan { endpoint: url.clone(), service_name: self.app_name.clone() }),
            None => None,
        };
        let development = String::from_str("development");
        let log_format = if self.env == development {
            LogFormat::Compact
        } else {
            LogFormat::Json
        };
        let tracer_name = clone_opt(&self.tracer_id);
        InitPlan { exporter, log_format, tracer_name }
    }
}

/// Without an endpoint, installing a configuration builds no exporter, so it
/// never reaches the network.
pub proof fn lemma_no_endpoint_no_exporter(config: TelemetryConfigView, plan: InitPlan)
    requires
        plan_matches(config, plan),
        config.endpoint_url is None,
    ensures
        plan.exporter is None,
{
}

/// The development environment always gets compact text logs; every other
/// environment gets JSON logs without span start and end events.
pub proof fn lemma_log_format_by_env(config: TelemetryConfigView, plan: InitPlan)
    requires
        plan_matches(config, plan),
    ensures
        config.env == development_env() ==> plan.log_format == LogFormat::Compact,
        config.env != development_env() ==> plan.log_format == LogFormat::Json,
{
}

/// Why installing telemetry failed.
#[derive(PartialEq, Eq, Structural, Debug, Clone, Copy)]
pub enum InitError {
    /// Telemetry was installed before in this process.
    AlreadyInitialized,
    /// The span exporter could not be built (a malformed endpoint, a transport
    /// that could not be set up).
    ExporterConstruction,
    /// Another process-wide default subscriber was installed already.
    SubscriberInstall,
    /// The bridge from the `log` facade could not be installed.
    LoggerBridge,
}

/// Single-assignment guard over the process-wide telemetry state.
pub struct InitGuard {
    installed: bool,
}

impl InitGuard {
    /// A guard for a process where nothing was installed yet.
    pub fn new() -> (r: Self)
        ensures
            !r.is_installed_spec(),
    {
        InitGuard { installed: false }
    }

    pub closed spec fn is_installed_spec(&self) -> bool {
        self.installed
    }

    /// Whether telemetry was installed.
    pub fn is_installed(&self) -> (r: bool)
        ensures
            r == self.is_installed_spec(),
    {
        self.installed
    }

    /// Claims the right to install: granted once, refused with
    /// `AlreadyInitialized` ever after.
    pub fn claim(&mut self) -> (r: Result<(), InitError>)
        ensures
            final(self).is_installed_spec(),
            old(self).is_installed_spec() ==> r == Err::<(), InitError>(InitError::AlreadyInitialized),
            !old(self).is_installed_spec() ==> r is Ok,
    {
        if self.installed {
            Err(InitError::AlreadyInitialized)
        } else {
            self.installed = true;
            Ok(())
        }
    }
}

impl Default for InitGuard {
    fn default() -> (r: Self)
        ensures
            !r.is_installed_spec(),
    {
        InitGuard::new()
    }
}

} // verus!
