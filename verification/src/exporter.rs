//! The exporter pipeline: configuration derived once at startup, and the
//! bounded buffer between span ends and the background export task.
//!
//! With no endpoint configured the pipeline is a no-op sink: spans are
//! still safe to start and end, nothing is buffered, and nothing can reach
//! the network. With an endpoint configured, ended spans are buffered
//! best-effort (a full buffer drops rather than blocks) until the
//! transport drains them with `flush`.

use vstd::prelude::*;
use vstd::string::StringExecFns;

verus! {

/// How the pipeline exports: not at all, or batching toward an OTLP
/// endpoint address used verbatim.
pub enum ExporterConfig {
    Disabled,
    Otlp { endpoint: String },
}

impl ExporterConfig {
    /// Whether an exporter is wired at all.
    pub open spec fn is_enabled(self) -> bool {
        self is Otlp
    }

    /// Derives the configuration from the value of the exporter-endpoint
    /// environment variable: a present value is used verbatim as the
    /// target address, an absent one disables tracing. Never an error —
    /// tracing is an optional capability.
    pub fn from_env_value(value: Option<String>) -> (c: ExporterConfig)
        ensures
            match value {
                Some(e) => c matches ExporterConfig::Otlp { endpoint } && endpoint@ == e@,
                None => c is Disabled,
            },
    {
        match value {
            Some(e) => ExporterConfig::Otlp { endpoint: e },
            None => ExporterConfig::Disabled,
        }
    }
}

/// A finished span, as handed to the exporter: its name, identity,
/// parenthood, flags and timestamps. A `parent_span_id` of zero marks a
/// trace root.
pub struct SpanRecord {
    pub name: String,
    pub trace_id: u128,
    pub span_id: u64,
    pub parent_span_id: u64,
    pub flags: u8,
    pub start_time: u64,
    pub end_time: u64,
}

/// The installed pipeline: the exporter configuration, the service-name
/// resource attribute that tags every exported span, and the bounded
/// buffer toward the background export task.
pub struct TracerProvider {
    pub config: ExporterConfig,
    pub service_name: String,
    pub buffer: Vec<SpanRecord>,
    pub capacity: usize,
}

/// How one ended span moves a provider: everything but the buffer stays;
/// a disabled provider buffers nothing; an enabled one appends the record
/// when there is room and drops it when the buffer is full, rather than
/// blocking the request path.
pub open spec fn offered(p0: TracerProvider, p1: TracerProvider, rec: SpanRecord) -> bool {
    &&& p1.config == p0.config
    &&& p1.capacity == p0.capacity
    &&& p1.service_name == p0.service_name
    &&& !p0.enabled() ==> p1.buffer@ == p0.buffer@
    &&& p0.enabled() && p0.buffer@.len() < p0.capacity ==> p1.buffer@ == p0.buffer@.push(rec)
    &&& p0.enabled() && p0.buffer@.len() >= p0.capacity ==> p1.buffer@ == p0.buffer@
}

impl TracerProvider {
    /// Well-formed: the buffer respects its bound, and a disabled
    /// provider buffers nothing at all.
    pub open spec fn wf(self) -> bool {
        &&& self.buffer@.len() <= self.capacity
        &&& !self.enabled() ==> self.buffer@.len() == 0
    }

    /// Whether an exporter is wired.
    pub open spec fn enabled(self) -> bool {
        self.config.is_enabled()
    }

    /// Installs the pipeline for a configuration: an empty buffer bounded
    /// by `capacity`, every span tagged with this service's name.
    pub fn install(config: ExporterConfig, capacity: usize) -> (p: TracerProvider)
        ensures
            p.wf(),
            p.config == config,
            p.capacity == capacity,
            p.buffer@.len() == 0,
            p.service_name@ == "rustpaymentapi"@,
    {
        TracerProvider {
            config,
            service_name: String::from_str("rustpaymentapi"),
            buffer: Vec::new(),
            capacity,
        }
    }

    /// Accepts one ended span, per `offered`: a no-op without an
    /// exporter, an append when there is room, a drop when there is none.
    pub fn offer(&mut self, rec: SpanRecord)
        ensures
            offered(*old(self), *final(self), rec),
            old(self).wf() ==> final(self).wf(),
    {
        match &self.config {
            ExporterConfig::Otlp { .. } => {
                if self.buffer.len() < self.capacity {
                    self.buffer.push(rec);
                }
            },
            ExporterConfig::Disabled => {},
        }
    }

    /// Drains the buffer for the transport: what comes out is exactly
    /// what was buffered, in order, and the buffer is left empty. With no
    /// exporter configured there is nothing to drain.
    pub fn flush(&mut self) -> (out: Vec<SpanRecord>)
        requires
            old(self).wf(),
        ensures
            out@ == old(self).buffer@,
            final(self).buffer@.len() == 0,
            final(self).config == old(self).config,
            final(self).capacity == old(self).capacity,
            final(self).service_name == old(self).service_name,
            final(self).wf(),
            !old(self).enabled() ==> out@.len() == 0,
    {
        let mut out: Vec<SpanRecord> = Vec::new();
        core::mem::swap(&mut self.buffer, &mut out);
        out
    }
}

/// With no exporter configured, ending spans can never accumulate
/// anything toward the network: however many spans are ended one after
/// another, a well-formed disabled provider stays well-formed, disabled,
/// and empty — so there is nothing a transport could ever send.
pub proof fn lemma_disabled_pipeline_stays_empty(
    p0: TracerProvider,
    p1: TracerProvider,
    rec: SpanRecord,
)
    requires
        p0.wf(),
        !p0.enabled(),
        offered(p0, p1, rec),
    ensures
        p1.wf(),
        !p1.enabled(),
        p1.buffer@.len() == 0,
{
}

/// The startup bootstrap, run once before any request is served: derives
/// the exporter configuration from the endpoint variable's value and
/// installs the pipeline. An absent endpoint leaves a no-op pipeline and
/// the service serving normally; context propagation itself is stateless
/// here and works either way.
pub fn init_telemetry(endpoint: Option<String>, capacity: usize) -> (p: TracerProvider)
    ensures
        p.wf(),
        p.buffer@.len() == 0,
        p.capacity == capacity,
        p.service_name@ == "rustpaymentapi"@,
        match endpoint {
            Some(e) => p.config matches ExporterConfig::Otlp { endpoint: a } && a@ == e@,
            None => p.config is Disabled,
        },
{
    let config = ExporterConfig::from_env_value(endpoint);
    TracerProvider::install(config, capacity)
}

} // verus!
