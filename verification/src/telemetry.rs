//! The telemetry of one process: at most one provider per signal kind,
//! made once at startup and shut down once at the end.

use crate::context::TelemetryContext;
use crate::export::{
    accepted_among, after_batch, after_offer, after_offers, after_shutdown, flushed_by_shutdown, next_batch_of,
    offer_outcome, usable_policy, BatchPolicy, Offer, Provider, ProviderView,
};
use crate::logging::{
    effective_level_name, forwarded, option_str_view, scope_view, severity_named, LogBridge, LogEvent, LogRecord,
    Severity,
};
use crate::metrics::{deltas_of, reset, MetricDelta, MetricsCollector, COLLECT_INTERVAL_SECS};
use crate::propagation::{standard_formats, Propagator};
use crate::span::Span;
use vstd::pervasive::unreached;
use vstd::prelude::*;

verus! {

/// The three kinds of signal.
#[derive(Clone, Copy, Debug, PartialEq, Eq, Structural)]
pub enum SignalKind {
    Trace,
    Log,
    Metric,
}

/// What the attempt to build the exporter for a provider came to.
#[derive(Clone, Copy, Debug, PartialEq, Eq, Structural)]
pub enum ExporterState {
    /// The exporter is built and its endpoint answers.
    Ready,
    /// The endpoint is not a well-formed address.
    MalformedEndpoint,
    /// The endpoint does not answer.
    Unreachable,
}

impl ExporterState {
    /// What the building of an exporter says of its endpoint. An exporter
    /// opens its connection only when it first sends, so one that cannot
    /// even be built was given an endpoint that is no address.
    pub fn of_build(built: bool) -> (state: ExporterState)
        ensures
            state == if built {
                ExporterState::Ready
            } else {
                ExporterState::MalformedEndpoint
            },
    {
        if built {
            ExporterState::Ready
        } else {
            ExporterState::MalformedEndpoint
        }
    }
}

/// What a provider is made from.
#[derive(Debug)]
pub struct ProviderConfig {
    /// Where the exporter sends to.
    pub endpoint: String,
    /// The name under which this process appears in every signal.
    pub service_name: String,
    /// Batch size cap, flush interval and queue capacity.
    pub policy: BatchPolicy,
    /// The least severity that is logged; `info` where none is given.
    /// Only the log provider reads it.
    pub min_severity: Option<String>,
}

/// Why a provider could not be made. Each of these ends the startup.
#[derive(Debug)]
pub enum BootstrapError {
    /// The process already has a provider of this kind.
    AlreadyInstalled(SignalKind),
    /// The exporter endpoint is not a well-formed address.
    MalformedEndpoint,
    /// The exporter endpoint does not answer.
    Unreachable,
    /// The batch size cap is zero or above the queue capacity.
    UnusablePolicy,
    /// The configured severity names no severity; the text is enclosed.
    InvalidSeverity(String),
}

/// A bootstrap error as specifications see it.
pub enum BootstrapErrorView {
    AlreadyInstalled(SignalKind),
    MalformedEndpoint,
    Unreachable,
    UnusablePolicy,
    InvalidSeverity(Seq<char>),
}

impl View for BootstrapError {
    type V = BootstrapErrorView;

    open spec fn view(&self) -> BootstrapErrorView {
        match self {
            BootstrapError::AlreadyInstalled(kind) => BootstrapErrorView::AlreadyInstalled(*kind),
            BootstrapError::MalformedEndpoint => BootstrapErrorView::MalformedEndpoint,
            BootstrapError::Unreachable => BootstrapErrorView::Unreachable,
            BootstrapError::UnusablePolicy => BootstrapErrorView::UnusablePolicy,
            BootstrapError::InvalidSeverity(text) => BootstrapErrorView::InvalidSeverity(text@),
        }
    }
}

/// The telemetry of a process as specifications see it.
pub struct TelemetryView {
    pub tracer: Option<ProviderView<Span>>,
    pub logger: Option<ProviderView<LogRecord>>,
    pub meter: Option<ProviderView<MetricDelta>>,
    /// The least severity that the log bridge lets through.
    pub least: Option<Severity>,
}

/// The view of an optional provider.
pub open spec fn provider_view<T>(p: Option<Provider<T>>) -> Option<ProviderView<T>> {
    match p {
        Some(provider) => Some(provider@),
        None => None,
    }
}

/// The view of an optional string.
pub open spec fn option_string_view(t: Option<String>) -> Option<Seq<char>> {
    match t {
        Some(s) => Some(s@),
        None => None,
    }
}

/// Whether the process has a provider of this kind.
pub open spec fn is_installed(t: TelemetryView, kind: SignalKind) -> bool {
    match kind {
        SignalKind::Trace => t.tracer is Some,
        SignalKind::Log => t.logger is Some,
        SignalKind::Metric => t.meter is Some,
    }
}

/// Why `init` fails, if it does. A second provider of one kind is
/// refused before anything else is looked at; then the exporter, then the
/// policy, then, for the log provider, the severity.
pub open spec fn init_error(
    t: TelemetryView,
    kind: SignalKind,
    policy: BatchPolicy,
    min_severity: Option<Seq<char>>,
    exporter: ExporterState,
) -> Option<BootstrapErrorView> {
    if is_installed(t, kind) {
        Some(BootstrapErrorView::AlreadyInstalled(kind))
    } else if exporter == ExporterState::MalformedEndpoint {
        Some(BootstrapErrorView::MalformedEndpoint)
    } else if exporter == ExporterState::Unreachable {
        Some(BootstrapErrorView::Unreachable)
    } else if !usable_policy(policy) {
        Some(BootstrapErrorView::UnusablePolicy)
    } else if kind == SignalKind::Log && severity_named(effective_level_name(min_severity)) is None {
        Some(BootstrapErrorView::InvalidSeverity(effective_level_name(min_severity)))
    } else {
        None
    }
}

/// A running provider with nothing queued and nothing lost.
pub open spec fn new_provider<T>(policy: BatchPolicy) -> ProviderView<T> {
    ProviderView { queued: Seq::empty(), policy, shut_down: false, dropped: 0 }
}

/// The telemetry after a provider of `kind` was made.
pub open spec fn after_init(
    t: TelemetryView,
    kind: SignalKind,
    policy: BatchPolicy,
    min_severity: Option<Seq<char>>,
) -> TelemetryView {
    match kind {
        SignalKind::Trace => TelemetryView { tracer: Some(new_provider(policy)), ..t },
        SignalKind::Log => TelemetryView {
            logger: Some(new_provider(policy)),
            least: severity_named(effective_level_name(min_severity)),
            ..t
        },
        SignalKind::Metric => TelemetryView { meter: Some(new_provider(policy)), ..t },
    }
}

/// How many records wait in an optional provider.
pub open spec fn queued_len<T>(p: Option<ProviderView<T>>) -> Option<usize> {
    match p {
        Some(provider) => Some(provider.queued.len() as usize),
        None => None,
    }
}

/// How many records an optional provider has lost.
pub open spec fn dropped_of<T>(p: Option<ProviderView<T>>) -> Option<u64> {
    match p {
        Some(provider) => Some(provider.dropped),
        None => None,
    }
}

/// The policy of an optional provider.
pub open spec fn policy_of<T>(p: Option<ProviderView<T>>) -> Option<BatchPolicy> {
    match p {
        Some(provider) => Some(provider.policy),
        None => None,
    }
}

/// Whether an optional provider has been shut down.
pub open spec fn shut_down_of<T>(p: Option<ProviderView<T>>) -> Option<bool> {
    match p {
        Some(provider) => Some(provider.shut_down),
        None => None,
    }
}

/// The next batch of an optional provider.
pub open spec fn batch_of<T>(p: Option<ProviderView<T>>) -> Seq<T> {
    match p {
        Some(provider) => next_batch_of(provider),
        None => Seq::empty(),
    }
}

/// An optional provider after its next batch was taken.
pub open spec fn without_batch<T>(p: Option<ProviderView<T>>) -> Option<ProviderView<T>> {
    match p {
        Some(provider) => Some(after_batch(provider)),
        None => None,
    }
}

/// What the shutdown of an optional provider flushes.
pub open spec fn flushed_of<T>(p: Option<ProviderView<T>>) -> Seq<T> {
    match p {
        Some(provider) => flushed_by_shutdown(provider),
        None => Seq::empty(),
    }
}

/// An optional provider after its shutdown.
pub open spec fn shut<T>(p: Option<ProviderView<T>>) -> Option<ProviderView<T>> {
    match p {
        Some(provider) => Some(after_shutdown(provider)),
        None => None,
    }
}

/// The telemetry after every provider was shut down.
pub open spec fn after_finalize(t: TelemetryView) -> TelemetryView {
    TelemetryView { tracer: shut(t.tracer), logger: shut(t.logger), meter: shut(t.meter), least: t.least }
}

/// What a shutdown handed out, in the order in which the providers were
/// shut down: spans first, then log records, then metric deltas.
pub struct FlushReport {
    pub spans: Vec<Span>,
    pub logs: Vec<LogRecord>,
    pub metrics: Vec<MetricDelta>,
}

/// The providers of one process. They are reached only through the
/// methods below, so that none is replaced once it has been made.
pub struct Telemetry {
    tracer: Option<Provider<Span>>,
    logger: Option<Provider<LogRecord>>,
    meter: Option<Provider<MetricDelta>>,
    bridge: Option<LogBridge>,
}

impl View for Telemetry {
    type V = TelemetryView;

    closed spec fn view(&self) -> TelemetryView {
        TelemetryView {
            tracer: provider_view(self.tracer),
            logger: provider_view(self.logger),
            meter: provider_view(self.meter),
            least: match self.bridge {
                Some(b) => Some(b.least),
                None => None,
            },
        }
    }
}

impl Telemetry {
    /// The telemetry of a process that has made no provider yet.
    pub fn new() -> (t: Self)
        ensures
            t@ == (TelemetryView { tracer: None, logger: None, meter: None, least: None }),
    {
        Telemetry { tracer: None, logger: None, meter: None, bridge: None }
    }

    /// Whether the process has a provider of this kind.
    pub fn has(&self, kind: SignalKind) -> (b: bool)
        ensures
            b == is_installed(self@, kind),
    {
        match kind {
            SignalKind::Trace => self.tracer.is_some(),
            SignalKind::Log => self.logger.is_some(),
            SignalKind::Metric => self.meter.is_some(),
        }
    }

    /// The least severity that the log bridge lets through; none where
    /// there is no log provider.
    pub fn least_severity(&self) -> (least: Option<Severity>)
        ensures
            least == self@.least,
    {
        match self.bridge {
            Some(bridge) => Some(bridge.least),
            None => None,
        }
    }

    /// How many records wait in the provider of this kind; none where
    /// there is no such provider.
    pub fn pending(&self, kind: SignalKind) -> (n: Option<usize>)
        ensures
            n == match kind {
                SignalKind::Trace => queued_len(self@.tracer),
                SignalKind::Log => queued_len(self@.logger),
                SignalKind::Metric => queued_len(self@.meter),
            },
    {
        match kind {
            SignalKind::Trace => match &self.tracer {
                Some(provider) => Some(provider.pending()),
                None => None,
            },
            SignalKind::Log => match &self.logger {
                Some(provider) => Some(provider.pending()),
                None => None,
            },
            SignalKind::Metric => match &self.meter {
                Some(provider) => Some(provider.pending()),
                None => None,
            },
        }
    }

    /// How many records the provider of this kind has lost; none where
    /// there is no such provider.
    pub fn dropped(&self, kind: SignalKind) -> (n: Option<u64>)
        ensures
            n == match kind {
                SignalKind::Trace => dropped_of(self@.tracer),
                SignalKind::Log => dropped_of(self@.logger),
                SignalKind::Metric => dropped_of(self@.meter),
            },
    {
        match kind {
            SignalKind::Trace => match &self.tracer {
                Some(provider) => Some(provider.dropped()),
                None => None,
            },
            SignalKind::Log => match &self.logger {
                Some(provider) => Some(provider.dropped()),
                None => None,
            },
            SignalKind::Metric => match &self.meter {
                Some(provider) => Some(provider.dropped()),
                None => None,
            },
        }
    }

    /// The batch policy of the provider of this kind; none where there is
    /// no such provider.
    pub fn policy(&self, kind: SignalKind) -> (p: Option<BatchPolicy>)
        ensures
            p == match kind {
                SignalKind::Trace => policy_of(self@.tracer),
                SignalKind::Log => policy_of(self@.logger),
                SignalKind::Metric => policy_of(self@.meter),
            },
    {
        match kind {
            SignalKind::Trace => match &self.tracer {
                Some(provider) => Some(provider.policy()),
                None => None,
            },
            SignalKind::Log => match &self.logger {
                Some(provider) => Some(provider.policy()),
                None => None,
            },
            SignalKind::Metric => match &self.meter {
                Some(provider) => Some(provider.policy()),
                None => None,
            },
        }
    }

    /// Whether the provider of this kind has been shut down; none where
    /// there is no such provider.
    pub fn is_shut_down(&self, kind: SignalKind) -> (b: Option<bool>)
        ensures
            b == match kind {
                SignalKind::Trace => shut_down_of(self@.tracer),
                SignalKind::Log => shut_down_of(self@.logger),
                SignalKind::Metric => shut_down_of(self@.meter),
            },
    {
        match kind {
            SignalKind::Trace => match &self.tracer {
                Some(provider) => Some(provider.is_shut_down()),
                None => None,
            },
            SignalKind::Log => match &self.logger {
                Some(provider) => Some(provider.is_shut_down()),
                None => None,
            },
            SignalKind::Metric => match &self.meter {
                Some(provider) => Some(provider.is_shut_down()),
                None => None,
            },
        }
    }

    /// Takes the next batch of spans for the exporter; empty where there
    /// is no trace provider.
    pub fn export_spans(&mut self) -> (batch: Vec<Span>)
        ensures
            batch@ == batch_of(old(self)@.tracer),
            final(self)@ == (TelemetryView { tracer: without_batch(old(self)@.tracer), ..old(self)@ }),
    {
        match &mut self.tracer {
            Some(provider) => provider.next_batch(),
            None => Vec::new(),
        }
    }

    /// Takes the next batch of log records for the exporter; empty where
    /// there is no log provider.
    pub fn export_logs(&mut self) -> (batch: Vec<LogRecord>)
        ensures
            batch@ == batch_of(old(self)@.logger),
            final(self)@ == (TelemetryView { logger: without_batch(old(self)@.logger), ..old(self)@ }),
    {
        match &mut self.logger {
            Some(provider) => provider.next_batch(),
            None => Vec::new(),
        }
    }

    /// Takes the next batch of metric deltas for the exporter; empty where
    /// there is no metric provider.
    pub fn export_metrics(&mut self) -> (batch: Vec<MetricDelta>)
        ensures
            batch@ == batch_of(old(self)@.meter),
            final(self)@ == (TelemetryView { meter: without_batch(old(self)@.meter), ..old(self)@ }),
    {
        match &mut self.meter {
            Some(provider) => provider.next_batch(),
            None => Vec::new(),
        }
    }

    /// Makes the provider of one kind. `exporter` says what the attempt
    /// to build its exporter came to. On an error nothing is installed.
    pub fn init(&mut self, kind: SignalKind, config: &ProviderConfig, exporter: ExporterState) -> (out: Result<
        (),
        BootstrapError,
    >)
        ensures
            match out {
                Ok(_) => init_error(
                    old(self)@,
                    kind,
                    config.policy,
                    option_string_view(config.min_severity),
                    exporter,
                ) is None && final(self)@ == after_init(
                    old(self)@,
                    kind,
                    config.policy,
                    option_string_view(config.min_severity),
                ),
                Err(e) => init_error(
                    old(self)@,
                    kind,
                    config.policy,
                    option_string_view(config.min_severity),
                    exporter,
                ) == Some(e@) && final(self)@ == old(self)@,
            },
    {
        if self.has(kind) {
            return Err(BootstrapError::AlreadyInstalled(kind));
        }
        match exporter {
            ExporterState::MalformedEndpoint => {
                return Err(BootstrapError::MalformedEndpoint);
            },
            ExporterState::Unreachable => {
                return Err(BootstrapError::Unreachable);
            },
            ExporterState::Ready => {},
        }
        if !config.policy.is_usable() {
            return Err(BootstrapError::UnusablePolicy);
        }
        match kind {
            SignalKind::Trace => {
                self.tracer = Some(Provider::new(config.policy));
            },
            SignalKind::Log => {
                let configured: Option<&str> = match &config.min_severity {
                    Some(text) => Some(text.as_str()),
                    None => None,
                };
                match LogBridge::from_level_name(configured) {
                    Ok(bridge) => {
                        self.logger = Some(Provider::new(config.policy));
                        self.bridge = Some(bridge);
                    },
                    Err(invalid) => {
                        return Err(BootstrapError::InvalidSeverity(invalid.text));
                    },
                }
            },
            SignalKind::Metric => {
                self.meter = Some(Provider::new(config.policy));
            },
        }
        Ok(())
    }

    /// Offers a finished span to the trace provider; none where the
    /// process has no trace provider.
    pub fn record_span(&mut self, span: Span) -> (out: Option<Offer>)
        ensures
            match old(self)@.tracer {
                Some(p) => out == Some(offer_outcome(p)) && final(self)@ == (TelemetryView {
                    tracer: Some(after_offer(p, span)),
                    ..old(self)@
                }),
                None => out is None && final(self)@ == old(self)@,
            },
    {
        match &mut self.tracer {
            Some(provider) => Some(provider.offer(span)),
            None => None,
        }
    }

    /// Sends an event through the log bridge to the log provider. The
    /// answer is none where the process has no log provider or the event
    /// is less grave than the bridge lets through; then nothing changes.
    pub fn log(&mut self, event: &LogEvent, scope: Option<&TelemetryContext>) -> (out: Option<Offer>)
        ensures
            old(self)@.logger is None || old(self)@.least is None ==> out is None && final(self)@ == old(self)@,
            old(self)@.logger is Some && old(self)@.least is Some ==> match forwarded(
                old(self)@.least->0,
                event@,
                scope_view(scope),
            ) {
                Some(record) => out == Some(offer_outcome(old(self)@.logger->0)) && exists|r: LogRecord|
                    r@ == record && final(self)@ == (TelemetryView {
                        logger: Some(#[trigger] after_offer(old(self)@.logger->0, r)),
                        ..old(self)@
                    }),
                None => out is None && final(self)@ == old(self)@,
            },
    {
        let bridge = match self.bridge {
            Some(b) => b,
            None => {
                return None;
            },
        };
        match &mut self.logger {
            Some(provider) => {
                match bridge.forward(event, scope) {
                    Some(record) => {
                        let outcome = provider.offer(record);
                        Some(outcome)
                    },
                    None => None,
                }
            },
            None => None,
        }
    }

    /// Reads the collector and offers what every counter has gained to the
    /// metric provider, in the order of the counters. The answer is how
    /// many deltas were accepted; it is none where the process has no
    /// metric provider, and then the collector is not read.
    pub fn collect_metrics(&mut self, collector: &mut MetricsCollector) -> (out: Option<usize>)
        ensures
            old(self)@.meter is None ==> out is None && final(self)@ == old(self)@,
            old(self)@.meter is None ==> final(collector).counters() == old(collector).counters(),
            old(self)@.meter is Some ==> final(collector).counters() == reset(old(collector).counters()),
            old(self)@.meter is Some ==> exists|records: Seq<MetricDelta>|
                {
                    &&& deltas_of(records) == old(collector).counters()
                    &&& out is Some
                    &&& out->0 == accepted_among(old(self)@.meter->0, records)
                    &&& final(self)@ == (TelemetryView {
                        meter: Some(#[trigger] after_offers(old(self)@.meter->0, records)),
                        ..old(self)@
                    })
                },
    {
        let ghost before = self@;
        let ghost mut records: Seq<MetricDelta> = Seq::empty();
        let out = match &mut self.meter {
            Some(provider) => {
                let ghost start = provider@;
                let deltas = collector.collect();
                let mut accepted: usize = 0;
                let mut i: usize = 0;
                while i < deltas.len()
                    invariant
                        i <= deltas.len(),
                        records.len() == i,
                        accepted <= i,
                        deltas_of(records) == deltas_of(deltas@).take(i as int),
                        provider@ == after_offers(start, records),
                        accepted == accepted_among(start, records),
                    decreases deltas.len() - i,
                {
                    let record = MetricDelta { name: deltas[i].name.clone(), delta: deltas[i].delta };
                    let ghost earlier = records;
                    proof {
                        records = records.push(record);
                        assert(records.drop_last() =~= earlier);
                    }
                    match provider.offer(record) {
                        Offer::Accepted => {
                            accepted += 1;
                        },
                        _ => {},
                    }
                    i += 1;
                }
                Some(accepted)
            },
            None => None,
        };
        proof {
            if before.meter is Some {
                assert(self@ == (TelemetryView { meter: Some(after_offers(before.meter->0, records)), ..before }));
            }
        }
        out
    }

    /// Shuts down every provider, spans first, then logs, then metrics,
    /// and hands out what each had waiting. A second call hands out
    /// nothing and changes nothing.
    pub fn shutdown(&mut self) -> (report: FlushReport)
        ensures
            report.spans@ == flushed_of(old(self)@.tracer),
            report.logs@ == flushed_of(old(self)@.logger),
            report.metrics@ == flushed_of(old(self)@.meter),
            final(self)@ == after_finalize(old(self)@),
    {
        let spans = match &mut self.tracer {
            Some(provider) => provider.shutdown(),
            None => Vec::new(),
        };
        let logs = match &mut self.logger {
            Some(provider) => provider.shutdown(),
            None => Vec::new(),
        };
        let metrics = match &mut self.meter {
            Some(provider) => provider.shutdown(),
            None => Vec::new(),
        };
        FlushReport { spans, logs, metrics }
    }
}

/// Idempotent shutdown. Finalizing twice flushes nothing the second time
/// and leaves the telemetry as the first call left it.
pub proof fn lemma_finalize_twice(t: TelemetryView)
    ensures
        flushed_of(after_finalize(t).tracer) == Seq::<Span>::empty(),
        flushed_of(after_finalize(t).logger) == Seq::<LogRecord>::empty(),
        flushed_of(after_finalize(t).meter) == Seq::<MetricDelta>::empty(),
        after_finalize(after_finalize(t)) == after_finalize(t),
{
}

/// One instance per kind. Once a provider of a kind exists, every further
/// `init` for that kind fails, whatever the configuration and whatever
/// the exporter, also after a shutdown.
pub proof fn lemma_second_init_fails(
    t: TelemetryView,
    kind: SignalKind,
    policy: BatchPolicy,
    min_severity: Option<Seq<char>>,
    exporter: ExporterState,
)
    requires
        is_installed(t, kind),
    ensures
        init_error(t, kind, policy, min_severity, exporter) == Some(BootstrapErrorView::AlreadyInstalled(kind)),
        is_installed(after_finalize(t), kind),
{
}

/// The policy of the metric provider: the configured one, read every ten
/// seconds.
pub open spec fn metric_policy_of(policy: BatchPolicy) -> BatchPolicy {
    BatchPolicy { interval_secs: COLLECT_INTERVAL_SECS, ..policy }
}

/// Makes the trace provider and the propagator that goes with it:
/// baggage first, then trace context.
pub fn init_tracer_provider(telemetry: &mut Telemetry, config: &ProviderConfig, exporter: ExporterState) -> (out:
    Result<Propagator, BootstrapError>)
    ensures
        match out {
            Ok(propagator) => init_error(
                old(telemetry)@,
                SignalKind::Trace,
                config.policy,
                option_string_view(config.min_severity),
                exporter,
            ) is None && final(telemetry)@ == after_init(
                old(telemetry)@,
                SignalKind::Trace,
                config.policy,
                option_string_view(config.min_severity),
            ) && propagator.formats() == standard_formats(),
            Err(e) => init_error(
                old(telemetry)@,
                SignalKind::Trace,
                config.policy,
                option_string_view(config.min_severity),
                exporter,
            ) == Some(e@) && final(telemetry)@ == old(telemetry)@,
        },
{
    match telemetry.init(SignalKind::Trace, config, exporter) {
        Ok(_) => Ok(Propagator::standard()),
        Err(e) => Err(e),
    }
}

/// Makes the log provider and the bridge in front of it, which lets
/// through the configured severity and everything graver.
pub fn init_logger_provider(telemetry: &mut Telemetry, config: &ProviderConfig, exporter: ExporterState) -> (out:
    Result<LogBridge, BootstrapError>)
    ensures
        match out {
            Ok(bridge) => init_error(
                old(telemetry)@,
                SignalKind::Log,
                config.policy,
                option_string_view(config.min_severity),
                exporter,
            ) is None && final(telemetry)@ == after_init(
                old(telemetry)@,
                SignalKind::Log,
                config.policy,
                option_string_view(config.min_severity),
            ) && Some(bridge.least) == severity_named(
                effective_level_name(option_string_view(config.min_severity)),
            ),
            Err(e) => init_error(
                old(telemetry)@,
                SignalKind::Log,
                config.policy,
                option_string_view(config.min_severity),
                exporter,
            ) == Some(e@) && final(telemetry)@ == old(telemetry)@,
        },
{
    match telemetry.init(SignalKind::Log, config, exporter) {
        Ok(_) => match telemetry.bridge {
            Some(bridge) => Ok(bridge),
            None => unreached(),
        },
        Err(e) => Err(e),
    }
}

/// Makes the metric provider. Whatever interval is configured, metrics
/// are read every ten seconds.
pub fn init_meter_provider(telemetry: &mut Telemetry, config: &ProviderConfig, exporter: ExporterState) -> (out:
    Result<(), BootstrapError>)
    ensures
        match out {
            Ok(_) => init_error(
                old(telemetry)@,
                SignalKind::Metric,
                metric_policy_of(config.policy),
                None,
                exporter,
            ) is None && final(telemetry)@ == after_init(
                old(telemetry)@,
                SignalKind::Metric,
                metric_policy_of(config.policy),
                None,
            ),
            Err(e) => init_error(
                old(telemetry)@,
                SignalKind::Metric,
                metric_policy_of(config.policy),
                None,
                exporter,
            ) == Some(e@) && final(telemetry)@ == old(telemetry)@,
        },
{
    let metric_config = ProviderConfig {
        endpoint: config.endpoint.clone(),
        service_name: config.service_name.clone(),
        policy: BatchPolicy {
            capacity: config.policy.capacity,
            max_batch: config.policy.max_batch,
            interval_secs: COLLECT_INTERVAL_SECS,
        },
        min_severity: None,
    };
    telemetry.init(SignalKind::Metric, &metric_config, exporter)
}

} // verus!
