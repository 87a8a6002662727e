//! The worker as a state machine: what it knows, and what each action and each
//! outcome makes of it.

use crate::data::{
    Application, Configuration, Dependency, Host, Integration, Log, PayloadModel, SerieModel, Tag,
};
use crate::metrics::{lookup, ContextKey, MetricContext};
use crate::worker::config::Config;
use crate::worker::scheduler::SchedulerModel;
use crate::worker::store::{has_key, key_index, keys_unique, put, StoreModel};
use crate::worker::{
    AfterAggregates, AfterSend, AfterSeries, FlushedSeries, LifecycleAction, LogIdentifier,
    TelemetryActions, METRICS_FLUSH_INTERVAL_SECS,
};
use vstd::prelude::*;

verus! {

/// What the worker asks for, with payloads as models.
#[verifier::ext_equal]
pub enum CommandModel<V> {
    Continue,
    Break,
    AddPoint(V, ContextKey, Vec<Tag>),
    FlushAggregates(AfterAggregates),
    TakeSeries(AfterSeries),
    Send(PayloadModel<V>, AfterSend),
    SendAll(Seq<PayloadModel<V>>),
}

/// What the worker knows.
#[verifier::ext_equal]
pub struct WorkerModel {
    pub started: bool,
    pub dependencies: StoreModel<Dependency>,
    pub integrations: StoreModel<Integration>,
    pub configurations: StoreModel<Configuration>,
    pub logs: Seq<(LogIdentifier, Log)>,
    pub deadlines: SchedulerModel,
    pub seq_id: u64,
    pub runtime_id: Seq<char>,
    pub host: Host,
    pub app: Application,
    pub config: Config,
}

/// A list of the one payload, or of none.
pub open spec fn optional<V>(present: bool, payload: PayloadModel<V>) -> Seq<PayloadModel<V>> {
    if present {
        seq![payload]
    } else {
        Seq::empty()
    }
}

/// The series that `flushed` makes under `context`: the tags of the points come
/// first, those of the context after them.
pub open spec fn serie_of<V>(
    flushed: FlushedSeries<V>,
    context: MetricContext,
) -> SerieModel<V> {
    SerieModel {
        namespace: context.namespace,
        metric: context.name@,
        points: flushed.points@,
        tags: flushed.extra_tags@ + context.tags@,
        common: context.common,
        _type: context.metric_type,
        interval: METRICS_FLUSH_INTERVAL_SECS,
    }
}

/// The series of those of `flushed` whose context is registered, in order.
pub open spec fn metrics_series<V>(
    flushed: Seq<FlushedSeries<V>>,
    contexts: Seq<MetricContext>,
) -> Seq<SerieModel<V>> {
    flushed.filter_map(
        |f: FlushedSeries<V>|
            match lookup(contexts, f.context_key) {
                Some(context) => Some(serie_of(f, context)),
                None => None,
            },
    )
}

impl WorkerModel {
    /// The stores respect their bounds, no log location is queued twice, and
    /// every event that the worker schedules has a delay.
    pub open spec fn wf(self) -> bool {
        &&& self.dependencies.wf()
        &&& self.integrations.wf()
        &&& self.configurations.wf()
        &&& keys_unique(self.logs)
        &&& self.deadlines.knows(LifecycleAction::FlushMetricAggr)
        &&& self.deadlines.knows(LifecycleAction::FlushData)
        &&& self.deadlines.knows(LifecycleAction::ExtendedHeartbeat)
    }

    /// The payloads for the items still to be reported: dependencies, then
    /// integrations, then configuration, each only if there are any.
    pub open spec fn app_events<V>(self) -> Seq<PayloadModel<V>> {
        optional(
            self.dependencies.unflushed().len() > 0,
            PayloadModel::AppDependenciesLoaded(self.dependencies.unflushed()),
        ) + optional(
            self.integrations.unflushed().len() > 0,
            PayloadModel::AppIntegrationsChange(self.integrations.unflushed()),
        ) + optional(
            self.configurations.unflushed().len() > 0,
            PayloadModel::AppClientConfigurationChange(self.configurations.unflushed()),
        )
    }

    /// What a flush sends first: the items to report with a heartbeat behind
    /// them, or the heartbeat alone.
    pub open spec fn flush_payload<V>(self) -> PayloadModel<V> {
        if self.app_events::<V>().len() == 0 {
            PayloadModel::AppHeartbeat
        } else {
            PayloadModel::MessageBatch(self.app_events::<V>().push(PayloadModel::AppHeartbeat))
        }
    }

    /// The pending logs, oldest first.
    pub open spec fn log_list(self) -> Seq<Log> {
        self.logs.map_values(|entry: (LogIdentifier, Log)| entry.1)
    }

    /// The payloads for the pending logs and for `series`, each only if there
    /// are any.
    pub open spec fn observability<V>(self, series: Seq<SerieModel<V>>) -> Seq<PayloadModel<V>> {
        optional(self.logs.len() > 0, PayloadModel::Logs(self.log_list())) + optional(
            series.len() > 0,
            PayloadModel::GenerateMetrics(series),
        )
    }

    /// What is sent at the end: a batch of the items to report that says that
    /// the application closes, and a batch of logs and series if there are any.
    pub open spec fn closing<V>(self, series: Seq<SerieModel<V>>) -> Seq<PayloadModel<V>> {
        seq![
            PayloadModel::MessageBatch(self.app_events::<V>().push(PayloadModel::AppClosing)),
        ] + optional(
            self.observability(series).len() > 0,
            PayloadModel::MessageBatch(self.observability(series)),
        )
    }

    /// The log that is queued under `identifier` once `log` was added there:
    /// the one that was queued before, or `log`, counted once more.
    pub open spec fn counted_log(self, identifier: LogIdentifier, log: Log) -> Log {
        let queued = if has_key(self.logs, identifier) {
            self.logs[key_index(self.logs, identifier)].1
        } else {
            log
        };
        Log { count: (queued.count + 1) as u32, ..queued }
    }

    /// Whether `action` leaves every log count in range.
    pub open spec fn counts_fit<V>(self, action: TelemetryActions<V>) -> bool {
        action matches TelemetryActions::AddLog((identifier, log)) ==> (if has_key(
            self.logs,
            identifier,
        ) {
            self.logs[key_index(self.logs, identifier)].1.count
        } else {
            log.count
        }) < u32::MAX
    }

    /// The worker once `payload` was delivered: what was sent is not pending any
    /// more.
    pub open spec fn sent_success<V>(self, payload: PayloadModel<V>) -> WorkerModel
        decreases payload,
    {
        match payload {
            PayloadModel::AppStarted(p) => WorkerModel {
                configurations: self.configurations.removed_flushed(p.len()),
                ..self
            },
            PayloadModel::AppExtendedHeartbeat(p) => WorkerModel {
                configurations: self.configurations.removed_flushed(p.len()),
                ..self
            },
            PayloadModel::AppDependenciesLoaded(p) => WorkerModel {
                dependencies: self.dependencies.removed_flushed(p.len()),
                ..self
            },
            PayloadModel::AppIntegrationsChange(p) => WorkerModel {
                integrations: self.integrations.removed_flushed(p.len()),
                ..self
            },
            PayloadModel::AppClientConfigurationChange(p) => WorkerModel {
                configurations: self.configurations.removed_flushed(p.len()),
                ..self
            },
            PayloadModel::MessageBatch(batch) => self.batch_sent_success(batch),
            PayloadModel::Logs(p) => WorkerModel {
                logs: if p.len() <= self.logs.len() {
                    self.logs.skip(p.len() as int)
                } else {
                    Seq::empty()
                },
                ..self
            },
            PayloadModel::AppHeartbeat => self,
            PayloadModel::AppClosing => self,
            PayloadModel::GenerateMetrics(_) => self,
        }
    }

    /// The worker once the payloads of `batch` were delivered, one after the
    /// other.
    pub open spec fn batch_sent_success<V>(self, batch: Seq<PayloadModel<V>>) -> WorkerModel
        decreases batch,
    {
        if batch.len() == 0 {
            self
        } else {
            self.batch_sent_success(batch.drop_last()).sent_success(batch.last())
        }
    }

    /// The worker once a request took its number. Numbers count up by one and
    /// start over at zero behind the largest one.
    pub open spec fn next_request(self) -> WorkerModel {
        WorkerModel {
            seq_id: if self.seq_id == u64::MAX {
                0
            } else {
                (self.seq_id + 1) as u64
            },
            ..self
        }
    }

    /// The worker with `event` scheduled at `now`.
    pub open spec fn schedule(self, event: LifecycleAction, now: nat) -> WorkerModel {
        WorkerModel { deadlines: self.deadlines.schedule_event(event, now), ..self }
    }

    /// What `action` makes of the worker, and what the worker asks for.
    pub open spec fn dispatch<V>(self, action: TelemetryActions<V>) -> (
        WorkerModel,
        CommandModel<V>,
    ) {
        match action {
            TelemetryActions::AddDependecy(dep) => (
                WorkerModel { dependencies: self.dependencies.insert(dep), ..self },
                CommandModel::Continue,
            ),
            TelemetryActions::AddIntegration(integration) => (
                WorkerModel { integrations: self.integrations.insert(integration), ..self },
                CommandModel::Continue,
            ),
            TelemetryActions::AddConfig(cfg) => (
                WorkerModel { configurations: self.configurations.insert(cfg), ..self },
                CommandModel::Continue,
            ),
            TelemetryActions::AddLog((identifier, log)) => (
                WorkerModel {
                    logs: put(self.logs, identifier, self.counted_log(identifier, log)),
                    ..self
                },
                CommandModel::Continue,
            ),
            TelemetryActions::AddPoint((point, key, extra_tags)) => (
                self,
                CommandModel::AddPoint(point, key, extra_tags),
            ),
            TelemetryActions::Lifecycle(lifecycle) => self.dispatch_lifecycle(lifecycle),
        }
    }

    /// `dispatch` for a lifecycle action.
    pub open spec fn dispatch_lifecycle<V>(self, action: LifecycleAction) -> (
        WorkerModel,
        CommandModel<V>,
    ) {
        match action {
            LifecycleAction::Start => (
                self,
                if self.started {
                    CommandModel::Continue
                } else {
                    CommandModel::Send(
                        PayloadModel::AppStarted(self.configurations.unflushed()),
                        AfterSend::Start,
                    )
                },
            ),
            LifecycleAction::FlushMetricAggr => (
                self,
                CommandModel::FlushAggregates(AfterAggregates::Reschedule),
            ),
            LifecycleAction::FlushData => (
                self,
                if self.started {
                    CommandModel::Send(self.flush_payload(), AfterSend::Events)
                } else {
                    CommandModel::Continue
                },
            ),
            LifecycleAction::ExtendedHeartbeat => (
                WorkerModel {
                    dependencies: self.dependencies.unflush_stored(),
                    integrations: self.integrations.unflush_stored(),
                    configurations: self.configurations.unflush_stored(),
                    ..self
                },
                CommandModel::Send(
                    PayloadModel::AppStarted(self.configurations.items),
                    AfterSend::Heartbeat,
                ),
            ),
            LifecycleAction::Stop => (
                self,
                if self.started {
                    CommandModel::FlushAggregates(AfterAggregates::Stop)
                } else {
                    CommandModel::Break
                },
            ),
        }
    }

    /// What the outcome of sending `payload` makes of the worker.
    pub open spec fn after_send<V>(
        self,
        step: AfterSend,
        payload: PayloadModel<V>,
        delivered: bool,
        now: nat,
    ) -> (WorkerModel, CommandModel<V>) {
        let sent = if delivered && step != AfterSend::Metrics {
            self.sent_success(payload)
        } else {
            self
        };
        match step {
            AfterSend::Start => (
                WorkerModel { started: true, ..sent.schedule(LifecycleAction::FlushData, now) },
                CommandModel::Continue,
            ),
            AfterSend::Events => (
                sent,
                if sent.logs.len() == 0 {
                    CommandModel::TakeSeries(AfterSeries::Flush)
                } else {
                    CommandModel::Send(PayloadModel::Logs(sent.log_list()), AfterSend::Logs)
                },
            ),
            AfterSend::Logs => (sent, CommandModel::TakeSeries(AfterSeries::Flush)),
            AfterSend::Metrics => (
                sent.schedule(LifecycleAction::FlushData, now),
                CommandModel::Continue,
            ),
            AfterSend::Heartbeat => (
                sent.schedule(LifecycleAction::FlushData, now).schedule(
                    LifecycleAction::ExtendedHeartbeat,
                    now,
                ),
                CommandModel::Continue,
            ),
        }
    }

    /// What the worker does once the metric aggregates were flushed.
    pub open spec fn after_aggregates<V>(self, step: AfterAggregates, now: nat) -> (
        WorkerModel,
        CommandModel<V>,
    ) {
        match step {
            AfterAggregates::Reschedule => (
                self.schedule(LifecycleAction::FlushMetricAggr, now),
                CommandModel::Continue,
            ),
            AfterAggregates::Stop => (self, CommandModel::TakeSeries(AfterSeries::Stop)),
        }
    }

    /// What the worker does with the metric series that were taken.
    pub open spec fn after_series<V>(
        self,
        step: AfterSeries,
        series: Seq<SerieModel<V>>,
        now: nat,
    ) -> (WorkerModel, CommandModel<V>) {
        match step {
            AfterSeries::Flush => if series.len() > 0 {
                (
                    self,
                    CommandModel::Send(PayloadModel::GenerateMetrics(series), AfterSend::Metrics),
                )
            } else {
                (self.schedule(LifecycleAction::FlushData, now), CommandModel::Continue)
            },
            AfterSeries::Stop => (self, CommandModel::SendAll(self.closing(series))),
        }
    }
}

} // verus!
