//! The telemetry worker.
//!
//! The worker is a state machine. `dispatch_action` takes an action and answers
//! with a command; whoever runs the worker carries the command out and hands
//! the outcome back to the `after_..` method that the command names, until the
//! answer is to continue or to stop.

pub mod builder;
pub mod config;
pub mod effects;
pub mod handle;
pub mod laws;
pub mod model;
pub mod request;
pub mod scheduler;
pub mod shutdown;
pub mod store;

use crate::data::{
    batch_model, payload_model, payload_models, series_models, AppClientConfigurationChange,
    AppDependenciesLoaded, AppIntegrationsChange, AppStarted, Application, Configuration,
    Dependency, GenerateMetrics, Host, Integration, Log, Payload, PayloadModel, Serie, Tag,
};
use crate::metrics::{ContextKey, MetricContexts};
use crate::worker::config::Config;
use crate::worker::model::{metrics_series, serie_of, CommandModel, WorkerModel};
use crate::worker::scheduler::Scheduler;
use crate::worker::store::{QueueMap, Store};
use vstd::prelude::*;

verus! {

/// Seconds between two flushes of the metric aggregates.
pub const METRICS_FLUSH_INTERVAL_SECS: u64 = 10;

/// What the worker is told. `V` is the type of a metric point's value.
#[derive(Debug)]
pub enum TelemetryActions<V> {
    AddPoint((V, ContextKey, Vec<Tag>)),
    AddConfig(Configuration),
    AddDependecy(Dependency),
    AddIntegration(Integration),
    AddLog((LogIdentifier, Log)),
    Lifecycle(LifecycleAction),
}

/// What the worker does on its own, or is told to do, beside collecting items.
#[derive(Debug, Clone, Copy, PartialEq, Eq, Structural)]
pub enum LifecycleAction {
    Start,
    Stop,
    FlushMetricAggr,
    FlushData,
    ExtendedHeartbeat,
}

/// Identifies a logging location uniquely
///
/// The identifier is a single 64 bit integer to save space and memory
/// and to be generic on the way different languages handle it.
#[derive(Debug, Clone, Copy, PartialEq, Eq, Hash, Structural)]
pub struct LogIdentifier {
    // Collisions? Never heard of them
    pub indentifier: u64,
}

/// The points that were aggregated for one context and one list of extra tags.
#[derive(Debug)]
pub struct FlushedSeries<V> {
    pub context_key: ContextKey,
    pub extra_tags: Vec<Tag>,
    pub points: Vec<(u64, V)>,
}

/// What the worker waits for.
#[derive(Debug, Clone, Copy, PartialEq, Eq, Structural)]
pub enum Wait {
    /// For nothing: the deadline of the event has passed.
    Fire(LifecycleAction),
    /// For a message, at most until the deadline of the event.
    Until(u128, LifecycleAction),
    /// For a message, however long it takes.
    Forever,
}

/// What came of waiting.
#[derive(Debug)]
pub enum Received<V> {
    /// A message came, or none will ever come again.
    Mailbox(Option<TelemetryActions<V>>),
    /// The deadline of the event came first.
    Deadline(LifecycleAction),
}

impl<V> Received<V> {
    /// The action to dispatch.
    pub open spec fn action(self) -> TelemetryActions<V> {
        match self {
            Received::Mailbox(Some(action)) => action,
            Received::Mailbox(None) => TelemetryActions::Lifecycle(LifecycleAction::Stop),
            Received::Deadline(event) => TelemetryActions::Lifecycle(event),
        }
    }

    /// The action to dispatch. Without a sender the worker stops.
    pub fn into_action(self) -> (action: TelemetryActions<V>)
        ensures
            action == self.action(),
    {
        match self {
            // if no action is received, then it means the channel is stopped
            Received::Mailbox(action) => action.unwrap_or(
                TelemetryActions::Lifecycle(LifecycleAction::Stop),
            ),
            Received::Deadline(event) => TelemetryActions::Lifecycle(event),
        }
    }
}

/// Why a payload is sent.
#[derive(Debug, Clone, Copy, PartialEq, Eq, Structural)]
pub enum AfterSend {
    /// The application started.
    Start,
    /// First part of a flush: the items to report.
    Events,
    /// Second part of a flush: the logs.
    Logs,
    /// Last part of a flush: the metric series.
    Metrics,
    /// All that is stored is reported again.
    Heartbeat,
}

/// Why the metric aggregates are flushed.
#[derive(Debug, Clone, Copy, PartialEq, Eq, Structural)]
pub enum AfterAggregates {
    Reschedule,
    Stop,
}

/// Why the metric series are taken.
#[derive(Debug, Clone, Copy, PartialEq, Eq, Structural)]
pub enum AfterSeries {
    Flush,
    Stop,
}

/// What the worker asks for.
#[derive(Debug)]
pub enum Command<V> {
    /// The action is done: wait for the next one.
    Continue,
    /// The action is done and was the last one.
    Break,
    /// Add the point to the metric aggregates; then the action is done.
    AddPoint(V, ContextKey, Vec<Tag>),
    /// Flush the metric aggregates into series, then call `after_aggregates`.
    FlushAggregates(AfterAggregates),
    /// Take the metric series, then call `after_series`.
    TakeSeries(AfterSeries),
    /// Send the payload, then call `after_send`.
    Send(Payload<V>, AfterSend),
    /// Send the payloads, in requests built in this order; then the action is
    /// done and was the last one.
    SendAll(Vec<Payload<V>>),
}

impl<V> View for Command<V> {
    type V = CommandModel<V>;

    open spec fn view(&self) -> CommandModel<V> {
        match *self {
            Command::Continue => CommandModel::Continue,
            Command::Break => CommandModel::Break,
            Command::AddPoint(point, key, extra_tags) => CommandModel::AddPoint(
                point,
                key,
                extra_tags,
            ),
            Command::FlushAggregates(step) => CommandModel::FlushAggregates(step),
            Command::TakeSeries(step) => CommandModel::TakeSeries(step),
            Command::Send(payload, step) => CommandModel::Send(payload_model(payload), step),
            Command::SendAll(payloads) => CommandModel::SendAll(payload_models(payloads@)),
        }
    }
}

// Holds the current state of the telemetry worker
#[derive(Debug)]
struct TelemetryWorkerData {
    started: bool,
    dependencies: Store<Dependency>,
    configurations: Store<Configuration>,
    integrations: Store<Integration>,
    logs: QueueMap<Log>,
    host: Host,
    app: Application,
}

#[derive(Debug)]
pub struct TelemetryWorker {
    config: Config,
    seq_id: u64,
    runtime_id: String,
    deadlines: Scheduler,
    data: TelemetryWorkerData,
}

impl View for TelemetryWorker {
    type V = WorkerModel;

    closed spec fn view(&self) -> WorkerModel {
        WorkerModel {
            started: self.data.started,
            dependencies: self.data.dependencies@,
            integrations: self.data.integrations@,
            configurations: self.data.configurations@,
            logs: self.data.logs@,
            deadlines: self.deadlines@,
            seq_id: self.seq_id,
            runtime_id: self.runtime_id@,
            host: self.data.host,
            app: self.data.app,
            config: self.config,
        }
    }
}

impl TelemetryWorker {
    /// The worker's parts are valid.
    pub closed spec fn wf(&self) -> bool {
        self@.wf() && self.deadlines.wf()
    }

    /// What the worker is configured with.
    pub fn config(&self) -> (config: &Config)
        ensures
            *config == self@.config,
    {
        &self.config
    }

    /// What to wait for at the time `now`, in nanoseconds since the origin of
    /// the worker's deadlines. Once cancelled, the worker waits for nothing.
    pub fn next_wait(&self, cancelled: bool, now: u64) -> (wait: Option<Wait>)
        requires
            self.wf(),
        ensures
            wait is None <==> cancelled,
            wait matches Some(Wait::Forever) ==> self@.deadlines.deadlines.dom() == Set::<
                LifecycleAction,
            >::empty(),
            wait matches Some(Wait::Until(deadline, event)) ==> self@.deadlines.is_next(
                deadline as nat,
                event,
            ) && now <= deadline,
            wait matches Some(Wait::Fire(event)) ==> exists|deadline: nat| #[trigger]
                self@.deadlines.is_next(deadline, event) && deadline < now,
    {
        if cancelled {
            return None;
        }
        Some(self.recv_next_action(now))
    }

    fn recv_next_action(&self, now: u64) -> (wait: Wait)
        requires
            self.wf(),
        ensures
            wait is Forever ==> self@.deadlines.deadlines.dom() == Set::<LifecycleAction>::empty(),
            wait matches Wait::Until(deadline, event) ==> self@.deadlines.is_next(
                deadline as nat,
                event,
            ) && now <= deadline,
            wait matches Wait::Fire(event) ==> exists|deadline: nat| #[trigger]
                self@.deadlines.is_next(deadline, event) && deadline < now,
    {
        match self.deadlines.next_deadline() {
            Some((deadline, event)) => {
                // If deadline passed, directly return associated action
                if deadline < now as u128 {
                    assert(self@.deadlines.is_next(deadline as nat, event));
                    return Wait::Fire(event);
                }
                // Otherwise run it in a timeout against the mailbox
                Wait::Until(deadline, event)
            },
            None => Wait::Forever,
        }
    }

    fn schedule(&mut self, event: LifecycleAction, now: u64)
        requires
            old(self).wf(),
            old(self)@.deadlines.knows(event),
        ensures
            final(self).wf(),
            final(self)@ == old(self)@.schedule(event, now as nat),
    {
        self.deadlines.schedule_event(event, now).unwrap();
    }

    /// Whether `action` leaves every log count in range, as `dispatch_action`
    /// needs.
    pub fn can_dispatch<V>(&self, action: &TelemetryActions<V>) -> (fits: bool)
        requires
            self.wf(),
        ensures
            fits == self@.counts_fit(*action),
    {
        match action {
            TelemetryActions::AddLog((identifier, log)) => match self.data.logs.get(*identifier) {
                Some(queued) => queued.count < u32::MAX,
                None => log.count < u32::MAX,
            },
            _ => true,
        }
    }

    /// Takes an action and says what to do about it.
    pub fn dispatch_action<V>(&mut self, action: TelemetryActions<V>) -> (command: Command<V>)
        requires
            old(self).wf(),
            old(self)@.counts_fit(action),
        ensures
            final(self).wf(),
            (final(self)@, command@) == old(self)@.dispatch(action),
    {
        match action {
            TelemetryActions::AddDependecy(dep) => {
                self.data.dependencies.insert(dep);
                Command::Continue
            },
            TelemetryActions::AddIntegration(integration) => {
                self.data.integrations.insert(integration);
                Command::Continue
            },
            TelemetryActions::AddConfig(cfg) => {
                self.data.configurations.insert(cfg);
                Command::Continue
            },
            TelemetryActions::AddLog((identifier, log)) => {
                let queued = self.data.logs.get_mut_or_insert(identifier, log);
                queued.count += 1;
                Command::Continue
            },
            TelemetryActions::AddPoint((point, key, extra_tags)) => Command::AddPoint(
                point,
                key,
                extra_tags,
            ),
            TelemetryActions::Lifecycle(lifecycle) => self.dispatch_lifecycle(lifecycle),
        }
    }

    fn dispatch_lifecycle<V>(&mut self, action: LifecycleAction) -> (command: Command<V>)
        requires
            old(self).wf(),
        ensures
            final(self).wf(),
            (final(self)@, command@) == old(self)@.dispatch_lifecycle::<V>(action),
    {
        match action {
            LifecycleAction::Start => {
                if self.data.started {
                    return Command::Continue;
                }
                Command::Send(Payload::AppStarted(self.build_app_started()), AfterSend::Start)
            },
            LifecycleAction::FlushMetricAggr => Command::FlushAggregates(
                AfterAggregates::Reschedule,
            ),
            LifecycleAction::FlushData => {
                if !self.data.started {
                    return Command::Continue;
                }
                let mut batch: Vec<Payload<V>> = self.build_app_events_batch();
                let payload = if batch.is_empty() {
                    Payload::AppHeartbeat(())
                } else {
                    batch.push(Payload::AppHeartbeat(()));
                    proof {
                        batch_model(batch);
                        assert(payload_models(batch@) =~= self@.app_events::<V>().push(
                            PayloadModel::AppHeartbeat,
                        ));
                    }
                    Payload::MessageBatch(batch)
                };
                Command::Send(payload, AfterSend::Events)
            },
            LifecycleAction::ExtendedHeartbeat => {
                self.data.dependencies.unflush_stored();
                self.data.integrations.unflush_stored();
                self.data.configurations.unflush_stored();
                assert(self@.configurations.unflushed() =~= self@.configurations.items);
                Command::Send(Payload::AppStarted(self.build_app_started()), AfterSend::Heartbeat)
            },
            LifecycleAction::Stop => {
                if !self.data.started {
                    return Command::Break;
                }
                Command::FlushAggregates(AfterAggregates::Stop)
            },
        }
    }

    /// Takes the outcome of sending `payload`. `now` is the time after that, in
    /// nanoseconds since the origin of the worker's deadlines.
    pub fn after_send<V>(
        &mut self,
        step: AfterSend,
        payload: &Payload<V>,
        delivered: bool,
        now: u64,
    ) -> (command: Command<V>)
        requires
            old(self).wf(),
        ensures
            final(self).wf(),
            (final(self)@, command@) == old(self)@.after_send(
                step,
                payload_model(*payload),
                delivered,
                now as nat,
            ),
    {
        if delivered && step != AfterSend::Metrics {
            self.payload_sent_success(payload);
        }
        match step {
            AfterSend::Start => {
                self.schedule(LifecycleAction::FlushData, now);
                self.data.started = true;
                Command::Continue
            },
            AfterSend::Events => {
                let logs = self.build_logs();
                if logs.is_empty() {
                    Command::TakeSeries(AfterSeries::Flush)
                } else {
                    Command::Send(Payload::Logs(logs), AfterSend::Logs)
                }
            },
            AfterSend::Logs => Command::TakeSeries(AfterSeries::Flush),
            AfterSend::Metrics => {
                self.schedule(LifecycleAction::FlushData, now);
                Command::Continue
            },
            AfterSend::Heartbeat => {
                self.schedule(LifecycleAction::FlushData, now);
                self.schedule(LifecycleAction::ExtendedHeartbeat, now);
                Command::Continue
            },
        }
    }

    /// Goes on once the metric aggregates were flushed.
    pub fn after_aggregates<V>(&mut self, step: AfterAggregates, now: u64) -> (command: Command<V>)
        requires
            old(self).wf(),
        ensures
            final(self).wf(),
            (final(self)@, command@) == old(self)@.after_aggregates::<V>(step, now as nat),
    {
        match step {
            AfterAggregates::Reschedule => {
                self.schedule(LifecycleAction::FlushMetricAggr, now);
                Command::Continue
            },
            AfterAggregates::Stop => Command::TakeSeries(AfterSeries::Stop),
        }
    }

    /// Takes the metric series. Those whose context is not among `contexts` are
    /// dropped.
    pub fn after_series<V>(
        &mut self,
        step: AfterSeries,
        flushed: Vec<FlushedSeries<V>>,
        contexts: &MetricContexts,
        now: u64,
    ) -> (command: Command<V>)
        requires
            old(self).wf(),
        ensures
            final(self).wf(),
            (final(self)@, command@) == old(self)@.after_series(
                step,
                metrics_series(flushed@, contexts@),
                now as nat,
            ),
    {
        let metrics = build_metrics_series(flushed, contexts);
        match step {
            AfterSeries::Flush => {
                if metrics.series.is_empty() {
                    self.schedule(LifecycleAction::FlushData, now);
                    Command::Continue
                } else {
                    Command::Send(Payload::GenerateMetrics(metrics), AfterSend::Metrics)
                }
            },
            AfterSeries::Stop => {
                let mut app_events: Vec<Payload<V>> = self.build_app_events_batch();
                app_events.push(Payload::AppClosing(()));
                let ghost series = series_models(metrics.series@);
                let observability_events = self.build_observability_batch(metrics);
                let mut payloads: Vec<Payload<V>> = Vec::new();
                proof {
                    batch_model(app_events);
                    assert(payload_models(app_events@) =~= self@.app_events::<V>().push(
                        PayloadModel::AppClosing,
                    ));
                    batch_model(observability_events);
                }
                payloads.push(Payload::MessageBatch(app_events));
                if !observability_events.is_empty() {
                    payloads.push(Payload::MessageBatch(observability_events));
                }
                assert(payload_models(payloads@) =~~= self@.closing(series));
                Command::SendAll(payloads)
            },
        }
    }

    /// The payloads for the items that are still to be reported.
    pub fn build_app_events_batch<V>(&self) -> (payloads: Vec<Payload<V>>)
        requires
            self.wf(),
        ensures
            payload_models(payloads@) == self@.app_events::<V>(),
    {
        let mut payloads: Vec<Payload<V>> = Vec::new();
        if self.data.dependencies.flush_not_empty() {
            payloads.push(
                Payload::AppDependenciesLoaded(
                    AppDependenciesLoaded { dependencies: self.data.dependencies.unflushed() },
                ),
            );
        }
        if self.data.integrations.flush_not_empty() {
            payloads.push(
                Payload::AppIntegrationsChange(
                    AppIntegrationsChange { integrations: self.data.integrations.unflushed() },
                ),
            );
        }
        if self.data.configurations.flush_not_empty() {
            payloads.push(
                Payload::AppClientConfigurationChange(
                    AppClientConfigurationChange {
                        configuration: self.data.configurations.unflushed(),
                    },
                ),
            );
        }
        assert(payload_models(payloads@) =~~= self@.app_events::<V>());
        payloads
    }

    fn build_observability_batch<V>(&self, metrics: GenerateMetrics<V>) -> (payloads: Vec<
        Payload<V>,
    >)
        requires
            self.wf(),
        ensures
            payload_models(payloads@) == self@.observability(series_models(metrics.series@)),
    {
        let mut payloads: Vec<Payload<V>> = Vec::new();
        let logs = self.build_logs();
        if !logs.is_empty() {
            payloads.push(Payload::Logs(logs));
        }
        if !metrics.series.is_empty() {
            payloads.push(Payload::GenerateMetrics(metrics));
        }
        assert(payload_models(payloads@) =~~= self@.observability(series_models(metrics.series@)));
        payloads
    }

    fn build_app_started(&self) -> (started: AppStarted)
        requires
            self.wf(),
        ensures
            started.configuration@ == self@.configurations.unflushed(),
    {
        AppStarted { configuration: self.data.configurations.unflushed() }
    }

    fn app_started_sent_success(&mut self, p: &AppStarted)
        requires
            old(self).wf(),
        ensures
            final(self).wf(),
            final(self)@ == (WorkerModel {
                configurations: old(self)@.configurations.removed_flushed(p.configuration@.len()),
                ..old(self)@
            }),
    {
        self.data.configurations.removed_flushed(p.configuration.len());
    }

    /// Takes what `payload` carries as reported.
    pub fn payload_sent_success<V>(&mut self, payload: &Payload<V>)
        requires
            old(self).wf(),
        ensures
            final(self).wf(),
            final(self)@ == old(self)@.sent_success(payload_model(*payload)),
        decreases payload,
    {
        match payload {
            Payload::AppStarted(p) => self.app_started_sent_success(p),
            Payload::AppExtendedHeartbeat(p) => self.app_started_sent_success(p),
            Payload::AppDependenciesLoaded(p) => self.data.dependencies.removed_flushed(
                p.dependencies.len(),
            ),
            Payload::AppIntegrationsChange(p) => self.data.integrations.removed_flushed(
                p.integrations.len(),
            ),
            Payload::AppClientConfigurationChange(p) => self.data.configurations.removed_flushed(
                p.configuration.len(),
            ),
            Payload::MessageBatch(batch) => {
                let ghost models = payload_models(batch@);
                proof {
                    batch_model(*batch);
                }
                let mut i: usize = 0;
                while i < batch.len()
                    invariant
                        i <= batch.len(),
                        self.wf(),
                        models == payload_models(batch@),
                        payload == Payload::MessageBatch(*batch),
                        self@ == old(self)@.batch_sent_success(models.take(i as int)),
                    decreases batch.len() - i,
                {
                    assert(decreases_to!(*payload => payload->MessageBatch_0));
                    assert(decreases_to!(*batch => batch@));
                    assert(decreases_to!(batch@ => batch@[i as int]));
                    self.payload_sent_success(&batch[i]);
                    assert(models.take(i + 1).drop_last() =~= models.take(i as int));
                    i += 1;
                }
                assert(models.take(i as int) =~= models);
            },
            Payload::Logs(p) => {
                let mut i: usize = 0;
                while i < p.len()
                    invariant
                        i <= p.len(),
                        self.wf(),
                        self@ == old(self)@.sent_success(
                            PayloadModel::<V>::Logs(p@.take(i as int)),
                        ),
                    decreases p.len() - i,
                {
                    self.data.logs.pop_front();
                    i += 1;
                }
                assert(p@.take(i as int) =~= p@);
            },
            Payload::AppHeartbeat(_) | Payload::AppClosing(_) => {},
            Payload::GenerateMetrics(_) => {},
        }
    }

    /// Copies of the pending logs, oldest first.
    pub fn build_logs(&self) -> (logs: Vec<Log>)
        ensures
            logs@ == self@.log_list(),
    {
        let mut logs: Vec<Log> = Vec::new();
        let mut i: usize = 0;
        while i < self.data.logs.len()
            invariant
                i <= self.data.logs@.len(),
                logs@ == self@.log_list().take(i as int),
            decreases self.data.logs@.len() - i,
        {
            logs.push(self.data.logs.get_idx(i).1.duplicate());
            assert(self@.log_list().take(i + 1) =~= self@.log_list().take(i as int).push(
                self@.log_list()[i as int],
            ));
            i += 1;
        }
        assert(self@.log_list().take(i as int) =~= self@.log_list());
        logs
    }

    /// The number of the next request. Numbers count up by one.
    pub fn next_seq_id(&mut self) -> (seq_id: u64)
        requires
            old(self).wf(),
        ensures
            final(self).wf(),
            seq_id == old(self)@.seq_id,
            final(self)@ == old(self)@.next_request(),
    {
        let seq_id: u64 = self.seq_id;
        self.seq_id = seq_id.wrapping_add(1);
        seq_id
    }
}

/// A valid worker is in a valid state, so the laws of the state machine hold of
/// it.
pub proof fn valid_worker(w: &TelemetryWorker)
    requires
        w.wf(),
    ensures
        w@.wf(),
{
}

/// Adds copies of `extra` to `tags`.
fn append_tags(tags: &mut Vec<Tag>, extra: &Vec<Tag>)
    ensures
        final(tags)@ == old(tags)@ + extra@,
{
    let mut i: usize = 0;
    while i < extra.len()
        invariant
            i <= extra.len(),
            tags@ == old(tags)@ + extra@.take(i as int),
        decreases extra.len() - i,
    {
        tags.push(extra[i].duplicate());
        assert(extra@.take(i + 1) =~= extra@.take(i as int).push(extra@[i as int]));
        i += 1;
    }
    assert(extra@.take(i as int) =~= extra@);
}

/// Names the series in `flushed` by their contexts. A series whose context is
/// unknown is left out.
pub fn build_metrics_series<V>(
    flushed: Vec<FlushedSeries<V>>,
    contexts: &MetricContexts,
) -> (metrics: GenerateMetrics<V>)
    ensures
        series_models(metrics.series@) == metrics_series(flushed@, contexts@),
{
    let mut series: Vec<Serie<V>> = Vec::new();
    for entry in iter: flushed
        invariant
            iter.seq() == flushed@,
            series_models(series@) == metrics_series(flushed@.take(iter.index() as int), contexts@),
    {
        let ghost done = flushed@.take(iter.index() as int);
        let ghost whole = entry;
        proof {
            assert(entry == flushed@[iter.index() as int]);
            assert(flushed@.take(iter.index() + 1) =~= done.push(entry));
            assert(done.push(entry).drop_last() =~= done);
        }
        if let Some(context) = contexts.get_context(entry.context_key) {
            let mut tags = entry.extra_tags;
            append_tags(&mut tags, &context.tags);
            series.push(
                Serie {
                    namespace: context.namespace,
                    metric: context.name.clone(),
                    points: entry.points,
                    tags,
                    common: context.common,
                    _type: context.metric_type,
                    interval: METRICS_FLUSH_INTERVAL_SECS,
                },
            );
            assert(series@.last()@ == serie_of(whole, *context));
        }
        assert(series_models(series@) =~= metrics_series(done.push(whole), contexts@));
    }
    assert(flushed@.take(flushed@.len() as int) =~= flushed@);
    GenerateMetrics { series }
}

/// The model of a command asks for what the command asks for.
pub proof fn a_command_asks_for_what_it_says<V>(command: Command<V>)
    ensures
        command is Continue <==> command@ is Continue,
        command is Break <==> command@ is Break,
        command matches Command::AddPoint(point, key, tags) ==> command@
            == CommandModel::AddPoint(point, key, tags),
        command matches Command::FlushAggregates(step) ==> command@
            == CommandModel::<V>::FlushAggregates(step),
        command matches Command::TakeSeries(step) ==> command@ == CommandModel::<V>::TakeSeries(
            step,
        ),
        command matches Command::Send(payload, step) ==> command@ == CommandModel::Send(
            payload_model(payload),
            step,
        ),
        command matches Command::SendAll(payloads) ==> {
            &&& command@ matches CommandModel::SendAll(models)
            &&& models.len() == payloads@.len()
            &&& forall|i: int|
                0 <= i < models.len() ==> #[trigger] models[i] == payload_model(payloads@[i])
        },
{
}

/// What is dispatched is the message that came, as it came, or the event whose
/// deadline came first; when no message can come any more, it is the stop.
pub proof fn what_was_received_is_dispatched<V>(
    message: TelemetryActions<V>,
    event: LifecycleAction,
)
    ensures
        Received::Mailbox(Some(message)).action() == message,
        Received::<V>::Mailbox(None).action() == TelemetryActions::<V>::Lifecycle(
            LifecycleAction::Stop,
        ),
        Received::<V>::Deadline(event).action() == TelemetryActions::<V>::Lifecycle(event),
{
}

} // verus!
