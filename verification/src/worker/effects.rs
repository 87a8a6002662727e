//! What each input does to each part of the worker, and what becomes of it.
//!
//! The statements speak of single items, logs and deadlines and of all that stays
//! as it was.

use crate::data::{
    Configuration, Dependency, Integration, Log, PayloadModel, SerieModel, Tag,
};
use crate::metrics::{ContextKey, MetricContext};
use crate::worker::model::{metrics_series, serie_of, CommandModel, WorkerModel};
use crate::worker::scheduler::delay_of;
use crate::worker::store::{has_key, key_index};
use crate::worker::{
    AfterAggregates, AfterSend, AfterSeries, FlushedSeries, LifecycleAction, LogIdentifier,
    TelemetryActions,
};
use vstd::prelude::*;

verus! {

/// Every point is handed on as it came, started or not, and leaves the worker as
/// it was: what is asked for depends on the point alone.
pub proof fn every_point_is_handed_on<V>(
    w: WorkerModel,
    other: WorkerModel,
    point: V,
    key: ContextKey,
    tags: Vec<Tag>,
)
    ensures
        ({
            let (after, command) = w.dispatch(TelemetryActions::AddPoint((point, key, tags)));
            &&& after == w
            &&& command matches CommandModel::AddPoint(p, k, t) && p == point && k == key && t
                == tags
            &&& command == other.dispatch(TelemetryActions::AddPoint((point, key, tags))).1
        }),
{
}

/// Collecting an item asks for nothing and touches only the store of its kind,
/// which takes it in as stores do.
pub proof fn items_go_to_their_own_store<V>(
    w: WorkerModel,
    dependency: Dependency,
    integration: Integration,
    configuration: Configuration,
)
    ensures
        ({
            let (after, command) = w.dispatch(TelemetryActions::<V>::AddDependecy(dependency));
            &&& command is Continue
            &&& after == (WorkerModel { dependencies: w.dependencies.insert(dependency), ..w })
        }),
        ({
            let (after, command) = w.dispatch(TelemetryActions::<V>::AddIntegration(integration));
            &&& command is Continue
            &&& after == (WorkerModel { integrations: w.integrations.insert(integration), ..w })
        }),
        ({
            let (after, command) = w.dispatch(TelemetryActions::<V>::AddConfig(configuration));
            &&& command is Continue
            &&& after == (WorkerModel {
                configurations: w.configurations.insert(configuration),
                ..w
            })
        }),
{
}

/// A log of a location that is queued raises the count there by one. The queued
/// message, level and stack trace stay, whatever the new log says, and nothing
/// else changes.
pub proof fn a_repeated_log_raises_one_count<V>(
    w: WorkerModel,
    at: int,
    identifier: LogIdentifier,
    log: Log,
)
    requires
        0 <= at < w.logs.len(),
        w.logs[at].0 == identifier,
        forall|i: int| 0 <= i < w.logs.len() && i != at ==> #[trigger] w.logs[i].0 != identifier,
        w.logs[at].1.count < u32::MAX,
    ensures
        ({
            let (after, command) = w.dispatch(TelemetryActions::<V>::AddLog((identifier, log)));
            &&& command is Continue
            &&& after == (WorkerModel { logs: after.logs, ..w })
            &&& after.logs.len() == w.logs.len()
            &&& after.logs[at].0 == identifier
            &&& after.logs[at].1.message == w.logs[at].1.message
            &&& after.logs[at].1.level == w.logs[at].1.level
            &&& after.logs[at].1.stack_trace == w.logs[at].1.stack_trace
            &&& after.logs[at].1.count == w.logs[at].1.count + 1
            &&& forall|i: int|
                0 <= i < w.logs.len() && i != at ==> #[trigger] after.logs[i] == w.logs[i]
        }),
{
    assert(has_key(w.logs, identifier));
    assert(w.logs[key_index(w.logs, identifier)].0 == identifier);
    assert(key_index(w.logs, identifier) == at);
}

/// A log of a location that is not queued goes to the end of the queue with its
/// own message, level and stack trace, counted once more than it came. The queued
/// logs and all else stay.
pub proof fn a_new_log_goes_to_the_end<V>(w: WorkerModel, identifier: LogIdentifier, log: Log)
    requires
        forall|i: int| 0 <= i < w.logs.len() ==> #[trigger] w.logs[i].0 != identifier,
        log.count < u32::MAX,
    ensures
        ({
            let (after, command) = w.dispatch(TelemetryActions::<V>::AddLog((identifier, log)));
            let at = w.logs.len() as int;
            &&& command is Continue
            &&& after == (WorkerModel { logs: after.logs, ..w })
            &&& after.logs.len() == w.logs.len() + 1
            &&& after.logs[at].0 == identifier
            &&& after.logs[at].1.message == log.message
            &&& after.logs[at].1.level == log.level
            &&& after.logs[at].1.stack_trace == log.stack_trace
            &&& after.logs[at].1.count == log.count + 1
            &&& forall|i: int| 0 <= i < w.logs.len() ==> #[trigger] after.logs[i] == w.logs[i]
        }),
{
    assert(!has_key(w.logs, identifier));
}

/// The only action that the worker cannot take is a log whose count is full: that
/// of the queued log of its location, or its own where none is queued.
pub proof fn only_a_full_count_is_refused<V>(
    w: WorkerModel,
    action: TelemetryActions<V>,
    at: int,
)
    ensures
        !(action is AddLog) ==> w.counts_fit(action),
        action matches TelemetryActions::AddLog((identifier, log)) ==> {
            &&& (forall|i: int| 0 <= i < w.logs.len() ==> #[trigger] w.logs[i].0 != identifier)
                ==> (w.counts_fit(action) <==> log.count < u32::MAX)
            &&& 0 <= at < w.logs.len() && w.logs[at].0 == identifier && (forall|i: int|
                0 <= i < w.logs.len() && i != at ==> #[trigger] w.logs[i].0 != identifier) ==> (
            w.counts_fit(action) <==> w.logs[at].1.count < u32::MAX)
        },
{
    if let TelemetryActions::AddLog((identifier, log)) = action {
        if has_key(w.logs, identifier) {
            assert(w.logs[key_index(w.logs, identifier)].0 == identifier);
        }
        if 0 <= at < w.logs.len() && w.logs[at].0 == identifier {
            assert(has_key(w.logs, identifier));
        }
    }
}

/// The logs that are sent are the queued ones, each as it is queued, in order.
pub proof fn logs_are_sent_as_queued(w: WorkerModel)
    ensures
        w.log_list().len() == w.logs.len(),
        forall|i: int|
            0 <= i < w.logs.len() ==> {
                &&& #[trigger] w.log_list()[i] == w.logs[i].1
                &&& w.log_list()[i].message == w.logs[i].1.message
                &&& w.log_list()[i].level == w.logs[i].1.level
                &&& w.log_list()[i].count == w.logs[i].1.count
                &&& w.log_list()[i].stack_trace == w.logs[i].1.stack_trace
            },
{
}

/// The items to report are sent as they are stored: one payload for each kind of
/// which any are pending, dependencies first and configuration last, with every
/// pending item in its place and nothing else.
pub proof fn pending_items_are_sent_as_stored<V>(w: WorkerModel)
    requires
        w.dependencies.flushed <= w.dependencies.items.len(),
        w.integrations.flushed <= w.integrations.items.len(),
        w.configurations.flushed <= w.configurations.items.len(),
    ensures
        ({
            let events = w.app_events::<V>();
            let dependencies = w.dependencies.items.len() - w.dependencies.flushed;
            let integrations = w.integrations.items.len() - w.integrations.flushed;
            let configurations = w.configurations.items.len() - w.configurations.flushed;
            let first = if dependencies > 0 {
                1int
            } else {
                0int
            };
            let second = if integrations > 0 {
                first + 1
            } else {
                first
            };
            &&& events.len() == if configurations > 0 {
                second + 1
            } else {
                second
            }
            &&& dependencies > 0 ==> {
                &&& events[0] matches PayloadModel::AppDependenciesLoaded(d)
                &&& d.len() == dependencies
                &&& forall|i: int|
                    0 <= i < dependencies ==> {
                        &&& #[trigger] d[i] == w.dependencies.items[w.dependencies.flushed + i]
                        &&& d[i].name == w.dependencies.items[w.dependencies.flushed + i].name
                        &&& d[i].version == w.dependencies.items[w.dependencies.flushed
                            + i].version
                    }
            }
            &&& integrations > 0 ==> {
                &&& events[first] matches PayloadModel::AppIntegrationsChange(d)
                &&& d.len() == integrations
                &&& forall|i: int|
                    0 <= i < integrations ==> #[trigger] d[i]
                        == w.integrations.items[w.integrations.flushed + i]
            }
            &&& configurations > 0 ==> {
                &&& events[second] matches PayloadModel::AppClientConfigurationChange(d)
                &&& d.len() == configurations
                &&& forall|i: int|
                    0 <= i < configurations ==> #[trigger] d[i]
                        == w.configurations.items[w.configurations.flushed + i]
            }
        }),
{
}

/// A flush of a started worker sends the payloads of the pending items with one
/// heartbeat behind them, in one batch; with nothing pending it sends the
/// heartbeat alone. It changes nothing yet. A worker that is not started does not
/// flush.
pub proof fn a_flush_sends_what_is_pending<V>(w: WorkerModel)
    requires
        w.dependencies.flushed <= w.dependencies.items.len(),
        w.integrations.flushed <= w.integrations.items.len(),
        w.configurations.flushed <= w.configurations.items.len(),
    ensures
        ({
            let (after, command) = w.dispatch(
                TelemetryActions::<V>::Lifecycle(LifecycleAction::FlushData),
            );
            let nothing = w.dependencies.items.len() == w.dependencies.flushed
                && w.integrations.items.len() == w.integrations.flushed
                && w.configurations.items.len() == w.configurations.flushed;
            let events = w.app_events::<V>();
            &&& after == w
            &&& !w.started ==> command is Continue
            &&& w.started ==> {
                &&& command matches CommandModel::Send(payload, step)
                &&& step is Events
                &&& nothing ==> payload is AppHeartbeat
                &&& !nothing ==> {
                    &&& payload matches PayloadModel::MessageBatch(batch)
                    &&& batch.len() == events.len() + 1
                    &&& batch[events.len() as int] is AppHeartbeat
                    &&& forall|i: int| 0 <= i < events.len() ==> #[trigger] batch[i] == events[i]
                }
            }
        }),
{
}

/// Starting sends the pending configuration, item by item, and changes nothing
/// yet; a started worker does not start again.
pub proof fn a_start_sends_the_pending_configuration<V>(w: WorkerModel)
    requires
        w.configurations.flushed <= w.configurations.items.len(),
    ensures
        ({
            let (after, command) = w.dispatch(
                TelemetryActions::<V>::Lifecycle(LifecycleAction::Start),
            );
            &&& after == w
            &&& w.started ==> command is Continue
            &&& !w.started ==> {
                &&& command matches CommandModel::Send(payload, step)
                &&& step is Start
                &&& payload matches PayloadModel::AppStarted(c)
                &&& c.len() == w.configurations.items.len() - w.configurations.flushed
                &&& forall|i: int|
                    0 <= i < c.len() ==> #[trigger] c[i]
                        == w.configurations.items[w.configurations.flushed + i]
            }
        }),
{
}

/// The outcome of the start, delivered or not, leaves dependencies, integrations
/// and logs exactly as they were: the payload carried configuration only. The
/// configuration that it carried is reported if it was delivered, and none if it
/// was not. The worker is started and the first flush is one delay away.
pub proof fn a_start_reports_configuration_only<V>(
    w: WorkerModel,
    sent: Seq<Configuration>,
    delivered: bool,
    now: nat,
)
    requires
        w.configurations.flushed <= w.configurations.items.len(),
        w.deadlines.knows(LifecycleAction::FlushData),
    ensures
        ({
            let (after, command) = w.after_send(
                AfterSend::Start,
                PayloadModel::<V>::AppStarted(sent),
                delivered,
                now,
            );
            &&& command is Continue
            &&& after.started
            &&& after.dependencies == w.dependencies
            &&& after.integrations == w.integrations
            &&& after.logs == w.logs
            &&& after.configurations.items == w.configurations.items
            &&& after.configurations.max_items == w.configurations.max_items
            &&& !delivered ==> after.configurations.flushed == w.configurations.flushed
            &&& delivered && w.configurations.flushed + sent.len() <= w.configurations.items.len()
                ==> after.configurations.flushed == w.configurations.flushed + sent.len()
            &&& delivered && w.configurations.flushed + sent.len() > w.configurations.items.len()
                ==> after.configurations.flushed == w.configurations.items.len()
            &&& after.deadlines.delays == w.deadlines.delays
            &&& after.deadlines.deadlines == w.deadlines.deadlines.insert(
                LifecycleAction::FlushData,
                now + delay_of(w.deadlines.delays, LifecycleAction::FlushData)->0 as nat,
            )
            &&& after == (WorkerModel {
                started: true,
                configurations: after.configurations,
                deadlines: after.deadlines,
                ..w
            })
        }),
{
}

/// A delivered payload counts off as many items of its own kind as it carried,
/// the oldest pending ones, and no more than there are; delivered logs leave the
/// front of the queue. No item is dropped, and nothing of another kind changes.
/// Heartbeats, goodbyes and series count off nothing.
pub proof fn a_delivery_counts_off_its_own_kind<V>(
    w: WorkerModel,
    dependencies: Seq<Dependency>,
    integrations: Seq<Integration>,
    configurations: Seq<Configuration>,
    logs: Seq<Log>,
    series: Seq<SerieModel<V>>,
)
    ensures
        ({
            let after = w.sent_success(PayloadModel::<V>::AppDependenciesLoaded(dependencies));
            let (old, new) = (w.dependencies, after.dependencies);
            &&& after == (WorkerModel { dependencies: new, ..w })
            &&& new.items == old.items && new.max_items == old.max_items
            &&& old.flushed + dependencies.len() <= old.items.len() ==> new.flushed == old.flushed
                + dependencies.len()
            &&& old.flushed + dependencies.len() > old.items.len() ==> new.flushed
                == old.items.len()
        }),
        ({
            let after = w.sent_success(PayloadModel::<V>::AppIntegrationsChange(integrations));
            let (old, new) = (w.integrations, after.integrations);
            &&& after == (WorkerModel { integrations: new, ..w })
            &&& new.items == old.items && new.max_items == old.max_items
            &&& old.flushed + integrations.len() <= old.items.len() ==> new.flushed == old.flushed
                + integrations.len()
            &&& old.flushed + integrations.len() > old.items.len() ==> new.flushed
                == old.items.len()
        }),
        ({
            let after = w.sent_success(
                PayloadModel::<V>::AppClientConfigurationChange(configurations),
            );
            let (old, new) = (w.configurations, after.configurations);
            &&& after == w.sent_success(PayloadModel::<V>::AppStarted(configurations))
            &&& after == w.sent_success(PayloadModel::<V>::AppExtendedHeartbeat(configurations))
            &&& after == (WorkerModel { configurations: new, ..w })
            &&& new.items == old.items && new.max_items == old.max_items
            &&& old.flushed + configurations.len() <= old.items.len() ==> new.flushed
                == old.flushed + configurations.len()
            &&& old.flushed + configurations.len() > old.items.len() ==> new.flushed
                == old.items.len()
        }),
        ({
            let after = w.sent_success(PayloadModel::<V>::Logs(logs));
            &&& after == (WorkerModel { logs: after.logs, ..w })
            &&& logs.len() >= w.logs.len() ==> after.logs.len() == 0
            &&& logs.len() < w.logs.len() ==> after.logs.len() == w.logs.len() - logs.len()
            &&& forall|i: int|
                0 <= i < after.logs.len() ==> #[trigger] after.logs[i] == w.logs[i + logs.len()]
        }),
        w.sent_success(PayloadModel::<V>::AppHeartbeat) == w,
        w.sent_success(PayloadModel::<V>::AppClosing) == w,
        w.sent_success(PayloadModel::GenerateMetrics(series)) == w,
{
}

/// Whatever was delivered, nested batches too, no stored item is dropped or
/// becomes pending, and nothing but the stores and the log queue changes.
pub proof fn a_delivery_drops_no_item<V>(w: WorkerModel, payload: PayloadModel<V>)
    ensures
        ({
            let after = w.sent_success(payload);
            &&& after == (WorkerModel {
                dependencies: after.dependencies,
                integrations: after.integrations,
                configurations: after.configurations,
                logs: after.logs,
                ..w
            })
            &&& after.dependencies.items == w.dependencies.items
            &&& after.integrations.items == w.integrations.items
            &&& after.configurations.items == w.configurations.items
            &&& after.dependencies.max_items == w.dependencies.max_items
            &&& after.integrations.max_items == w.integrations.max_items
            &&& after.configurations.max_items == w.configurations.max_items
            &&& w.dependencies.flushed <= w.dependencies.items.len()
                ==> w.dependencies.flushed <= after.dependencies.flushed
                <= after.dependencies.items.len()
            &&& w.integrations.flushed <= w.integrations.items.len()
                ==> w.integrations.flushed <= after.integrations.flushed
                <= after.integrations.items.len()
            &&& w.configurations.flushed <= w.configurations.items.len()
                ==> w.configurations.flushed <= after.configurations.flushed
                <= after.configurations.items.len()
            &&& after.logs.len() <= w.logs.len()
        }),
    decreases payload,
{
    if let PayloadModel::MessageBatch(batch) = payload {
        a_delivered_batch_drops_no_item(w, batch);
    }
}

proof fn a_delivered_batch_drops_no_item<V>(w: WorkerModel, batch: Seq<PayloadModel<V>>)
    ensures
        ({
            let after = w.batch_sent_success(batch);
            &&& after == (WorkerModel {
                dependencies: after.dependencies,
                integrations: after.integrations,
                configurations: after.configurations,
                logs: after.logs,
                ..w
            })
            &&& after.dependencies.items == w.dependencies.items
            &&& after.integrations.items == w.integrations.items
            &&& after.configurations.items == w.configurations.items
            &&& after.dependencies.max_items == w.dependencies.max_items
            &&& after.integrations.max_items == w.integrations.max_items
            &&& after.configurations.max_items == w.configurations.max_items
            &&& w.dependencies.flushed <= w.dependencies.items.len()
                ==> w.dependencies.flushed <= after.dependencies.flushed
                <= after.dependencies.items.len()
            &&& w.integrations.flushed <= w.integrations.items.len()
                ==> w.integrations.flushed <= after.integrations.flushed
                <= after.integrations.items.len()
            &&& w.configurations.flushed <= w.configurations.items.len()
                ==> w.configurations.flushed <= after.configurations.flushed
                <= after.configurations.items.len()
            &&& after.logs.len() <= w.logs.len()
        }),
    decreases batch,
{
    if batch.len() > 0 {
        a_delivered_batch_drops_no_item(w, batch.drop_last());
        a_delivery_drops_no_item(w.batch_sent_success(batch.drop_last()), batch.last());
    }
}

/// The three parts of a flush follow each other whatever was delivered: the items,
/// then the logs that are queued at that time if there are any, then the series.
/// A part that was delivered is counted off as its payload says, one that was not
/// changes nothing, and series are never kept.
pub proof fn a_flush_goes_on_whatever_was_delivered<V>(
    w: WorkerModel,
    payload: PayloadModel<V>,
    delivered: bool,
    now: nat,
)
    requires
        w.deadlines.knows(LifecycleAction::FlushData),
    ensures
        ({
            let counted = if delivered {
                w.sent_success(payload)
            } else {
                w
            };
            let (events, after_events) = w.after_send(AfterSend::Events, payload, delivered, now);
            let (logs, after_logs) = w.after_send(AfterSend::Logs, payload, delivered, now);
            let (metrics, after_metrics) = w.after_send(
                AfterSend::Metrics,
                payload,
                delivered,
                now,
            );
            &&& events == counted
            &&& counted.logs.len() == 0 ==> after_events == CommandModel::<V>::TakeSeries(
                AfterSeries::Flush,
            )
            &&& counted.logs.len() > 0 ==> {
                &&& after_events matches CommandModel::Send(next, step)
                &&& step is Logs
                &&& next matches PayloadModel::Logs(list)
                &&& list.len() == counted.logs.len()
                &&& forall|i: int|
                    0 <= i < list.len() ==> #[trigger] list[i] == counted.logs[i].1
            }
            &&& logs == counted
            &&& after_logs == CommandModel::<V>::TakeSeries(AfterSeries::Flush)
            &&& after_metrics is Continue
            &&& metrics == (WorkerModel { deadlines: metrics.deadlines, ..w })
            &&& metrics.deadlines.delays == w.deadlines.delays
            &&& metrics.deadlines.deadlines == w.deadlines.deadlines.insert(
                LifecycleAction::FlushData,
                now + delay_of(w.deadlines.delays, LifecycleAction::FlushData)->0 as nat,
            )
        }),
{
}

/// The last part of a flush sends the series as they are if there are any, and
/// changes nothing yet; with none the flush is over and the next one is one delay
/// away.
pub proof fn a_flush_sends_all_series<V>(w: WorkerModel, series: Seq<SerieModel<V>>, now: nat)
    requires
        w.deadlines.knows(LifecycleAction::FlushData),
    ensures
        ({
            let (after, command) = w.after_series(AfterSeries::Flush, series, now);
            &&& series.len() > 0 ==> after == w && command == CommandModel::Send(
                PayloadModel::GenerateMetrics(series),
                AfterSend::Metrics,
            )
            &&& series.len() == 0 ==> {
                &&& command is Continue
                &&& after == (WorkerModel { deadlines: after.deadlines, ..w })
                &&& after.deadlines.delays == w.deadlines.delays
                &&& after.deadlines.deadlines == w.deadlines.deadlines.insert(
                    LifecycleAction::FlushData,
                    now + delay_of(w.deadlines.delays, LifecycleAction::FlushData)->0 as nat,
                )
            }
        }),
{
}

/// An extended heartbeat makes every stored item pending again, drops none, and
/// sends all the stored configuration, item by item. Nothing else changes.
pub proof fn an_extended_heartbeat_forgets_what_was_reported<V>(w: WorkerModel)
    ensures
        ({
            let (after, command) = w.dispatch(
                TelemetryActions::<V>::Lifecycle(LifecycleAction::ExtendedHeartbeat),
            );
            &&& after == (WorkerModel {
                dependencies: after.dependencies,
                integrations: after.integrations,
                configurations: after.configurations,
                ..w
            })
            &&& after.dependencies.flushed == 0
            &&& after.integrations.flushed == 0
            &&& after.configurations.flushed == 0
            &&& after.dependencies.items == w.dependencies.items
            &&& after.integrations.items == w.integrations.items
            &&& after.configurations.items == w.configurations.items
            &&& after.dependencies.max_items == w.dependencies.max_items
            &&& after.integrations.max_items == w.integrations.max_items
            &&& after.configurations.max_items == w.configurations.max_items
            &&& command matches CommandModel::Send(payload, step)
            &&& step is Heartbeat
            &&& payload matches PayloadModel::AppStarted(c)
            &&& c.len() == w.configurations.items.len()
            &&& forall|i: int| 0 <= i < c.len() ==> #[trigger] c[i] == w.configurations.items[i]
        }),
{
}

/// The outcome of an extended heartbeat counts off what was delivered, and
/// schedules the next flush and the next extended heartbeat either way. Nothing
/// else changes.
pub proof fn an_extended_heartbeat_comes_back<V>(
    w: WorkerModel,
    payload: PayloadModel<V>,
    delivered: bool,
    now: nat,
)
    requires
        w.deadlines.knows(LifecycleAction::FlushData),
        w.deadlines.knows(LifecycleAction::ExtendedHeartbeat),
    ensures
        ({
            let counted = if delivered {
                w.sent_success(payload)
            } else {
                w
            };
            let (after, command) = w.after_send(AfterSend::Heartbeat, payload, delivered, now);
            &&& command is Continue
            &&& after == (WorkerModel { deadlines: after.deadlines, ..counted })
            &&& after.deadlines.delays == w.deadlines.delays
            &&& after.deadlines.deadlines == w.deadlines.deadlines.insert(
                LifecycleAction::FlushData,
                now + delay_of(w.deadlines.delays, LifecycleAction::FlushData)->0 as nat,
            ).insert(
                LifecycleAction::ExtendedHeartbeat,
                now + delay_of(w.deadlines.delays, LifecycleAction::ExtendedHeartbeat)->0 as nat,
            )
        }),
{
    a_delivery_drops_no_item(w, payload);
}

/// Whatever was sent as the start: its outcome starts the worker, counts off what
/// was delivered and schedules the first flush, and nothing else changes.
pub proof fn a_start_counts_off_what_was_delivered<V>(
    w: WorkerModel,
    payload: PayloadModel<V>,
    delivered: bool,
    now: nat,
)
    requires
        w.deadlines.knows(LifecycleAction::FlushData),
    ensures
        ({
            let counted = if delivered {
                w.sent_success(payload)
            } else {
                w
            };
            let (after, command) = w.after_send(AfterSend::Start, payload, delivered, now);
            &&& command is Continue
            &&& after == (WorkerModel { started: true, deadlines: after.deadlines, ..counted })
            &&& after.deadlines.delays == w.deadlines.delays
            &&& after.deadlines.deadlines == w.deadlines.deadlines.insert(
                LifecycleAction::FlushData,
                now + delay_of(w.deadlines.delays, LifecycleAction::FlushData)->0 as nat,
            )
        }),
{
    a_delivery_drops_no_item(w, payload);
}

/// The metric aggregates are flushed when it is time, started or not, and the next
/// time is one delay later. Nothing else changes.
pub proof fn aggregates_are_flushed_again_and_again<V>(w: WorkerModel, now: nat)
    requires
        w.deadlines.knows(LifecycleAction::FlushMetricAggr),
    ensures
        w.dispatch(TelemetryActions::<V>::Lifecycle(LifecycleAction::FlushMetricAggr)) == (
            w,
            CommandModel::<V>::FlushAggregates(AfterAggregates::Reschedule),
        ),
        ({
            let (after, command) = w.after_aggregates::<V>(AfterAggregates::Reschedule, now);
            &&& command is Continue
            &&& after == (WorkerModel { deadlines: after.deadlines, ..w })
            &&& after.deadlines.delays == w.deadlines.delays
            &&& after.deadlines.deadlines == w.deadlines.deadlines.insert(
                LifecycleAction::FlushMetricAggr,
                now + delay_of(w.deadlines.delays, LifecycleAction::FlushMetricAggr)->0 as nat,
            )
        }),
{
}

/// Stopping a started worker goes through the aggregates and the series to the
/// last requests and changes nothing on the way. The first of these carries the
/// payloads of the pending items and then says that the application closes; the
/// second, which is there just if there are logs or series, carries all queued
/// logs and all series.
pub proof fn a_stop_sends_everything<V>(w: WorkerModel, series: Seq<SerieModel<V>>, now: nat)
    ensures
        w.dispatch(TelemetryActions::<V>::Lifecycle(LifecycleAction::Stop)) == (
            w,
            if w.started {
                CommandModel::<V>::FlushAggregates(AfterAggregates::Stop)
            } else {
                CommandModel::<V>::Break
            },
        ),
        w.after_aggregates::<V>(AfterAggregates::Stop, now) == (
            w,
            CommandModel::<V>::TakeSeries(AfterSeries::Stop),
        ),
        ({
            let (after, command) = w.after_series(AfterSeries::Stop, series, now);
            let events = w.app_events::<V>();
            let some_logs = w.logs.len() > 0;
            let some_series = series.len() > 0;
            &&& after == w
            &&& command matches CommandModel::SendAll(requests)
            &&& requests.len() == if some_logs || some_series {
                2int
            } else {
                1int
            }
            &&& requests[0] matches PayloadModel::MessageBatch(closing)
            &&& closing.len() == events.len() + 1
            &&& closing[events.len() as int] is AppClosing
            &&& (forall|i: int| 0 <= i < events.len() ==> #[trigger] closing[i] == events[i])
            &&& some_logs || some_series ==> {
                &&& requests[1] matches PayloadModel::MessageBatch(rest)
                &&& rest.len() == if some_logs && some_series {
                    2int
                } else {
                    1int
                }
                &&& some_logs ==> {
                    &&& rest[0] matches PayloadModel::Logs(list)
                    &&& list.len() == w.logs.len()
                    &&& forall|i: int| 0 <= i < list.len() ==> #[trigger] list[i] == w.logs[i].1
                }
                &&& some_series ==> rest[rest.len() - 1] == PayloadModel::GenerateMetrics(series)
            }
        }),
{
}

/// A series is named by its context and keeps its points. Its tags are those that
/// came with the points and then those of the context.
pub proof fn a_series_is_named_by_its_context<V>(
    flushed: FlushedSeries<V>,
    context: MetricContext,
)
    ensures
        ({
            let serie = serie_of(flushed, context);
            let extra = flushed.extra_tags@.len();
            &&& serie.namespace == context.namespace
            &&& serie.metric == context.name@
            &&& serie.common == context.common
            &&& serie._type == context.metric_type
            &&& serie.interval == 10
            &&& serie.points == flushed.points@
            &&& serie.tags.len() == extra + context.tags@.len()
            &&& forall|i: int|
                0 <= i < extra ==> #[trigger] serie.tags[i] == flushed.extra_tags@[i]
            &&& forall|i: int|
                extra <= i < serie.tags.len() ==> #[trigger] serie.tags[i] == context.tags@[i
                    - extra]
        }),
{
}

/// If all contexts are registered, every flushed series is reported, in its place
/// and under its own context; if none is, nothing is reported.
pub proof fn every_known_series_is_reported<V>(
    flushed: Seq<FlushedSeries<V>>,
    contexts: Seq<MetricContext>,
)
    ensures
        (forall|i: int|
            0 <= i < flushed.len() ==> #[trigger] flushed[i].context_key.index < contexts.len())
            ==> {
            &&& metrics_series(flushed, contexts).len() == flushed.len()
            &&& forall|i: int|
                0 <= i < flushed.len() ==> #[trigger] metrics_series(flushed, contexts)[i]
                    == serie_of(flushed[i], contexts[flushed[i].context_key.index as int])
        },
        (forall|i: int|
            0 <= i < flushed.len() ==> #[trigger] flushed[i].context_key.index >= contexts.len())
            ==> metrics_series(flushed, contexts).len() == 0,
    decreases flushed.len(),
{
    if flushed.len() > 0 {
        let rest = flushed.drop_last();
        every_known_series_is_reported(rest, contexts);
        assert(forall|i: int| 0 <= i < rest.len() ==> #[trigger] rest[i] == flushed[i]);
        assert(flushed.last() == flushed[flushed.len() - 1]);
    }
}

/// A request takes the next number and touches nothing else. Behind the largest
/// number comes zero.
pub proof fn a_request_takes_one_number(w: WorkerModel)
    ensures
        w.next_request() == (WorkerModel { seq_id: w.next_request().seq_id, ..w }),
        w.seq_id < u64::MAX ==> w.next_request().seq_id == w.seq_id + 1,
        w.seq_id == u64::MAX ==> w.next_request().seq_id == 0,
{
}

/// Scheduling sets one deadline and touches nothing else.
pub proof fn scheduling_sets_one_deadline(w: WorkerModel, event: LifecycleAction, now: nat)
    requires
        w.deadlines.knows(event),
    ensures
        ({
            let after = w.schedule(event, now);
            &&& after == (WorkerModel { deadlines: after.deadlines, ..w })
            &&& after.deadlines.delays == w.deadlines.delays
            &&& after.deadlines.deadlines == w.deadlines.deadlines.insert(
                event,
                now + delay_of(w.deadlines.delays, event)->0 as nat,
            )
        }),
{
}

/// What makes a state valid: no store is over its bound or has reported more than
/// it holds, no log location is queued twice, and the worker can schedule what it
/// schedules.
pub proof fn a_valid_worker_keeps_its_promises(w: WorkerModel, i: int, j: int)
    requires
        w.wf(),
    ensures
        w.dependencies.flushed <= w.dependencies.items.len() <= w.dependencies.max_items,
        w.integrations.flushed <= w.integrations.items.len() <= w.integrations.max_items,
        w.configurations.flushed <= w.configurations.items.len() <= w.configurations.max_items,
        0 <= i < j < w.logs.len() ==> w.logs[i].0 != w.logs[j].0,
        delay_of(w.deadlines.delays, LifecycleAction::FlushMetricAggr) is Some,
        delay_of(w.deadlines.delays, LifecycleAction::FlushData) is Some,
        delay_of(w.deadlines.delays, LifecycleAction::ExtendedHeartbeat) is Some,
{
}

} // verus!
