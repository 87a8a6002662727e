//! What holds of the worker whatever it is told and whatever becomes of its
//! requests.

use crate::data::{Log, PayloadModel, SerieModel};
use crate::metrics::{lookup, MetricContext};
use crate::worker::model::{metrics_series, optional, serie_of, CommandModel, WorkerModel};
use crate::worker::scheduler::delay_of;
use crate::worker::store::{
    has_key, key_index, keys_unique, put, reported_items_are_not_pending, store_keeps_its_bound,
};
use crate::worker::{
    AfterAggregates, AfterSend, AfterSeries, FlushedSeries, LifecycleAction, LogIdentifier,
    TelemetryActions,
};
use vstd::prelude::*;

verus! {

/// What the worker can be given: an action, or the outcome of a command.
pub enum Input<V> {
    Action(TelemetryActions<V>),
    Sent(AfterSend, PayloadModel<V>, bool),
    Aggregates(AfterAggregates),
    Series(AfterSeries, Seq<SerieModel<V>>),
}

impl WorkerModel {
    /// What `input` at the time `now` makes of the worker, and what the worker
    /// asks for.
    pub open spec fn step<V>(self, input: Input<V>, now: nat) -> (WorkerModel, CommandModel<V>) {
        match input {
            Input::Action(action) => self.dispatch(action),
            Input::Sent(step, payload, delivered) => self.after_send(step, payload, delivered, now),
            Input::Aggregates(step) => self.after_aggregates(step, now),
            Input::Series(step, series) => self.after_series(step, series, now),
        }
    }

    /// Whether `input` leaves every log count in range.
    pub open spec fn accepts<V>(self, input: Input<V>) -> bool {
        input matches Input::Action(action) ==> self.counts_fit(action)
    }

    /// Whether the two states agree on all that no input changes.
    pub open spec fn same_setup(self, other: WorkerModel) -> bool {
        &&& self.dependencies.max_items == other.dependencies.max_items
        &&& self.integrations.max_items == other.integrations.max_items
        &&& self.configurations.max_items == other.configurations.max_items
        &&& self.deadlines.delays == other.deadlines.delays
        &&& self.seq_id == other.seq_id
        &&& self.runtime_id == other.runtime_id
        &&& self.host == other.host
        &&& self.app == other.app
        &&& self.config == other.config
    }
}

proof fn sent_keeps_valid<V>(w: WorkerModel, payload: PayloadModel<V>)
    requires
        w.wf(),
    ensures
        w.sent_success(payload).wf(),
        w.sent_success(payload).same_setup(w),
        w.sent_success(payload).started == w.started,
        w.sent_success(payload).dependencies.items == w.dependencies.items,
        w.sent_success(payload).integrations.items == w.integrations.items,
        w.sent_success(payload).configurations.items == w.configurations.items,
        w.sent_success(payload).deadlines == w.deadlines,
    decreases payload,
{
    match payload {
        PayloadModel::MessageBatch(batch) => {
            batch_keeps_valid(w, batch);
        },
        PayloadModel::Logs(p) => {
            let after = w.sent_success(payload);
            assert forall|i: int, j: int|
                #![trigger after.logs[i], after.logs[j]]
                0 <= i < j < after.logs.len() implies after.logs[i].0 != after.logs[j].0 by {
                assert(after.logs[i] == w.logs[i + p.len()]);
                assert(after.logs[j] == w.logs[j + p.len()]);
            }
        },
        _ => {},
    }
}

proof fn batch_keeps_valid<V>(w: WorkerModel, batch: Seq<PayloadModel<V>>)
    requires
        w.wf(),
    ensures
        w.batch_sent_success(batch).wf(),
        w.batch_sent_success(batch).same_setup(w),
        w.batch_sent_success(batch).started == w.started,
        w.batch_sent_success(batch).dependencies.items == w.dependencies.items,
        w.batch_sent_success(batch).integrations.items == w.integrations.items,
        w.batch_sent_success(batch).configurations.items == w.configurations.items,
        w.batch_sent_success(batch).deadlines == w.deadlines,
    decreases batch,
{
    if batch.len() > 0 {
        batch_keeps_valid(w, batch.drop_last());
        sent_keeps_valid(w.batch_sent_success(batch.drop_last()), batch.last());
    }
}

proof fn put_keeps_unique<V>(entries: Seq<(LogIdentifier, V)>, key: LogIdentifier, value: V)
    requires
        keys_unique(entries),
    ensures
        keys_unique(put(entries, key, value)),
{
}

/// No input breaks a store's bound, lets an item in twice or queues a log
/// location twice; none changes what the worker was set up with or takes a
/// request number; a worker that is started stays started, and nothing but the
/// outcome of the start starts it.
pub proof fn worker_stays_valid<V>(w: WorkerModel, input: Input<V>, now: nat)
    requires
        w.wf(),
        w.accepts(input),
    ensures
        w.step(input, now).0.wf(),
        w.step(input, now).0.same_setup(w),
        w.started ==> w.step(input, now).0.started,
        w.step(input, now).0.started ==> w.started || (input matches Input::Sent(step, _, _)
            && step is Start),
{
    match input {
        Input::Action(TelemetryActions::AddDependecy(dep)) => {
            store_keeps_its_bound(w.dependencies, dep);
        },
        Input::Action(TelemetryActions::AddIntegration(integration)) => {
            store_keeps_its_bound(w.integrations, integration);
        },
        Input::Action(TelemetryActions::AddConfig(cfg)) => {
            store_keeps_its_bound(w.configurations, cfg);
        },
        Input::Action(TelemetryActions::AddLog((identifier, log))) => {
            put_keeps_unique(w.logs, identifier, w.counted_log(identifier, log));
        },
        Input::Sent(_, payload, _) => {
            sent_keeps_valid(w, payload);
        },
        _ => {},
    }
}

/// How many more inputs a command can take before its action is done.
pub open spec fn remaining_inputs<V>(command: CommandModel<V>) -> nat {
    match command {
        CommandModel::Continue => 0,
        CommandModel::Break => 0,
        CommandModel::AddPoint(_, _, _) => 0,
        CommandModel::SendAll(_) => 0,
        CommandModel::Send(_, AfterSend::Start) => 1,
        CommandModel::Send(_, AfterSend::Heartbeat) => 1,
        CommandModel::Send(_, AfterSend::Metrics) => 1,
        CommandModel::TakeSeries(_) => 2,
        CommandModel::Send(_, AfterSend::Logs) => 3,
        CommandModel::FlushAggregates(_) => 3,
        CommandModel::Send(_, AfterSend::Events) => 4,
    }
}

/// Whether `input` is an outcome of `command`.
pub open spec fn answers<V>(input: Input<V>, command: CommandModel<V>) -> bool {
    match command {
        CommandModel::Send(payload, step) => input matches Input::Sent(s, p, _) && s == step && p
            == payload,
        CommandModel::TakeSeries(step) => input matches Input::Series(s, _) && s == step,
        CommandModel::FlushAggregates(step) => input matches Input::Aggregates(s) && s == step,
        _ => false,
    }
}

/// Every action is done after at most four outcomes: each answer leaves less to
/// do, and what waits for no outcome is done.
pub proof fn every_action_comes_to_an_end<V>(
    w: WorkerModel,
    command: CommandModel<V>,
    outcome: Input<V>,
    now: nat,
)
    ensures
        answers(outcome, command) ==> remaining_inputs(w.step(outcome, now).1)
            < remaining_inputs(command) <= 4,
        remaining_inputs(command) == 0 ==> !answers(outcome, command),
{
}

/// Nothing is reported before the application has started: a flush asks for
/// nothing, and stopping ends the worker at once.
pub proof fn nothing_is_reported_before_start<V>(w: WorkerModel)
    requires
        !w.started,
    ensures
        w.dispatch_lifecycle::<V>(LifecycleAction::FlushData) == (w, CommandModel::<V>::Continue),
        w.dispatch_lifecycle::<V>(LifecycleAction::Stop) == (w, CommandModel::<V>::Break),
{
}

/// The application starts once: the first start counts, delivered or not, and
/// schedules the first flush; a later one does nothing.
pub proof fn start_happens_once<V>(w: WorkerModel, delivered: bool, now: nat)
    requires
        w.wf(),
        !w.started,
    ensures
        ({
            let (asked, command) = w.dispatch_lifecycle::<V>(LifecycleAction::Start);
            let payload = PayloadModel::<V>::AppStarted(w.configurations.unflushed());
            let (after, last) = asked.after_send(AfterSend::Start, payload, delivered, now);
            &&& command == CommandModel::Send(payload, AfterSend::Start)
            &&& last is Continue
            &&& after.started
            &&& after.deadlines == w.deadlines.schedule_event(LifecycleAction::FlushData, now)
            &&& after.dispatch_lifecycle::<V>(LifecycleAction::Start) == (
                after,
                CommandModel::<V>::Continue,
            )
            &&& delivered ==> after.configurations.unflushed().len() == 0
            &&& !delivered ==> after.configurations == w.configurations
        }),
{
}

/// Delivering a list and then one payload is delivering the list with the payload
/// behind it.
proof fn batch_of_appended<V>(w: WorkerModel, batch: Seq<PayloadModel<V>>, last: PayloadModel<V>)
    ensures
        w.batch_sent_success(batch.push(last)) == w.batch_sent_success(batch).sent_success(last),
        w.batch_sent_success(batch + optional(true, last)) == w.batch_sent_success(
            batch,
        ).sent_success(last),
        w.batch_sent_success(batch + optional(false, last)) == w.batch_sent_success(batch),
{
    assert(batch.push(last).drop_last() =~= batch);
    assert(batch + optional(true, last) =~= batch.push(last));
    assert(batch + optional(false, last) =~= batch);
}

/// Delivering two batches one after the other is delivering one batch of the
/// payloads of both; a batch of one payload is that payload, and an empty batch
/// changes nothing. The payloads can be batches themselves.
pub proof fn batches_are_delivered_payload_by_payload<V>(
    w: WorkerModel,
    a: Seq<PayloadModel<V>>,
    b: Seq<PayloadModel<V>>,
    p: PayloadModel<V>,
)
    ensures
        w.sent_success(PayloadModel::MessageBatch(a + b)) == w.sent_success(
            PayloadModel::MessageBatch(a),
        ).sent_success(PayloadModel::MessageBatch(b)),
        w.batch_sent_success(a + b) == w.batch_sent_success(a).batch_sent_success(b),
        w.sent_success(PayloadModel::MessageBatch(seq![p])) == w.sent_success(p),
        w.sent_success(PayloadModel::MessageBatch(Seq::<PayloadModel<V>>::empty())) == w,
    decreases b.len(),
{
    batch_of_appended(w, Seq::<PayloadModel<V>>::empty(), p);
    assert(Seq::<PayloadModel<V>>::empty().push(p) =~= seq![p]);
    if b.len() == 0 {
        assert(a + b =~= a);
    } else {
        batches_are_delivered_payload_by_payload(w, a, b.drop_last(), p);
        assert((a + b).drop_last() =~= a + b.drop_last());
    }
}

/// Delivering the payloads of the items to report takes all of them as reported
/// and touches nothing else.
proof fn app_events_delivered<V>(w: WorkerModel)
    requires
        w.wf(),
    ensures
        w.batch_sent_success(w.app_events::<V>()) == (WorkerModel {
            dependencies: w.dependencies.removed_flushed(w.dependencies.unflushed().len()),
            integrations: w.integrations.removed_flushed(w.integrations.unflushed().len()),
            configurations: w.configurations.removed_flushed(w.configurations.unflushed().len()),
            ..w
        }),
{
    let dependencies = PayloadModel::<V>::AppDependenciesLoaded(w.dependencies.unflushed());
    let integrations = PayloadModel::<V>::AppIntegrationsChange(w.integrations.unflushed());
    let configurations = PayloadModel::<V>::AppClientConfigurationChange(
        w.configurations.unflushed(),
    );
    let first = optional(w.dependencies.unflushed().len() > 0, dependencies);
    let second = first + optional(w.integrations.unflushed().len() > 0, integrations);
    batch_of_appended(w, Seq::<PayloadModel<V>>::empty(), dependencies);
    assert(first =~= Seq::<PayloadModel<V>>::empty() + first);
    batch_of_appended(w, first, integrations);
    batch_of_appended(w, second, configurations);
    assert(w.batch_sent_success(w.app_events::<V>()) =~= (WorkerModel {
        dependencies: w.dependencies.removed_flushed(w.dependencies.unflushed().len()),
        integrations: w.integrations.removed_flushed(w.integrations.unflushed().len()),
        configurations: w.configurations.removed_flushed(w.configurations.unflushed().len()),
        ..w
    }));
}

/// Once the payloads of the items to report and the pending logs were delivered,
/// nothing is pending. The items are still stored, so an extended heartbeat makes
/// them pending again.
pub proof fn delivering_what_is_pending_leaves_nothing_pending<V>(w: WorkerModel)
    requires
        w.wf(),
    ensures
        ({
            let after = w.sent_success(
                PayloadModel::<V>::MessageBatch(w.app_events::<V>()),
            ).sent_success(PayloadModel::<V>::Logs(w.log_list()));
            let again = after.dispatch_lifecycle::<V>(LifecycleAction::ExtendedHeartbeat).0;
            &&& after.app_events::<V>() == Seq::<PayloadModel<V>>::empty()
            &&& after.log_list() == Seq::<Log>::empty()
            &&& after.dependencies.items == w.dependencies.items
            &&& after.integrations.items == w.integrations.items
            &&& after.configurations.items == w.configurations.items
            &&& again.dependencies.unflushed() == w.dependencies.items
            &&& again.integrations.unflushed() == w.integrations.items
            &&& again.configurations.unflushed() == w.configurations.items
        }),
{
    app_events_delivered::<V>(w);
    reported_items_are_not_pending(w.dependencies, w.dependencies.unflushed().len());
    reported_items_are_not_pending(w.integrations, w.integrations.unflushed().len());
    reported_items_are_not_pending(w.configurations, w.configurations.unflushed().len());
    let after = w.sent_success(PayloadModel::<V>::MessageBatch(w.app_events::<V>())).sent_success(
        PayloadModel::<V>::Logs(w.log_list()),
    );
    assert(after.app_events::<V>() =~= Seq::<PayloadModel<V>>::empty());
    assert(after.log_list() =~= Seq::<Log>::empty());
}

/// What a flush delivered is not sent again: once its first payload is
/// delivered, no dependency, integration or configuration is pending, the items
/// are still stored, and the next flush sends a bare heartbeat.
pub proof fn delivered_items_are_not_sent_again<V>(w: WorkerModel, now: nat)
    requires
        w.wf(),
        w.started,
    ensures
        ({
            let payload = w.flush_payload::<V>();
            let after = w.after_send(AfterSend::Events, payload, true, now).0;
            &&& w.dispatch_lifecycle::<V>(LifecycleAction::FlushData) == (
                w,
                CommandModel::Send(payload, AfterSend::Events),
            )
            &&& after.dependencies.unflushed().len() == 0
            &&& after.integrations.unflushed().len() == 0
            &&& after.configurations.unflushed().len() == 0
            &&& after.dependencies.items == w.dependencies.items
            &&& after.integrations.items == w.integrations.items
            &&& after.configurations.items == w.configurations.items
            &&& after.logs == w.logs
            &&& after.flush_payload::<V>() == PayloadModel::<V>::AppHeartbeat
        }),
{
    app_events_delivered::<V>(w);
    batch_of_appended(w, w.app_events::<V>(), PayloadModel::AppHeartbeat);
    reported_items_are_not_pending(w.dependencies, w.dependencies.unflushed().len());
    reported_items_are_not_pending(w.integrations, w.integrations.unflushed().len());
    reported_items_are_not_pending(w.configurations, w.configurations.unflushed().len());
}

/// What was not delivered is sent again: a failed request changes nothing that
/// is pending, so the next flush carries the same items and logs.
pub proof fn undelivered_items_are_sent_again<V>(
    w: WorkerModel,
    step: AfterSend,
    payload: PayloadModel<V>,
    now: nat,
)
    ensures
        ({
            let after = w.after_send(step, payload, false, now).0;
            &&& after.dependencies == w.dependencies
            &&& after.integrations == w.integrations
            &&& after.configurations == w.configurations
            &&& after.logs == w.logs
            &&& after.flush_payload::<V>() == w.flush_payload::<V>()
            &&& after.log_list() == w.log_list()
        }),
{
}

/// Delivered logs leave the queue: none is pending afterwards.
pub proof fn delivered_logs_are_not_sent_again<V>(w: WorkerModel, now: nat)
    ensures
        ({
            let payload = PayloadModel::<V>::Logs(w.log_list());
            let after = w.after_send(AfterSend::Logs, payload, true, now).0;
            &&& after == (WorkerModel { logs: Seq::empty(), ..w })
            &&& after.log_list().len() == 0
        }),
{
    let payload = PayloadModel::<V>::Logs(w.log_list());
    let after = w.after_send(AfterSend::Logs, payload, true, now).0;
    assert(after =~= (WorkerModel { logs: Seq::empty(), ..w }));
}

/// An extended heartbeat reports all that is stored again: every stored
/// configuration with the heartbeat itself, every stored dependency and
/// integration with the next flush. The next flush and the next extended
/// heartbeat are scheduled whether it was delivered or not.
pub proof fn heartbeat_reports_everything_again<V>(w: WorkerModel, delivered: bool, now: nat)
    requires
        w.wf(),
    ensures
        ({
            let (asked, command) = w.dispatch_lifecycle::<V>(LifecycleAction::ExtendedHeartbeat);
            let payload = PayloadModel::<V>::AppStarted(w.configurations.items);
            let (after, last) = asked.after_send(AfterSend::Heartbeat, payload, delivered, now);
            &&& command == CommandModel::Send(payload, AfterSend::Heartbeat)
            &&& last is Continue
            &&& after.dependencies.unflushed() == w.dependencies.items
            &&& after.integrations.unflushed() == w.integrations.items
            &&& delivered ==> after.configurations.unflushed().len() == 0
            &&& !delivered ==> after.configurations.unflushed() == w.configurations.items
            &&& after.deadlines == w.deadlines.schedule_event(
                LifecycleAction::FlushData,
                now,
            ).schedule_event(LifecycleAction::ExtendedHeartbeat, now)
        }),
{
    let asked = w.dispatch_lifecycle::<V>(LifecycleAction::ExtendedHeartbeat).0;
    assert(asked.dependencies.unflushed() =~= w.dependencies.items);
    assert(asked.integrations.unflushed() =~= w.integrations.items);
    assert(asked.configurations.unflushed() =~= w.configurations.items);
}

/// Logs of one location are one entry: adding a log to a location that is queued
/// raises its count by one and keeps its message and its place; a new location
/// goes to the end. No other entry changes.
pub proof fn logs_are_counted_by_location<V>(w: WorkerModel, identifier: LogIdentifier, log: Log)
    requires
        w.wf(),
        w.counts_fit(TelemetryActions::<V>::AddLog((identifier, log))),
    ensures
        ({
            let after = w.dispatch(TelemetryActions::<V>::AddLog((identifier, log))).0;
            let at = key_index(after.logs, identifier);
            &&& has_key(after.logs, identifier)
            &&& keys_unique(after.logs)
            &&& has_key(w.logs, identifier) ==> {
                let queued = w.logs[key_index(w.logs, identifier)].1;
                &&& after.logs.len() == w.logs.len()
                &&& at == key_index(w.logs, identifier)
                &&& after.logs[at].1 == (Log { count: (queued.count + 1) as u32, ..queued })
            }
            &&& !has_key(w.logs, identifier) ==> {
                &&& after.logs.len() == w.logs.len() + 1
                &&& at == w.logs.len()
                &&& after.logs[at].1 == (Log { count: (log.count + 1) as u32, ..log })
            }
            &&& forall|i: int|
                0 <= i < w.logs.len() && i != at ==> #[trigger] after.logs[i] == w.logs[i]
        }),
{
    let after = w.dispatch(TelemetryActions::<V>::AddLog((identifier, log))).0;
    put_keeps_unique(w.logs, identifier, w.counted_log(identifier, log));
    if has_key(w.logs, identifier) {
        assert(after.logs[key_index(w.logs, identifier)].0 == identifier);
    } else {
        assert(after.logs[w.logs.len() as int].0 == identifier);
    }
}

/// The commands of a flush that wait for an outcome.
pub open spec fn flush_goes_on<V>(command: CommandModel<V>) -> bool {
    match command {
        CommandModel::Send(_, step) => step is Events || step is Logs || step is Metrics,
        CommandModel::TakeSeries(step) => step is Flush,
        _ => false,
    }
}

/// A flush goes on until the next one is scheduled: whatever it sent and
/// whatever was delivered, it ends with the next flush one interval away.
pub proof fn flush_schedules_the_next_flush<V>(w: WorkerModel, outcome: Input<V>, now: nat)
    requires
        w.deadlines.knows(LifecycleAction::FlushData),
        match outcome {
            Input::Sent(step, _, _) => step is Events || step is Logs || step is Metrics,
            Input::Series(step, _) => step is Flush,
            _ => false,
        },
    ensures
        ({
            let (after, command) = w.step(outcome, now);
            ||| flush_goes_on(command)
            ||| command is Continue && after.deadlines == w.deadlines.schedule_event(
                LifecycleAction::FlushData,
                now,
            )
        }),
{
}

/// A scheduled event is next due one delay after it was scheduled, whatever
/// deadline it had before, and no other deadline moves.
pub proof fn scheduled_event_is_due_one_delay_later(
    w: WorkerModel,
    event: LifecycleAction,
    other: LifecycleAction,
    now: nat,
)
    requires
        w.deadlines.knows(event),
    ensures
        ({
            let after = w.schedule(event, now).deadlines;
            &&& after.deadlines.dom().contains(event)
            &&& after.deadlines[event] == now + delay_of(w.deadlines.delays, event)->0
            &&& other != event ==> (after.deadlines.dom().contains(other)
                <==> w.deadlines.deadlines.dom().contains(other))
            &&& other != event && w.deadlines.deadlines.dom().contains(other)
                ==> after.deadlines[other] == w.deadlines.deadlines[other]
            &&& after.knows(other) == w.deadlines.knows(other)
        }),
{
}

/// Stopping reports all that is pending: a batch with every pending item that
/// ends with the news that the application closes, and, if there are logs or
/// series, a batch with all of them. Then the worker ends.
pub proof fn stop_reports_everything_pending<V>(
    w: WorkerModel,
    series: Seq<SerieModel<V>>,
    now: nat,
)
    requires
        w.started,
    ensures
        w.dispatch_lifecycle::<V>(LifecycleAction::Stop) == (
            w,
            CommandModel::<V>::FlushAggregates(AfterAggregates::Stop),
        ),
        w.after_aggregates::<V>(AfterAggregates::Stop, now) == (
            w,
            CommandModel::<V>::TakeSeries(AfterSeries::Stop),
        ),
        w.after_series(AfterSeries::Stop, series, now) == (
            w,
            CommandModel::SendAll(w.closing(series)),
        ),
        w.closing(series)[0] == PayloadModel::MessageBatch(
            w.app_events::<V>().push(PayloadModel::AppClosing),
        ),
        w.closing(series).len() == if w.logs.len() == 0 && series.len() == 0 {
            1int
        } else {
            2int
        },
        w.logs.len() > 0 || series.len() > 0 ==> w.closing(series)[1]
            == PayloadModel::MessageBatch(w.observability(series)),
        w.logs.len() > 0 ==> w.observability(series)[0] == PayloadModel::<V>::Logs(w.log_list()),
        series.len() > 0 ==> w.observability(series).last() == PayloadModel::GenerateMetrics(
            series,
        ),
{
}

/// Series are reported in the order in which they were flushed: one more is
/// reported behind the others if its context is registered, and not at all
/// otherwise.
pub proof fn series_are_reported_in_order<V>(
    flushed: Seq<FlushedSeries<V>>,
    next: FlushedSeries<V>,
    contexts: Seq<MetricContext>,
)
    ensures
        metrics_series(flushed.push(next), contexts) == (match lookup(contexts, next.context_key) {
            Some(context) => metrics_series(flushed, contexts).push(serie_of(next, context)),
            None => metrics_series(flushed, contexts),
        }),
        metrics_series(Seq::<FlushedSeries<V>>::empty(), contexts).len() == 0,
{
    assert(flushed.push(next).drop_last() =~= flushed);
    assert(metrics_series(flushed.push(next), contexts) =~= (match lookup(
        contexts,
        next.context_key,
    ) {
        Some(context) => metrics_series(flushed, contexts).push(serie_of(next, context)),
        None => metrics_series(flushed, contexts),
    }));
}

/// The worker after `count` requests took their numbers.
pub open spec fn after_requests(w: WorkerModel, count: nat) -> WorkerModel
    decreases count,
{
    if count == 0 {
        w
    } else {
        after_requests(w, (count - 1) as nat).next_request()
    }
}

/// Requests are numbered one after the other: the request behind `count` others
/// has the number `count` above that of the first, and taking a number changes
/// nothing else.
pub proof fn requests_are_numbered_in_order(w: WorkerModel, count: nat)
    requires
        w.seq_id + count <= u64::MAX,
    ensures
        after_requests(w, count).seq_id == w.seq_id + count,
        after_requests(w, count) == (WorkerModel { seq_id: (w.seq_id + count) as u64, ..w }),
    decreases count,
{
    if count > 0 {
        requests_are_numbered_in_order(w, (count - 1) as nat);
    }
}

} // verus!
