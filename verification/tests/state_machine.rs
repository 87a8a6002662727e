use ddtelemetry::data::{
    AppDependenciesLoaded, Application, Configuration, Dependency, Host, Integration, Log,
    LogLevel, MetricNamespace, MetricType, Payload, Tag,
};
use ddtelemetry::metrics::ContextKey;
use ddtelemetry::worker::builder::{
    TelemetryWorkerBuilder, EXTENDED_HEARTBEAT_INTERVAL, MAX_ITEMS, METRICS_FLUSH_INTERVAL,
};
use ddtelemetry::worker::config::{Config, ConfigBuilder};
use ddtelemetry::worker::handle::TelemetryWorkerHandle;
use ddtelemetry::worker::shutdown::InnerTelemetryShutdown;
use ddtelemetry::worker::{
    build_metrics_series, AfterAggregates, AfterSend, AfterSeries, Command, FlushedSeries,
    LifecycleAction, Received, TelemetryActions, TelemetryWorker, Wait,
};

const INTERVAL: u64 = 1000;

type Action = TelemetryActions<u32>;

fn builder() -> TelemetryWorkerBuilder {
    TelemetryWorkerBuilder::new(
        "host".to_string(),
        "service".to_string(),
        "rust".to_string(),
        "1.2".to_string(),
        "4.5".to_string(),
    )
}

fn config() -> Config {
    Config {
        endpoint: None,
        telemetry_debug_logging_enabled: true,
        telemetry_hearbeat_interval: INTERVAL,
    }
}

fn worker() -> TelemetryWorker {
    builder().build_worker(config())
}

fn act(worker: &mut TelemetryWorker, action: Action) -> Command<u32> {
    assert!(worker.can_dispatch(&action));
    worker.dispatch_action(action)
}

fn lifecycle(worker: &mut TelemetryWorker, action: LifecycleAction) -> Command<u32> {
    act(worker, TelemetryActions::Lifecycle(action))
}

fn setting(name: &str) -> Action {
    TelemetryActions::AddConfig(Configuration {
        name: name.to_string(),
        value: "on".to_string(),
    })
}

fn dependency(name: &str) -> Action {
    TelemetryWorkerHandle::new().add_dependency(name.to_string(), None)
}

fn log(identifier: u64, message: &str) -> Action {
    TelemetryWorkerHandle::new().add_log(identifier, message.to_string(), LogLevel::Warn, None)
}

fn started() -> TelemetryWorker {
    let mut worker = worker();
    match lifecycle(&mut worker, LifecycleAction::Start) {
        Command::Send(payload, step) => {
            assert!(matches!(
                worker.after_send(step, &payload, true, 0),
                Command::Continue
            ));
        }
        other => panic!("{:?}", other),
    }
    worker
}

/// The payload of a flush, delivered or not, and what the worker asks for then.
fn flush(worker: &mut TelemetryWorker, delivered: bool) -> (Payload<u32>, Command<u32>) {
    match lifecycle(worker, LifecycleAction::FlushData) {
        Command::Send(payload, AfterSend::Events) => {
            let next = worker.after_send(AfterSend::Events, &payload, delivered, 5);
            (payload, next)
        }
        other => panic!("{:?}", other),
    }
}

fn kinds(payloads: &[Payload<u32>]) -> Vec<&'static str> {
    payloads.iter().map(|p| p.request_type()).collect()
}

fn batch(payload: &Payload<u32>) -> &[Payload<u32>] {
    match payload {
        Payload::MessageBatch(batch) => batch,
        other => panic!("{:?}", other),
    }
}

#[test]
fn unstarted_worker_reports_nothing() {
    let mut worker = worker();
    assert!(matches!(
        act(&mut worker, dependency("a")),
        Command::Continue
    ));
    assert!(matches!(
        lifecycle(&mut worker, LifecycleAction::FlushData),
        Command::Continue
    ));
    assert!(matches!(
        lifecycle(&mut worker, LifecycleAction::Stop),
        Command::Break
    ));
}

#[test]
fn start_happens_once_and_schedules_a_flush() {
    let mut worker = worker();
    assert_eq!(worker.next_wait(false, 0), Some(Wait::Forever));
    act(&mut worker, setting("a"));
    let payload = match lifecycle(&mut worker, LifecycleAction::Start) {
        Command::Send(payload, AfterSend::Start) => payload,
        other => panic!("{:?}", other),
    };
    match &payload {
        Payload::AppStarted(p) => assert_eq!(p.configuration[0].name, "a"),
        other => panic!("{:?}", other),
    }
    worker.after_send(AfterSend::Start, &payload, true, 500);
    assert_eq!(
        worker.next_wait(false, 500),
        Some(Wait::Until(1500, LifecycleAction::FlushData))
    );
    assert!(matches!(
        lifecycle(&mut worker, LifecycleAction::Start),
        Command::Continue
    ));
    // The configuration was delivered.
    assert!(matches!(flush(&mut worker, true).0, Payload::AppHeartbeat(())));
}

#[test]
fn undelivered_start_counts_as_a_start() {
    let mut worker = worker();
    act(&mut worker, setting("a"));
    match lifecycle(&mut worker, LifecycleAction::Start) {
        Command::Send(payload, step) => {
            worker.after_send(step, &payload, false, 0);
        }
        other => panic!("{:?}", other),
    }
    assert!(matches!(
        lifecycle(&mut worker, LifecycleAction::Start),
        Command::Continue
    ));
    let (payload, _) = flush(&mut worker, true);
    assert_eq!(
        kinds(batch(&payload)),
        ["app-client-configuration-change", "app-heartbeat"]
    );
}

#[test]
fn flush_sends_until_delivered() {
    let mut worker = started();
    let handle = TelemetryWorkerHandle::new();
    act(&mut worker, setting("c"));
    act(
        &mut worker,
        handle.add_integration("i".to_string(), true, None, Some(true), None),
    );
    act(&mut worker, dependency("a"));
    act(&mut worker, dependency("a"));
    act(&mut worker, dependency("b"));
    for delivered in [false, true] {
        let (payload, next) = flush(&mut worker, delivered);
        let sent = batch(&payload);
        assert_eq!(
            kinds(sent),
            [
                "app-dependencies-loaded",
                "app-integrations-change",
                "app-client-configuration-change",
                "app-heartbeat"
            ]
        );
        match &sent[0] {
            Payload::AppDependenciesLoaded(p) => {
                let names: Vec<&str> = p.dependencies.iter().map(|d| d.name.as_str()).collect();
                assert_eq!(names, ["a", "b"]);
            }
            other => panic!("{:?}", other),
        }
        match &sent[1] {
            Payload::AppIntegrationsChange(p) => assert_eq!(
                p.integrations,
                [Integration {
                    name: "i".to_string(),
                    enabled: true,
                    version: None,
                    compatible: Some(true),
                    auto_enabled: None,
                }]
            ),
            other => panic!("{:?}", other),
        }
        assert!(matches!(next, Command::TakeSeries(AfterSeries::Flush)));
    }
    assert!(matches!(flush(&mut worker, true).0, Payload::AppHeartbeat(())));
}

#[test]
fn logs_follow_the_events_until_delivered() {
    let mut worker = started();
    act(&mut worker, log(1, "one"));
    act(&mut worker, log(2, "two"));
    act(&mut worker, log(1, "again"));
    for delivered in [false, true] {
        let logs = match flush(&mut worker, true).1 {
            Command::Send(logs, AfterSend::Logs) => logs,
            other => panic!("{:?}", other),
        };
        match &logs {
            Payload::Logs(logs) => {
                assert_eq!(logs.len(), 2);
                assert_eq!(logs[0].message, "one");
                assert_eq!(logs[0].count, 3);
                assert_eq!(logs[0].level, LogLevel::Warn);
                assert_eq!(logs[1].message, "two");
                assert_eq!(logs[1].count, 2);
            }
            other => panic!("{:?}", other),
        }
        assert!(matches!(
            worker.after_send(AfterSend::Logs, &logs, delivered, 5),
            Command::TakeSeries(AfterSeries::Flush)
        ));
    }
    assert!(matches!(
        flush(&mut worker, true).1,
        Command::TakeSeries(AfterSeries::Flush)
    ));
}

#[test]
fn log_count_at_its_limit_is_not_dispatched() {
    let mut worker = worker();
    let mut full: Action = log(1, "one");
    if let TelemetryActions::AddLog((_, log)) = &mut full {
        log.count = u32::MAX - 1;
    }
    act(&mut worker, full);
    assert!(!worker.can_dispatch(&log(1, "one")));
    assert!(worker.can_dispatch(&log(2, "two")));
}

fn flushed(index: usize, tag: &str, value: u32) -> FlushedSeries<u32> {
    FlushedSeries {
        context_key: ContextKey { index },
        extra_tags: vec![Tag {
            value: tag.to_string(),
        }],
        points: vec![(99, value)],
    }
}

fn metric_handle() -> TelemetryWorkerHandle {
    let mut handle = TelemetryWorkerHandle::new();
    let key = handle.register_metric_context(
        "metric".to_string(),
        vec![Tag {
            value: "context".to_string(),
        }],
        MetricType::Count,
        true,
        MetricNamespace::Tracers,
    );
    assert_eq!(key, ContextKey { index: 0 });
    handle
}

#[test]
fn series_are_named_by_their_contexts() {
    let handle = metric_handle();
    let metrics = build_metrics_series(
        vec![flushed(0, "x", 1), flushed(7, "lost", 2), flushed(0, "y", 3)],
        handle.contexts(),
    );
    assert_eq!(metrics.series.len(), 2);
    let serie = &metrics.series[0];
    assert_eq!(serie.metric, "metric");
    assert_eq!(serie.namespace, MetricNamespace::Tracers);
    assert_eq!(serie._type, MetricType::Count);
    assert_eq!(serie.points, [(99, 1)]);
    assert_eq!(serie.interval, 10);
    assert!(serie.common);
    let tags: Vec<&str> = serie.tags.iter().map(|t| t.value.as_str()).collect();
    assert_eq!(tags, ["x", "context"]);
    assert_eq!(metrics.series[1].points, [(99, 3)]);
}

#[test]
fn flush_ends_with_the_next_one_scheduled() {
    let handle = metric_handle();
    let mut worker = started();
    assert!(matches!(
        worker.after_series(
            AfterSeries::Flush,
            vec![flushed(7, "lost", 2)],
            handle.contexts(),
            40
        ),
        Command::Continue
    ));
    assert_eq!(
        worker.next_wait(false, 41),
        Some(Wait::Until(1040, LifecycleAction::FlushData))
    );
    let metrics = match worker.after_series(
        AfterSeries::Flush,
        vec![flushed(0, "x", 1)],
        handle.contexts(),
        50,
    ) {
        Command::Send(payload, AfterSend::Metrics) => payload,
        other => panic!("{:?}", other),
    };
    assert_eq!(metrics.request_type(), "generate-metrics");
    assert!(matches!(
        worker.after_send(AfterSend::Metrics, &metrics, false, 60),
        Command::Continue
    ));
    assert_eq!(
        worker.next_wait(false, 41),
        Some(Wait::Until(1060, LifecycleAction::FlushData))
    );
}

#[test]
fn heartbeat_reports_everything_again() {
    let mut worker = started();
    act(&mut worker, setting("c"));
    act(&mut worker, dependency("a"));
    flush(&mut worker, true);
    let payload = match lifecycle(&mut worker, LifecycleAction::ExtendedHeartbeat) {
        Command::Send(payload, AfterSend::Heartbeat) => payload,
        other => panic!("{:?}", other),
    };
    match &payload {
        Payload::AppStarted(p) => assert_eq!(p.configuration[0].name, "c"),
        other => panic!("{:?}", other),
    }
    assert!(matches!(
        worker.after_send(AfterSend::Heartbeat, &payload, true, 2000),
        Command::Continue
    ));
    let (payload, _) = flush(&mut worker, true);
    assert_eq!(
        kinds(batch(&payload)),
        ["app-dependencies-loaded", "app-heartbeat"]
    );
    assert_eq!(
        worker.next_wait(false, 0),
        Some(Wait::Until(3000, LifecycleAction::FlushData))
    );
}

#[test]
fn aggregates_are_flushed_again_later() {
    let mut worker = worker();
    assert!(matches!(
        lifecycle(&mut worker, LifecycleAction::FlushMetricAggr),
        Command::FlushAggregates(AfterAggregates::Reschedule)
    ));
    let next: Command<u32> = worker.after_aggregates(AfterAggregates::Reschedule, 3);
    assert!(matches!(next, Command::Continue));
    let due = METRICS_FLUSH_INTERVAL as u128 + 3;
    assert_eq!(
        worker.next_wait(false, 0),
        Some(Wait::Until(due, LifecycleAction::FlushMetricAggr))
    );
    assert_eq!(METRICS_FLUSH_INTERVAL, 10 * 1_000_000_000);
    assert_eq!(EXTENDED_HEARTBEAT_INTERVAL, 24 * 3600 * 1_000_000_000);
}

#[test]
fn stop_sends_all_that_is_pending() {
    let handle = metric_handle();
    let mut worker = started();
    act(&mut worker, dependency("a"));
    act(&mut worker, log(1, "one"));
    assert!(matches!(
        lifecycle(&mut worker, LifecycleAction::Stop),
        Command::FlushAggregates(AfterAggregates::Stop)
    ));
    let next: Command<u32> = worker.after_aggregates(AfterAggregates::Stop, 0);
    assert!(matches!(next, Command::TakeSeries(AfterSeries::Stop)));
    match worker.after_series(
        AfterSeries::Stop,
        vec![flushed(0, "x", 1)],
        handle.contexts(),
        0,
    ) {
        Command::SendAll(payloads) => {
            assert_eq!(payloads.len(), 2);
            assert_eq!(
                kinds(batch(&payloads[0])),
                ["app-dependencies-loaded", "app-closing"]
            );
            assert_eq!(kinds(batch(&payloads[1])), ["logs", "generate-metrics"]);
        }
        other => panic!("{:?}", other),
    }
}

#[test]
fn stop_with_nothing_pending_says_goodbye() {
    let mut worker = started();
    let series: Vec<FlushedSeries<u32>> = vec![];
    let handle = TelemetryWorkerHandle::new();
    match worker.after_series(AfterSeries::Stop, series, handle.contexts(), 0) {
        Command::SendAll(payloads) => {
            assert_eq!(payloads.len(), 1);
            assert_eq!(kinds(batch(&payloads[0])), ["app-closing"]);
        }
        other => panic!("{:?}", other),
    }
}

#[test]
fn points_go_to_the_aggregates() {
    let mut worker = worker();
    let handle = metric_handle();
    let key = ContextKey { index: 0 };
    match act(&mut worker, handle.add_point(17, &key, vec![])) {
        Command::AddPoint(17, point_key, tags) => {
            assert_eq!(point_key, key);
            assert!(tags.is_empty());
        }
        other => panic!("{:?}", other),
    }
}

#[test]
fn waiting_ends_at_the_deadline() {
    let worker = started();
    assert_eq!(worker.next_wait(true, 0), None);
    assert_eq!(
        worker.next_wait(false, INTERVAL),
        Some(Wait::Until(1000, LifecycleAction::FlushData))
    );
    assert_eq!(
        worker.next_wait(false, INTERVAL + 1),
        Some(Wait::Fire(LifecycleAction::FlushData))
    );
}

#[test]
fn closed_mailbox_stops_the_worker() {
    let closed: Received<u32> = Received::Mailbox(None);
    assert!(matches!(
        closed.into_action(),
        TelemetryActions::Lifecycle(LifecycleAction::Stop)
    ));
    assert!(matches!(
        Received::Mailbox(Some(dependency("a"))).into_action(),
        TelemetryActions::AddDependecy(Dependency { .. })
    ));
    let late: Received<u32> = Received::Deadline(LifecycleAction::FlushData);
    assert!(matches!(
        late.into_action(),
        TelemetryActions::Lifecycle(LifecycleAction::FlushData)
    ));
}

#[test]
fn handle_builds_lifecycle_messages() {
    let handle = TelemetryWorkerHandle::new();
    let start: Action = handle.send_start();
    assert!(matches!(
        start,
        TelemetryActions::Lifecycle(LifecycleAction::Start)
    ));
    let stop: Action = handle.send_stop();
    assert!(matches!(
        stop,
        TelemetryActions::Lifecycle(LifecycleAction::Stop)
    ));
    match log(42, "m") {
        TelemetryActions::AddLog((identifier, log)) => {
            assert_eq!(identifier.indentifier, 42);
            assert_eq!(log.count, 1);
            assert_eq!(log.stack_trace, None);
        }
        other => panic!("{:?}", other),
    }
}

#[test]
fn builder_defaults() {
    let builder = builder();
    assert_eq!(builder.host.hostname, "host");
    assert_eq!(builder.host.os, None);
    assert_eq!(
        builder.application,
        Application {
            service_name: "service".to_string(),
            service_version: None,
            env: None,
            language_name: "rust".to_string(),
            language_version: "1.2".to_string(),
            tracer_version: "4.5".to_string(),
            runtime_name: None,
            runtime_version: None,
            runtime_patches: None,
        }
    );
    assert_eq!(builder.runtime_id, None);
    assert!(builder.native_deps);
    assert!(!builder.rust_shared_lib_deps);
    assert_eq!(builder.dependencies.len_stored(), 0);
    assert_eq!(MAX_ITEMS, 5000);

    let host = Host {
        hostname: "fetched".to_string(),
        container_id: None,
        os: Some("linux".to_string()),
        os_version: None,
        kernel_name: None,
        kernel_release: None,
        kernel_version: None,
    };
    let fetched = TelemetryWorkerBuilder::new_fetch_host(
        host,
        "service".to_string(),
        "rust".to_string(),
        "1.2".to_string(),
        "4.5".to_string(),
    );
    assert_eq!(fetched.host.hostname, "fetched");
    assert_eq!(fetched.host.os.as_deref(), Some("linux"));
    assert_eq!(fetched.application, builder.application);
}

#[test]
fn given_settings_override() {
    let merged = ConfigBuilder::default().merge(config());
    assert!(merged.telemetry_debug_logging_enabled);
    assert_eq!(merged.telemetry_hearbeat_interval, INTERVAL);
    let merged = ConfigBuilder {
        endpoint: None,
        telemetry_debug_logging_enabled: Some(false),
        telemetry_hearbeat_interval: Some(5),
    }
    .merge(config());
    assert!(!merged.telemetry_debug_logging_enabled);
    assert_eq!(merged.telemetry_hearbeat_interval, 5);

    let mut builder = builder();
    builder.config.telemetry_hearbeat_interval = Some(5);
    let worker = builder.build_worker(config());
    assert_eq!(worker.config().telemetry_hearbeat_interval, 5);
}

#[test]
fn shutdown_ends_the_wait() {
    let mut shutdown = InnerTelemetryShutdown::new();
    assert!(shutdown.wait_for_shutdown());
    shutdown.shutdown_finished();
    assert!(!shutdown.wait_for_shutdown());
}

/// What is pending after `payloads` were delivered.
fn pending_after(payloads: Vec<Payload<u32>>) -> Vec<String> {
    let mut worker = started();
    for name in ["a", "b", "c"] {
        act(&mut worker, dependency(name));
    }
    act(&mut worker, setting("s"));
    act(&mut worker, log(1, "one"));
    for payload in &payloads {
        worker.payload_sent_success(payload);
    }
    let mut pending = Vec::new();
    let (payload, next) = flush(&mut worker, false);
    if let Payload::MessageBatch(batch) = &payload {
        for payload in batch {
            pending.push(payload.request_type().to_string());
            if let Payload::AppDependenciesLoaded(p) = payload {
                pending.extend(p.dependencies.iter().map(|d| d.name.clone()));
            }
        }
    }
    if let Command::Send(Payload::Logs(logs), _) = next {
        pending.extend(logs.into_iter().map(|l| l.message));
    }
    pending
}

fn loaded(count: usize) -> Payload<u32> {
    let dependency = || Dependency {
        name: String::new(),
        version: None,
    };
    Payload::AppDependenciesLoaded(AppDependenciesLoaded {
        dependencies: (0..count).map(|_| dependency()).collect(),
    })
}

fn one_log() -> Payload<u32> {
    Payload::Logs(vec![Log {
        message: String::new(),
        level: LogLevel::Warn,
        count: 1,
        stack_trace: None,
    }])
}

#[test]
fn batches_are_delivered_payload_by_payload() {
    let batch = Payload::MessageBatch;
    let expected = [
        "app-dependencies-loaded",
        "c",
        "app-client-configuration-change",
        "app-heartbeat",
    ];
    assert_eq!(
        pending_after(vec![batch(vec![loaded(1), loaded(1), one_log()])]),
        expected
    );
    assert_eq!(
        pending_after(vec![
            batch(vec![loaded(1)]),
            batch(vec![loaded(1), one_log()])
        ]),
        expected
    );
    assert_eq!(
        pending_after(vec![batch(vec![batch(vec![loaded(2)]), one_log()])]),
        expected
    );
    assert_eq!(
        pending_after(vec![loaded(2), batch(vec![]), one_log()]),
        expected
    );
}

#[test]
fn delivering_what_is_pending_leaves_nothing_pending() {
    let mut worker = started();
    act(&mut worker, dependency("a"));
    act(&mut worker, setting("s"));
    act(&mut worker, log(1, "one"));
    let events: Vec<Payload<u32>> = worker.build_app_events_batch();
    assert_eq!(
        kinds(&events),
        ["app-dependencies-loaded", "app-client-configuration-change"]
    );
    let logs = worker.build_logs();
    assert_eq!(logs[0].message, "one");
    worker.payload_sent_success(&Payload::MessageBatch(events));
    worker.payload_sent_success(&Payload::<u32>::Logs(logs));
    assert!(worker.build_app_events_batch::<u32>().is_empty());
    assert!(worker.build_logs().is_empty());
    lifecycle(&mut worker, LifecycleAction::ExtendedHeartbeat);
    assert_eq!(
        kinds(&worker.build_app_events_batch()),
        ["app-dependencies-loaded", "app-client-configuration-change"]
    );
}

#[test]
fn only_the_outcome_of_the_start_starts_the_worker() {
    let mut worker = worker();
    let heartbeat: Payload<u32> = Payload::AppHeartbeat(());
    act(&mut worker, dependency("a"));
    lifecycle(&mut worker, LifecycleAction::ExtendedHeartbeat);
    worker.after_send(AfterSend::Heartbeat, &heartbeat, true, 0);
    worker.after_send(AfterSend::Metrics, &heartbeat, true, 0);
    lifecycle(&mut worker, LifecycleAction::Start);
    assert!(matches!(
        lifecycle(&mut worker, LifecycleAction::FlushData),
        Command::Continue
    ));
    worker.after_send(AfterSend::Start, &heartbeat, false, 0);
    assert!(matches!(
        lifecycle(&mut worker, LifecycleAction::FlushData),
        Command::Send(_, AfterSend::Events)
    ));
}
