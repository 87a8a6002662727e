use ddtelemetry::data::{Configuration, Dependency, Integration};
use ddtelemetry::metrics::{ContextKey, MetricContexts};
use ddtelemetry::data::{MetricNamespace, MetricType, Tag};
use ddtelemetry::worker::scheduler::{Scheduler, UnknownEvent};
use ddtelemetry::worker::store::{QueueMap, Store};
use ddtelemetry::worker::{LifecycleAction, LogIdentifier};

fn dep(name: &str) -> Dependency {
    Dependency {
        name: name.to_string(),
        version: None,
    }
}

fn names(store: &Store<Dependency>) -> Vec<String> {
    store.unflushed().into_iter().map(|d| d.name).collect()
}

fn at(indentifier: u64) -> LogIdentifier {
    LogIdentifier { indentifier }
}

#[test]
fn store_reports_each_item_once() {
    let mut store = Store::new(10);
    assert!(!store.flush_not_empty());
    store.insert(dep("a"));
    store.insert(dep("b"));
    store.insert(dep("a"));
    assert_eq!(names(&store), ["a", "b"]);
    store.removed_flushed(1);
    assert_eq!(names(&store), ["b"]);
    store.insert(dep("a"));
    assert_eq!(names(&store), ["b"]);
    store.removed_flushed(7);
    assert!(!store.flush_not_empty());
    assert_eq!(store.len_stored(), 2);
    store.unflush_stored();
    assert_eq!(names(&store), ["a", "b"]);
}

#[test]
fn full_store_drops_the_oldest() {
    let mut store = Store::new(2);
    store.insert(dep("a"));
    store.insert(dep("b"));
    store.removed_flushed(1);
    store.insert(dep("c"));
    assert_eq!(store.len_stored(), 2);
    assert_eq!(names(&store), ["b", "c"]);
    store.insert(dep("d"));
    assert_eq!(names(&store), ["c", "d"]);
    store.insert(dep("b"));
    assert_eq!(names(&store), ["d", "b"]);
}

#[test]
fn store_without_room_stays_empty() {
    let mut store = Store::new(0);
    store.insert(dep("a"));
    assert_eq!(store.len_stored(), 0);
    assert!(!store.flush_not_empty());
}

#[test]
fn every_field_tells_items_apart() {
    let mut store = Store::new(10);
    store.insert(dep("a"));
    store.insert(Dependency {
        name: "a".to_string(),
        version: Some("1".to_string()),
    });
    store.insert(Dependency {
        name: "a".to_string(),
        version: Some("2".to_string()),
    });
    assert_eq!(store.len_stored(), 3);

    let integration = |enabled, version: Option<&str>, compatible, auto_enabled| Integration {
        name: "i".to_string(),
        enabled,
        version: version.map(str::to_string),
        compatible,
        auto_enabled,
    };
    let mut store = Store::new(10);
    store.insert(integration(true, None, None, None));
    store.insert(integration(false, None, None, None));
    store.insert(integration(true, Some("1"), None, None));
    store.insert(integration(true, None, Some(true), None));
    store.insert(integration(true, None, None, Some(true)));
    store.insert(integration(true, None, None, Some(false)));
    store.insert(integration(true, None, None, Some(false)));
    assert_eq!(store.len_stored(), 6);
    assert_eq!(
        store.unflushed()[5],
        integration(true, None, None, Some(false))
    );

    let configuration = |name: &str, value: &str| Configuration {
        name: name.to_string(),
        value: value.to_string(),
    };
    let mut store = Store::new(10);
    store.insert(configuration("a", "1"));
    store.insert(configuration("a", "2"));
    store.insert(configuration("b", "1"));
    store.insert(configuration("a", "1"));
    assert_eq!(store.len_stored(), 3);
    assert_eq!(store.unflushed()[1], configuration("a", "2"));
}

#[test]
fn queue_map_keeps_places() {
    let mut queue: QueueMap<u32> = QueueMap::new();
    *queue.get_mut_or_insert(at(1), 10) += 1;
    *queue.get_mut_or_insert(at(2), 20) += 1;
    *queue.get_mut_or_insert(at(1), 99) += 1;
    assert_eq!(queue.len(), 2);
    assert_eq!(*queue.get_idx(0), (at(1), 12));
    assert_eq!(*queue.get_idx(1), (at(2), 21));
    assert_eq!(queue.pop_front(), Some((at(1), 12)));
    assert_eq!(queue.pop_front(), Some((at(2), 21)));
    assert_eq!(queue.pop_front(), None);
}

#[test]
fn scheduler_gives_the_earliest_deadline() {
    let mut scheduler = Scheduler::new(vec![
        (10, LifecycleAction::FlushMetricAggr),
        (60, LifecycleAction::FlushData),
        (99, LifecycleAction::FlushData),
    ]);
    assert_eq!(scheduler.next_deadline(), None);
    assert_eq!(
        scheduler.schedule_event(LifecycleAction::FlushData, 5),
        Ok(())
    );
    assert_eq!(
        scheduler.next_deadline(),
        Some((65, LifecycleAction::FlushData))
    );
    scheduler
        .schedule_event(LifecycleAction::FlushMetricAggr, 20)
        .unwrap();
    assert_eq!(
        scheduler.next_deadline(),
        Some((30, LifecycleAction::FlushMetricAggr))
    );
    scheduler
        .schedule_event(LifecycleAction::FlushMetricAggr, 60)
        .unwrap();
    assert_eq!(
        scheduler.next_deadline(),
        Some((65, LifecycleAction::FlushData))
    );
}

#[test]
fn event_without_delay_is_unknown() {
    let mut scheduler = Scheduler::new(vec![(10, LifecycleAction::FlushData)]);
    assert_eq!(
        scheduler.schedule_event(LifecycleAction::Stop, 0),
        Err(UnknownEvent)
    );
    assert_eq!(scheduler.next_deadline(), None);
}

#[test]
fn deadline_beyond_the_largest_time() {
    let mut scheduler = Scheduler::new(vec![(u64::MAX, LifecycleAction::FlushData)]);
    scheduler
        .schedule_event(LifecycleAction::FlushData, u64::MAX)
        .unwrap();
    assert_eq!(
        scheduler.next_deadline(),
        Some((2 * (u64::MAX as u128), LifecycleAction::FlushData))
    );
}

#[test]
fn contexts_are_found_by_their_keys() {
    let mut contexts = MetricContexts::default();
    let tag = |value: &str| Tag {
        value: value.to_string(),
    };
    let first = contexts.register_metric_context(
        "first".to_string(),
        vec![tag("a:b")],
        MetricType::Count,
        true,
        MetricNamespace::Tracers,
    );
    let second = contexts.register_metric_context(
        "second".to_string(),
        vec![],
        MetricType::Gauge,
        false,
        MetricNamespace::Telemetry,
    );
    let found = contexts.get_context(first).unwrap();
    assert_eq!(found.name, "first");
    assert_eq!(found.tags, [tag("a:b")]);
    assert_eq!(found.metric_type, MetricType::Count);
    assert_eq!(found.namespace, MetricNamespace::Tracers);
    assert!(found.common);
    let found = contexts.get_context(second).unwrap();
    assert_eq!(found.name, "second");
    assert!(!found.common);
    assert!(contexts.get_context(ContextKey { index: 2 }).is_none());
}
