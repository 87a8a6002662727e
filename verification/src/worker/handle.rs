//! What an application asks of its worker.

use crate::data::{Dependency, Integration, Log, LogLevel, MetricNamespace, MetricType, Tag};
use crate::metrics::{ContextKey, MetricContext, MetricContexts};
use crate::worker::{LifecycleAction, LogIdentifier, TelemetryActions};
use vstd::prelude::*;

verus! {

/// What the handles of a worker share with it. Each method but the registration
/// of a metric returns the message to send to the worker.
#[derive(Debug)]
pub struct TelemetryWorkerHandle {
    contexts: MetricContexts,
}

impl View for TelemetryWorkerHandle {
    type V = Seq<MetricContext>;

    closed spec fn view(&self) -> Seq<MetricContext> {
        self.contexts@
    }
}

impl TelemetryWorkerHandle {
    /// A handle under which no metric is registered.
    pub fn new() -> (handle: Self)
        ensures
            handle@ == Seq::<MetricContext>::empty(),
    {
        TelemetryWorkerHandle { contexts: MetricContexts::new() }
    }

    /// The metrics that are registered.
    pub fn contexts(&self) -> (contexts: &MetricContexts)
        ensures
            contexts@ == self@,
    {
        &self.contexts
    }

    /// Registers a metric.
    pub fn register_metric_context(
        &mut self,
        name: String,
        tags: Vec<Tag>,
        metric_type: MetricType,
        common: bool,
        namespace: MetricNamespace,
    ) -> (key: ContextKey)
        ensures
            key.index == old(self)@.len(),
            final(self)@ == old(self)@.push(
                (MetricContext { namespace, name, tags, metric_type, common }),
            ),
    {
        self.contexts.register_metric_context(name, tags, metric_type, common, namespace)
    }

    pub fn send_start<V>(&self) -> (msg: TelemetryActions<V>)
        ensures
            msg == TelemetryActions::<V>::Lifecycle(LifecycleAction::Start),
    {
        TelemetryActions::Lifecycle(LifecycleAction::Start)
    }

    pub fn send_stop<V>(&self) -> (msg: TelemetryActions<V>)
        ensures
            msg == TelemetryActions::<V>::Lifecycle(LifecycleAction::Stop),
    {
        TelemetryActions::Lifecycle(LifecycleAction::Stop)
    }

    pub fn add_dependency<V>(&self, name: String, version: Option<String>) -> (msg:
        TelemetryActions<V>)
        ensures
            msg == TelemetryActions::<V>::AddDependecy(Dependency { name, version }),
    {
        TelemetryActions::AddDependecy(Dependency { name, version })
    }

    pub fn add_integration<V>(
        &self,
        name: String,
        enabled: bool,
        version: Option<String>,
        compatible: Option<bool>,
        auto_enabled: Option<bool>,
    ) -> (msg: TelemetryActions<V>)
        ensures
            msg == TelemetryActions::<V>::AddIntegration(
                (Integration { name, enabled, version, compatible, auto_enabled }),
            ),
    {
        TelemetryActions::AddIntegration(
            Integration { name, version, compatible, enabled, auto_enabled },
        )
    }

    /// Adds a log of the location whose hash is `identifier`.
    pub fn add_log<V>(
        &self,
        identifier: u64,
        message: String,
        level: LogLevel,
        stack_trace: Option<String>,
    ) -> (msg: TelemetryActions<V>)
        ensures
            msg == TelemetryActions::<V>::AddLog(
                (
                    LogIdentifier { indentifier: identifier },
                    Log { message, level, stack_trace, count: 1 },
                ),
            ),
    {
        TelemetryActions::AddLog(
            (
                LogIdentifier { indentifier: identifier },
                Log { message, level, stack_trace, count: 1 },
            ),
        )
    }

    pub fn add_point<V>(&self, value: V, context: &ContextKey, extra_tags: Vec<Tag>) -> (msg:
        TelemetryActions<V>)
        ensures
            msg == TelemetryActions::AddPoint((value, *context, extra_tags)),
    {
        TelemetryActions::AddPoint((value, *context, extra_tags))
    }
}

} // verus!
