//! Metric contexts: what a metric is called, where it belongs and which tags
//! each of its series carries.

use crate::data::{MetricNamespace, MetricType, Tag};
use vstd::prelude::*;

verus! {

/// Names a registered metric context by its place in the order of registration.
#[derive(Debug, Clone, Copy, PartialEq, Eq, Structural)]
pub struct ContextKey {
    pub index: usize,
}

/// What is registered once for a metric and shared by all its points.
#[derive(Debug)]
pub struct MetricContext {
    pub namespace: MetricNamespace,
    pub name: String,
    pub tags: Vec<Tag>,
    pub metric_type: MetricType,
    pub common: bool,
}

/// The contexts that were registered, each under the key it was given.
#[derive(Debug)]
pub struct MetricContexts {
    contexts: Vec<MetricContext>,
}

/// The context that `key` stands for among `contexts`.
pub open spec fn lookup(contexts: Seq<MetricContext>, key: ContextKey) -> Option<MetricContext> {
    if key.index < contexts.len() {
        Some(contexts[key.index as int])
    } else {
        None
    }
}

impl MetricContexts {
    /// The registered contexts, in the order of registration.
    pub closed spec fn view(&self) -> Seq<MetricContext> {
        self.contexts@
    }

    pub fn new() -> (contexts: Self)
        ensures
            contexts@ == Seq::<MetricContext>::empty(),
    {
        MetricContexts { contexts: Vec::new() }
    }

    /// Registers a context and returns its key. No key given out before changes
    /// its meaning.
    pub fn register_metric_context(
        &mut self,
        name: String,
        tags: Vec<Tag>,
        metric_type: MetricType,
        common: bool,
        namespace: MetricNamespace,
    ) -> (key: ContextKey)
        ensures
            key.index == old(self)@.len(),
            final(self)@ == old(self)@.push(
                (MetricContext { namespace, name, tags, metric_type, common }),
            ),
    {
        let key = ContextKey { index: self.contexts.len() };
        self.contexts.push(MetricContext { namespace, name, tags, metric_type, common });
        key
    }

    /// The context registered under `key`, if there is one.
    pub fn get_context(&self, key: ContextKey) -> (context: Option<&MetricContext>)
        ensures
            context is Some <==> lookup(self@, key) is Some,
            context matches Some(found) ==> Some(*found) == lookup(self@, key),
    {
        if key.index < self.contexts.len() {
            Some(&self.contexts[key.index])
        } else {
            None
        }
    }
}

impl Default for MetricContexts {
    fn default() -> (contexts: Self)
        ensures
            contexts@ == Seq::<MetricContext>::empty(),
    {
        Self::new()
    }
}

/// A context is found under the key that its registration returned, and every
/// context that was found before is still found under its own key.
pub proof fn registered_context_is_found(
    before: Seq<MetricContext>,
    context: MetricContext,
    key: ContextKey,
    other: ContextKey,
)
    requires
        key.index == before.len(),
    ensures
        lookup(before, key) is None,
        lookup(before.push(context), key) == Some(context),
        lookup(before, other) is Some ==> lookup(before.push(context), other) == lookup(
            before,
            other,
        ),
{
}

/// A key stands for the context in its place, and a key behind the last one for
/// none.
pub proof fn a_key_stands_for_one_place(contexts: Seq<MetricContext>, key: ContextKey)
    ensures
        key.index < contexts.len() ==> lookup(contexts, key) == Some(contexts[key.index as int]),
        key.index >= contexts.len() ==> lookup(contexts, key) is None,
{
}

} // verus!
