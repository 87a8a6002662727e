//! Building a worker.

use crate::data::{Application, Configuration, Dependency, Host, Integration};
use crate::worker::config::{Config, ConfigBuilder};
use crate::worker::model::WorkerModel;
use crate::worker::scheduler::{delay_of, Scheduler, SchedulerModel};
use crate::worker::store::{QueueMap, Store, StoreModel};
use crate::worker::{
    LifecycleAction, TelemetryWorker, TelemetryWorkerData, METRICS_FLUSH_INTERVAL_SECS,
};
use vstd::prelude::*;

verus! {

/// How many dependencies/integrations/configs we keep in memory at most
pub const MAX_ITEMS: usize = 5000;

/// Time between two flushes of the metric aggregates, in nanoseconds.
pub const METRICS_FLUSH_INTERVAL: u64 = METRICS_FLUSH_INTERVAL_SECS * 1_000_000_000;

/// Time between two reports of all that is stored, in nanoseconds.
pub const EXTENDED_HEARTBEAT_INTERVAL: u64 = 86_400_000_000_000;

/// A lower case hexadecimal digit.
pub open spec fn hex_digit(c: char) -> bool {
    '0' <= c <= '9' || 'a' <= c <= 'f'
}

/// The text of a random UUID: groups of 8, 4, 4, 4 and 12 hexadecimal digits
/// with hyphens between them, of which two digits say the version and the
/// variant.
pub open spec fn random_uuid_text(text: Seq<char>) -> bool {
    &&& text.len() == 36
    &&& text[14] == '4'
    &&& text[19] == '8' || text[19] == '9' || text[19] == 'a' || text[19] == 'b'
    &&& forall|i: int|
        0 <= i < 36 ==> if i == 8 || i == 13 || i == 18 || i == 23 {
            #[trigger] text[i] == '-'
        } else {
            hex_digit(text[i])
        }
}

/// Calls `uuid::Uuid::new_v4` and writes its result out with `to_string`. The
/// UUID is random; its text has the form that every version 4 UUID has. The
/// call panics where the operating system has no random bytes to give.
#[verifier::external_body]
fn random_uuid() -> (text: String)
    ensures
        random_uuid_text(text@),
{
    uuid::Uuid::new_v4().to_string()
}

/// What a worker is built from.
#[derive(Debug)]
pub struct TelemetryWorkerBuilder {
    pub host: Host,
    pub application: Application,
    pub runtime_id: Option<String>,
    pub dependencies: Store<Dependency>,
    pub integrations: Store<Integration>,
    pub configurations: Store<Configuration>,
    pub native_deps: bool,
    pub rust_shared_lib_deps: bool,
    pub config: ConfigBuilder,
}

/// A store that holds nothing and keeps `MAX_ITEMS` items at most.
pub open spec fn empty_store<T>() -> StoreModel<T> {
    StoreModel { items: Seq::empty(), flushed: 0, max_items: MAX_ITEMS as nat }
}

impl TelemetryWorkerBuilder {
    /// The stores are valid.
    pub open spec fn wf(&self) -> bool {
        self.dependencies@.wf() && self.integrations@.wf() && self.configurations@.wf()
    }

    /// Whether the builder has the settings that it has at first: no runtime
    /// identifier, empty stores, and no configuration.
    pub open spec fn is_default(&self) -> bool {
        &&& self.runtime_id is None
        &&& self.dependencies@ == empty_store::<Dependency>()
        &&& self.integrations@ == empty_store::<Integration>()
        &&& self.configurations@ == empty_store::<Configuration>()
        &&& self.native_deps
        &&& !self.rust_shared_lib_deps
        &&& self.config == (ConfigBuilder {
            endpoint: None,
            telemetry_debug_logging_enabled: None,
            telemetry_hearbeat_interval: None,
        })
    }

    /// A worker for an application on `host`.
    pub fn new_fetch_host(
        host: Host,
        service_name: String,
        language_name: String,
        language_version: String,
        tracer_version: String,
    ) -> (builder: Self)
        ensures
            builder.wf(),
            builder.is_default(),
            builder.host == host,
            builder.application == (Application {
                service_name,
                service_version: None,
                env: None,
                language_name,
                language_version,
                tracer_version,
                runtime_name: None,
                runtime_version: None,
                runtime_patches: None,
            }),
    {
        Self {
            host,
            ..Self::new(
                String::new(),
                service_name,
                language_name,
                language_version,
                tracer_version,
            )
        }
    }

    /// A worker for an application on the host called `hostname`.
    pub fn new(
        hostname: String,
        service_name: String,
        language_name: String,
        language_version: String,
        tracer_version: String,
    ) -> (builder: Self)
        ensures
            builder.wf(),
            builder.is_default(),
            builder.host == (Host {
                hostname,
                container_id: None,
                os: None,
                os_version: None,
                kernel_name: None,
                kernel_release: None,
                kernel_version: None,
            }),
            builder.application == (Application {
                service_name,
                service_version: None,
                env: None,
                language_name,
                language_version,
                tracer_version,
                runtime_name: None,
                runtime_version: None,
                runtime_patches: None,
            }),
    {
        Self {
            host: Host {
                hostname,
                container_id: None,
                os: None,
                os_version: None,
                kernel_name: None,
                kernel_release: None,
                kernel_version: None,
            },
            application: Application {
                service_name,
                service_version: None,
                env: None,
                language_name,
                language_version,
                tracer_version,
                runtime_name: None,
                runtime_version: None,
                runtime_patches: None,
            },
            runtime_id: None,
            dependencies: Store::new(MAX_ITEMS),
            integrations: Store::new(MAX_ITEMS),
            configurations: Store::new(MAX_ITEMS),
            native_deps: true,
            rust_shared_lib_deps: false,
            config: ConfigBuilder::default(),
        }
    }

    /// The worker that is built with `external_config` and `runtime_id`: it is
    /// not started, has sent nothing and has nothing scheduled.
    pub open spec fn built(self, external_config: Config, runtime_id: Seq<char>) -> WorkerModel {
        let config = self.config.merged(external_config);
        WorkerModel {
            started: false,
            dependencies: self.dependencies@,
            integrations: self.integrations@,
            configurations: self.configurations@,
            logs: Seq::empty(),
            deadlines: SchedulerModel {
                delays: seq![
                    (METRICS_FLUSH_INTERVAL, LifecycleAction::FlushMetricAggr),
                    (config.telemetry_hearbeat_interval, LifecycleAction::FlushData),
                    (EXTENDED_HEARTBEAT_INTERVAL, LifecycleAction::ExtendedHeartbeat),
                ],
                deadlines: Map::empty(),
            },
            seq_id: 1,
            runtime_id,
            host: self.host,
            app: self.application,
            config,
        }
    }

    /// Builds the worker. Its runtime identifier is the one that was set, or
    /// else a random one.
    pub fn build_worker(self, external_config: Config) -> (worker: TelemetryWorker)
        requires
            self.wf(),
        ensures
            worker.wf(),
            worker@ == self.built(external_config, worker@.runtime_id),
            match self.runtime_id {
                Some(runtime_id) => worker@.runtime_id == runtime_id@,
                None => random_uuid_text(worker@.runtime_id),
            },
    {
        let runtime_id = match &self.runtime_id {
            Some(runtime_id) => runtime_id.clone(),
            None => random_uuid(),
        };
        self.build_worker_as(external_config, runtime_id)
    }

    /// Builds the worker with the given runtime identifier.
    pub fn build_worker_as(self, external_config: Config, runtime_id: String) -> (worker:
        TelemetryWorker)
        requires
            self.wf(),
        ensures
            worker.wf(),
            worker@ == self.built(external_config, runtime_id@),
    {
        let config = self.config.merge(external_config);
        let telemetry_hearbeat_interval: u64 = config.telemetry_hearbeat_interval;
        let delays = vec![
            (METRICS_FLUSH_INTERVAL, LifecycleAction::FlushMetricAggr),
            (telemetry_hearbeat_interval, LifecycleAction::FlushData),
            (EXTENDED_HEARTBEAT_INTERVAL, LifecycleAction::ExtendedHeartbeat),
        ];
        let worker = TelemetryWorker {
            data: TelemetryWorkerData {
                started: false,
                dependencies: self.dependencies,
                integrations: self.integrations,
                configurations: self.configurations,
                logs: QueueMap::new(),
                host: self.host,
                app: self.application,
            },
            config,
            seq_id: 1,
            runtime_id,
            deadlines: Scheduler::new(delays),
        };
        proof {
            reveal_with_fuel(delay_of, 4);
            assert(worker@ =~= self.built(external_config, runtime_id@));
        }
        worker
    }
}

/// A new worker has what it was built from and has done nothing: it is not
/// started, nothing is scheduled or queued, its first request is number one, and
/// no item of its stores has moved. It flushes the aggregates every ten seconds,
/// the data as often as it is configured to, and reports everything once a day.
pub proof fn a_new_worker_has_done_nothing(
    builder: TelemetryWorkerBuilder,
    config: Config,
    runtime_id: Seq<char>,
)
    ensures
        ({
            let w = builder.built(config, runtime_id);
            &&& !w.started
            &&& w.dependencies == builder.dependencies@
            &&& w.integrations == builder.integrations@
            &&& w.configurations == builder.configurations@
            &&& w.logs.len() == 0
            &&& w.deadlines.deadlines.dom() == Set::<LifecycleAction>::empty()
            &&& w.seq_id == 1
            &&& w.runtime_id == runtime_id
            &&& w.host == builder.host
            &&& w.app == builder.application
            &&& w.config == builder.config.merged(config)
            &&& delay_of(w.deadlines.delays, LifecycleAction::FlushMetricAggr) == Some(
                10_000_000_000u64,
            )
            &&& delay_of(w.deadlines.delays, LifecycleAction::FlushData) == Some(
                builder.config.merged(config).telemetry_hearbeat_interval,
            )
            &&& delay_of(w.deadlines.delays, LifecycleAction::ExtendedHeartbeat) == Some(
                86_400_000_000_000u64,
            )
            &&& delay_of(w.deadlines.delays, LifecycleAction::Start) is None
            &&& delay_of(w.deadlines.delays, LifecycleAction::Stop) is None
        }),
{
    reveal_with_fuel(delay_of, 4);
}

/// A builder at first has no runtime identifier, no settings, and empty stores
/// for 5000 items each.
pub proof fn a_new_builder_is_empty(builder: TelemetryWorkerBuilder)
    requires
        builder.is_default(),
    ensures
        builder.runtime_id is None,
        builder.dependencies@.items.len() == 0 && builder.dependencies@.flushed == 0,
        builder.integrations@.items.len() == 0 && builder.integrations@.flushed == 0,
        builder.configurations@.items.len() == 0 && builder.configurations@.flushed == 0,
        builder.dependencies@.max_items == 5000,
        builder.integrations@.max_items == 5000,
        builder.configurations@.max_items == 5000,
        builder.native_deps,
        !builder.rust_shared_lib_deps,
        builder.config.endpoint is None,
        builder.config.telemetry_debug_logging_enabled is None,
        builder.config.telemetry_hearbeat_interval is None,
{
}

/// A random identifier has 36 characters: hyphens in four places, hexadecimal
/// digits in all others, and the version in its place.
pub proof fn a_random_identifier_has_its_form(text: Seq<char>, i: int)
    requires
        random_uuid_text(text),
    ensures
        text.len() == 36,
        text[8] == '-' && text[13] == '-' && text[18] == '-' && text[23] == '-',
        text[14] == '4',
        text[19] == '8' || text[19] == '9' || text[19] == 'a' || text[19] == 'b',
        0 <= i < 36 && i != 8 && i != 13 && i != 18 && i != 23 ==> '0' <= text[i] <= '9' || 'a'
            <= text[i] <= 'f',
{
}

} // verus!
