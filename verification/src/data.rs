//! What is reported: the items collected from the application and the payloads
//! they are sent in.

use vstd::prelude::*;

verus! {

/// A tag of a metric, such as `env:prod`.
#[derive(Debug, PartialEq, Eq)]
pub struct Tag {
    pub value: String,
}

#[derive(Debug, Clone, Copy, PartialEq, Eq, Structural)]
pub enum MetricType {
    Gauge,
    Count,
}

#[derive(Debug, Clone, Copy, PartialEq, Eq, Structural)]
pub enum MetricNamespace {
    Tracers,
    Profilers,
    Rum,
    Appsec,
    IdePlugins,
    LiveDebugger,
    Iast,
    General,
    Telemetry,
}

#[derive(Debug, Clone, Copy, PartialEq, Eq, Structural)]
pub enum LogLevel {
    Error,
    Warn,
    Debug,
}

#[derive(Debug, Clone, Copy, PartialEq, Eq, Structural)]
pub enum ApiVersion {
    V1,
    V2,
}

/// A library that the application has loaded.
#[derive(Debug, PartialEq, Eq)]
pub struct Dependency {
    pub name: String,
    pub version: Option<String>,
}

/// A library that the tracer instruments.
#[derive(Debug, PartialEq, Eq)]
pub struct Integration {
    pub name: String,
    pub enabled: bool,
    pub version: Option<String>,
    pub compatible: Option<bool>,
    pub auto_enabled: Option<bool>,
}

/// A setting of the application's tracer.
#[derive(Debug, PartialEq, Eq)]
pub struct Configuration {
    pub name: String,
    pub value: String,
}

/// A message of one location in the code. The count starts at the one that the
/// message comes with and goes up by one each time the worker takes a message of
/// that location, the first time too.
#[derive(Debug, PartialEq, Eq)]
pub struct Log {
    pub message: String,
    pub level: LogLevel,
    pub count: u32,
    pub stack_trace: Option<String>,
}

/// The machine that the application runs on.
#[derive(Debug, PartialEq, Eq)]
pub struct Host {
    pub hostname: String,
    pub container_id: Option<String>,
    pub os: Option<String>,
    pub os_version: Option<String>,
    pub kernel_name: Option<String>,
    pub kernel_release: Option<String>,
    pub kernel_version: Option<String>,
}

/// The application that reports.
#[derive(Debug, PartialEq, Eq)]
pub struct Application {
    pub service_name: String,
    pub service_version: Option<String>,
    pub env: Option<String>,
    pub language_name: String,
    pub language_version: String,
    pub tracer_version: String,
    pub runtime_name: Option<String>,
    pub runtime_version: Option<String>,
    pub runtime_patches: Option<String>,
}

impl Tag {
    pub fn duplicate(&self) -> (copy: Tag)
        ensures
            copy == *self,
    {
        Tag { value: self.value.clone() }
    }
}

impl Log {
    pub fn duplicate(&self) -> (copy: Log)
        ensures
            copy == *self,
    {
        Log {
            message: self.message.clone(),
            level: self.level,
            count: self.count,
            stack_trace: self.stack_trace.clone(),
        }
    }
}

#[derive(Debug)]
pub struct AppStarted {
    pub configuration: Vec<Configuration>,
}

#[derive(Debug)]
pub struct AppDependenciesLoaded {
    pub dependencies: Vec<Dependency>,
}

#[derive(Debug)]
pub struct AppIntegrationsChange {
    pub integrations: Vec<Integration>,
}

#[derive(Debug)]
pub struct AppClientConfigurationChange {
    pub configuration: Vec<Configuration>,
}

/// The points of one metric context and set of extra tags. A point is a
/// timestamp in seconds and a value.
#[derive(Debug)]
pub struct Serie<V> {
    pub namespace: MetricNamespace,
    pub metric: String,
    pub points: Vec<(u64, V)>,
    pub tags: Vec<Tag>,
    pub common: bool,
    pub _type: MetricType,
    pub interval: u64,
}

#[derive(Debug)]
pub struct GenerateMetrics<V> {
    pub series: Vec<Serie<V>>,
}

/// The body of a telemetry request. `V` is the type of a metric point's value.
#[derive(Debug)]
pub enum Payload<V> {
    AppStarted(AppStarted),
    AppDependenciesLoaded(AppDependenciesLoaded),
    AppIntegrationsChange(AppIntegrationsChange),
    AppClientConfigurationChange(AppClientConfigurationChange),
    AppHeartbeat(()),
    AppClosing(()),
    GenerateMetrics(GenerateMetrics<V>),
    Logs(Vec<Log>),
    MessageBatch(Vec<Payload<V>>),
    AppExtendedHeartbeat(AppStarted),
}

impl ApiVersion {
    /// The text that stands for the version in requests.
    pub open spec fn text(self) -> Seq<char> {
        match self {
            ApiVersion::V1 => "v1"@,
            ApiVersion::V2 => "v2"@,
        }
    }

    pub fn to_str(self) -> (text: &'static str)
        ensures
            text@ == self.text(),
    {
        match self {
            ApiVersion::V1 => "v1",
            ApiVersion::V2 => "v2",
        }
    }
}

impl<V> Payload<V> {
    /// The text that tells the kind of payload apart in requests.
    pub open spec fn kind(self) -> Seq<char> {
        match self {
            Payload::AppStarted(_) => "app-started"@,
            Payload::AppDependenciesLoaded(_) => "app-dependencies-loaded"@,
            Payload::AppIntegrationsChange(_) => "app-integrations-change"@,
            Payload::AppClientConfigurationChange(_) => "app-client-configuration-change"@,
            Payload::AppHeartbeat(_) => "app-heartbeat"@,
            Payload::AppClosing(_) => "app-closing"@,
            Payload::GenerateMetrics(_) => "generate-metrics"@,
            Payload::Logs(_) => "logs"@,
            Payload::MessageBatch(_) => "message-batch"@,
            Payload::AppExtendedHeartbeat(_) => "app-extended-heartbeat"@,
        }
    }

    pub fn request_type(&self) -> (kind: &'static str)
        ensures
            kind@ == self.kind(),
    {
        match self {
            Payload::AppStarted(_) => "app-started",
            Payload::AppDependenciesLoaded(_) => "app-dependencies-loaded",
            Payload::AppIntegrationsChange(_) => "app-integrations-change",
            Payload::AppClientConfigurationChange(_) => "app-client-configuration-change",
            Payload::AppHeartbeat(_) => "app-heartbeat",
            Payload::AppClosing(_) => "app-closing",
            Payload::GenerateMetrics(_) => "generate-metrics",
            Payload::Logs(_) => "logs",
            Payload::MessageBatch(_) => "message-batch",
            Payload::AppExtendedHeartbeat(_) => "app-extended-heartbeat",
        }
    }
}

/// What a series says, with its vectors as sequences.
#[verifier::ext_equal]
pub struct SerieModel<V> {
    pub namespace: MetricNamespace,
    pub metric: Seq<char>,
    pub points: Seq<(u64, V)>,
    pub tags: Seq<Tag>,
    pub common: bool,
    pub _type: MetricType,
    pub interval: u64,
}

/// What a payload says, with its vectors as sequences.
#[verifier::ext_equal]
pub enum PayloadModel<V> {
    AppStarted(Seq<Configuration>),
    AppDependenciesLoaded(Seq<Dependency>),
    AppIntegrationsChange(Seq<Integration>),
    AppClientConfigurationChange(Seq<Configuration>),
    AppHeartbeat,
    AppClosing,
    GenerateMetrics(Seq<SerieModel<V>>),
    Logs(Seq<Log>),
    MessageBatch(Seq<PayloadModel<V>>),
    AppExtendedHeartbeat(Seq<Configuration>),
}

impl<V> View for Serie<V> {
    type V = SerieModel<V>;

    open spec fn view(&self) -> SerieModel<V> {
        SerieModel {
            namespace: self.namespace,
            metric: self.metric@,
            points: self.points@,
            tags: self.tags@,
            common: self.common,
            _type: self._type,
            interval: self.interval,
        }
    }
}

/// The series of a list, as models.
pub open spec fn series_models<V>(series: Seq<Serie<V>>) -> Seq<SerieModel<V>> {
    Seq::new(series.len(), |i: int| series[i]@)
}

/// What `payload` says.
pub open spec fn payload_model<V>(payload: Payload<V>) -> PayloadModel<V>
    decreases payload,
{
    match payload {
        Payload::AppStarted(p) => PayloadModel::AppStarted(p.configuration@),
        Payload::AppDependenciesLoaded(p) => PayloadModel::AppDependenciesLoaded(p.dependencies@),
        Payload::AppIntegrationsChange(p) => PayloadModel::AppIntegrationsChange(p.integrations@),
        Payload::AppClientConfigurationChange(p) => PayloadModel::AppClientConfigurationChange(
            p.configuration@,
        ),
        Payload::AppHeartbeat(_) => PayloadModel::AppHeartbeat,
        Payload::AppClosing(_) => PayloadModel::AppClosing,
        Payload::GenerateMetrics(p) => PayloadModel::GenerateMetrics(series_models(p.series@)),
        Payload::Logs(p) => PayloadModel::Logs(p@),
        Payload::MessageBatch(p) => PayloadModel::MessageBatch(
            Seq::new(
                p@.len(),
                |i: int|
                    if 0 <= i < p@.len() {
                        payload_model(p@[i])
                    } else {
                        PayloadModel::AppHeartbeat
                    },
            ),
        ),
        Payload::AppExtendedHeartbeat(p) => PayloadModel::AppExtendedHeartbeat(p.configuration@),
    }
}

/// What the payloads of a list say.
pub open spec fn payload_models<V>(payloads: Seq<Payload<V>>) -> Seq<PayloadModel<V>> {
    Seq::new(payloads.len(), |i: int| payload_model(payloads[i]))
}

/// A batch says what its payloads say.
pub proof fn batch_model<V>(batch: Vec<Payload<V>>)
    ensures
        payload_model(Payload::MessageBatch(batch)) == PayloadModel::MessageBatch(
            payload_models(batch@),
        ),
{
    reveal_with_fuel(payload_model, 2);
    let model = payload_model(Payload::MessageBatch(batch));
    assert(model->MessageBatch_0 =~= payload_models(batch@));
}

/// A payload's model has all that the payload carries, as it carries it.
pub proof fn a_payload_says_what_it_carries<V>(
    started: AppStarted,
    dependencies: AppDependenciesLoaded,
    integrations: AppIntegrationsChange,
    configuration: AppClientConfigurationChange,
    metrics: GenerateMetrics<V>,
    logs: Vec<Log>,
    batch: Vec<Payload<V>>,
)
    ensures
        payload_model(Payload::<V>::AppStarted(started)) matches PayloadModel::AppStarted(c) && c
            == started.configuration@,
        payload_model(Payload::<V>::AppExtendedHeartbeat(started))
            matches PayloadModel::AppExtendedHeartbeat(c) && c == started.configuration@,
        payload_model(Payload::<V>::AppDependenciesLoaded(dependencies))
            matches PayloadModel::AppDependenciesLoaded(d) && d == dependencies.dependencies@,
        payload_model(Payload::<V>::AppIntegrationsChange(integrations))
            matches PayloadModel::AppIntegrationsChange(i) && i == integrations.integrations@,
        payload_model(Payload::<V>::AppClientConfigurationChange(configuration))
            matches PayloadModel::AppClientConfigurationChange(c) && c
            == configuration.configuration@,
        payload_model(Payload::<V>::AppHeartbeat(())) is AppHeartbeat,
        payload_model(Payload::<V>::AppClosing(())) is AppClosing,
        payload_model(Payload::<V>::Logs(logs)) matches PayloadModel::Logs(l) && l == logs@,
        ({
            &&& payload_model(Payload::GenerateMetrics(metrics))
                matches PayloadModel::GenerateMetrics(series)
            &&& series.len() == metrics.series@.len()
            &&& forall|i: int|
                0 <= i < series.len() ==> #[trigger] series[i] == metrics.series@[i]@
        }),
        ({
            &&& payload_model(Payload::MessageBatch(batch)) matches PayloadModel::MessageBatch(models)
            &&& models.len() == batch@.len()
            &&& forall|i: int|
                0 <= i < models.len() ==> #[trigger] models[i] == payload_model(batch@[i])
        }),
{
    batch_model(batch);
}

/// A series' model has all that the series says.
pub proof fn a_series_says_what_it_holds<V>(serie: Serie<V>, list: Seq<Serie<V>>)
    ensures
        serie@.namespace == serie.namespace,
        serie@.metric == serie.metric@,
        serie@.points == serie.points@,
        serie@.tags == serie.tags@,
        serie@.common == serie.common,
        serie@._type == serie._type,
        serie@.interval == serie.interval,
        series_models(list).len() == list.len(),
        forall|i: int| 0 <= i < list.len() ==> #[trigger] series_models(list)[i] == list[i]@,
{
}

/// The payloads of a list are told one by one, in order.
pub proof fn payloads_are_told_in_order<V>(payloads: Seq<Payload<V>>)
    ensures
        payload_models(payloads).len() == payloads.len(),
        forall|i: int|
            0 <= i < payloads.len() ==> #[trigger] payload_models(payloads)[i] == payload_model(
                payloads[i],
            ),
{
}

/// A request says of which kind its payload is: the text of each kind is its own,
/// whatever the payload carries, and so are those of the versions.
pub proof fn request_types_name_the_kinds<V>(payload: Payload<V>)
    ensures
        payload is AppStarted ==> payload.kind() == "app-started"@,
        payload is AppDependenciesLoaded ==> payload.kind() == "app-dependencies-loaded"@,
        payload is AppIntegrationsChange ==> payload.kind() == "app-integrations-change"@,
        payload is AppClientConfigurationChange ==> payload.kind()
            == "app-client-configuration-change"@,
        payload is AppHeartbeat ==> payload.kind() == "app-heartbeat"@,
        payload is AppClosing ==> payload.kind() == "app-closing"@,
        payload is GenerateMetrics ==> payload.kind() == "generate-metrics"@,
        payload is Logs ==> payload.kind() == "logs"@,
        payload is MessageBatch ==> payload.kind() == "message-batch"@,
        payload is AppExtendedHeartbeat ==> payload.kind() == "app-extended-heartbeat"@,
        ApiVersion::V1.text() == "v1"@,
        ApiVersion::V2.text() == "v2"@,
{
}

} // verus!
