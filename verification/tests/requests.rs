use ddtelemetry::data::{ApiVersion, AppStarted, Payload};
use ddtelemetry::endpoint::{Endpoint, Uri};
use ddtelemetry::worker::builder::TelemetryWorkerBuilder;
use ddtelemetry::worker::config::Config;
use ddtelemetry::worker::request::{
    build_request, send_result, RequestError, SendError, SendOutcome,
};
use ddtelemetry::worker::TelemetryWorker;

fn config(url: Option<&str>, api_key: Option<&str>) -> Config {
    Config {
        endpoint: url.map(|url| Endpoint {
            url: Uri::parse(url).unwrap(),
            api_key: api_key.map(str::to_string),
        }),
        telemetry_debug_logging_enabled: false,
        telemetry_hearbeat_interval: 60,
    }
}

fn worker(config: Config, language: &str, version: &str) -> TelemetryWorker {
    TelemetryWorkerBuilder::new(
        "host".to_string(),
        "service".to_string(),
        language.to_string(),
        "1.2".to_string(),
        version.to_string(),
    )
    .build_worker_as(config, "runtime".to_string())
}

type Built = Result<http::Request<Vec<u8>>, RequestError>;

fn build(worker: &mut TelemetryWorker, payload: &Payload<u32>) -> Built {
    let (tel, config) = worker.telemetry(Some(7), payload);
    build_request(config, &tel, b"{}".to_vec())
}

#[test]
fn request_to_an_intake() {
    let mut worker = worker(
        config(Some("https://intake.example/telemetry"), Some("secret")),
        "rust",
        "4.5.6",
    );
    let request = build(&mut worker, &Payload::AppHeartbeat(())).unwrap();
    assert_eq!(request.method(), http::Method::POST);
    assert_eq!(request.uri().to_string(), "https://intake.example/telemetry");
    let mut headers: Vec<(&str, &[u8])> = request
        .headers()
        .iter()
        .map(|(name, value)| (name.as_str(), value.as_bytes()))
        .collect();
    headers.sort();
    let expected: Vec<(&str, &[u8])> = vec![
        ("content-type", b"application/json"),
        ("dd-api-key", b"secret"),
        ("dd-client-library-language", b"rust"),
        ("dd-client-library-version", b"4.5.6"),
        ("dd-telemetry-api-version", b"v2"),
        ("dd-telemetry-request-type", b"app-heartbeat"),
    ];
    assert_eq!(headers, expected);
    assert_eq!(request.body(), b"{}");
}

#[test]
fn request_to_an_agent_has_no_key() {
    let mut worker = worker(config(Some("http://localhost:8126"), None), "rust", "1");
    let payload = Payload::AppStarted(AppStarted {
        configuration: vec![],
    });
    let request = build(&mut worker, &payload).unwrap();
    assert!(request.headers().get("dd-api-key").is_none());
    assert_eq!(request.headers().len(), 5);
    assert_eq!(
        request.headers()["dd-telemetry-request-type"],
        "app-started"
    );
    assert_eq!(request.uri().to_string(), "http://localhost:8126/");
}

#[test]
fn request_without_an_endpoint() {
    let mut worker = worker(config(None, None), "rust", "1");
    assert_eq!(
        build(&mut worker, &Payload::AppHeartbeat(())).unwrap_err(),
        RequestError::NoEndpoint
    );
}

#[test]
fn control_characters_are_refused() {
    let url = Some("http://localhost:8126");
    let heartbeat = Payload::AppHeartbeat(());
    for bad in ["a\n", "\0", "\u{7f}", "\u{1f}"] {
        for (key, language, version) in [
            (Some(bad), "rust", "1"),
            (None, bad, "1"),
            (None, "rust", bad),
        ] {
            let mut worker = worker(config(url, key), language, version);
            assert_eq!(
                build(&mut worker, &heartbeat).unwrap_err(),
                RequestError::InvalidRequest
            );
        }
    }
    for good in ["", "a\tb", " ", "~", "\u{80}", "\u{e9}t\u{e9}", "\u{1f600}"] {
        let mut worker = worker(config(url, Some(good)), good, good);
        let request = build(&mut worker, &heartbeat).unwrap();
        assert_eq!(request.headers()["dd-api-key"].as_bytes(), good.as_bytes());
        assert_eq!(
            request.headers()["dd-client-library-language"].as_bytes(),
            good.as_bytes()
        );
        assert_eq!(
            request.headers()["dd-client-library-version"].as_bytes(),
            good.as_bytes()
        );
    }
}

#[test]
fn url_that_is_no_uri_is_refused() {
    let mut bad = config(Some("http://localhost"), None);
    bad.endpoint.as_mut().unwrap().url.authority = Some("a b".to_string());
    let mut worker = worker(bad, "rust", "1");
    assert_eq!(
        build(&mut worker, &Payload::AppHeartbeat(())).unwrap_err(),
        RequestError::InvalidRequest
    );
}

#[test]
fn telemetry_says_who_sends_it() {
    let mut worker = worker(config(None, None), "rust", "4.5.6");
    let payload: Payload<u32> = Payload::AppClosing(());
    let (tel, config) = worker.telemetry(Some(1234), &payload);
    assert_eq!(tel.api_version, ApiVersion::V2);
    assert_eq!(tel.tracer_time, 1234);
    assert_eq!(tel.runtime_id, "runtime");
    assert_eq!(tel.seq_id, 1);
    assert_eq!(tel.host.hostname, "host");
    assert_eq!(tel.application.service_name, "service");
    assert_eq!(tel.payload.request_type(), "app-closing");
    assert_eq!(config.telemetry_hearbeat_interval, 60);
    let (tel, _) = worker.telemetry(None, &payload);
    assert_eq!(tel.tracer_time, 0);
    assert_eq!(tel.seq_id, 2);
}

#[test]
fn requests_are_numbered() {
    let mut worker = worker(config(None, None), "rust", "1");
    for seq_id in 1..5 {
        assert_eq!(worker.next_seq_id(), seq_id);
    }
}

#[test]
fn only_an_answer_is_a_delivery() {
    assert_eq!(send_result(SendOutcome::Answered), Ok(()));
    assert_eq!(
        send_result(SendOutcome::NotBuilt),
        Err(SendError::NotBuilt)
    );
    assert_eq!(
        send_result(SendOutcome::Cancelled),
        Err(SendError::Cancelled)
    );
    assert_eq!(send_result(SendOutcome::Failed), Err(SendError::Failed));
}

#[test]
fn api_versions_have_texts() {
    assert_eq!(ApiVersion::V1.to_str(), "v1");
    assert_eq!(ApiVersion::V2.to_str(), "v2");
}

#[test]
fn runtime_id_is_the_given_one_or_a_random_uuid() {
    let builder = || {
        TelemetryWorkerBuilder::new(
            String::new(),
            String::new(),
            String::new(),
            String::new(),
            String::new(),
        )
    };
    let runtime_id = |builder: TelemetryWorkerBuilder| {
        let mut worker = builder.build_worker(config(None, None));
        let payload: Payload<u32> = Payload::AppHeartbeat(());
        worker.telemetry(None, &payload).0.runtime_id.to_string()
    };
    let mut given = builder();
    given.runtime_id = Some("mine".to_string());
    assert_eq!(runtime_id(given), "mine");

    let random = runtime_id(builder());
    let parsed = random.parse::<uuid::Uuid>().unwrap();
    assert_eq!(parsed.get_version(), Some(uuid::Version::Random));
    assert_eq!(parsed.to_string(), random);
    assert_eq!(random.len(), 36);
    assert_eq!(random.as_bytes()[14], b'4');
    assert!(b"89ab".contains(&random.as_bytes()[19]));
    assert_ne!(runtime_id(builder()), random);
}
