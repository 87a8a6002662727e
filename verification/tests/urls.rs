use ddtelemetry::config_utils::{
    read_cloud_env, trace_intake_url, trace_intake_url_prefixed, trace_stats_url,
    trace_stats_url_prefixed, EnvironmentType, PROD_INTAKE_SUBDOMAIN,
};

#[test]
fn intake_urls_of_a_site() {
    assert_eq!(
        trace_intake_url("datadoghq.com"),
        "https://trace.agent.datadoghq.com/api/v0.2/traces"
    );
    assert_eq!(
        trace_stats_url("datadoghq.com"),
        "https://trace.agent.datadoghq.com/api/v0.2/stats"
    );
    assert_eq!(PROD_INTAKE_SUBDOMAIN, "trace.agent");
}

#[test]
fn intake_urls_behind_a_prefix() {
    assert_eq!(
        trace_intake_url_prefixed("http://localhost:8126"),
        "http://localhost:8126/api/v0.2/traces"
    );
    assert_eq!(
        trace_stats_url_prefixed("http://localhost:8126"),
        "http://localhost:8126/api/v0.2/stats"
    );
    assert_eq!(trace_intake_url_prefixed(""), "/api/v0.2/traces");
}

#[test]
fn site_urls_are_prefixed_urls() {
    let site = "datadoghq.eu";
    let prefix = format!("https://{}.{}", PROD_INTAKE_SUBDOMAIN, site);
    assert_eq!(trace_intake_url(site), trace_intake_url_prefixed(&prefix));
    assert_eq!(trace_stats_url(site), trace_stats_url_prefixed(&prefix));
}

#[test]
fn first_cloud_variable_decides() {
    let var = |name: &str| Some(name.to_string());
    assert_eq!(
        read_cloud_env(var("k"), var("f"), var("w")),
        Some(("k".to_string(), EnvironmentType::CloudFunction))
    );
    assert_eq!(
        read_cloud_env(None, var("f"), var("w")),
        Some(("f".to_string(), EnvironmentType::CloudFunction))
    );
    assert_eq!(
        read_cloud_env(None, None, var("w")),
        Some(("w".to_string(), EnvironmentType::AzureFunction))
    );
    assert_eq!(read_cloud_env(None, None, None), None);
}
