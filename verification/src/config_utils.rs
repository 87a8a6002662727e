//! Where traces and trace statistics are sent, and which serverless
//! environment the process runs in.

use vstd::prelude::*;
use vstd::string::*;

verus! {

/// Subdomain of the production intake.
pub const PROD_INTAKE_SUBDOMAIN: &'static str = "trace.agent";

const TRACE_INTAKE_ROUTE: &'static str = "/api/v0.2/traces";

const TRACE_STATS_INTAKE_ROUTE: &'static str = "/api/v0.2/stats";

/// The serverless environments that are told apart.
#[derive(Debug, Clone, Copy, PartialEq, Eq, Structural)]
pub enum EnvironmentType {
    CloudFunction,
    AzureFunction,
}

/// The text of the intake URL for `prefix` and `route`.
pub open spec fn intake_url(prefix: Seq<char>, route: Seq<char>) -> Seq<char> {
    "https://trace.agent."@ + prefix + route
}

/// Picks the serverless environment from the values of the environment
/// variables `K_SERVICE`, `FUNCTION_NAME` and `WEBSITE_SITE_NAME`; the first
/// one that is set decides, and its value is the name of the function.
pub fn read_cloud_env(
    k_service: Option<String>,
    function_name: Option<String>,
    website_site_name: Option<String>,
) -> (env: Option<(String, EnvironmentType)>)
    ensures
        env == (match (k_service, function_name, website_site_name) {
            (Some(name), _, _) => Some((name, EnvironmentType::CloudFunction)),
            (None, Some(name), _) => Some((name, EnvironmentType::CloudFunction)),
            (None, None, Some(name)) => Some((name, EnvironmentType::AzureFunction)),
            (None, None, None) => None,
        }),
{
    if let Some(res) = k_service {
        // Set by Google Cloud Functions for newer runtimes
        return Some((res, EnvironmentType::CloudFunction));
    }
    if let Some(res) = function_name {
        // Set by Google Cloud Functions for older runtimes
        return Some((res, EnvironmentType::CloudFunction));
    }
    if let Some(res) = website_site_name {
        // Set by Azure Functions
        return Some((res, EnvironmentType::AzureFunction));
    }
    None
}

/// URL of the trace intake of `site`.
pub fn trace_intake_url(site: &str) -> (url: String)
    ensures
        url@ == intake_url(site@, "/api/v0.2/traces"@),
{
    construct_trace_intake_url(site, TRACE_INTAKE_ROUTE)
}

/// URL of the trace intake behind `endpoint_prefix`.
pub fn trace_intake_url_prefixed(endpoint_prefix: &str) -> (url: String)
    ensures
        url@ == endpoint_prefix@ + "/api/v0.2/traces"@,
{
    endpoint_prefix.to_owned().concat(TRACE_INTAKE_ROUTE)
}

/// URL of the trace statistics intake of `site`.
pub fn trace_stats_url(site: &str) -> (url: String)
    ensures
        url@ == intake_url(site@, "/api/v0.2/stats"@),
{
    construct_trace_intake_url(site, TRACE_STATS_INTAKE_ROUTE)
}

/// URL of the trace statistics intake behind `endpoint_prefix`.
pub fn trace_stats_url_prefixed(endpoint_prefix: &str) -> (url: String)
    ensures
        url@ == endpoint_prefix@ + "/api/v0.2/stats"@,
{
    endpoint_prefix.to_owned().concat(TRACE_STATS_INTAKE_ROUTE)
}

fn construct_trace_intake_url(prefix: &str, route: &str) -> (url: String)
    ensures
        url@ == intake_url(prefix@, route@),
{
    let url = "https://".to_owned().concat(PROD_INTAKE_SUBDOMAIN).concat(".").concat(prefix).concat(
        route,
    );
    proof {
        reveal_strlit("https://");
        reveal_strlit("trace.agent");
        reveal_strlit(".");
        reveal_strlit("https://trace.agent.");
        assert("https://trace.agent."@ =~= "https://"@ + "trace.agent"@ + "."@);
    }
    url
}

/// The intake of a site is the one behind the prefix `https://trace.agent.` and
/// the site, for traces and for statistics alike.
pub proof fn site_intake_is_prefixed_intake(site: Seq<char>, route: Seq<char>)
    ensures
        intake_url(site, route) == ("https://trace.agent."@ + site) + route,
{
}

} // verus!
