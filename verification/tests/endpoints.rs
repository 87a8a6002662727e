use ddtelemetry::endpoint::{Endpoint, InvalidUriParts, Uri};
use ddtelemetry::tracer::{Config, EndpointError};

fn uri(text: &str) -> Uri {
    Uri::parse(text).unwrap()
}

fn endpoint(text: &str, api_key: Option<&str>) -> Endpoint {
    Endpoint {
        url: uri(text),
        api_key: api_key.map(str::to_string),
    }
}

const ACCEPTED: [&str; 12] = [
    "http://localhost:8126",
    "http://localhost:8126/",
    "https://example.com/a/b?c=d",
    "https://example.com?c=d",
    "https://user@example.com:1/%20?",
    "https://example.com/#fragment",
    "unix://2f746d702f612e736f636b/",
    "/only/a/path",
    "/",
    "*",
    "localhost",
    "localhost:8126",
];

#[test]
fn components_are_those_of_the_http_crate() {
    for text in ACCEPTED {
        let parts = text.parse::<http::Uri>().unwrap().into_parts();
        let parsed = uri(text);
        assert_eq!(parsed.scheme, parts.scheme.map(|s| s.to_string()));
        assert_eq!(parsed.authority, parts.authority.map(|a| a.to_string()));
        assert_eq!(
            parsed.path_and_query,
            parts.path_and_query.map(|p| p.as_str().to_string())
        );
    }
}

#[test]
fn texts_are_those_of_the_http_crate() {
    for text in ACCEPTED {
        let parsed = text.parse::<http::Uri>().unwrap();
        assert_eq!(uri(text).to_text(), parsed.to_string());
    }
    assert_eq!(
        uri("http://localhost:8126").to_text(),
        "http://localhost:8126/"
    );
    assert_eq!(
        uri("https://example.com?c=d").to_text(),
        "https://example.com/?c=d"
    );
}

#[test]
fn refused_texts() {
    for text in ["", "http://", "http://a b", "localhost/path", "http:/a"] {
        assert!(text.parse::<http::Uri>().is_err());
        assert!(Uri::parse(text).is_none());
    }
}

#[test]
fn parts_make_a_uri_when_the_http_crate_says_so() {
    for scheme in [None, Some("http")] {
        for authority in [None, Some("localhost")] {
            for path in [
                None,
                Some("/path"),
                Some("/path?query"),
                Some(""),
                Some("?query"),
                Some("?"),
                Some("relative"),
                Some("*"),
            ] {
                let mut parts = http::uri::Parts::default();
                parts.scheme = scheme.map(|s| s.parse().unwrap());
                parts.authority = authority.map(|a| a.parse().unwrap());
                parts.path_and_query = path.map(|p| http::uri::PathAndQuery::try_from(p).unwrap());
                let expected = http::Uri::from_parts(parts);
                let made = Uri::from_parts(
                    scheme.map(str::to_string),
                    authority.map(str::to_string),
                    path.map(str::to_string),
                );
                assert_eq!(made.is_ok(), expected.is_ok());
                if let (Ok(made), Ok(expected)) = (made, expected) {
                    assert_eq!(made.to_text(), expected.to_string());
                }
            }
        }
    }
}

#[test]
fn missing_parts_are_named() {
    let text = |s: &str| Some(s.to_string());
    assert_eq!(
        Uri::from_parts(text("http"), None, text("/")),
        Err(InvalidUriParts::AuthorityMissing)
    );
    assert_eq!(
        Uri::from_parts(text("http"), text("a"), None),
        Err(InvalidUriParts::PathAndQueryMissing)
    );
    assert_eq!(
        Uri::from_parts(None, text("a"), text("/")),
        Err(InvalidUriParts::SchemeMissing)
    );
}

#[test]
fn agent_gets_the_path_of_its_traces() {
    let mut config = Config::default();
    assert!(config.endpoint.is_none());
    assert_eq!(
        config.set_endpoint(endpoint("http://localhost:8126/some/path?query", None)),
        Ok(())
    );
    let set = config.endpoint.as_ref().unwrap();
    assert_eq!(set.url.to_text(), "http://localhost:8126/v0.7/traces");
    assert_eq!(set.api_key, None);
    // The result is its own endpoint.
    let again = endpoint(&set.url.to_text(), None);
    assert_eq!(config.set_endpoint(again), Ok(()));
    assert_eq!(
        config.endpoint.unwrap().url.to_text(),
        "http://localhost:8126/v0.7/traces"
    );
}

#[test]
fn intake_gets_the_intake_route() {
    let mut config = Config::default();
    assert_eq!(
        config.set_endpoint(endpoint("https://trace.agent.datadoghq.com", Some("key"))),
        Ok(())
    );
    let set = config.endpoint.unwrap();
    // The text of a URI without a path ends with a slash.
    assert_eq!(
        set.url.to_text(),
        "https://trace.agent.datadoghq.com//api/v0.2/traces"
    );
    assert_eq!(set.url.scheme.as_deref(), Some("https"));
    assert_eq!(
        set.url.authority.as_deref(),
        Some("trace.agent.datadoghq.com")
    );
    assert_eq!(
        set.url.path_and_query.as_deref(),
        Some("//api/v0.2/traces")
    );
    assert_eq!(set.api_key.as_deref(), Some("key"));
}

#[test]
fn path_only_agent_is_accepted() {
    let mut config = Config::default();
    assert_eq!(config.set_endpoint(endpoint("/somewhere", None)), Ok(()));
    assert_eq!(config.endpoint.unwrap().url.to_text(), "/v0.7/traces");
}

#[test]
fn refused_endpoint_leaves_the_old_one() {
    let mut config = Config::default();
    config
        .set_endpoint(endpoint("http://localhost:8126", None))
        .unwrap();
    // A bare authority has no room for a path.
    assert_eq!(
        config.set_endpoint(endpoint("otherhost:8126", None)),
        Err(EndpointError::InvalidUriParts(InvalidUriParts::SchemeMissing))
    );
    assert_eq!(
        config.set_endpoint(endpoint("otherhost:8126", Some("key"))),
        Err(EndpointError::InvalidUri)
    );
    assert_eq!(
        config.replace_endpoint(Err(EndpointError::InvalidUri), None),
        Err(EndpointError::InvalidUri)
    );
    assert_eq!(
        config.endpoint.unwrap().url.to_text(),
        "http://localhost:8126/v0.7/traces"
    );
}

#[test]
fn endpoint_is_replaced_by_a_uri() {
    let mut config = Config::default();
    assert_eq!(
        config.replace_endpoint(Ok(uri("http://a/b")), Some("key".to_string())),
        Ok(())
    );
    let set = config.endpoint.unwrap();
    assert_eq!(set.url, uri("http://a/b"));
    assert_eq!(set.api_key.as_deref(), Some("key"));
}

#[test]
fn empty_path_is_a_slash_only_behind_a_scheme() {
    let text = |s: &str| Some(s.to_string());
    let bare = Uri::from_parts(None, None, text("")).unwrap();
    assert_eq!(bare.to_text(), "");
    let query = Uri::from_parts(None, None, text("?query")).unwrap();
    assert_eq!(query.to_text(), "/?query");
    let absolute = Uri::from_parts(text("http"), text("a"), text("")).unwrap();
    assert_eq!(absolute.to_text(), "http://a/");
}

#[test]
fn intake_behind_an_empty_url() {
    let mut config = Config::default();
    let url = Uri::from_parts(None, None, Some(String::new())).unwrap();
    let api_key = Some("key".to_string());
    assert_eq!(config.set_endpoint(Endpoint { url, api_key }), Ok(()));
    assert_eq!(config.endpoint.unwrap().url.to_text(), "/api/v0.2/traces");
}
