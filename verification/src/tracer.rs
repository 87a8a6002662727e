//! Configuration of the tracer: where traces are sent.

use crate::config_utils::trace_intake_url_prefixed;
use crate::endpoint::{
    uri_of_text, uri_parts_error, uri_text, Endpoint, InvalidUriParts, Uri, UriModel,
};
use vstd::prelude::*;

verus! {

/// Why an endpoint is refused.
#[derive(Debug, Clone, Copy, PartialEq, Eq, Structural)]
pub enum EndpointError {
    /// The intake's URL is not a URI.
    InvalidUri,
    /// The agent's URL does not leave room for the path of the traces.
    InvalidUriParts(InvalidUriParts),
}

/// The tracer's configuration.
#[derive(Debug)]
pub struct Config {
    pub endpoint: Option<Endpoint>,
}

/// The URI that traces for an endpoint are sent to: with an API key the trace
/// intake behind the endpoint's URL, otherwise the traces of the agent.
pub open spec fn trace_uri(url: UriModel, has_api_key: bool) -> Result<UriModel, EndpointError> {
    if has_api_key {
        match uri_of_text(uri_text(url) + "/api/v0.2/traces"@) {
            Some(uri) => Ok(uri),
            None => Err(EndpointError::InvalidUri),
        }
    } else {
        match uri_parts_error((url.0, url.1, Some("/v0.7/traces"@))) {
            Some(error) => Err(EndpointError::InvalidUriParts(error)),
            None => Ok((url.0, url.1, Some("/v0.7/traces"@))),
        }
    }
}

impl Config {
    /// Sends traces to `endpoint` from now on. The endpoint that was set before
    /// stays if this one is refused.
    pub fn set_endpoint(&mut self, endpoint: Endpoint) -> (set: Result<(), EndpointError>)
        ensures
            match trace_uri(endpoint.url@, endpoint.api_key is Some) {
                Ok(uri) => {
                    &&& set is Ok
                    &&& final(self).endpoint matches Some(new)
                    &&& new.url@ == uri
                    &&& new.url.wf()
                    &&& new.api_key == endpoint.api_key
                },
                Err(error) => set == Err::<(), EndpointError>(error) && *final(self) == *old(self),
            },
    {
        let uri = if endpoint.api_key.is_some() {
            let text = trace_intake_url_prefixed(endpoint.url.to_text().as_str());
            match Uri::parse(text.as_str()) {
                Some(uri) => Ok(uri),
                None => Err(EndpointError::InvalidUri),
            }
        } else {
            match Uri::from_parts(
                endpoint.url.scheme,
                endpoint.url.authority,
                Some("/v0.7/traces".to_owned()),
            ) {
                Ok(uri) => Ok(uri),
                Err(error) => Err(EndpointError::InvalidUriParts(error)),
            }
        };
        self.replace_endpoint(uri, endpoint.api_key)
    }

    /// Sets the endpoint to `uri`, if there is one.
    pub fn replace_endpoint(
        &mut self,
        uri: Result<Uri, EndpointError>,
        api_key: Option<String>,
    ) -> (set: Result<(), EndpointError>)
        ensures
            match uri {
                Ok(url) => set is Ok && final(self).endpoint == Some(Endpoint { url, api_key }),
                Err(error) => set == Err::<(), EndpointError>(error) && *final(self) == *old(self),
            },
    {
        let url = uri?;
        self.endpoint = Some(Endpoint { url, api_key });
        Ok(())
    }
}

impl Default for Config {
    fn default() -> (config: Self)
        ensures
            config.endpoint is None,
    {
        Config { endpoint: None }
    }
}

/// Without an API key, an endpoint whose URL has a scheme is always accepted.
/// Traces then go to the same scheme and authority, under the path of the
/// agent's traces, whatever path and query the URL had. Only a bare authority is
/// refused.
pub proof fn agent_keeps_its_authority(url: UriModel)
    requires
        uri_parts_error(url) is None,
    ensures
        url.0 is Some ==> trace_uri(url, false) == Ok::<UriModel, EndpointError>(
            (url.0, url.1, Some("/v0.7/traces"@)),
        ),
        trace_uri(url, false) is Err <==> url.0 is None && url.1 is Some,
        trace_uri(url, false) is Err ==> trace_uri(url, false) == Err::<UriModel, EndpointError>(
            EndpointError::InvalidUriParts(InvalidUriParts::SchemeMissing),
        ),
        trace_uri(url, false) matches Ok(uri) ==> trace_uri(uri, false) == Ok::<
            UriModel,
            EndpointError,
        >(uri),
{
}

/// With an API key, traces go to the URI that the text of the given URL with the
/// intake's route behind it spells, whatever scheme, authority, path and query
/// the URL has; the endpoint is refused just if that text spells none. Two URLs
/// that are written alike are treated alike.
pub proof fn intake_is_behind_the_whole_url(url: UriModel, other: UriModel)
    ensures
        ({
            let text = uri_text(url) + "/api/v0.2/traces"@;
            &&& trace_uri(url, true) is Ok <==> uri_of_text(text) is Some
            &&& trace_uri(url, true) matches Ok(uri) ==> uri_of_text(text) == Some(uri)
            &&& trace_uri(url, true) matches Err(error) ==> error is InvalidUri
        }),
        uri_text(url) == uri_text(other) ==> trace_uri(url, true) == trace_uri(other, true),
{
}

/// Without an API key, traces go to the path of the agent's traces under the given
/// scheme and authority, whatever path and query the URL has: URLs that differ in
/// path and query alone are treated alike. The endpoint is refused just if these
/// components make no URI, and the error says which one is missing.
pub proof fn agent_is_at_the_authority(url: UriModel, path: Option<Seq<char>>)
    ensures
        trace_uri(url, false) == trace_uri((url.0, url.1, path), false),
        trace_uri(url, false) is Ok <==> (url.0 is Some <==> url.1 is Some),
        trace_uri(url, false) matches Ok(uri) ==> uri.0 == url.0 && uri.1 == url.1 && uri.2
            == Some("/v0.7/traces"@),
        url.0 is Some && url.1 is None ==> trace_uri(url, false) == Err::<UriModel, EndpointError>(
            EndpointError::InvalidUriParts(InvalidUriParts::AuthorityMissing),
        ),
        url.0 is None && url.1 is Some ==> trace_uri(url, false) == Err::<UriModel, EndpointError>(
            EndpointError::InvalidUriParts(InvalidUriParts::SchemeMissing),
        ),
{
}

} // verus!
