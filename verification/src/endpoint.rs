//! Endpoints: the URI to send to and the key to send with.

use std::str::FromStr;
use vstd::prelude::*;
use vstd::string::*;

verus! {

/// The error of `http::Uri::from_str`.
#[verifier::external_type_specification]
#[verifier::external_body]
pub struct ExInvalidUri(http::uri::InvalidUri);

/// The components of a URI: its scheme, its authority, and its path with the
/// query.
pub type UriModel = (Option<Seq<char>>, Option<Seq<char>>, Option<Seq<char>>);

/// What `http::Uri::from_str` makes of `text`: the components that it finds, or
/// nothing where it refuses the text. The path with the query is what
/// `PathAndQuery::as_str` returns, so an empty one is a slash.
pub uninterp spec fn uri_of_text(text: Seq<char>) -> Option<
    (Option<Seq<char>>, Option<Seq<char>>, Option<Seq<char>>),
>;

/// A URI, as the texts of its components. A component can be absent.
#[derive(Debug, PartialEq, Eq)]
pub struct Uri {
    pub scheme: Option<String>,
    pub authority: Option<String>,
    pub path_and_query: Option<String>,
}

/// Why components do not make a URI.
#[derive(Debug, Clone, Copy, PartialEq, Eq, Structural)]
pub enum InvalidUriParts {
    SchemeMissing,
    AuthorityMissing,
    PathAndQueryMissing,
}

/// Where reports go. Without an API key it is an agent, with one an intake.
#[derive(Debug, PartialEq, Eq)]
pub struct Endpoint {
    pub url: Uri,
    pub api_key: Option<String>,
}

/// The text in `text`, if there is one.
pub open spec fn optional_text(text: Option<String>) -> Option<Seq<char>> {
    match text {
        Some(text) => Some(text@),
        None => None,
    }
}

/// Which components make a URI: a scheme needs the other two, and without a
/// scheme there is an authority or a path, not both.
pub open spec fn uri_parts_error(uri: UriModel) -> Option<InvalidUriParts> {
    if uri.0 is Some {
        if uri.1 is None {
            Some(InvalidUriParts::AuthorityMissing)
        } else if uri.2 is None {
            Some(InvalidUriParts::PathAndQueryMissing)
        } else {
            None
        }
    } else if uri.1 is Some && uri.2 is Some {
        Some(InvalidUriParts::SchemeMissing)
    } else {
        None
    }
}

/// How a path with a query is written: an empty path is a slash in front of a
/// query or behind a scheme; otherwise it is left out.
pub open spec fn path_text(path_and_query: Seq<char>, has_scheme: bool) -> Seq<char> {
    if path_and_query.len() == 0 {
        if has_scheme {
            "/"@
        } else {
            Seq::empty()
        }
    } else if path_and_query[0] == '?' {
        "/"@ + path_and_query
    } else {
        path_and_query
    }
}

/// How a URI is written.
pub open spec fn uri_text(uri: UriModel) -> Seq<char> {
    (match uri.0 {
        Some(scheme) => scheme + "://"@,
        None => Seq::empty(),
    }) + (match uri.1 {
        Some(authority) => authority,
        None => Seq::empty(),
    }) + (match uri.2 {
        Some(path_and_query) => path_text(path_and_query, uri.0 is Some),
        None => Seq::empty(),
    })
}

impl View for Uri {
    type V = UriModel;

    open spec fn view(&self) -> UriModel {
        (
            optional_text(self.scheme),
            optional_text(self.authority),
            optional_text(self.path_and_query),
        )
    }
}

/// Calls `http::Uri::from_str` and takes the components of its result as texts.
/// The outcome is named by `uri_of_text`. What the call accepts has components
/// that make a URI.
#[verifier::external_body]
fn uri_from_str(text: &str) -> (uri: Result<Uri, http::uri::InvalidUri>)
    ensures
        uri is Ok <==> uri_of_text(text@) is Some,
        uri matches Ok(uri) ==> uri_of_text(text@) == Some(uri@),
        uri matches Ok(uri) ==> uri_parts_error(uri@) is None,
{
    let uri = http::Uri::from_str(text)?;
    Ok(
        Uri {
            scheme: uri.scheme_str().map(str::to_owned),
            authority: uri.authority().map(http::uri::Authority::as_str).map(str::to_owned),
            path_and_query: uri.path_and_query().map(http::uri::PathAndQuery::as_str).map(
                str::to_owned,
            ),
        },
    )
}

impl Uri {
    /// Whether the components make a URI.
    pub open spec fn wf(&self) -> bool {
        uri_parts_error(self@) is None
    }

    /// The URI that `text` spells, if it spells one.
    pub fn parse(text: &str) -> (uri: Option<Uri>)
        ensures
            uri is Some <==> uri_of_text(text@) is Some,
            uri matches Some(uri) ==> uri.wf() && uri_of_text(text@) == Some(uri@),
    {
        match uri_from_str(text) {
            Ok(uri) => Some(uri),
            Err(_) => None,
        }
    }

    /// The URI with the given components.
    pub fn from_parts(
        scheme: Option<String>,
        authority: Option<String>,
        path_and_query: Option<String>,
    ) -> (uri: Result<Uri, InvalidUriParts>)
        ensures
            uri == (match uri_parts_error(
                (
                    optional_text(scheme),
                    optional_text(authority),
                    optional_text(path_and_query),
                ),
            ) {
                Some(error) => Err(error),
                None => Ok(Uri { scheme, authority, path_and_query }),
            }),
    {
        if scheme.is_some() {
            if authority.is_none() {
                return Err(InvalidUriParts::AuthorityMissing);
            }
            if path_and_query.is_none() {
                return Err(InvalidUriParts::PathAndQueryMissing);
            }
        } else {
            if authority.is_some() && path_and_query.is_some() {
                return Err(InvalidUriParts::SchemeMissing);
            }
        }
        Ok(Uri { scheme, authority, path_and_query })
    }

    /// The URI as it is written.
    pub fn to_text(&self) -> (text: String)
        ensures
            text@ == uri_text(self@),
    {
        let mut text = String::new();
        if let Some(scheme) = &self.scheme {
            text.append(scheme.as_str());
            text.append("://");
        }
        if let Some(authority) = &self.authority {
            text.append(authority.as_str());
        }
        let ghost before = text@;
        if let Some(path_and_query) = &self.path_and_query {
            let path_and_query = path_and_query.as_str();
            let slash = if path_and_query.is_empty() {
                self.scheme.is_some()
            } else {
                path_and_query.get_char(0) == '?'
            };
            if slash {
                text.append("/");
            }
            text.append(path_and_query);
            assert(text@ =~= before + path_text(path_and_query@, self.scheme is Some));
        }
        assert(text@ =~= uri_text(self@));
        text
    }
}

/// A URI is written component by component: the scheme and a colon with two
/// slashes, the authority, the path with the query. What is absent is left out,
/// but for the slash of an empty path behind a scheme or in front of a query.
pub proof fn uri_is_written_component_by_component(
    scheme: Seq<char>,
    authority: Seq<char>,
    some_authority: Option<Seq<char>>,
    path: Seq<char>,
    some_path: Option<Seq<char>>,
)
    ensures
        uri_text((None, None, None)) == Seq::<char>::empty(),
        uri_text((None, Some(authority), some_path)) == authority + uri_text(
            (None, None, some_path),
        ),
        path.len() > 0 && path[0] != '?' ==> uri_text((None, None, Some(path))) == path,
        path.len() > 0 && path[0] == '?' ==> uri_text((None, None, Some(path))) == seq!['/']
            + path,
        uri_text((None, None, Some(Seq::<char>::empty()))) == Seq::<char>::empty(),
        path.len() > 0 ==> uri_text((Some(scheme), some_authority, Some(path))) == scheme
            + seq![':', '/', '/'] + uri_text((None, some_authority, Some(path))),
        uri_text((Some(scheme), some_authority, None)) == scheme + seq![':', '/', '/'] + uri_text(
            (None, some_authority, None),
        ),
        uri_text((Some(scheme), some_authority, Some(Seq::<char>::empty()))) == scheme + seq![
            ':',
            '/',
            '/',
        ] + uri_text((None, some_authority, None)) + seq!['/'],
{
    reveal_strlit("://");
    reveal_strlit("/");
    assert("://"@ =~= seq![':', '/', '/']);
    assert("/"@ =~= seq!['/']);
    let empty = Seq::<char>::empty();
    assert(uri_text((None, None, None)) =~= empty);
    assert(uri_text((None, Some(authority), some_path)) =~= authority + uri_text(
        (None, None, some_path),
    ));
    assert(uri_text((None, None, Some(path))) =~= path_text(path, false));
    assert(uri_text((None, None, Some(empty))) =~= empty);
    if path.len() > 0 {
        assert(uri_text((Some(scheme), some_authority, Some(path))) =~= scheme + "://"@ + uri_text(
            (None, some_authority, Some(path)),
        ));
    }
    assert(uri_text((Some(scheme), some_authority, None)) =~= scheme + "://"@ + uri_text(
        (None, some_authority, None),
    ));
    assert(uri_text((Some(scheme), some_authority, Some(empty))) =~= scheme + "://"@ + uri_text(
        (None, some_authority, None),
    ) + "/"@);
}

/// Components make a URI just if a scheme comes with both others, or an authority
/// and a path do not come without one; what is missing is what the error names.
pub proof fn the_error_names_what_is_missing(uri: UriModel)
    ensures
        uri_parts_error(uri) is None <==> (uri.0 is Some && uri.1 is Some && uri.2 is Some) || (
        uri.0 is None && (uri.1 is None || uri.2 is None)),
        uri_parts_error(uri) == Some(InvalidUriParts::SchemeMissing) <==> uri.0 is None && uri.1
            is Some && uri.2 is Some,
        uri_parts_error(uri) == Some(InvalidUriParts::AuthorityMissing) <==> uri.0 is Some && uri.1
            is None,
        uri_parts_error(uri) == Some(InvalidUriParts::PathAndQueryMissing) <==> uri.0 is Some
            && uri.1 is Some && uri.2 is None,
{
}

/// The model of a URI has the texts of its components, each in its place.
pub proof fn a_uri_is_its_components(uri: Uri)
    ensures
        uri@.0 is Some <==> uri.scheme is Some,
        uri@.1 is Some <==> uri.authority is Some,
        uri@.2 is Some <==> uri.path_and_query is Some,
        uri.scheme matches Some(text) ==> uri@.0->0 == text@,
        uri.authority matches Some(text) ==> uri@.1->0 == text@,
        uri.path_and_query matches Some(text) ==> uri@.2->0 == text@,
        uri.wf() <==> uri_parts_error(uri@) is None,
{
}

} // verus!
