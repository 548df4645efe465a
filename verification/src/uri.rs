//! URIs: taking them apart, and putting them together with another scheme or another authority.
use vstd::prelude::*;
use vstd::string::*;

use crate::text;
use crate::traffic::HttpVersion;

verus! {

broadcast use vstd::string::group_string_axioms;

/// The parts of a URI: the scheme, the authority, the path with the query.
#[derive(Debug)]
pub struct UriParts {
    pub scheme: Option<String>,
    pub authority: Option<String>,
    pub path_and_query: Option<String>,
}

/// The parts of a URI as contents.
#[verifier::ext_equal]
pub struct Pieces {
    pub scheme: Option<Seq<char>>,
    pub authority: Option<Seq<char>>,
    pub path_and_query: Option<Seq<char>>,
}

impl View for UriParts {
    type V = Pieces;

    open spec fn view(&self) -> Pieces {
        Pieces {
            scheme: text::optional_text(self.scheme),
            authority: text::optional_text(self.authority),
            path_and_query: text::optional_text(self.path_and_query),
        }
    }
}

/// The parts of the URI that a text is.
pub uninterp spec fn uri_parts(uri: Seq<char>) -> Option<Pieces>;

/// Calls `str::parse` for `http::Uri`, then `http::Uri::into_parts`: a text is a URI with these
/// parts, or it is none.
#[verifier::external_body]
pub(crate) fn split_uri(uri: &str) -> (r: Option<UriParts>)
    ensures
        match r {
            Some(parts) => uri_parts(uri@) == Some(parts@),
            None => uri_parts(uri@) is None,
        },
{
    let parts = uri.parse::<http::Uri>().ok()?.into_parts();
    Some(
        UriParts {
            scheme: parts.scheme.map(|s| s.to_string()),
            authority: parts.authority.map(|a| a.to_string()),
            path_and_query: parts.path_and_query.map(|p| p.to_string()),
        },
    )
}

/// The URI with these parts, or the error.
pub uninterp spec fn uri_text(parts: Pieces) -> Result<Seq<char>, Seq<char>>;

/// Whether an outcome holds these contents.
pub open spec fn comes_to(
    outcome: Result<String, String>,
    contents: Result<Seq<char>, Seq<char>>,
) -> bool {
    match (outcome, contents) {
        (Ok(uri), Ok(text)) => uri@ == text,
        (Err(error), Err(text)) => error@ == text,
        _ => false,
    }
}

/// Calls `http::uri::Builder::build`, which calls `http::Uri::from_parts`: the parts make a URI,
/// or they do not. With a scheme there must be an authority and a path.
#[verifier::external_body]
pub(crate) fn join_uri(parts: &UriParts) -> (r: Result<String, String>)
    ensures
        comes_to(r, uri_text(parts@)),
        r is Ok && parts.scheme is Some ==> parts.authority is Some && parts.path_and_query is Some,
{
    let mut builder = http::Uri::builder();
    if let Some(scheme) = &parts.scheme {
        builder = builder.scheme(scheme.as_str());
    }
    if let Some(authority) = &parts.authority {
        builder = builder.authority(authority.as_str());
    }
    if let Some(path_and_query) = &parts.path_and_query {
        builder = builder.path_and_query(path_and_query.as_str());
    }
    builder.build().map(|uri| uri.to_string()).map_err(|error| error.to_string())
}

/// The scheme of a WebSocket in place of a scheme: plain for HTTP and where there is none, else
/// secure.
pub open spec fn websocket_scheme_of(scheme: Option<Seq<char>>) -> Seq<char> {
    match scheme {
        Some(s) => if s == "http"@ {
            "ws"@
        } else {
            "wss"@
        },
        None => "ws"@,
    }
}

/// The scheme of a WebSocket in place of a scheme.
pub fn websocket_scheme(scheme: &Option<String>) -> (r: &'static str)
    ensures
        r@ == websocket_scheme_of(text::optional_text(*scheme)),
{
    match scheme {
        Some(s) => if text::same(s.as_str(), "http") {
            "ws"
        } else {
            "wss"
        },
        None => "ws",
    }
}

/// The URI of the WebSocket that an upgrade of a request for a URI means: none where the text is
/// no URI, an error where the scheme of a WebSocket cannot go with it.
pub open spec fn websocket_uri_of(uri: Seq<char>) -> Option<Result<Seq<char>, Seq<char>>> {
    match uri_parts(uri) {
        Some(parts) => Some(
            uri_text(Pieces { scheme: Some(websocket_scheme_of(parts.scheme)), ..parts }),
        ),
        None => None,
    }
}

/// The URI of the WebSocket that an upgrade of a request for a URI means.
pub fn websocket_uri(uri: &str) -> (r: Option<Result<String, String>>)
    ensures
        match r {
            Some(outcome) => websocket_uri_of(uri@) matches Some(contents) && comes_to(
                outcome,
                contents,
            ),
            None => websocket_uri_of(uri@) is None,
        },
{
    let mut parts: UriParts = match split_uri(uri) {
        Some(parts) => parts,
        None => {
            return None;
        },
    };
    let ghost pieces = parts@;
    parts.scheme = Some(websocket_scheme(&parts.scheme).to_owned());
    proof {
        assert(parts@ =~= (Pieces {
            scheme: Some(websocket_scheme_of(pieces.scheme)),
            ..pieces
        }));
    }
    Some(join_uri(&parts))
}

/// The URI that a request inside of a tunnel means: up to version 1.1 of HTTP it names no host,
/// and gets the scheme and the authority of the tunnel. None where the text is no URI.
pub open spec fn tunnel_uri_of(
    uri: Seq<char>,
    version: HttpVersion,
    scheme: Seq<char>,
    authority: Seq<char>,
) -> Option<Result<Seq<char>, Seq<char>>> {
    if version == HttpVersion::Http10 || version == HttpVersion::Http11 {
        match uri_parts(uri) {
            Some(parts) => Some(
                uri_text(Pieces { scheme: Some(scheme), authority: Some(authority), ..parts }),
            ),
            None => None,
        }
    } else {
        Some(Ok(uri))
    }
}

/// The URI that a request inside of a tunnel means.
pub fn tunnel_uri(uri: &str, version: HttpVersion, scheme: &str, authority: &str) -> (r: Option<
    Result<String, String>,
>)
    ensures
        match r {
            Some(outcome) => tunnel_uri_of(uri@, version, scheme@, authority@) matches Some(
                contents,
            ) && comes_to(outcome, contents),
            None => tunnel_uri_of(uri@, version, scheme@, authority@) is None,
        },
{
    if version != HttpVersion::Http10 && version != HttpVersion::Http11 {
        return Some(Ok(uri.to_owned()));
    }
    let mut parts: UriParts = match split_uri(uri) {
        Some(parts) => parts,
        None => {
            return None;
        },
    };
    let ghost pieces = parts@;
    parts.scheme = Some(scheme.to_owned());
    parts.authority = Some(authority.to_owned());
    proof {
        assert(parts@ =~= (Pieces {
            scheme: Some(scheme@),
            authority: Some(authority@),
            ..pieces
        }));
    }
    Some(join_uri(&parts))
}

/// A WebSocket is plain exactly where the request was over plain HTTP or named no scheme, and else
/// secure.
pub proof fn law_secure_requests_get_secure_sockets(scheme: Seq<char>)
    ensures
        websocket_scheme_of(None) == "ws"@,
        websocket_scheme_of(Some("http"@)) == "ws"@,
        websocket_scheme_of(Some("https"@)) == "wss"@,
        scheme != "http"@ ==> websocket_scheme_of(Some(scheme)) == "wss"@,
{
    reveal_strlit("http");
    reveal_strlit("https");
    assert("http"@.len() == 4);
    assert("https"@.len() == 5);
}

/// An upgrade changes the scheme of a URI and leaves its authority and its path as they are.
pub proof fn law_upgrades_change_the_scheme_alone(uri: Seq<char>)
    ensures
        uri_parts(uri) is None <==> websocket_uri_of(uri) is None,
        uri_parts(uri) matches Some(parts) ==> websocket_uri_of(uri) == Some(
            uri_text(
                Pieces {
                    scheme: Some(
                        if parts.scheme is None || parts.scheme == Some("http"@) {
                            "ws"@
                        } else {
                            "wss"@
                        },
                    ),
                    authority: parts.authority,
                    path_and_query: parts.path_and_query,
                },
            ),
        ),
{
}

/// A request inside of a tunnel means the scheme and the authority of the tunnel, with its own
/// path; one that comes in another version than 1.0 and 1.1 names them itself and is taken as it
/// is.
pub proof fn law_tunnelled_requests_mean_the_tunnel(
    uri: Seq<char>,
    version: HttpVersion,
    scheme: Seq<char>,
    authority: Seq<char>,
)
    ensures
        version == HttpVersion::Http10 || version == HttpVersion::Http11 ==> tunnel_uri_of(
            uri,
            version,
            scheme,
            authority,
        ) == (match uri_parts(uri) {
            Some(parts) => Some(
                uri_text(
                    Pieces {
                        scheme: Some(scheme),
                        authority: Some(authority),
                        path_and_query: parts.path_and_query,
                    },
                ),
            ),
            None => None,
        }),
        version == HttpVersion::Http09 || version == HttpVersion::Http2 || version
            == HttpVersion::Http3 ==> tunnel_uri_of(uri, version, scheme, authority) == Some(
            Ok::<Seq<char>, Seq<char>>(uri),
        ),
{
}

/// An outcome comes to contents exactly where both are URIs or both are errors, with the same text.
pub proof fn law_outcomes_keep_their_text(
    outcome: Result<String, String>,
    text: Seq<char>,
)
    ensures
        comes_to(outcome, Ok(text)) <==> (outcome matches Ok(uri) && uri@ == text),
        comes_to(outcome, Err(text)) <==> (outcome matches Err(error) && error@ == text),
{
}

} // verus!
