//! The redirect from the plain listener to HTTPS.

use crate::decimal::{decimal_text, lemma_decimal_text_digits, write_decimal};
use crate::request::{
    header_text, header_to_str, header_value_from_str, is_header_value, lemma_header_value_by_chars,
    lemma_header_value_concat, parse_uri_text, parsed_uri, uri_of, Headers, HeadersView, Request,
    RequestView, Uri, UriView,
};
use crate::response::{
    empty_response, redirect_response, Response, ResponseView, STATUS_INTERNAL_SERVER_ERROR,
};
use vstd::prelude::*;

verus! {

/// The URI that a `Host` header names: the header's text, read as a URI.
/// There is none without the header, where the header is not visible text,
/// and where its text is no URI.
pub open spec fn host_header_uri(headers: HeadersView) -> Option<UriView> {
    match headers.host {
        Some(value) => match header_text(value) {
            Some(text) => parsed_uri(text),
            None => None,
        },
        None => None,
    }
}

/// What stands behind the host: the HTTPS port, if the host came with a port
/// of its own, and nothing if it did not. The port that came is not kept.
pub open spec fn port_suffix(port: Option<u16>, https_port: u16) -> Seq<char> {
    match port {
        Some(_) => ":"@ + decimal_text(https_port as nat),
        None => Seq::empty(),
    }
}

/// The URI whose authority gives the new URL its host: the request's own,
/// where it has a host; else that of the `Host` header, where that has one.
pub open spec fn host_source(uri: UriView, host_header: Option<UriView>) -> Option<UriView> {
    if uri.host is Some {
        Some(uri)
    } else {
        match host_header {
            Some(header) => if header.host is Some {
                Some(header)
            } else {
                None
            },
            None => None,
        }
    }
}

/// The host and port of the new URL; nothing where no host is known.
pub open spec fn redirect_authority(
    uri: UriView,
    host_header: Option<UriView>,
    https_port: u16,
) -> Seq<char> {
    match host_source(uri, host_header) {
        Some(source) => source.host->0 + port_suffix(source.port, https_port),
        None => Seq::empty(),
    }
}

/// The query of the new URL, behind its question mark.
pub open spec fn query_suffix(query: Option<Seq<char>>) -> Seq<char> {
    match query {
        Some(query) => "?"@ + query,
        None => Seq::empty(),
    }
}

/// The HTTPS URL for a request: path and query as they came.
pub open spec fn rewritten_uri(uri: UriView, host_header: Option<UriView>, https_port: u16) -> Seq<
    char,
> {
    "https://"@ + redirect_authority(uri, host_header, https_port) + uri.path + query_suffix(
        uri.query,
    )
}

/// The answer with a new URL: the redirect, or a server error where the URL
/// cannot be sent as a header value.
pub open spec fn redirect_to(url: Seq<char>) -> ResponseView {
    if is_header_value(url) {
        redirect_response(url)
    } else {
        empty_response(STATUS_INTERNAL_SERVER_ERROR)
    }
}

/// The answer to a request for `uri`: the redirect to its HTTPS URL, or a
/// server error where no host is known for that URL or the URL cannot be
/// sent.
pub open spec fn redirect_answer(
    uri: UriView,
    host_header: Option<UriView>,
    https_port: u16,
) -> ResponseView {
    if host_source(uri, host_header) is Some {
        redirect_to(rewritten_uri(uri, host_header, https_port))
    } else {
        empty_response(STATUS_INTERNAL_SERVER_ERROR)
    }
}

/// The answer to a request on the plain listener.
pub open spec fn redirect(request: RequestView, https_port: u16) -> ResponseView {
    redirect_answer(request.uri, host_header_uri(request.headers), https_port)
}

/// Sends every request on to HTTPS.
#[derive(Clone, Copy, Debug, PartialEq, Eq, Structural)]
pub struct RedirectService {
    pub https_port: u16,
}

impl RedirectService {
    pub fn new(https_port: u16) -> (service: RedirectService)
        ensures
            service.https_port == https_port,
    {
        RedirectService { https_port }
    }

    /// The HTTPS URL for `uri`, with the host of the `Host` header where
    /// `uri` has none of its own. Where neither has a host, the URL has
    /// none, and is not to be sent.
    pub fn rewrite_uri(&self, uri: Uri, host_header: Option<Uri>) -> (new_url: String)
        ensures
            new_url@ == rewritten_uri(uri@, uri_of(host_header), self.https_port),
    {
        let mut new_url = String::from_str("https://");
        match &uri.host {
            Some(host) => {
                new_url.append(host.as_str());
                self.maybe_add_port(&mut new_url, uri.port);
            },
            None => {
                match &host_header {
                    Some(header) => {
                        match &header.host {
                            Some(host) => {
                                new_url.append(host.as_str());
                                self.maybe_add_port(&mut new_url, header.port);
                            },
                            None => {},
                        }
                    },
                    None => {},
                }
            },
        }
        new_url.append(uri.path.as_str());
        match &uri.query {
            Some(query) => {
                new_url.append("?");
                new_url.append(query.as_str());
            },
            None => {},
        }
        new_url
    }

    /// Adds the HTTPS port where the request named a port.
    fn maybe_add_port(&self, new_url: &mut String, req_port: Option<u16>)
        ensures
            final(new_url)@ == old(new_url)@ + port_suffix(req_port, self.https_port),
    {
        if req_port.is_some() {
            new_url.append(":");
            let port = write_decimal(self.https_port);
            new_url.append(port.as_str());
        }
    }

    /// The answer with a new URL.
    pub fn respond(&self, new_url: String) -> (response: Response)
        ensures
            response@ == redirect_to(new_url@),
    {
        if header_value_from_str(new_url.as_str()) {
            Response::redirect(new_url)
        } else {
            Response::empty(STATUS_INTERNAL_SERVER_ERROR)
        }
    }

    /// The answer to a request for `uri` whose `Host` header, read as a
    /// URI, is `host_header`.
    pub fn answer(&self, uri: Uri, host_header: Option<Uri>) -> (response: Response)
        ensures
            response@ == redirect_answer(uri@, uri_of(host_header), self.https_port),
    {
        if has_host(&uri, &host_header) {
            let new_url = self.rewrite_uri(uri, host_header);
            self.respond(new_url)
        } else {
            Response::empty(STATUS_INTERNAL_SERVER_ERROR)
        }
    }

    /// Answers a request on the plain listener.
    pub fn handle(&self, request: Request) -> (response: Response)
        ensures
            response@ == redirect(request@, self.https_port),
    {
        let host_header = get_host_header(&request.headers);
        self.answer(request.uri, host_header)
    }
}

/// Whether a host is known for the new URL.
pub fn has_host(uri: &Uri, host_header: &Option<Uri>) -> (known: bool)
    ensures
        known == host_source(uri@, uri_of(*host_header)) is Some,
{
    if uri.host.is_some() {
        true
    } else {
        match host_header {
            Some(header) => header.host.is_some(),
            None => false,
        }
    }
}

/// Reads the `Host` header as a URI.
pub fn get_host_header(headers: &Headers) -> (uri: Option<Uri>)
    ensures
        uri_of(uri) == host_header_uri(headers@),
{
    match &headers.host {
        Some(value) => {
            match header_to_str(value.as_slice()) {
                Some(text) => parse_uri_text(text.as_str()),
                None => None,
            }
        },
        None => None,
    }
}

/// The request's own authority goes before the `Host` header: where the URI
/// has a host, the header changes nothing.
pub proof fn lemma_authority_goes_before_host_header(
    uri: UriView,
    host_header: Option<UriView>,
    other_header: Option<UriView>,
    https_port: u16,
)
    requires
        uri.host is Some,
    ensures
        host_source(uri, host_header) == Some(uri),
        rewritten_uri(uri, host_header, https_port) == rewritten_uri(uri, other_header, https_port),
        redirect_answer(uri, host_header, https_port) == redirect_answer(
            uri,
            other_header,
            https_port,
        ),
{
}

/// The new URL names a port if and only if its host came with one, and then
/// it is the HTTPS port: the port that came is not kept.
pub proof fn lemma_port_that_came_is_not_kept(
    uri: UriView,
    host_header: Option<UriView>,
    https_port: u16,
    port: u16,
    other_port: u16,
)
    ensures
        port_suffix(Some(port), https_port) == port_suffix(Some(other_port), https_port),
        port_suffix(Some(port), https_port) == ":"@ + decimal_text(https_port as nat),
        port_suffix(None, https_port) == Seq::<char>::empty(),
        host_source(uri, host_header) matches Some(source) ==> rewritten_uri(
            uri,
            host_header,
            https_port,
        ) == "https://"@ + (source.host->0 + port_suffix(source.port, https_port)) + uri.path
            + query_suffix(uri.query),
{
}

/// Without a host in the URI and without one in the `Host` header the new
/// URL has no host: the path follows the scheme at once. Such a URL is not
/// sent.
pub proof fn lemma_no_host_gives_none(uri: UriView, host_header: Option<UriView>, https_port: u16)
    requires
        host_source(uri, host_header) is None,
    ensures
        rewritten_uri(uri, host_header, https_port) == "https://"@ + uri.path + query_suffix(
            uri.query,
        ),
        redirect_answer(uri, host_header, https_port) == empty_response(
            STATUS_INTERNAL_SERVER_ERROR,
        ),
{
}

/// When the redirect is owed. The new URL can be sent wherever host, path
/// and query can be: the scheme and the port never stand in the way. A
/// request is redirected where a host is known and the URL can be sent, and
/// gets a server error in every other case.
pub proof fn lemma_redirect_fails_by_its_parts(
    uri: UriView,
    host_header: Option<UriView>,
    https_port: u16,
)
    ensures
        is_header_value(rewritten_uri(uri, host_header, https_port)) <==> {
            &&& host_source(uri, host_header) matches Some(source) ==> is_header_value(source.host->0)
            &&& is_header_value(uri.path)
            &&& uri.query matches Some(query) ==> is_header_value(query)
        },
        redirect_answer(uri, host_header, https_port) == if host_source(uri, host_header) is Some
            && is_header_value(rewritten_uri(uri, host_header, https_port)) {
            redirect_response(rewritten_uri(uri, host_header, https_port))
        } else {
            empty_response(STATUS_INTERNAL_SERVER_ERROR)
        },
{
    let authority = redirect_authority(uri, host_header, https_port);
    let query = query_suffix(uri.query);
    assert(is_header_value("https://"@)) by {
        reveal_strlit("https://");
        lemma_header_value_by_chars("https://"@);
    }
    assert(is_header_value("?"@) && is_header_value(":"@)) by {
        reveal_strlit("?");
        reveal_strlit(":");
        lemma_header_value_by_chars("?"@);
        lemma_header_value_by_chars(":"@);
    }
    assert(is_header_value(decimal_text(https_port as nat))) by {
        lemma_decimal_text_digits(https_port as nat);
        lemma_header_value_by_chars(decimal_text(https_port as nat));
    }
    assert(is_header_value(Seq::<char>::empty())) by {
        lemma_header_value_by_chars(Seq::<char>::empty());
    }
    lemma_header_value_concat(":"@, decimal_text(https_port as nat));
    match host_source(uri, host_header) {
        Some(source) => {
            lemma_header_value_concat(source.host->0, port_suffix(source.port, https_port));
        },
        None => {},
    }
    match uri.query {
        Some(q) => {
            lemma_header_value_concat("?"@, q);
        },
        None => {},
    }
    lemma_header_value_concat("https://"@, authority);
    lemma_header_value_concat("https://"@ + authority, uri.path);
    lemma_header_value_concat("https://"@ + authority + uri.path, query);
}

} // verus!
