//! The request of one probe: a GET for the target, with the configured
//! headers attached in their order.
//!
//! The transport's client and its request under construction are opaque to
//! the verifier. What the transport makes of a client and a URL, and of a
//! request and one more header, goes by a name each, and so does the number
//! of header names that a request holds; the two private functions at the
//! end of this file make the calls, and their contracts are trusted, not
//! proved.

use crate::config::{header_pairs, AdditionalRequestHeader};
use reqwest::{Client, RequestBuilder};
use vstd::prelude::*;

verus! {

/// Makes the transport's client known to the verifier, as an opaque type.
#[verifier::external_type_specification]
#[verifier::external_body]
pub struct ExClient(Client);

/// Makes the transport's request under construction known to the verifier,
/// as an opaque type.
#[verifier::external_type_specification]
#[verifier::external_body]
pub struct ExRequestBuilder(RequestBuilder);

/// One GET request as plain values: the target and the headers to attach, in
/// this order.
#[derive(Debug, Clone, PartialEq, Eq)]
pub struct ProbeRequest {
    pub url: String,
    pub headers: Vec<AdditionalRequestHeader>,
}

/// The GET request that the transport makes of a client and a URL.
pub uninterp spec fn get_request(client: Client, url: Seq<char>) -> RequestBuilder;

/// The request that the transport makes of a request by attaching one more
/// header to it.
pub uninterp spec fn with_header(
    request: RequestBuilder,
    name: Seq<char>,
    value: Seq<char>,
) -> RequestBuilder;

/// The number of header names that a request holds.
pub uninterp spec fn header_names(request: RequestBuilder) -> nat;

/// The number of header names from which on the transport may refuse one
/// more header. Its header map never has more than 32768 slots, and it may
/// ask for more slots once the names fill a fifth of them.
pub const HEADER_NAME_LIMIT: usize = 6554;

/// A request with a list of headers attached one after the other, the first
/// of the list first. Nothing is left out and nothing is merged: a name that
/// occurs twice is attached twice.
pub open spec fn with_headers(
    request: RequestBuilder,
    headers: Seq<(Seq<char>, Seq<char>)>,
) -> RequestBuilder
    decreases headers.len(),
{
    if headers.len() == 0 {
        request
    } else {
        with_header(
            with_headers(request, headers.drop_last()),
            headers.last().0,
            headers.last().1,
        )
    }
}

/// The error for a probe with more headers than the transport is sure to
/// take.
#[derive(Debug, Clone, Copy, PartialEq, Eq)]
pub struct TooManyHeaders;

impl TooManyHeaders {
    /// The text that describes the error.
    pub fn message(&self) -> (text: String)
        ensures
            text@ == "Too many request headers"@,
    {
        String::from_str("Too many request headers")
    }
}

/// Builds the transport's request for a probe: a GET for the URL, with every
/// header of the probe attached, in the order of the list. It is an error,
/// `TooManyHeaders`, if and only if the list holds `HEADER_NAME_LIMIT`
/// headers or more; nothing is asked of the transport then.
pub fn build_request(client: &Client, probe: &ProbeRequest) -> (built: Result<
    RequestBuilder,
    TooManyHeaders,
>)
    ensures
        match built {
            Ok(request) => probe.headers.len() < HEADER_NAME_LIMIT && request == with_headers(
                get_request(*client, probe.url@),
                header_pairs(probe.headers@),
            ),
            Err(_) => probe.headers.len() >= HEADER_NAME_LIMIT,
        },
{
    if probe.headers.len() >= HEADER_NAME_LIMIT {
        return Err(TooManyHeaders);
    }
    let ghost pairs = header_pairs(probe.headers@);
    let mut request = start_get(client, probe.url.as_str());
    let mut i: usize = 0;
    while i < probe.headers.len()
        invariant
            i <= probe.headers.len() < HEADER_NAME_LIMIT,
            pairs == header_pairs(probe.headers@),
            request == with_headers(get_request(*client, probe.url@), pairs.take(i as int)),
            header_names(request) <= i + 1,
        decreases probe.headers.len() - i,
    {
        let header = &probe.headers[i];
        proof {
            assert(pairs.take(i + 1).drop_last() == pairs.take(i as int));
            assert(pairs.take(i + 1).last() == header.pair());
        }
        request = attach_header(request, header.name.as_str(), header.value.as_str());
        i = i + 1;
    }
    assert(pairs.take(i as int) == pairs);
    Ok(request)
}

/// Trusted: `Client::get` starts a GET request for the URL. What it makes of
/// its arguments depends on nothing else, and goes by the name
/// [`get_request`]. It does not fail: a URL that cannot be used is reported
/// when the request is sent. The new request holds no header, or one where
/// the URL holds credentials.
#[verifier::external_body]
fn start_get(client: &Client, url: &str) -> (request: RequestBuilder)
    ensures
        request == get_request(*client, url@),
        header_names(request) <= 1,
{
    client.get(url)
}

/// Trusted: `RequestBuilder::header` attaches one header to a request. What
/// it makes of its arguments depends on nothing else, and goes by the name
/// [`with_header`]. A name or a value that cannot be used is reported when
/// the request is sent. The call adds at most one name to the request. It
/// panics where the header map of the request cannot grow, which cannot
/// happen while the request holds fewer than `HEADER_NAME_LIMIT` names: the
/// `requires` leaves the rest out.
#[verifier::external_body]
fn attach_header(request: RequestBuilder, name: &str, value: &str) -> (extended: RequestBuilder)
    requires
        header_names(request) < HEADER_NAME_LIMIT,
    ensures
        extended == with_header(request, name@, value@),
        header_names(extended) <= header_names(request) + 1,
{
    request.header(name, value)
}

} // verus!
