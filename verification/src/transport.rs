//! The transport types of `reqwest` and what is assumed of them.
//!
//! A client builder is modelled by what it has been given so far: its
//! default headers, its proxies, and whether it is restricted to HTTP/1. A
//! client is modelled by the default headers and the proxies it got from
//! its builder. A proxy is carried through as it is. Nothing in this file
//! is proved: each contract restates what the function it names does.

use crate::header::{header_map_contents, HeaderContents};
use reqwest::header::HeaderMap;
use reqwest::{Client, ClientBuilder, Proxy};
use vstd::prelude::*;
use vstd::utf8::encode_utf8;

verus! {

/// `reqwest::Client`, known by the default headers and proxies it got.
#[verifier::external_type_specification]
#[verifier::external_body]
pub struct ExClient(reqwest::Client);

/// `reqwest::ClientBuilder`, known by what it has been given.
#[verifier::external_type_specification]
#[verifier::external_body]
pub struct ExClientBuilder(reqwest::ClientBuilder);

/// `reqwest::Proxy`, carried as it is.
#[verifier::external_type_specification]
#[verifier::external_body]
pub struct ExProxy(reqwest::Proxy);

/// `reqwest::Error`, carried as it is.
#[verifier::external_type_specification]
#[verifier::external_body]
pub struct ExTransportError(reqwest::Error);

/// The default headers a client builder has been given so far.
pub uninterp spec fn builder_default_headers(builder: ClientBuilder) -> HeaderContents;

/// The proxies a client builder has been given so far, oldest first.
pub uninterp spec fn builder_proxies(builder: ClientBuilder) -> Seq<Proxy>;

/// Whether a client builder has been restricted to HTTP/1.
pub uninterp spec fn builder_http1_only(builder: ClientBuilder) -> bool;

/// The default headers a client sends with every request.
pub uninterp spec fn client_default_headers(client: Client) -> HeaderContents;

/// The proxies a client got from its builder, oldest first. A proxy that
/// the client takes from the system's settings is not among them.
pub uninterp spec fn client_proxies(client: Client) -> Seq<Proxy>;

/// The proxy that `Proxy::http` makes of an address, if it takes the
/// address.
pub uninterp spec fn http_proxy_of(address: Seq<char>) -> Option<Proxy>;

/// The default headers of a fresh client builder: `accept: */*`.
pub open spec fn initial_default_headers() -> HeaderContents {
    HeaderContents::empty().insert("accept"@, seq![encode_utf8("*/*"@)])
}

/// Default headers after more have been set: each name that is set holds
/// the last of the values given for it, every other name keeps its
/// values.
pub open spec fn with_default_headers(
    current: HeaderContents,
    given: HeaderContents,
) -> HeaderContents {
    Map::new(
        |name: Seq<char>| current.contains_key(name) || given.contains_key(name),
        |name: Seq<char>|
            if given.contains_key(name) {
                seq![given[name].last()]
            } else {
                current[name]
            },
    )
}

/// `ClientBuilder::new` starts with the single default header
/// `accept: */*`, without a proxy and without a restriction on the
/// protocol version.
pub assume_specification[ ClientBuilder::new ]() -> (builder: ClientBuilder)
    ensures
        builder_default_headers(builder) == initial_default_headers(),
        builder_proxies(builder) == Seq::<Proxy>::empty(),
        !builder_http1_only(builder),
;

/// `ClientBuilder::default_headers` inserts every pair of the given map
/// into the builder's default headers, so a name that is given replaces
/// what the builder held under it. The insertion panics when the map would
/// have to grow past 32768 slots, which takes thousands of names.
pub assume_specification[ ClientBuilder::default_headers ](
    builder: ClientBuilder,
    headers: HeaderMap,
) -> (configured: ClientBuilder)
    requires
        builder_default_headers(builder).dom().finite(),
        header_map_contents(headers).dom().finite(),
        builder_default_headers(builder).dom().len() + header_map_contents(headers).dom().len()
            < 4096,
    ensures
        builder_default_headers(configured) == with_default_headers(
            builder_default_headers(builder),
            header_map_contents(headers),
        ),
        builder_proxies(configured) == builder_proxies(builder),
        builder_http1_only(configured) == builder_http1_only(builder),
;

/// `ClientBuilder::proxy` adds the proxy behind those the builder has and
/// changes nothing else that is modelled here.
pub assume_specification[ ClientBuilder::proxy ](
    builder: ClientBuilder,
    proxy: Proxy,
) -> (configured: ClientBuilder)
    ensures
        builder_proxies(configured) == builder_proxies(builder).push(proxy),
        builder_default_headers(configured) == builder_default_headers(builder),
        builder_http1_only(configured) == builder_http1_only(builder),
;

/// `ClientBuilder::http1_only` restricts the builder to HTTP/1 and changes
/// nothing else that is modelled here.
pub assume_specification[ ClientBuilder::http1_only ](
    builder: ClientBuilder,
) -> (configured: ClientBuilder)
    ensures
        builder_http1_only(configured),
        builder_default_headers(configured) == builder_default_headers(builder),
        builder_proxies(configured) == builder_proxies(builder),
;

/// `ClientBuilder::build` hands the builder's default headers and proxies
/// to the client. Whether it succeeds is up to the transport.
pub assume_specification[ ClientBuilder::build ](
    builder: ClientBuilder,
) -> (r: Result<Client, reqwest::Error>)
    ensures
        r matches Ok(client) ==> client_default_headers(client) == builder_default_headers(builder),
        r matches Ok(client) ==> client_proxies(client) == builder_proxies(builder),
;

/// `Proxy::http` parses the address into a proxy for plain HTTP traffic
/// and fails when the address is no endpoint it understands. The address
/// alone decides which of the two happens and which proxy is made.
#[verifier::external_body]
pub(crate) fn http_proxy(address: String) -> (r: Result<Proxy, reqwest::Error>)
    ensures
        r matches Ok(proxy) ==> http_proxy_of(address@) == Some(proxy),
        r is Err ==> http_proxy_of(address@) is None,
{
    Proxy::http(address)
}

} // verus!
