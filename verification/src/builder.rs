//! The staged configuration of a client.
//!
//! Fragments are set one by one, without any check. `build` checks them
//! all at once.

use crate::assembler::{
    assembled_headers, fragments_allowed, lemma_accept_not_assembled, lemma_assembled_entries,
};
use crate::client::{Creator, CreatorView};
use crate::encoding::{lemma_text_allowed_bytes, text_of};
use crate::error::OnlyFansBuilderError;
use crate::header::{clone_headers, header_map_contents, value_bytes_allowed, HeaderContents};
use crate::session::{Session, SessionView, SignatureService};
use crate::transport::{
    builder_default_headers, builder_http1_only, builder_proxies, client_default_headers,
    client_proxies, http_proxy, http_proxy_of, initial_default_headers, with_default_headers,
};
use reqwest::header::HeaderMap;
use reqwest::{ClientBuilder, Proxy};
use std::sync::Arc;
use vstd::prelude::*;
use vstd::utf8::encode_utf8;

verus! {

/// The credential fragments of a client that is yet to be built.
pub struct CreatorBuilder {
    /// The user agent. Required.
    pub user_agent: Option<String>,
    /// The browser-check token. Required.
    pub xbc: Option<String>,
    /// The account id. Required.
    pub auth_id: Option<String>,
    /// The two-factor token. With it the cookie gets a third field.
    pub two_factor: Option<String>,
    /// The session token. Required.
    pub session: Option<String>,
    /// The address of the proxy for the proxied transport. Required.
    pub proxy: Option<String>,
    /// The signing service, shared with whoever else holds it.
    pub sig_svc: Arc<SignatureService>,
}

/// What a builder holds: the text of each fragment that is set, and the
/// signing service.
pub struct Fragments {
    pub user_agent: Option<Seq<char>>,
    pub xbc: Option<Seq<char>>,
    pub auth_id: Option<Seq<char>>,
    pub two_factor: Option<Seq<char>>,
    pub session: Option<Seq<char>>,
    pub proxy: Option<Seq<char>>,
    pub sig_svc: SignatureService,
}

impl View for CreatorBuilder {
    type V = Fragments;

    open spec fn view(&self) -> Fragments {
        Fragments {
            user_agent: text_of(self.user_agent),
            xbc: text_of(self.xbc),
            auth_id: text_of(self.auth_id),
            two_factor: text_of(self.two_factor),
            session: text_of(self.session),
            proxy: text_of(self.proxy),
            sig_svc: *self.sig_svc,
        }
    }
}

impl Fragments {
    /// The error for the first required fragment that is not set, in the
    /// order user agent, browser-check token, account id, session token,
    /// proxy address.
    pub open spec fn missing(self) -> Option<OnlyFansBuilderError> {
        if self.user_agent is None {
            Some(OnlyFansBuilderError::MissingUserAgent)
        } else if self.xbc is None {
            Some(OnlyFansBuilderError::MissingXBC)
        } else if self.auth_id is None {
            Some(OnlyFansBuilderError::MissingAuthID)
        } else if self.session is None {
            Some(OnlyFansBuilderError::MissingSession)
        } else if self.proxy is None {
            Some(OnlyFansBuilderError::MissingProxy)
        } else {
            None
        }
    }

    /// Every fragment that goes into a header can be sent as a header
    /// value.
    pub open spec fn allowed(self) -> bool
        recommends
            self.missing() is None,
    {
        fragments_allowed(
            self.user_agent->0,
            self.xbc->0,
            self.auth_id->0,
            self.two_factor,
            self.session->0,
        )
    }

    /// The headers assembled from the fragments.
    pub open spec fn headers(self) -> HeaderContents
        recommends
            self.missing() is None,
    {
        assembled_headers(
            self.user_agent->0,
            self.xbc->0,
            self.auth_id->0,
            self.two_factor,
            self.session->0,
        )
    }

    /// The default headers of a transport built from the fragments: the
    /// assembled headers and, beside them, the header `accept: */*` that
    /// every transport starts with.
    pub open spec fn transport_headers(self) -> HeaderContents
        recommends
            self.missing() is None,
    {
        self.headers().insert("accept"@, seq![encode_utf8("*/*"@)])
    }

    /// The session made of the fragments.
    pub open spec fn credentials(self) -> SessionView
        recommends
            self.missing() is None,
    {
        SessionView {
            user_agent: self.user_agent->0,
            xbc: self.xbc->0,
            auth_id: self.auth_id->0,
            two_factor: self.two_factor,
            session: self.session->0,
        }
    }

    /// The handle is the one built from these fragments: it holds their
    /// credentials and signing service, both of its transports carry their
    /// headers, the proxied transport has the proxy made of their proxy
    /// address and no other, and the direct transport has none.
    pub open spec fn built(self, creator: CreatorView) -> bool
        recommends
            self.missing() is None,
            http_proxy_of(self.proxy->0) is Some,
    {
        &&& creator.session == self.credentials()
        &&& client_default_headers(creator.client) == self.transport_headers()
        &&& client_default_headers(creator.internal) == self.transport_headers()
        &&& client_proxies(creator.client) == seq![http_proxy_of(self.proxy->0)->0]
        &&& client_proxies(creator.internal) == Seq::<Proxy>::empty()
        &&& creator.sig_svc == self.sig_svc
    }

    /// What `build` may return for these fragments.
    ///
    /// A missing fragment gives its own error. If none is missing, a
    /// fragment that cannot be sent gives `HeaderValue`. If all can be sent,
    /// a proxy address that the transport does not take gives `Http`.
    /// Otherwise the outcome is the handle built from the fragments, unless
    /// a transport could not be set up, which gives `Http`.
    pub open spec fn yields(self, outcome: Result<Creator, OnlyFansBuilderError>) -> bool {
        match self.missing() {
            Some(error) => outcome matches Err(reported) && reported == error,
            None => if !self.allowed() {
                outcome matches Err(OnlyFansBuilderError::HeaderValue(_))
            } else if http_proxy_of(self.proxy->0) is None {
                outcome matches Err(OnlyFansBuilderError::Http(_))
            } else {
                match outcome {
                    Ok(creator) => self.built(creator@),
                    Err(error) => error is Http,
                }
            },
        }
    }
}

impl Default for CreatorBuilder {
    /// A builder without any fragment, with the default signing service.
    fn default() -> (builder: Self)
        ensures
            builder@.user_agent is None,
            builder@.xbc is None,
            builder@.auth_id is None,
            builder@.two_factor is None,
            builder@.session is None,
            builder@.proxy is None,
            builder@.sig_svc.id == 0,
    {
        CreatorBuilder {
            user_agent: None,
            xbc: None,
            auth_id: None,
            two_factor: None,
            session: None,
            proxy: None,
            sig_svc: Arc::new(SignatureService::default()),
        }
    }
}

impl CreatorBuilder {
    /// Validates the fragments and builds the client handle.
    ///
    /// The required fragments are checked in the order user agent,
    /// browser-check token, account id, session token, proxy address, and
    /// the first one missing decides the error. Then the headers are
    /// assembled, the proxy address is parsed, and the direct and the
    /// proxied transport are built with the same default headers.
    pub fn build(self) -> (outcome: Result<Creator, OnlyFansBuilderError>)
        ensures
            self@.yields(outcome),
    {
        let CreatorBuilder { user_agent, xbc, auth_id, two_factor, session, proxy, sig_svc } = self;
        let user_agent = match user_agent {
            Some(text) => text,
            None => {
                return Err(OnlyFansBuilderError::MissingUserAgent);
            },
        };
        let xbc = match xbc {
            Some(text) => text,
            None => {
                return Err(OnlyFansBuilderError::MissingXBC);
            },
        };
        let auth_id = match auth_id {
            Some(text) => text,
            None => {
                return Err(OnlyFansBuilderError::MissingAuthID);
            },
        };
        let session = match session {
            Some(text) => text,
            None => {
                return Err(OnlyFansBuilderError::MissingSession);
            },
        };
        let proxy_str = match proxy {
            Some(text) => text,
            None => {
                return Err(OnlyFansBuilderError::MissingProxy);
            },
        };

        let default_headers = match Self::build_headers(
            user_agent.as_str(),
            xbc.as_str(),
            auth_id.as_str(),
            two_factor.clone(),
            session.as_str(),
        ) {
            Ok(headers) => headers,
            Err(error) => {
                return Err(error);
            },
        };

        let proxy = match http_proxy(proxy_str) {
            Ok(proxy) => proxy,
            Err(failure) => {
                return Err(OnlyFansBuilderError::from(failure));
            },
        };

        proof {
            lemma_defaults_keep_accept(
                user_agent@,
                xbc@,
                auth_id@,
                text_of(two_factor),
                session@,
            );
        }
        let (proxied, direct) = Self::transport_builders(default_headers, proxy);
        let internal = direct.build();
        let client = proxied.build();

        let session = Session::new(user_agent, xbc, auth_id, two_factor, session);

        Creator::from_transports(session, client, internal, sig_svc)
    }

    /// Configures the two transports of a client: the proxied one, which
    /// goes through the given proxy and is restricted to HTTP/1, and the
    /// direct one, which has neither. Both get the same default headers.
    pub fn transport_builders(default_headers: HeaderMap, proxy: Proxy) -> (builders: (
        ClientBuilder,
        ClientBuilder,
    ))
        requires
            header_map_contents(default_headers).dom().finite(),
            header_map_contents(default_headers).dom().len() < 4095,
        ensures
            builder_default_headers(builders.0) == with_default_headers(
                initial_default_headers(),
                header_map_contents(default_headers),
            ),
            builder_default_headers(builders.1) == builder_default_headers(builders.0),
            builder_proxies(builders.0) == seq![proxy],
            builder_proxies(builders.1) == Seq::<Proxy>::empty(),
            builder_http1_only(builders.0),
            !builder_http1_only(builders.1),
    {
        let direct = ClientBuilder::new().default_headers(clone_headers(&default_headers));
        let proxied = ClientBuilder::new()
            .default_headers(default_headers)
            .proxy(proxy)
            .http1_only();
        (proxied, direct)
    }

    /// Sets the user agent.
    pub fn user_agent(self, user_agent: &str) -> (builder: Self)
        ensures
            builder@ == (Fragments { user_agent: Some(user_agent@), ..self@ }),
    {
        let mut builder = self;
        builder.user_agent = Some(user_agent.to_owned());
        builder
    }

    /// Sets the account id.
    pub fn auth_id(self, auth_id: &str) -> (builder: Self)
        ensures
            builder@ == (Fragments { auth_id: Some(auth_id@), ..self@ }),
    {
        let mut builder = self;
        builder.auth_id = Some(auth_id.to_owned());
        builder
    }

    /// Sets the browser-check token.
    pub fn xbc(self, xbc: &str) -> (builder: Self)
        ensures
            builder@ == (Fragments { xbc: Some(xbc@), ..self@ }),
    {
        let mut builder = self;
        builder.xbc = Some(xbc.to_owned());
        builder
    }

    /// Sets the two-factor token.
    pub fn two_factor(self, two_factor: &str) -> (builder: Self)
        ensures
            builder@ == (Fragments { two_factor: Some(two_factor@), ..self@ }),
    {
        let mut builder = self;
        builder.two_factor = Some(two_factor.to_owned());
        builder
    }

    /// Sets the session token.
    pub fn session(self, session: &str) -> (builder: Self)
        ensures
            builder@ == (Fragments { session: Some(session@), ..self@ }),
    {
        let mut builder = self;
        builder.session = Some(session.to_owned());
        builder
    }

    /// Sets the proxy address.
    pub fn proxy(self, proxy: &str) -> (builder: Self)
        ensures
            builder@ == (Fragments { proxy: Some(proxy@), ..self@ }),
    {
        let mut builder = self;
        builder.proxy = Some(proxy.to_owned());
        builder
    }

    /// Sets the signing service.
    pub fn sig_svc(self, svc: Arc<SignatureService>) -> (builder: Self)
        ensures
            builder@ == (Fragments { sig_svc: *svc, ..self@ }),
    {
        let mut builder = self;
        builder.sig_svc = svc;
        builder
    }
}

/// A required fragment that is not set is reported by its own error, and
/// the first one in the order user agent, browser-check token, account id,
/// session token, proxy address decides. No handle is returned.
pub proof fn lemma_missing_fragment_reported(
    fragments: Fragments,
    outcome: Result<Creator, OnlyFansBuilderError>,
)
    requires
        fragments.yields(outcome),
    ensures
        fragments.user_agent is None ==> outcome matches Err(
            OnlyFansBuilderError::MissingUserAgent,
        ),
        fragments.user_agent is Some && fragments.xbc is None ==> outcome matches Err(
            OnlyFansBuilderError::MissingXBC,
        ),
        fragments.user_agent is Some && fragments.xbc is Some && fragments.auth_id is None
            ==> outcome matches Err(OnlyFansBuilderError::MissingAuthID),
        fragments.user_agent is Some && fragments.xbc is Some && fragments.auth_id is Some
            && fragments.session is None ==> outcome matches Err(
            OnlyFansBuilderError::MissingSession,
        ),
        fragments.user_agent is Some && fragments.xbc is Some && fragments.auth_id is Some
            && fragments.session is Some && fragments.proxy is None ==> outcome matches Err(
            OnlyFansBuilderError::MissingProxy,
        ),
        outcome is Ok ==> fragments.missing() is None,
{
}

/// With every required fragment set, a fragment with a byte that no
/// header value can hold makes the build fail with `HeaderValue`.
pub proof fn lemma_illegal_fragment_reported(
    fragments: Fragments,
    outcome: Result<Creator, OnlyFansBuilderError>,
)
    requires
        fragments.yields(outcome),
        fragments.missing() is None,
        ({
            ||| !value_bytes_allowed(encode_utf8(fragments.user_agent->0))
            ||| !value_bytes_allowed(encode_utf8(fragments.xbc->0))
            ||| !value_bytes_allowed(encode_utf8(fragments.auth_id->0))
            ||| !value_bytes_allowed(encode_utf8(fragments.session->0))
            ||| (fragments.two_factor matches Some(token) && !value_bytes_allowed(
                encode_utf8(token),
            ))
        }),
    ensures
        outcome matches Err(OnlyFansBuilderError::HeaderValue(_)),
{
    lemma_text_allowed_bytes(fragments.user_agent->0);
    lemma_text_allowed_bytes(fragments.xbc->0);
    lemma_text_allowed_bytes(fragments.auth_id->0);
    lemma_text_allowed_bytes(fragments.session->0);
    if let Some(token) = fragments.two_factor {
        lemma_text_allowed_bytes(token);
    }
}

/// Setting the assembled headers on a fresh transport keeps the header
/// `accept: */*` that the transport starts with and adds each assembled
/// header with its one value.
pub proof fn lemma_defaults_keep_accept(
    user_agent: Seq<char>,
    xbc: Seq<char>,
    auth_id: Seq<char>,
    two_factor: Option<Seq<char>>,
    session: Seq<char>,
)
    ensures
        with_default_headers(
            initial_default_headers(),
            assembled_headers(user_agent, xbc, auth_id, two_factor, session),
        ) == assembled_headers(user_agent, xbc, auth_id, two_factor, session).insert(
            "accept"@,
            seq![encode_utf8("*/*"@)],
        ),
{
    let assembled = assembled_headers(user_agent, xbc, auth_id, two_factor, session);
    let carried = with_default_headers(initial_default_headers(), assembled);
    let expected = assembled.insert("accept"@, seq![encode_utf8("*/*"@)]);
    lemma_assembled_entries(user_agent, xbc, auth_id, two_factor, session);
    lemma_accept_not_assembled(user_agent, xbc, auth_id, two_factor, session);
    assert forall|name: Seq<char>| carried.contains_key(name) implies carried[name]
        == expected[name] by {
        if assembled.contains_key(name) {
            assert(seq![assembled[name].last()] =~= assembled[name]);
        }
    }
    assert(carried =~= expected);
}

/// The two transports of a built handle carry the same default headers:
/// the assembled headers and the header `accept: */*`. They differ in the
/// proxy: the proxied transport has the one made of the proxy address, the
/// direct transport has none.
pub proof fn lemma_transports_share_headers(
    fragments: Fragments,
    outcome: Result<Creator, OnlyFansBuilderError>,
)
    requires
        fragments.yields(outcome),
        outcome is Ok,
    ensures
        client_default_headers(outcome->Ok_0@.client) == client_default_headers(
            outcome->Ok_0@.internal,
        ),
        client_default_headers(outcome->Ok_0@.client) == fragments.headers().insert(
            "accept"@,
            seq![encode_utf8("*/*"@)],
        ),
        http_proxy_of(fragments.proxy->0) is Some,
        client_proxies(outcome->Ok_0@.client) == seq![http_proxy_of(fragments.proxy->0)->0],
        client_proxies(outcome->Ok_0@.internal).len() == 0,
{
}

/// Two builds that both succeed, from fragments that agree on whatever
/// goes into headers, give handles with the same credentials whose four
/// transports all carry the same default headers.
pub proof fn lemma_build_repeatable(
    fragments: Fragments,
    again: Fragments,
    first: Result<Creator, OnlyFansBuilderError>,
    second: Result<Creator, OnlyFansBuilderError>,
)
    requires
        fragments.yields(first),
        again.yields(second),
        first is Ok,
        second is Ok,
        fragments.user_agent == again.user_agent,
        fragments.xbc == again.xbc,
        fragments.auth_id == again.auth_id,
        fragments.two_factor == again.two_factor,
        fragments.session == again.session,
    ensures
        first->Ok_0@.session == second->Ok_0@.session,
        client_default_headers(first->Ok_0@.client) == client_default_headers(
            second->Ok_0@.client,
        ),
        client_default_headers(first->Ok_0@.internal) == client_default_headers(
            second->Ok_0@.internal,
        ),
        client_default_headers(first->Ok_0@.client) == client_default_headers(
            second->Ok_0@.internal,
        ),
{
}

} // verus!
