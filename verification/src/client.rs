//! The client handle that a successful build returns.

use crate::error::OnlyFansBuilderError;
use crate::session::{Session, SessionView, SignatureService};
use reqwest::Client;
use std::sync::Arc;
use vstd::prelude::*;

verus! {

/// A session with its two transports and the signing service. The handle
/// is made once and never changes.
#[derive(Debug)]
pub struct Creator {
    session: Session,
    client: Client,
    internal: Client,
    sig_svc: Arc<SignatureService>,
}

/// What a client handle holds.
pub struct CreatorView {
    /// The credentials.
    pub session: SessionView,
    /// The transport that goes through the proxy.
    pub client: Client,
    /// The direct transport.
    pub internal: Client,
    /// The signing service.
    pub sig_svc: SignatureService,
}

impl View for Creator {
    type V = CreatorView;

    closed spec fn view(&self) -> CreatorView {
        CreatorView {
            session: self.session@,
            client: self.client,
            internal: self.internal,
            sig_svc: *self.sig_svc,
        }
    }
}

/// What `Creator::from_transports` returns: the first transport error,
/// the direct transport's before the proxied one's, or else the handle.
pub open spec fn transports_yield(
    session: SessionView,
    client: Result<Client, reqwest::Error>,
    internal: Result<Client, reqwest::Error>,
    sig_svc: SignatureService,
    outcome: Result<Creator, OnlyFansBuilderError>,
) -> bool {
    match internal {
        Err(failure) => outcome matches Err(OnlyFansBuilderError::Http(source)) && source
            == failure,
        Ok(direct) => match client {
            Err(failure) => outcome matches Err(OnlyFansBuilderError::Http(source)) && source
                == failure,
            Ok(proxied) => outcome matches Ok(creator) && creator@ == (CreatorView {
                session,
                client: proxied,
                internal: direct,
                sig_svc,
            }),
        },
    }
}

impl Creator {
    /// Bundles a session, its proxied and its direct transport and the
    /// signing service.
    pub fn new(
        session: Session,
        client: Client,
        internal: Client,
        sig_svc: Arc<SignatureService>,
    ) -> (creator: Creator)
        ensures
            creator@.session == session@,
            creator@.client == client,
            creator@.internal == internal,
            creator@.sig_svc == *sig_svc,
    {
        Creator { session, client, internal, sig_svc }
    }

    /// Finishes a build from the outcomes of constructing the two
    /// transports: a handle if both were constructed, else the error of the
    /// one that was not.
    pub fn from_transports(
        session: Session,
        client: Result<Client, reqwest::Error>,
        internal: Result<Client, reqwest::Error>,
        sig_svc: Arc<SignatureService>,
    ) -> (outcome: Result<Creator, OnlyFansBuilderError>)
        ensures
            transports_yield(session@, client, internal, *sig_svc, outcome),
    {
        let internal = match internal {
            Ok(direct) => direct,
            Err(failure) => {
                return Err(OnlyFansBuilderError::from(failure));
            },
        };
        let client = match client {
            Ok(proxied) => proxied,
            Err(failure) => {
                return Err(OnlyFansBuilderError::from(failure));
            },
        };
        Ok(Creator::new(session, client, internal, sig_svc))
    }

    /// The credentials.
    pub fn session(&self) -> (session: &Session)
        ensures
            session@ == self@.session,
    {
        &self.session
    }

    /// The transport that goes through the proxy.
    pub fn client(&self) -> (client: &Client)
        ensures
            *client == self@.client,
    {
        &self.client
    }

    /// The direct transport.
    pub fn internal(&self) -> (internal: &Client)
        ensures
            *internal == self@.internal,
    {
        &self.internal
    }

    /// The signing service.
    pub fn sig_svc(&self) -> (sig_svc: &Arc<SignatureService>)
        ensures
            **sig_svc == self@.sig_svc,
    {
        &self.sig_svc
    }
}

} // verus!
