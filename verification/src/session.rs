//! The credentials of a built client.

use crate::encoding::text_of;
use vstd::prelude::*;

verus! {

/// Handle to the service that signs requests. Signing is done elsewhere;
/// the handle is stored and passed on as it is.
#[derive(Debug)]
pub struct SignatureService {
    /// Tells one signing service from another.
    pub id: u64,
}

impl Default for SignatureService {
    fn default() -> (service: Self)
        ensures
            service.id == 0,
    {
        SignatureService { id: 0 }
    }
}

/// The validated credentials of a client. A session is made once and
/// never changes.
#[derive(Debug)]
pub struct Session {
    user_agent: String,
    xbc: String,
    auth_id: String,
    two_factor: Option<String>,
    session: String,
}

/// What a session holds.
pub struct SessionView {
    pub user_agent: Seq<char>,
    pub xbc: Seq<char>,
    pub auth_id: Seq<char>,
    pub two_factor: Option<Seq<char>>,
    pub session: Seq<char>,
}

impl View for Session {
    type V = SessionView;

    closed spec fn view(&self) -> SessionView {
        SessionView {
            user_agent: self.user_agent@,
            xbc: self.xbc@,
            auth_id: self.auth_id@,
            two_factor: text_of(self.two_factor),
            session: self.session@,
        }
    }
}

impl Session {
    /// Makes a session of the given credentials.
    pub fn new(
        user_agent: String,
        xbc: String,
        auth_id: String,
        two_factor: Option<String>,
        session: String,
    ) -> (made: Session)
        ensures
            made@.user_agent == user_agent@,
            made@.xbc == xbc@,
            made@.auth_id == auth_id@,
            made@.two_factor == text_of(two_factor),
            made@.session == session@,
    {
        Session { user_agent, xbc, auth_id, two_factor, session }
    }

    /// The user agent.
    pub fn user_agent(&self) -> (text: &str)
        ensures
            text@ == self@.user_agent,
    {
        self.user_agent.as_str()
    }

    /// The browser-check token.
    pub fn xbc(&self) -> (text: &str)
        ensures
            text@ == self@.xbc,
    {
        self.xbc.as_str()
    }

    /// The account id.
    pub fn auth_id(&self) -> (text: &str)
        ensures
            text@ == self@.auth_id,
    {
        self.auth_id.as_str()
    }

    /// The two-factor token, if there is one.
    pub fn two_factor(&self) -> (text: Option<&str>)
        ensures
            text is Some == self@.two_factor is Some,
            text matches Some(token) ==> token@ == self@.two_factor->0,
    {
        match &self.two_factor {
            Some(token) => Some(token.as_str()),
            None => None,
        }
    }

    /// The session token.
    pub fn session(&self) -> (text: &str)
        ensures
            text@ == self@.session,
    {
        self.session.as_str()
    }
}

} // verus!
