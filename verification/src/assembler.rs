//! Assembly of the default headers from credential fragments.

use crate::builder::CreatorBuilder;
use crate::constants::{APP_TOKEN_HEADER, APP_TOKEN_VALUE, USER_ID_HEADER, XBC_HEADER};
use crate::cookie::{cookie_text, cookie_value, lemma_cookie_allowed};
use crate::encoding::{lemma_text_allowed_bytes, text_allowed, text_of};
use crate::error::OnlyFansBuilderError;
use crate::header::{
    append_header, cookie_name, header_map_contents, plain_name, user_agent_name,
    value_bytes_allowed, visible_bytes, HeaderContents,
};
use reqwest::header::{HeaderMap, HeaderName, HeaderValue};
use vstd::prelude::*;
use vstd::utf8::{encode_utf8, is_ascii_chars, is_ascii_chars_encode_utf8};

verus! {

/// The fragments that go into headers can all be sent as header values.
pub open spec fn fragments_allowed(
    user_agent: Seq<char>,
    xbc: Seq<char>,
    auth_id: Seq<char>,
    two_factor: Option<Seq<char>>,
    session: Seq<char>,
) -> bool {
    &&& text_allowed(user_agent)
    &&& text_allowed(xbc)
    &&& text_allowed(auth_id)
    &&& text_allowed(session)
    &&& (two_factor matches Some(token) ==> text_allowed(token))
}

/// The default headers for the given fragments: the application token,
/// the user agent, the browser-check token, the account id and the cookie,
/// one value each.
pub open spec fn assembled_headers(
    user_agent: Seq<char>,
    xbc: Seq<char>,
    auth_id: Seq<char>,
    two_factor: Option<Seq<char>>,
    session: Seq<char>,
) -> HeaderContents {
    HeaderContents::empty()
        .insert(APP_TOKEN_HEADER@, seq![encode_utf8(APP_TOKEN_VALUE@)])
        .insert("user-agent"@, seq![encode_utf8(user_agent)])
        .insert(XBC_HEADER@, seq![encode_utf8(xbc)])
        .insert(USER_ID_HEADER@, seq![encode_utf8(auth_id)])
        .insert("cookie"@, seq![encode_utf8(cookie_text(session, auth_id, two_factor))])
}

/// What `build_headers` may return for the given fragments: the assembled
/// headers if every fragment can be sent, else the error `HeaderValue`.
pub open spec fn assembles_to(
    user_agent: Seq<char>,
    xbc: Seq<char>,
    auth_id: Seq<char>,
    two_factor: Option<Seq<char>>,
    session: Seq<char>,
    outcome: Result<HeaderMap, OnlyFansBuilderError>,
) -> bool {
    if fragments_allowed(user_agent, xbc, auth_id, two_factor, session) {
        outcome matches Ok(headers) && header_map_contents(headers) == assembled_headers(
            user_agent,
            xbc,
            auth_id,
            two_factor,
            session,
        )
    } else {
        outcome matches Err(OnlyFansBuilderError::HeaderValue(_))
    }
}

/// The fixed header names are well formed and differ from one another, and
/// the application token is visible ASCII.
proof fn lemma_constants()
    ensures
        plain_name(encode_utf8(APP_TOKEN_HEADER@)),
        plain_name(encode_utf8(XBC_HEADER@)),
        plain_name(encode_utf8(USER_ID_HEADER@)),
        visible_bytes(encode_utf8(APP_TOKEN_VALUE@)),
        APP_TOKEN_HEADER@.len() == 9,
        "user-agent"@.len() == 10,
        XBC_HEADER@.len() == 4,
        USER_ID_HEADER@.len() == 7,
        "cookie"@.len() == 6,
{
    reveal_strlit("app-token");
    reveal_strlit("33d57ade8c02dbc5a333db99ff9ae26a");
    reveal_strlit("x-bc");
    reveal_strlit("user-id");
    reveal_strlit("user-agent");
    reveal_strlit("cookie");
    assert(is_ascii_chars(APP_TOKEN_HEADER@));
    assert(is_ascii_chars(APP_TOKEN_VALUE@));
    assert(is_ascii_chars(XBC_HEADER@));
    assert(is_ascii_chars(USER_ID_HEADER@));
    is_ascii_chars_encode_utf8(APP_TOKEN_HEADER@);
    is_ascii_chars_encode_utf8(APP_TOKEN_VALUE@);
    is_ascii_chars_encode_utf8(XBC_HEADER@);
    is_ascii_chars_encode_utf8(USER_ID_HEADER@);
}

impl CreatorBuilder {
    /// Assembles the default headers from the fragments.
    ///
    /// Fails with `HeaderValue` exactly when a fragment holds a character
    /// that no header value can hold. Otherwise the map holds the
    /// application token, the user agent, the browser-check token, the
    /// account id and the cookie, and nothing else.
    pub fn build_headers(
        user_agent: &str,
        xbc: &str,
        auth_id: &str,
        two_factor: Option<String>,
        session: &str,
    ) -> (outcome: Result<HeaderMap, OnlyFansBuilderError>)
        ensures
            assembles_to(user_agent@, xbc@, auth_id@, text_of(two_factor), session@, outcome),
    {
        proof {
            lemma_constants();
            lemma_text_allowed_bytes(user_agent@);
            lemma_text_allowed_bytes(xbc@);
            lemma_text_allowed_bytes(auth_id@);
            lemma_text_allowed_bytes(cookie_text(session@, auth_id@, text_of(two_factor)));
            lemma_cookie_allowed(session@, auth_id@, text_of(two_factor));
        }
        let mut headers = HeaderMap::new();

        append_header(
            &mut headers,
            HeaderName::from_static(APP_TOKEN_HEADER),
            HeaderValue::from_static(APP_TOKEN_VALUE),
        );
        let user_agent_value = match HeaderValue::from_str(user_agent) {
            Ok(value) => value,
            Err(invalid) => {
                return Err(OnlyFansBuilderError::from(invalid));
            },
        };
        append_header(&mut headers, user_agent_name(), user_agent_value);
        let xbc_value = match HeaderValue::from_str(xbc) {
            Ok(value) => value,
            Err(invalid) => {
                return Err(OnlyFansBuilderError::from(invalid));
            },
        };
        append_header(&mut headers, HeaderName::from_static(XBC_HEADER), xbc_value);
        let auth_id_value = match HeaderValue::from_str(auth_id) {
            Ok(value) => value,
            Err(invalid) => {
                return Err(OnlyFansBuilderError::from(invalid));
            },
        };
        append_header(&mut headers, HeaderName::from_static(USER_ID_HEADER), auth_id_value);

        let cookies = cookie_value(session, auth_id, &two_factor);
        let cookie = match HeaderValue::from_str(cookies.as_str()) {
            Ok(value) => value,
            Err(invalid) => {
                return Err(OnlyFansBuilderError::from(invalid));
            },
        };
        append_header(&mut headers, cookie_name(), cookie);

        Ok(headers)
    }
}

/// The assembled headers hold exactly five names, each with one value: the
/// application token, the user agent, the browser-check token, the account
/// id and the cookie.
pub proof fn lemma_assembled_entries(
    user_agent: Seq<char>,
    xbc: Seq<char>,
    auth_id: Seq<char>,
    two_factor: Option<Seq<char>>,
    session: Seq<char>,
)
    ensures
        ({
            let headers = assembled_headers(user_agent, xbc, auth_id, two_factor, session);
            &&& headers.dom() =~= set![
                APP_TOKEN_HEADER@,
                "user-agent"@,
                XBC_HEADER@,
                USER_ID_HEADER@,
                "cookie"@,
            ]
            &&& headers.dom().finite()
            &&& headers.dom().len() == 5
            &&& headers[APP_TOKEN_HEADER@] == seq![encode_utf8(APP_TOKEN_VALUE@)]
            &&& headers["user-agent"@] == seq![encode_utf8(user_agent)]
            &&& headers[XBC_HEADER@] == seq![encode_utf8(xbc)]
            &&& headers[USER_ID_HEADER@] == seq![encode_utf8(auth_id)]
            &&& headers["cookie"@] == seq![encode_utf8(cookie_text(session, auth_id, two_factor))]
        }),
{
    lemma_constants();
}

/// The assembled headers hold nothing under `accept`, the one name that a
/// transport sets by itself.
pub proof fn lemma_accept_not_assembled(
    user_agent: Seq<char>,
    xbc: Seq<char>,
    auth_id: Seq<char>,
    two_factor: Option<Seq<char>>,
    session: Seq<char>,
)
    ensures
        !assembled_headers(user_agent, xbc, auth_id, two_factor, session).contains_key("accept"@),
{
    lemma_constants();
    reveal_strlit("accept");
    reveal_strlit("cookie");
    assert("accept"@[0] != "cookie"@[0]);
}

/// Fragments without two-factor material that can all be sent assemble
/// to exactly the application token, the user agent, the browser-check
/// token, the account id and the cookie `sess=<session>;auth_id=<auth_id>;`.
pub proof fn lemma_headers_without_two_factor(
    user_agent: Seq<char>,
    xbc: Seq<char>,
    auth_id: Seq<char>,
    session: Seq<char>,
    outcome: Result<HeaderMap, OnlyFansBuilderError>,
)
    requires
        fragments_allowed(user_agent, xbc, auth_id, None, session),
        assembles_to(user_agent, xbc, auth_id, None, session, outcome),
    ensures
        outcome is Ok,
        ({
            let headers = header_map_contents(outcome->Ok_0);
            &&& headers.dom() =~= set![
                APP_TOKEN_HEADER@,
                "user-agent"@,
                XBC_HEADER@,
                USER_ID_HEADER@,
                "cookie"@,
            ]
            &&& headers[APP_TOKEN_HEADER@] == seq![encode_utf8(APP_TOKEN_VALUE@)]
            &&& headers["user-agent"@] == seq![encode_utf8(user_agent)]
            &&& headers[XBC_HEADER@] == seq![encode_utf8(xbc)]
            &&& headers[USER_ID_HEADER@] == seq![encode_utf8(auth_id)]
            &&& headers["cookie"@] == seq![
                encode_utf8("sess="@ + session + ";auth_id="@ + auth_id + ";"@),
            ]
        }),
{
    lemma_assembled_entries(user_agent, xbc, auth_id, None, session);
}

/// Fragments with two-factor material that can all be sent assemble to
/// the same five headers, with the cookie
/// `sess=<session>;auth_id=<auth_id>;two_factor=<token>;`.
pub proof fn lemma_headers_with_two_factor(
    user_agent: Seq<char>,
    xbc: Seq<char>,
    auth_id: Seq<char>,
    token: Seq<char>,
    session: Seq<char>,
    outcome: Result<HeaderMap, OnlyFansBuilderError>,
)
    requires
        fragments_allowed(user_agent, xbc, auth_id, Some(token), session),
        assembles_to(user_agent, xbc, auth_id, Some(token), session, outcome),
    ensures
        outcome is Ok,
        ({
            let headers = header_map_contents(outcome->Ok_0);
            &&& headers.dom() =~= set![
                APP_TOKEN_HEADER@,
                "user-agent"@,
                XBC_HEADER@,
                USER_ID_HEADER@,
                "cookie"@,
            ]
            &&& headers[APP_TOKEN_HEADER@] == seq![encode_utf8(APP_TOKEN_VALUE@)]
            &&& headers["user-agent"@] == seq![encode_utf8(user_agent)]
            &&& headers[XBC_HEADER@] == seq![encode_utf8(xbc)]
            &&& headers[USER_ID_HEADER@] == seq![encode_utf8(auth_id)]
            &&& headers["cookie"@] == seq![
                encode_utf8(
                    "sess="@ + session + ";auth_id="@ + auth_id + ";two_factor="@ + token + ";"@,
                ),
            ]
        }),
{
    lemma_assembled_entries(user_agent, xbc, auth_id, Some(token), session);
}

/// A fragment with a byte that no header value can hold makes the
/// assembly fail with `HeaderValue`; no headers are returned.
pub proof fn lemma_illegal_byte_refused(
    user_agent: Seq<char>,
    xbc: Seq<char>,
    auth_id: Seq<char>,
    two_factor: Option<Seq<char>>,
    session: Seq<char>,
    outcome: Result<HeaderMap, OnlyFansBuilderError>,
)
    requires
        assembles_to(user_agent, xbc, auth_id, two_factor, session, outcome),
        ({
            ||| !value_bytes_allowed(encode_utf8(user_agent))
            ||| !value_bytes_allowed(encode_utf8(xbc))
            ||| !value_bytes_allowed(encode_utf8(auth_id))
            ||| !value_bytes_allowed(encode_utf8(session))
            ||| (two_factor matches Some(token) && !value_bytes_allowed(encode_utf8(token)))
        }),
    ensures
        outcome matches Err(OnlyFansBuilderError::HeaderValue(_)),
{
    lemma_text_allowed_bytes(user_agent);
    lemma_text_allowed_bytes(xbc);
    lemma_text_allowed_bytes(auth_id);
    lemma_text_allowed_bytes(session);
    if let Some(token) = two_factor {
        lemma_text_allowed_bytes(token);
    }
}

/// Assembling the same fragments twice gives the same outcome: two
/// failures, or two header maps that hold the same values under the same
/// names.
pub proof fn lemma_assembly_repeatable(
    user_agent: Seq<char>,
    xbc: Seq<char>,
    auth_id: Seq<char>,
    two_factor: Option<Seq<char>>,
    session: Seq<char>,
    first: Result<HeaderMap, OnlyFansBuilderError>,
    second: Result<HeaderMap, OnlyFansBuilderError>,
)
    requires
        assembles_to(user_agent, xbc, auth_id, two_factor, session, first),
        assembles_to(user_agent, xbc, auth_id, two_factor, session, second),
    ensures
        first is Ok <==> second is Ok,
        first is Ok ==> header_map_contents(first->Ok_0) == header_map_contents(second->Ok_0),
{
}

} // verus!
