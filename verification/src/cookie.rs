//! The cookie header.
//!
//! The cookie is a run of `key=value;` fields in a fixed order: `sess`,
//! `auth_id` and, only with two-factor material, `two_factor`. Every field
//! ends in a semicolon, the last one too.

use crate::encoding::{lemma_text_allowed_concat, text_allowed, text_of};
use vstd::prelude::*;

verus! {

/// The cookie without two-factor material: `sess=<session>;auth_id=<auth_id>;`.
pub open spec fn cookie_plain(session: Seq<char>, auth_id: Seq<char>) -> Seq<char> {
    "sess="@ + session + ";auth_id="@ + auth_id + ";"@
}

/// The cookie with two-factor material:
/// `sess=<session>;auth_id=<auth_id>;two_factor=<token>;`.
pub open spec fn cookie_two_factor(
    session: Seq<char>,
    auth_id: Seq<char>,
    token: Seq<char>,
) -> Seq<char> {
    "sess="@ + session + ";auth_id="@ + auth_id + ";two_factor="@ + token + ";"@
}

/// The cookie for the given fragments.
pub open spec fn cookie_text(
    session: Seq<char>,
    auth_id: Seq<char>,
    two_factor: Option<Seq<char>>,
) -> Seq<char> {
    match two_factor {
        Some(token) => cookie_two_factor(session, auth_id, token),
        None => cookie_plain(session, auth_id),
    }
}

/// The fixed parts of the cookie hold only characters that a header value
/// may hold.
proof fn lemma_fixed_parts_allowed()
    ensures
        text_allowed("sess="@),
        text_allowed(";auth_id="@),
        text_allowed(";two_factor="@),
        text_allowed(";"@),
{
    reveal_strlit("sess=");
    reveal_strlit(";auth_id=");
    reveal_strlit(";two_factor=");
    reveal_strlit(";");
}

/// The cookie can be sent exactly when the session token, the account id
/// and, where present, the two-factor token can.
pub proof fn lemma_cookie_allowed(
    session: Seq<char>,
    auth_id: Seq<char>,
    two_factor: Option<Seq<char>>,
)
    ensures
        text_allowed(cookie_text(session, auth_id, two_factor)) <==> ({
            &&& text_allowed(session)
            &&& text_allowed(auth_id)
            &&& (two_factor matches Some(token) ==> text_allowed(token))
        }),
{
    lemma_fixed_parts_allowed();
    let a = "sess="@ + session;
    let b = a + ";auth_id="@;
    let c = b + auth_id;
    lemma_text_allowed_concat("sess="@, session);
    lemma_text_allowed_concat(a, ";auth_id="@);
    lemma_text_allowed_concat(b, auth_id);
    match two_factor {
        Some(token) => {
            let d = c + ";two_factor="@;
            let e = d + token;
            lemma_text_allowed_concat(c, ";two_factor="@);
            lemma_text_allowed_concat(d, token);
            lemma_text_allowed_concat(e, ";"@);
        },
        None => {
            lemma_text_allowed_concat(c, ";"@);
        },
    }
}

/// The cookie with two-factor material is the cookie without it, followed
/// by the field `two_factor=<token>;`.
pub proof fn lemma_two_factor_field_follows(
    session: Seq<char>,
    auth_id: Seq<char>,
    token: Seq<char>,
)
    ensures
        cookie_two_factor(session, auth_id, token) == cookie_plain(session, auth_id)
            + "two_factor="@ + token + ";"@,
{
    reveal_strlit(";");
    reveal_strlit("two_factor=");
    reveal_strlit(";two_factor=");
    assert(";two_factor="@ =~= ";"@ + "two_factor="@);
    assert(cookie_two_factor(session, auth_id, token) =~= cookie_plain(session, auth_id)
        + "two_factor="@ + token + ";"@);
}

/// Writes the cookie for the given fragments.
pub fn cookie_value(session: &str, auth_id: &str, two_factor: &Option<String>) -> (cookie: String)
    ensures
        cookie@ == cookie_text(session@, auth_id@, text_of(*two_factor)),
{
    match two_factor {
        Some(token) => {
            let mut cookie = String::from_str("sess=");
            cookie.append(session);
            cookie.append(";auth_id=");
            cookie.append(auth_id);
            cookie.append(";two_factor=");
            cookie.append(token.as_str());
            cookie.append(";");
            cookie
        },
        None => {
            let mut cookie = String::from_str("sess=");
            cookie.append(session);
            cookie.append(";auth_id=");
            cookie.append(auth_id);
            cookie.append(";");
            cookie
        },
    }
}

} // verus!
