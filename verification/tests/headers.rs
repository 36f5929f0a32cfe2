use creator_client::builder::CreatorBuilder;
use creator_client::constants::{APP_TOKEN_HEADER, APP_TOKEN_VALUE, USER_ID_HEADER, XBC_HEADER};
use creator_client::cookie::cookie_value;
use creator_client::error::OnlyFansBuilderError;
use reqwest::header::HeaderMap;

fn text<'a>(headers: &'a HeaderMap, name: &str) -> &'a str {
    headers.get(name).expect("header is set").to_str().expect("header is text")
}

fn values(headers: &HeaderMap, name: &str) -> usize {
    headers.get_all(name).iter().count()
}

#[test]
fn headers_without_two_factor_are_the_five_expected() {
    let headers =
        CreatorBuilder::build_headers("UA/1", "xbc1", "acct1", None, "sess1").expect("valid");

    assert_eq!(headers.keys_len(), 5);
    assert_eq!(headers.len(), 5);
    assert_eq!(text(&headers, "app-token"), "33d57ade8c02dbc5a333db99ff9ae26a");
    assert_eq!(text(&headers, "user-agent"), "UA/1");
    assert_eq!(text(&headers, "x-bc"), "xbc1");
    assert_eq!(text(&headers, "user-id"), "acct1");
    assert_eq!(text(&headers, "cookie"), "sess=sess1;auth_id=acct1;");
    for name in ["app-token", "user-agent", "x-bc", "user-id", "cookie"] {
        assert_eq!(values(&headers, name), 1, "{}", name);
    }
}

#[test]
fn headers_with_two_factor_have_the_long_cookie() {
    let headers = CreatorBuilder::build_headers(
        "UA/1",
        "xbc1",
        "acct1",
        Some("tf1".to_string()),
        "sess1",
    )
    .expect("valid");

    assert_eq!(headers.keys_len(), 5);
    assert_eq!(headers.len(), 5);
    assert_eq!(text(&headers, "app-token"), "33d57ade8c02dbc5a333db99ff9ae26a");
    assert_eq!(text(&headers, "user-agent"), "UA/1");
    assert_eq!(text(&headers, "x-bc"), "xbc1");
    assert_eq!(text(&headers, "user-id"), "acct1");
    assert_eq!(text(&headers, "cookie"), "sess=sess1;auth_id=acct1;two_factor=tf1;");
}

#[test]
fn headers_use_the_fixed_names_and_the_standard_ones() {
    let user_agent = "Mozilla/5.0 (X11; Linux x86_64; rv:109.0) Gecko/20100101 Firefox/113.0";
    let headers =
        CreatorBuilder::build_headers(user_agent, "*", "*", Some("*".to_string()), "*")
            .expect("Failed to build headers");

    for name in [
        reqwest::header::USER_AGENT.as_str(),
        reqwest::header::COOKIE.as_str(),
        APP_TOKEN_HEADER,
        XBC_HEADER,
        USER_ID_HEADER,
    ] {
        assert!(headers.contains_key(name), "{} wasn't set", name);
    }
    assert_eq!(headers.get(reqwest::header::USER_AGENT).unwrap(), user_agent);
    assert_eq!(headers.get(APP_TOKEN_HEADER).unwrap(), APP_TOKEN_VALUE);
    assert_eq!(text(&headers, "cookie"), "sess=*;auth_id=*;two_factor=*;");
    assert!(!headers.contains_key(reqwest::header::ACCEPT));
}

#[test]
fn fixed_names_and_token_have_their_values() {
    assert_eq!(APP_TOKEN_HEADER, "app-token");
    assert_eq!(APP_TOKEN_VALUE, "33d57ade8c02dbc5a333db99ff9ae26a");
    assert_eq!(XBC_HEADER, "x-bc");
    assert_eq!(USER_ID_HEADER, "user-id");
}

#[test]
fn empty_fragments_are_sent_as_they_are() {
    let headers = CreatorBuilder::build_headers("", "", "", None, "").expect("valid");

    assert_eq!(headers.keys_len(), 5);
    assert_eq!(text(&headers, "user-agent"), "");
    assert_eq!(text(&headers, "x-bc"), "");
    assert_eq!(text(&headers, "user-id"), "");
    assert_eq!(text(&headers, "cookie"), "sess=;auth_id=;");
}

#[test]
fn empty_two_factor_token_still_gets_its_field() {
    let headers =
        CreatorBuilder::build_headers("ua", "x", "a", Some(String::new()), "s").expect("valid");

    assert_eq!(text(&headers, "cookie"), "sess=s;auth_id=a;two_factor=;");
}

#[test]
fn newline_in_user_agent_is_refused() {
    let outcome = CreatorBuilder::build_headers("UA\n1", "xbc1", "acct1", None, "sess1");
    assert!(matches!(outcome, Err(OnlyFansBuilderError::HeaderValue(_))));
}

#[test]
fn newline_in_browser_check_token_is_refused() {
    let outcome = CreatorBuilder::build_headers("UA/1", "xbc\n1", "acct1", None, "sess1");
    assert!(matches!(outcome, Err(OnlyFansBuilderError::HeaderValue(_))));
}

#[test]
fn newline_in_account_id_is_refused() {
    let outcome = CreatorBuilder::build_headers("UA/1", "xbc1", "acct\n1", None, "sess1");
    assert!(matches!(outcome, Err(OnlyFansBuilderError::HeaderValue(_))));
}

#[test]
fn newline_in_session_token_is_refused() {
    let outcome = CreatorBuilder::build_headers("UA/1", "xbc1", "acct1", None, "sess\n1");
    assert!(matches!(outcome, Err(OnlyFansBuilderError::HeaderValue(_))));
}

#[test]
fn newline_in_two_factor_token_is_refused() {
    let outcome = CreatorBuilder::build_headers(
        "UA/1",
        "xbc1",
        "acct1",
        Some("tf\n1".to_string()),
        "sess1",
    );
    assert!(matches!(outcome, Err(OnlyFansBuilderError::HeaderValue(_))));
}

#[test]
fn control_characters_and_del_are_refused() {
    for bad in ["a\u{0}b", "a\rb", "a\u{1f}b", "a\u{7f}b", "\u{1b}"] {
        let outcome = CreatorBuilder::build_headers(bad, "xbc1", "acct1", None, "sess1");
        assert!(matches!(outcome, Err(OnlyFansBuilderError::HeaderValue(_))), "{:?}", bad);
    }
}

#[test]
fn tab_space_and_tilde_are_accepted() {
    let headers =
        CreatorBuilder::build_headers("a\tb c~", "xbc1", "acct1", None, "sess1").expect("valid");
    assert_eq!(text(&headers, "user-agent"), "a\tb c~");
}

#[test]
fn text_beyond_ascii_is_sent_as_utf8() {
    let headers =
        CreatorBuilder::build_headers("Zoë/1", "xbc1", "ac\u{20ac}", None, "s\u{1f600}")
            .expect("valid");

    assert_eq!(headers.get("user-agent").unwrap().as_bytes(), "Zoë/1".as_bytes());
    assert_eq!(headers.get("user-id").unwrap().as_bytes(), "ac\u{20ac}".as_bytes());
    assert_eq!(
        headers.get("cookie").unwrap().as_bytes(),
        "sess=s\u{1f600};auth_id=ac\u{20ac};".as_bytes()
    );
}

#[test]
fn assembling_twice_gives_equal_headers() {
    let first = CreatorBuilder::build_headers("UA/1", "xbc1", "acct1", Some("tf".to_string()), "s")
        .expect("valid");
    let second =
        CreatorBuilder::build_headers("UA/1", "xbc1", "acct1", Some("tf".to_string()), "s")
            .expect("valid");

    assert_eq!(first, second);
    assert_eq!(text(&first, "cookie"), text(&second, "cookie"));
}

#[test]
fn assembling_other_fragments_gives_other_headers() {
    let first = CreatorBuilder::build_headers("UA/1", "xbc1", "acct1", None, "s").expect("valid");
    let second = CreatorBuilder::build_headers("UA/1", "xbc1", "acct1", None, "t").expect("valid");

    assert_ne!(first, second);
}

#[test]
fn cookie_without_two_factor() {
    assert_eq!(cookie_value("sess1", "acct1", &None), "sess=sess1;auth_id=acct1;");
}

#[test]
fn cookie_with_two_factor() {
    assert_eq!(
        cookie_value("sess1", "acct1", &Some("tf1".to_string())),
        "sess=sess1;auth_id=acct1;two_factor=tf1;"
    );
}

#[test]
fn cookie_keeps_separators_inside_fragments() {
    assert_eq!(cookie_value("a;b", "c=d", &None), "sess=a;b;auth_id=c=d;");
}
