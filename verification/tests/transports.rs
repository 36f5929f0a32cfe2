use creator_client::builder::CreatorBuilder;
use creator_client::client::Creator;
use creator_client::error::OnlyFansBuilderError;
use creator_client::session::{Session, SignatureService};
use reqwest::header::{InvalidHeaderName, InvalidHeaderValue};
use std::sync::Arc;

fn session() -> Session {
    Session::new(
        "UA/1".to_string(),
        "xbc1".to_string(),
        "acct1".to_string(),
        Some("tf1".to_string()),
        "sess1".to_string(),
    )
}

fn service() -> Arc<SignatureService> {
    Arc::new(SignatureService { id: 3 })
}

fn transport_error() -> reqwest::Error {
    reqwest::Client::builder().user_agent("bad\nagent").build().expect_err("a bad user agent")
}

fn headers() -> reqwest::header::HeaderMap {
    CreatorBuilder::build_headers("UA/1", "xbc1", "acct1", None, "sess1").expect("valid")
}

fn proxy() -> reqwest::Proxy {
    reqwest::Proxy::http("http://127.0.0.1:8080").expect("a proxy address")
}

fn shared<T: Send + Sync>() {}

#[test]
fn handle_can_be_shared_between_threads() {
    shared::<Creator>();
    shared::<Session>();
    shared::<Arc<SignatureService>>();
}

#[test]
fn session_holds_what_it_was_made_of() {
    let session = session();

    assert_eq!(session.user_agent(), "UA/1");
    assert_eq!(session.xbc(), "xbc1");
    assert_eq!(session.auth_id(), "acct1");
    assert_eq!(session.two_factor(), Some("tf1"));
    assert_eq!(session.session(), "sess1");
}

#[test]
fn session_without_two_factor_has_no_token() {
    let session =
        Session::new("u".to_string(), "x".to_string(), "a".to_string(), None, "s".to_string());

    assert_eq!(session.two_factor(), None);
    assert_eq!(session.user_agent(), "u");
    assert_eq!(session.xbc(), "x");
    assert_eq!(session.auth_id(), "a");
    assert_eq!(session.session(), "s");
}

#[test]
fn default_signing_service_has_id_zero() {
    assert_eq!(SignatureService::default().id, 0);
}

#[test]
fn handle_holds_what_it_was_made_of() {
    let service = service();
    let creator = Creator::new(
        session(),
        reqwest::Client::builder().user_agent("proxied").build().unwrap(),
        reqwest::Client::builder().user_agent("direct").build().unwrap(),
        service.clone(),
    );

    assert_eq!(creator.session().session(), "sess1");
    assert!(format!("{:?}", creator.client()).contains("\"user-agent\": \"proxied\""));
    assert!(format!("{:?}", creator.internal()).contains("\"user-agent\": \"direct\""));
    assert!(Arc::ptr_eq(creator.sig_svc(), &service));
}

#[test]
fn two_transports_make_a_handle() {
    let service = service();
    let creator = Creator::from_transports(
        session(),
        Ok(reqwest::Client::builder().user_agent("proxied").build().unwrap()),
        Ok(reqwest::Client::builder().user_agent("direct").build().unwrap()),
        service.clone(),
    )
    .expect("both transports are there");

    assert_eq!(creator.session().user_agent(), "UA/1");
    assert!(format!("{:?}", creator.client()).contains("\"user-agent\": \"proxied\""));
    assert!(format!("{:?}", creator.internal()).contains("\"user-agent\": \"direct\""));
    assert!(Arc::ptr_eq(creator.sig_svc(), &service));
}

#[test]
fn failed_proxied_transport_fails_the_handle() {
    let outcome = Creator::from_transports(
        session(),
        Err(transport_error()),
        Ok(reqwest::Client::new()),
        service(),
    );
    assert!(matches!(outcome, Err(OnlyFansBuilderError::Http(_))));
}

#[test]
fn failed_direct_transport_fails_the_handle() {
    let outcome = Creator::from_transports(
        session(),
        Ok(reqwest::Client::new()),
        Err(transport_error()),
        service(),
    );
    assert!(matches!(outcome, Err(OnlyFansBuilderError::Http(_))));
}

#[test]
fn direct_transport_error_comes_first() {
    let direct = reqwest::Client::builder()
        .user_agent("direct\nagent")
        .build()
        .expect_err("a bad user agent");
    let proxied = reqwest::Proxy::http("http://").expect_err("a bad proxy");
    let expected = direct.to_string();
    assert_ne!(expected, proxied.to_string());

    let outcome = Creator::from_transports(session(), Err(proxied), Err(direct), service());
    match outcome {
        Err(OnlyFansBuilderError::Http(source)) => assert_eq!(source.to_string(), expected),
        _ => panic!("the direct transport's error is expected"),
    }
}

#[test]
fn proxied_builder_has_the_proxy_and_http1_only() {
    let (proxied, direct) = CreatorBuilder::transport_builders(headers(), proxy());

    let proxied = format!("{:?}", proxied);
    let direct = format!("{:?}", direct);

    assert!(proxied.contains("proxies: ["), "{}", proxied);
    assert!(proxied.contains("127.0.0.1:8080"), "{}", proxied);
    assert!(proxied.contains("http1_only: true"), "{}", proxied);
    assert!(!direct.contains("proxies: ["), "{}", direct);
    assert!(!direct.contains("http1_only"), "{}", direct);
}

#[test]
fn both_builders_have_the_same_default_headers() {
    let (proxied, direct) = CreatorBuilder::transport_builders(headers(), proxy());

    let proxied = format!("{:?}", proxied);
    let direct = format!("{:?}", direct);
    let of = |shown: &str| {
        let start = shown.find("default_headers: {").expect("headers are shown");
        let rest = &shown[start..];
        let end = rest.find('}').expect("headers end");
        rest[..=end].to_string()
    };

    assert_eq!(of(&proxied), of(&direct));
    assert!(of(&proxied).contains("\"accept\": \"*/*\""));
    assert!(of(&proxied).contains("\"cookie\": \"sess=sess1;auth_id=acct1;\""));
    assert!(of(&direct).contains("\"user-agent\": \"UA/1\""));
}

#[test]
fn given_default_headers_replace_what_a_transport_starts_with() {
    let mut given = reqwest::header::HeaderMap::new();
    given.append("accept", reqwest::header::HeaderValue::from_static("text/html"));
    given.append("x-tag", reqwest::header::HeaderValue::from_static("first"));
    given.append("x-tag", reqwest::header::HeaderValue::from_static("last"));

    let (proxied, direct) = CreatorBuilder::transport_builders(given, proxy());

    for shown in [format!("{:?}", proxied), format!("{:?}", direct)] {
        assert!(shown.contains("\"accept\": \"text/html\""), "{}", shown);
        assert!(!shown.contains("*/*"), "{}", shown);
        assert!(shown.contains("\"x-tag\": \"last\""), "{}", shown);
        assert!(!shown.contains("\"first\""), "{}", shown);
    }
}

#[test]
fn header_value_error_converts() {
    let source: InvalidHeaderValue =
        reqwest::header::HeaderValue::from_str("\n").expect_err("a newline");
    assert!(matches!(OnlyFansBuilderError::from(source), OnlyFansBuilderError::HeaderValue(_)));
}

#[test]
fn header_name_error_converts() {
    let source: InvalidHeaderName =
        reqwest::header::HeaderName::from_bytes(b"bad name").expect_err("a space");
    assert!(matches!(OnlyFansBuilderError::from(source), OnlyFansBuilderError::HeaderName(_)));
}

#[test]
fn transport_error_converts() {
    assert!(matches!(
        OnlyFansBuilderError::from(transport_error()),
        OnlyFansBuilderError::Http(_)
    ));
}
