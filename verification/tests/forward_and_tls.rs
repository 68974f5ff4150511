use yatangaki::forward::{
    bad_request_response, classify, connect_established_response, forward_outcome, host_of,
    strip_host_headers, upstream_uri, RequestHead, RouteDecision,
};
use yatangaki::logs::{LogStore, RequestRecord, ResponseRecord};
use yatangaki::settings::parse_port;
use yatangaki::tls::{CertProfile, TlsHandler};

fn head(method: &str, scheme: Option<&str>, authority: Option<&str>) -> RequestHead {
    RequestHead {
        method: method.to_string(),
        scheme: scheme.map(|s| s.to_string()),
        authority: authority.map(|a| a.to_string()),
        path: "/".to_string(),
        query: None,
        headers: Vec::new(),
    }
}

#[test]
fn https_scheme_is_rejected() {
    let decision = classify(&head("GET", Some("https"), Some("example.test")));
    assert!(matches!(decision, RouteDecision::RejectBadRequest));
}

#[test]
fn missing_authority_is_rejected() {
    let decision = classify(&head("GET", Some("http"), None));
    assert!(matches!(decision, RouteDecision::RejectBadRequest));
}

#[test]
fn connect_opens_a_tunnel_to_the_host() {
    let decision = classify(&head("CONNECT", None, Some("secure.test:443")));
    match decision {
        RouteDecision::ConnectTunnel { host } => assert_eq!(host, "secure.test"),
        _ => panic!("expected a tunnel"),
    }
}

#[test]
fn plain_requests_are_forwarded() {
    let decision = classify(&head("GET", Some("http"), Some("example.test")));
    assert!(matches!(decision, RouteDecision::ForwardPlain));
}

#[test]
fn host_extraction() {
    assert_eq!(host_of("example.test"), "example.test");
    assert_eq!(host_of("secure.test:443"), "secure.test");
    assert_eq!(host_of("user@secure.test:443"), "secure.test");
}

#[test]
fn upstream_uri_is_assembled() {
    assert_eq!(
        upstream_uri("http", "example.test", "/a", &Some("b=1".to_string())),
        "http://example.test/a?b=1"
    );
    assert_eq!(
        upstream_uri("https", "secure.test", "/", &None),
        "https://secure.test/"
    );
}

#[test]
fn host_headers_are_stripped_case_insensitively() {
    let headers = vec![
        ("Host".to_string(), "example.test".to_string()),
        ("accept".to_string(), "*/*".to_string()),
        ("HOST".to_string(), "other.test".to_string()),
        ("x-b".to_string(), "2".to_string()),
    ];
    let stripped = strip_host_headers(&headers);
    assert_eq!(
        stripped,
        vec![
            ("accept".to_string(), "*/*".to_string()),
            ("x-b".to_string(), "2".to_string()),
        ]
    );
}

#[test]
fn upstream_success_is_returned_verbatim_and_logged() {
    let mut store = LogStore::open_in_memory().unwrap();
    let request = RequestRecord {
        method: "GET".to_string(),
        authority: "example.test".to_string(),
        path: "/a".to_string(),
        query: Some("b=1".to_string()),
        headers: vec![("accept".to_string(), "*/*".to_string())],
        body: Vec::new(),
    };
    let upstream = ResponseRecord {
        status: 200,
        headers: vec![("content-type".to_string(), "text/plain".to_string())],
        body: vec![104, 105],
    };
    let (response, packet) = forward_outcome(&mut store, 1, &request, Some(upstream));
    assert_eq!(response.status, 200);
    assert_eq!(response.body, vec![104, 105]);
    let row = store.get_full_row(packet.unwrap()).unwrap().unwrap();
    assert_eq!(row.metadata.status, Some(200));
    assert_eq!(row.response.unwrap().body, vec![104, 105]);
    assert_eq!(row.metadata.query, "b=1");
}

#[test]
fn upstream_failure_gives_503_and_a_responseless_row() {
    let mut store = LogStore::open_in_memory().unwrap();
    let request = RequestRecord {
        method: "GET".to_string(),
        authority: "nope.invalid".to_string(),
        path: "/".to_string(),
        query: None,
        headers: Vec::new(),
        body: Vec::new(),
    };
    let (response, packet) = forward_outcome(&mut store, 1, &request, None);
    assert_eq!(response.status, 503);
    assert!(response.body.is_empty());
    let row = store.get_full_row(packet.unwrap()).unwrap().unwrap();
    assert!(row.metadata.status.is_none());
    assert!(row.response.is_none());
}

#[test]
fn synthesized_responses() {
    assert_eq!(bad_request_response().status, 400);
    assert_eq!(connect_established_response().status, 200);
}

#[test]
fn port_parsing() {
    assert_eq!(parse_port("8080"), Some(8080));
    assert_eq!(parse_port("0"), Some(0));
    assert_eq!(parse_port("65535"), Some(65535));
    assert_eq!(parse_port("65536"), None);
    assert_eq!(parse_port(""), None);
    assert_eq!(parse_port("80a"), None);
    assert_eq!(parse_port("-1"), None);
}

#[test]
fn leaf_profile_names_the_host() {
    let profile = CertProfile::leaf_for("secure.test");
    assert_eq!(profile.common_name, "secure.test");
    assert_eq!(profile.san_dns.as_deref(), Some("secure.test"));
    assert!(!profile.is_ca);
    assert_eq!(profile.not_before.year, 2023);
    assert_eq!(profile.not_after.year, 2048);

    let ca = CertProfile::ca();
    assert_eq!(ca.common_name, "yatangaki_ca");
    assert!(ca.san_dns.is_none());
    assert!(ca.is_ca);
    assert_eq!(ca.not_after.year, 4096);
}

#[test]
fn repeated_minting_reuses_the_cached_configuration() {
    let mut handler = TlsHandler::generate().unwrap();
    let first = handler.tls_acceptor("secure.test").unwrap();
    let second = handler.tls_acceptor("secure.test").unwrap();
    assert!(std::sync::Arc::ptr_eq(first.config(), second.config()));

    let other = handler.tls_acceptor("other.test").unwrap();
    assert!(!std::sync::Arc::ptr_eq(first.config(), other.config()));

    let again = handler.tls_acceptor("secure.test").unwrap();
    assert!(std::sync::Arc::ptr_eq(first.config(), again.config()));
}

#[test]
fn ca_material_survives_a_pem_round_trip() {
    let handler = TlsHandler::generate().unwrap();
    let cert_pem = handler.certificate_pem();
    let key_pem = handler.private_key_pem();
    assert!(cert_pem.contains("BEGIN CERTIFICATE"));
    assert!(key_pem.contains("BEGIN PRIVATE KEY"));
    let mut reloaded = TlsHandler::parse_pem(&cert_pem, &key_pem).unwrap();
    assert!(reloaded.tls_acceptor("secure.test").is_ok());
    assert_eq!(reloaded.private_key_pem(), key_pem);
    assert!(TlsHandler::parse_pem("not pem", "not pem").is_err());
}
