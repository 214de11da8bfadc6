use g3proxy::alpn::Protocol;
use g3proxy::dispatch::{DissectorHint, InspectionKind};
use g3proxy::session::{
    Action, CertOutcome, ClientOutcome, Event, HelloOutcome, Intercept,
    InterceptionError, UpstreamOutcome,
};

fn start(host: &str) -> Intercept {
    let mut s = Intercept::new(host.to_string(), 443, 5000, 0);
    match s.on_event(Event::Begin) {
        Action::ReadClientHello { timeout_ms } => assert_eq!(timeout_ms, 5000),
        _ => panic!("expected to read the client hello"),
    }
    s
}

fn through_upstream(s: &mut Intercept, sni: Option<&str>, offer: Vec<Vec<u8>>) -> String {
    let hello = HelloOutcome::Parsed {
        sni: sni.map(|v| v.to_string()),
        alpn_offer: offer.clone(),
    };
    match s.on_event(Event::ClientHello(hello)) {
        Action::PrepareUpstream { alpn_offer, .. } => assert_eq!(alpn_offer, offer),
        _ => panic!("expected to prepare upstream"),
    }
    match s.on_event(Event::UpstreamConfigured(true)) {
        Action::StartUpstream { cert_domain, timeout_ms } => {
            assert_eq!(timeout_ms, 5000);
            cert_domain
        }
        _ => panic!("expected to start upstream"),
    }
}

fn fail_of(a: Action) -> InterceptionError {
    match a {
        Action::Fail(e) => e,
        _ => panic!("expected a failure"),
    }
}

#[test]
fn scenario_h2_negotiated() {
    let mut s = start("relay.example");
    let offer = vec![b"h2".to_vec(), b"http/1.1".to_vec()];
    let domain = through_upstream(&mut s, Some("www.example.com"), offer);
    assert_eq!(domain, "www.example.com");
    assert_eq!(s.upstream_host, "www.example.com");
    let up = UpstreamOutcome::Established { selected_alpn: Some(b"h2".to_vec()) };
    assert!(matches!(s.on_event(Event::Upstream(up)), Action::AwaitCert));
    match s.on_event(Event::Cert(CertOutcome::Ready)) {
        Action::CompleteClientHandshake { alpn, timeout_ms } => {
            assert_eq!(alpn, Some(b"h2".to_vec()));
            assert_eq!(timeout_ms, 5000);
        }
        _ => panic!("expected the client handshake"),
    }
    match s.on_event(Event::Client(ClientOutcome::Established)) {
        Action::Dispatch { kind, protocol, hint, inspection_depth } => {
            assert_eq!(kind, InspectionKind::H2);
            assert_eq!(protocol, Protocol::Http2);
            assert_eq!(hint, DissectorHint::Protocol(Protocol::Http2));
            assert_eq!(inspection_depth, 1);
        }
        _ => panic!("expected dispatch"),
    }
    assert!(s.is_finished());
}

#[test]
fn scenario_no_alpn_inspects_stream() {
    let mut s = start("10.0.0.1");
    through_upstream(&mut s, Some("api.example.org"), vec![]);
    let up = UpstreamOutcome::Established { selected_alpn: None };
    assert!(matches!(s.on_event(Event::Upstream(up)), Action::AwaitCert));
    match s.on_event(Event::Cert(CertOutcome::Ready)) {
        Action::CompleteClientHandshake { alpn, .. } => assert_eq!(alpn, None),
        _ => panic!("expected the client handshake"),
    }
    match s.on_event(Event::Client(ClientOutcome::Established)) {
        Action::Dispatch { kind, hint, .. } => {
            assert_eq!(kind, InspectionKind::StreamInspect);
            assert_eq!(hint, DissectorHint::TlsPort(443));
        }
        _ => panic!("expected dispatch"),
    }
}

#[test]
fn scenario_missing_certificate() {
    let mut s = start("origin.example");
    through_upstream(&mut s, Some("origin.example"), vec![b"http/1.1".to_vec()]);
    let up = UpstreamOutcome::Established { selected_alpn: Some(b"http/1.1".to_vec()) };
    assert!(matches!(s.on_event(Event::Upstream(up)), Action::AwaitCert));
    let e = fail_of(s.on_event(Event::Cert(CertOutcome::Missing)));
    assert_eq!(e, InterceptionError::NoFakeCertGenerated);
    assert!(s.is_finished());
    // no client handshake can follow
    assert!(matches!(s.on_event(Event::Cert(CertOutcome::Ready)), Action::Misuse));
    assert!(matches!(s.on_event(Event::Client(ClientOutcome::Established)), Action::Misuse));
}

#[test]
fn certificate_join_failure() {
    let mut s = start("origin.example");
    through_upstream(&mut s, None, vec![]);
    let up = UpstreamOutcome::Established { selected_alpn: None };
    s.on_event(Event::Upstream(up));
    let e = fail_of(s.on_event(Event::Cert(CertOutcome::JoinFailed)));
    assert_eq!(e, InterceptionError::NoFakeCertGenerated);
}

#[test]
fn unknown_alpn_is_opaque() {
    let mut s = start("origin.example");
    through_upstream(&mut s, None, vec![b"spdy/3".to_vec()]);
    let up = UpstreamOutcome::Established { selected_alpn: Some(b"spdy/3".to_vec()) };
    s.on_event(Event::Upstream(up));
    match s.on_event(Event::Cert(CertOutcome::Ready)) {
        Action::CompleteClientHandshake { alpn, .. } => assert_eq!(alpn, Some(b"spdy/3".to_vec())),
        _ => panic!("expected the client handshake"),
    }
    match s.on_event(Event::Client(ClientOutcome::Established)) {
        Action::Dispatch { kind, protocol, hint, .. } => {
            assert_eq!(kind, InspectionKind::StreamUnknown);
            assert_eq!(protocol, Protocol::Unknown);
            assert_eq!(hint, DissectorHint::TlsPort(443));
        }
        _ => panic!("expected dispatch"),
    }
}

#[test]
fn http1_alpn_dispatches_h1() {
    let mut s = Intercept::new("origin.example".to_string(), 8443, 100, 2);
    s.on_event(Event::Begin);
    through_upstream_short(&mut s);
    let up = UpstreamOutcome::Established { selected_alpn: Some(b"http/1.1".to_vec()) };
    s.on_event(Event::Upstream(up));
    s.on_event(Event::Cert(CertOutcome::Ready));
    match s.on_event(Event::Client(ClientOutcome::Established)) {
        Action::Dispatch { kind, inspection_depth, .. } => {
            assert_eq!(kind, InspectionKind::H1);
            assert_eq!(inspection_depth, 3);
        }
        _ => panic!("expected dispatch"),
    }
}

fn through_upstream_short(s: &mut Intercept) {
    let hello = HelloOutcome::Parsed { sni: None, alpn_offer: vec![] };
    s.on_event(Event::ClientHello(hello));
    s.on_event(Event::UpstreamConfigured(true));
}

#[test]
fn missing_sni_uses_configured_host() {
    let mut s = start("backend.internal");
    let domain = through_upstream(&mut s, None, vec![]);
    assert_eq!(domain, "backend.internal");
    assert_eq!(s.upstream_host, "backend.internal");
    let mut s = start("backend.internal");
    let domain = through_upstream(&mut s, Some(""), vec![]);
    assert_eq!(domain, "backend.internal");
}

#[test]
fn second_begin_is_refused() {
    let mut s = start("origin.example");
    assert!(matches!(s.on_event(Event::Begin), Action::Misuse));
    assert!(matches!(s.on_event(Event::Begin), Action::Misuse));
    assert_eq!(s.upstream_host, "origin.example");
    // the attempt still proceeds normally
    let e = fail_of(s.on_event(Event::ClientHello(HelloOutcome::Failed)));
    assert_eq!(e, InterceptionError::ClientHandshakeFailed);
    assert!(matches!(s.on_event(Event::Begin), Action::Misuse));
}

#[test]
fn upstream_timeout_is_attributed() {
    let mut s = start("origin.example");
    through_upstream(&mut s, Some("origin.example"), vec![]);
    let e = fail_of(s.on_event(Event::Upstream(UpstreamOutcome::Timeout)));
    assert_eq!(e, InterceptionError::UpstreamHandshakeTimeout);
}

#[test]
fn client_timeout_is_attributed() {
    let mut s = start("origin.example");
    through_upstream(&mut s, Some("origin.example"), vec![]);
    s.on_event(Event::Upstream(UpstreamOutcome::Established { selected_alpn: None }));
    s.on_event(Event::Cert(CertOutcome::Ready));
    let e = fail_of(s.on_event(Event::Client(ClientOutcome::Timeout)));
    assert_eq!(e, InterceptionError::ClientHandshakeTimeout);
}

#[test]
fn client_hello_timeout_is_attributed() {
    let mut s = start("origin.example");
    let e = fail_of(s.on_event(Event::ClientHello(HelloOutcome::Timeout)));
    assert_eq!(e, InterceptionError::ClientHandshakeTimeout);
}

#[test]
fn every_error_has_its_cause() {
    let mut s = start("origin.example");
    let hello = HelloOutcome::Parsed { sni: None, alpn_offer: vec![] };
    assert!(matches!(s.on_event(Event::ClientHello(hello)), Action::PrepareUpstream { .. }));
    let e = fail_of(s.on_event(Event::UpstreamConfigured(false)));
    assert_eq!(e, InterceptionError::UpstreamPrepareFailed);

    let mut s = start("origin.example");
    through_upstream(&mut s, None, vec![]);
    let e = fail_of(s.on_event(Event::Upstream(UpstreamOutcome::PrepareFailed)));
    assert_eq!(e, InterceptionError::UpstreamPrepareFailed);

    let mut s = start("origin.example");
    through_upstream(&mut s, None, vec![]);
    let e = fail_of(s.on_event(Event::Upstream(UpstreamOutcome::Failed)));
    assert_eq!(e, InterceptionError::UpstreamHandshakeFailed);

    let mut s = start("origin.example");
    through_upstream(&mut s, None, vec![]);
    s.on_event(Event::Upstream(UpstreamOutcome::Established { selected_alpn: None }));
    s.on_event(Event::Cert(CertOutcome::Ready));
    let e = fail_of(s.on_event(Event::Client(ClientOutcome::ConfigFailed)));
    assert_eq!(e, InterceptionError::ClientHandshakeFailed);

    let mut s = start("origin.example");
    through_upstream(&mut s, None, vec![]);
    s.on_event(Event::Upstream(UpstreamOutcome::Established { selected_alpn: None }));
    s.on_event(Event::Cert(CertOutcome::Ready));
    let e = fail_of(s.on_event(Event::Client(ClientOutcome::Failed)));
    assert_eq!(e, InterceptionError::ClientHandshakeFailed);
}
