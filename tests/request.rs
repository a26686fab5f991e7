use detector_gateway::config::OrchestratorConfig;
use detector_gateway::request::{
    append_decimal, check_upstream_status, is_streaming_request, forward_header, orchestrator_url, plan_transport,
    GatewayError,
};
use detector_gateway::tls::{client_identity_der, identity_outcome, TlsSetupError};

#[test]
fn url_with_port() {
    let o = OrchestratorConfig {
        host: "orchestrator.svc".to_string(),
        port: Some(8032),
    };
    assert_eq!(
        orchestrator_url("https", &o),
        "https://orchestrator.svc:8032/api/v2/chat/completions-detection"
    );
}

#[test]
fn url_without_port() {
    let o = OrchestratorConfig {
        host: "localhost".to_string(),
        port: None,
    };
    assert_eq!(
        orchestrator_url("http", &o),
        "http://localhost/api/v2/chat/completions-detection"
    );
}

#[test]
fn decimal_notation() {
    for (n, text) in [(0u64, "0"), (7, "7"), (10, "10"), (503, "503"), (65535, "65535"), (u64::MAX, "18446744073709551615")] {
        let mut s = "x".to_string();
        append_decimal(&mut s, n);
        assert_eq!(s, format!("x{}", text));
    }
}

#[test]
fn forwarded_headers() {
    assert!(forward_header("authorization"));
    assert!(forward_header("Authorization"));
    assert!(forward_header("AUTHORIZATION"));
    assert!(forward_header("x-forwarded-for"));
    assert!(forward_header("X-Forwarded-Proto"));
    assert!(forward_header("x-forwarded"));
    assert!(!forward_header("authorization2"));
    assert!(!forward_header("authorizatio"));
    assert!(!forward_header("cookie"));
    assert!(!forward_header("x-forward"));
    assert!(!forward_header(""));
}

#[test]
fn upstream_error_status_is_reported() {
    let err = check_upstream_status(503, "overloaded".to_string()).unwrap_err();
    assert_eq!(err.status_code(), 500);
    let text = err.message();
    assert!(text.contains("503"));
    assert!(text.contains("overloaded"));
    assert_eq!(text, "Orchestrator returned error status 503: overloaded");
}

#[test]
fn upstream_success_passes_body() {
    assert_eq!(check_upstream_status(200, "{}".to_string()).unwrap(), "{}");
    assert_eq!(check_upstream_status(299, "b".to_string()).unwrap(), "b");
    assert!(check_upstream_status(300, "c".to_string()).is_err());
    assert!(check_upstream_status(199, "c".to_string()).is_err());
}

#[test]
fn other_errors() {
    let t = GatewayError::Transport {
        message: "refused".to_string(),
    };
    assert_eq!(t.status_code(), 500);
    assert_eq!(
        t.message(),
        "Failed to send request or connect to orchestrator: refused"
    );
    let d = GatewayError::Decode {
        message: "missing field `id`".to_string(),
    };
    assert_eq!(d.status_code(), 502);
    assert_eq!(
        d.message(),
        "Unexpected response from orchestrator: missing field `id`"
    );
}

#[test]
fn transport_with_everything_on_loopback() {
    let p = plan_transport("localhost", true, true, true);
    assert!(p.trust_custom_ca);
    assert!(p.accept_invalid_hostnames);
    assert!(p.client_identity);
    assert_eq!(p.scheme, "https");
}

#[test]
fn transport_elsewhere_keeps_hostname_checks() {
    let p = plan_transport("orchestrator.svc", true, true, false);
    assert!(p.trust_custom_ca);
    assert!(!p.accept_invalid_hostnames);
    assert!(!p.client_identity);
    assert_eq!(p.scheme, "http");
    let q = plan_transport("localhost", false, false, true);
    assert!(!q.trust_custom_ca);
    assert!(!q.accept_invalid_hostnames);
    assert_eq!(q.scheme, "http");
}

#[test]
fn unreadable_certificate_is_reported() {
    assert_eq!(
        client_identity_der(b"not a certificate", b"not a key"),
        Err(TlsSetupError::Certificate)
    );
    assert_eq!(client_identity_der(b"", b""), Err(TlsSetupError::Certificate));
}

fn self_signed() -> (Vec<u8>, Vec<u8>) {
    let rsa = openssl::rsa::Rsa::generate(2048).unwrap();
    let pkey = openssl::pkey::PKey::from_rsa(rsa).unwrap();
    let mut name = openssl::x509::X509NameBuilder::new().unwrap();
    name.append_entry_by_text("CN", "gateway-test").unwrap();
    let name = name.build();
    let mut b = openssl::x509::X509::builder().unwrap();
    b.set_version(2).unwrap();
    b.set_subject_name(&name).unwrap();
    b.set_issuer_name(&name).unwrap();
    b.set_pubkey(&pkey).unwrap();
    let not_before = openssl::asn1::Asn1Time::days_from_now(0).unwrap();
    b.set_not_before(&not_before).unwrap();
    let not_after = openssl::asn1::Asn1Time::days_from_now(1).unwrap();
    b.set_not_after(&not_after).unwrap();
    b.sign(&pkey, openssl::hash::MessageDigest::sha256()).unwrap();
    let cert = b.build();
    (cert.to_pem().unwrap(), pkey.private_key_to_pem_pkcs8().unwrap())
}

#[test]
fn unreadable_key_is_reported() {
    let (cert, _) = self_signed();
    assert_eq!(client_identity_der(&cert, b"junk"), Err(TlsSetupError::PrivateKey));
}

#[test]
fn identity_archive_reads_back() {
    let (cert, key) = self_signed();
    let der = client_identity_der(&cert, &key).unwrap();
    let archive = openssl::pkcs12::Pkcs12::from_der(&der).unwrap();
    let parsed = archive.parse2("").unwrap();
    assert!(parsed.cert.is_some());
    assert!(parsed.pkey.is_some());
}

#[test]
fn identity_outcome_reports_first_failed_step() {
    assert_eq!(identity_outcome(false, true, Some(vec![1])), Err(TlsSetupError::Certificate));
    assert_eq!(identity_outcome(true, false, Some(vec![1])), Err(TlsSetupError::PrivateKey));
    assert_eq!(identity_outcome(true, true, None), Err(TlsSetupError::Archive));
    assert_eq!(identity_outcome(true, true, Some(vec![1, 2])), Ok(vec![1, 2]));
}

#[test]
fn stream_flag_must_be_true() {
    assert!(is_streaming_request(Some(true)));
    assert!(!is_streaming_request(Some(false)));
    assert!(!is_streaming_request(None));
}
