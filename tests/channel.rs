use verdict_tls::callback::{CallbackStep, EvidenceVerifier};
use verdict_tls::config::{name_field, ChannelConfig, ConfigError, Role, SelectorField};
use verdict_tls::evidence::{decimal_text, encode_measurement, fact_json, to_fact_document, Evidence, SgxQuote};
use verdict_tls::policy::{decide, decision_from_fields, ClientError, ATTESTATION_POLICY};
use verdict_tls::session::{EnclaveTls, SessionError, SessionState};

fn zero_quote() -> SgxQuote {
    SgxQuote { mr_enclave: [0u8; 32], mr_signer: [0u8; 32], product_id: 1, security_version: 1 }
}

/// Runs one handshake in which the callback sees `evidence` and the policy
/// engine answers `reply`; returns the session, the handshake result and the
/// callback's diagnostic.
fn handshake(evidence: Evidence, reply: Result<String, String>) -> (EnclaveTls, Result<(), SessionError>, String) {
    let mut s = EnclaveTls::new(true, 42, &None, &None, &None, &None, false).unwrap();
    s.negotiate().unwrap();
    let v = EvidenceVerifier::new(ATTESTATION_POLICY);
    let verdict = match v.on_evidence(&evidence) {
        CallbackStep::Consult(req) => {
            assert_eq!(req.policy_id, "attestation.rego");
            v.conclude(&decide(&reply))
        }
        CallbackStep::Done(verdict) => verdict,
    };
    let signal = s.record_verdict(&verdict);
    // the negotiation layer fails the handshake when the callback rejects
    let status = if signal == 1 { 0 } else { -1 };
    let r = s.finish_negotiation(status);
    (s, r, verdict.diagnostic)
}

#[test]
fn server_session_established_on_allow() {
    let (s, r, _) = handshake(
        Evidence::SgxEcdsa(zero_quote()),
        Ok("{\"allow\": true, \"parseInfo\": \"\"}".to_string()),
    );
    assert_eq!(r, Ok(()));
    assert_eq!(s.state(), SessionState::Established);
    assert!(s.is_established());
}

#[test]
fn server_session_rejected_on_measurement_mismatch() {
    let (s, r, diag) = handshake(
        Evidence::SgxEcdsa(zero_quote()),
        Ok("{\"allow\": false, \"parseInfo\": \"measurement mismatch\"}".to_string()),
    );
    assert!(r.is_err());
    assert_eq!(s.state(), SessionState::Rejected);
    assert!(diag.contains("measurement mismatch"));
}

#[test]
fn unsupported_evidence_rejected_without_policy() {
    let v = EvidenceVerifier::new(ATTESTATION_POLICY);
    match v.on_evidence(&Evidence::Unsupported(7)) {
        CallbackStep::Done(verdict) => {
            assert!(!verdict.accept);
            assert_eq!(verdict.diagnostic, "unsupported evidence type 7");
        }
        CallbackStep::Consult(_) => panic!("policy engine consulted for unsupported evidence"),
    }
    let (s, r, _) = handshake(Evidence::Unsupported(3), Ok("{\"allow\": true}".to_string()));
    assert!(r.is_err());
    assert!(!s.is_established());
}

#[test]
fn missing_allow_is_malformed_and_rejected() {
    let reply = Ok("{\"parseInfo\": \"no verdict\"}".to_string());
    assert!(matches!(decide(&reply), Err(ClientError::MalformedResponse)));
    let (s, r, _) = handshake(Evidence::SgxEcdsa(zero_quote()), reply);
    assert_eq!(r, Err(SessionError::Native(-1)));
    assert_eq!(s.state(), SessionState::Rejected);
}

#[test]
fn non_boolean_allow_is_malformed() {
    let reply = Ok("{\"allow\": \"true\"}".to_string());
    assert!(matches!(decide(&reply), Err(ClientError::MalformedResponse)));
}

#[test]
fn unparsable_response_is_malformed() {
    let reply = Ok("allow: true".to_string());
    assert!(matches!(decide(&reply), Err(ClientError::MalformedResponse)));
}

#[test]
fn engine_failure_carries_message() {
    let reply: Result<String, String> = Err("policy not found".to_string());
    match decide(&reply) {
        Err(ClientError::EngineFailure(m)) => assert_eq!(m, "policy not found"),
        other => panic!("unexpected {:?}", other),
    }
    let v = EvidenceVerifier::new(ATTESTATION_POLICY);
    let verdict = v.conclude(&decide(&reply));
    assert!(!verdict.accept);
    assert_eq!(verdict.diagnostic, "make_decision error: policy not found");
}

#[test]
fn decision_keeps_parse_info() {
    let d = decide(&Ok("{\"allow\": false, \"parseInfo\": \"svn too low\"}".to_string())).unwrap();
    assert!(!d.allow);
    assert_eq!(d.diagnostic, "svn too low");
    let d = decision_from_fields(Some(true), None).unwrap();
    assert!(d.allow);
    assert_eq!(d.diagnostic, "");
    assert!(matches!(decision_from_fields(None, Some("x")), Err(ClientError::MalformedResponse)));
}

#[test]
fn deny_diagnostic_is_not_empty() {
    let v = EvidenceVerifier::new(ATTESTATION_POLICY);
    let verdict = v.conclude(&decide(&Ok("{\"allow\": false}".to_string())));
    assert!(!verdict.accept);
    assert_eq!(verdict.diagnostic, "decision is false; parseInfo: ");
}

#[test]
fn measurement_encoding_is_base64() {
    let zero = encode_measurement(&[0u8; 32]);
    assert_eq!(zero, format!("{}=", "A".repeat(43)));
    let mut m = [0u8; 32];
    for (i, b) in m.iter_mut().enumerate() {
        *b = i as u8;
    }
    assert_eq!(encode_measurement(&m), "AAECAwQFBgcICQoLDA0ODxAREhMUFRYXGBkaGxwdHh8=");
}

#[test]
fn measurement_encoding_deterministic_and_distinct() {
    let a = [7u8; 32];
    let mut b = [7u8; 32];
    b[31] = 8;
    assert_eq!(encode_measurement(&a), encode_measurement(&a));
    assert_ne!(encode_measurement(&a), encode_measurement(&b));
}

#[test]
fn fact_document_text() {
    let doc = to_fact_document(&zero_quote());
    assert_eq!(doc.product_id, 1);
    assert_eq!(doc.svn, 1);
    let z = format!("{}=", "A".repeat(43));
    assert_eq!(
        fact_json(&doc),
        format!("{{\"mrEnclave\":\"{}\",\"mrSigner\":\"{}\",\"productId\":1,\"svn\":1}}", z, z)
    );
}

#[test]
fn decimal_text_values() {
    assert_eq!(decimal_text(0), "0");
    assert_eq!(decimal_text(42), "42");
    assert_eq!(decimal_text(u32::MAX), "4294967295");
}

#[test]
fn build_rejects_overlong_selectors() {
    let long = Some("x".repeat(33));
    let ok = Some("openssl".to_string());
    assert_eq!(
        ChannelConfig::build(Role::Client, &long, &None, &None, &None, 0, false).err(),
        Some(ConfigError::NameTooLong(SelectorField::Tls))
    );
    assert_eq!(
        ChannelConfig::build(Role::Client, &ok, &long, &None, &None, 0, false).err(),
        Some(ConfigError::NameTooLong(SelectorField::Crypto))
    );
    assert_eq!(
        ChannelConfig::build(Role::Client, &ok, &None, &long, &long, 0, false).err(),
        Some(ConfigError::NameTooLong(SelectorField::Attester))
    );
    assert_eq!(
        EnclaveTls::new(false, 0, &None, &None, &None, &long, true).err(),
        Some(ConfigError::NameTooLong(SelectorField::Verifier))
    );
    // the capacity counts bytes, not characters
    let wide = Some("é".repeat(17));
    assert!(ChannelConfig::build(Role::Server, &wide, &None, &None, &None, 0, false).is_err());
}

#[test]
fn build_round_trips_selectors() {
    let full = Some("y".repeat(32));
    let c = ChannelConfig::build(
        Role::Server,
        &Some("openssl".to_string()),
        &Some("openssl".to_string()),
        &Some("sgx_ecdsa".to_string()),
        &full,
        42,
        true,
    )
    .unwrap();
    assert_eq!(c.role, Role::Server);
    assert_eq!(c.tls_type.as_deref(), Some("openssl"));
    assert_eq!(c.crypto_type.as_deref(), Some("openssl"));
    assert_eq!(c.attester_type.as_deref(), Some("sgx_ecdsa"));
    assert_eq!(c.verifier_type, full);
    assert_eq!(c.enclave_id, 42);
    assert!(c.mutual);
    assert_eq!(c.api_version, 1);
    assert_eq!(c.log_level, 0);
    assert_eq!(c.cert_algo, 0);
    assert_eq!(c.flags(), 3);
}

#[test]
fn flags_per_role() {
    let c = ChannelConfig::build(Role::Client, &None, &None, &None, &None, 0, false).unwrap();
    assert_eq!(c.flags(), 0);
    let c = ChannelConfig::build(Role::Server, &None, &None, &None, &None, 0, false).unwrap();
    assert_eq!(c.flags(), 2);
    let c = ChannelConfig::build(Role::Client, &None, &None, &None, &None, 0, true).unwrap();
    assert_eq!(c.flags(), 1);
}

#[test]
fn name_field_pads_without_truncating() {
    let f = name_field(&Some("sgx".to_string()));
    assert_eq!(f.len(), 32);
    assert_eq!(&f[..3], b"sgx");
    assert!(f[3..].iter().all(|b| *b == 0));
    assert_eq!(name_field(&None), vec![0u8; 32]);
    let full = "z".repeat(32);
    assert_eq!(name_field(&Some(full.clone())), full.into_bytes());
}

#[test]
fn close_releases_once() {
    let mut s = EnclaveTls::new(false, 1, &None, &None, &None, &None, false).unwrap();
    assert_eq!(s.state(), SessionState::Created);
    assert!(s.close());
    assert!(!s.close());
    assert_eq!(s.state(), SessionState::Closed);
    assert_eq!(s.negotiate(), Err(SessionError::UseAfterClose));
    assert_eq!(s.receive(0, 4, 8), Err(SessionError::UseAfterClose));
    assert_eq!(s.transmit(0, 4, 8), Err(SessionError::UseAfterClose));
    assert_eq!(s.ready(), Err(SessionError::UseAfterClose));
}

#[test]
fn transfer_needs_established_session() {
    let mut s = EnclaveTls::new(false, 1, &None, &None, &None, &None, false).unwrap();
    assert_eq!(s.receive(0, 4, 8), Err(SessionError::NotEstablished));
    s.negotiate().unwrap();
    assert_eq!(s.transmit(0, 4, 8), Err(SessionError::NotEstablished));
}

#[test]
fn transfer_reports_counts_and_status() {
    let (s, r, _) = handshake(Evidence::SgxEcdsa(zero_quote()), Ok("{\"allow\": true}".to_string()));
    assert_eq!(r, Ok(()));
    assert_eq!(s.receive(0, 5, 16), Ok(5));
    assert_eq!(s.transmit(0, 16, 16), Ok(16));
    assert_eq!(s.transmit(0, 20, 16), Ok(16));
    assert_eq!(s.receive(-3, 0, 16), Err(SessionError::Native(-3)));
}

#[test]
fn handshake_failure_status_surfaces() {
    let mut s = EnclaveTls::new(true, 42, &None, &None, &None, &None, false).unwrap();
    s.negotiate().unwrap();
    let v = EvidenceVerifier::new(ATTESTATION_POLICY);
    let verdict = v.conclude(&decide(&Ok("{\"allow\": true}".to_string())));
    assert_eq!(s.record_verdict(&verdict), 1);
    assert_eq!(s.finish_negotiation(-9), Err(SessionError::Native(-9)));
    assert_eq!(s.state(), SessionState::Rejected);
}

#[test]
fn success_without_accept_is_unattested() {
    let mut s = EnclaveTls::new(false, 42, &None, &None, &None, &None, false).unwrap();
    assert!(s.evidence_required());
    s.negotiate().unwrap();
    assert_eq!(s.finish_negotiation(0), Err(SessionError::Unattested));
    assert!(!s.is_established());
    let mut s = EnclaveTls::new(true, 42, &None, &None, &None, &None, true).unwrap();
    assert!(s.evidence_required());
    s.negotiate().unwrap();
    assert_eq!(s.finish_negotiation(0), Err(SessionError::Unattested));
}

#[test]
fn server_without_mutual_needs_no_evidence() {
    let mut s = EnclaveTls::new(true, 42, &None, &None, &None, &None, false).unwrap();
    assert!(!s.evidence_required());
    s.negotiate().unwrap();
    assert_eq!(s.finish_negotiation(0), Ok(()));
    assert!(s.is_established());
}
