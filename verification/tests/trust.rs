use quiccat::error::{ConstructionError, ErrorKind};
use quiccat::tls::{
    decode_certificate, resolve, single_anchor_store, AuthorityFile, PlatformRoots,
    SkipServerCertVerify, TrustConfig, TrustPolicy,
};

const AUTHORITY_PEM: &str = "-----BEGIN CERTIFICATE-----
MIIBlDCCATmgAwIBAgIUP7wiNQ14NtyOUVZJVymu9EOOTucwCgYIKoZIzj0EAwIw
HzEdMBsGA1UEAwwUcHJvYmUgdGVzdCBhdXRob3JpdHkwHhcNMjYxMDI4MDIwNTAz
WhcNMzYxMDI1MDIwNTAzWjAfMR0wGwYDVQQDDBRwcm9iZSB0ZXN0IGF1dGhvcml0
eTBZMBMGByqGSM49AgEGCCqGSM49AwEHA0IABL3WB2UoUa1R1qnnqDngukMcrdbC
eZg+OZXqfgtBudcCAfrVS/UkdRyf0y+L4x5G0SW8DR3lVRf3kJAlQ0arun6jUzBR
MB0GA1UdDgQWBBQSNr4596atJpngRhgCO7+OHDqIqDAfBgNVHSMEGDAWgBQSNr45
96atJpngRhgCO7+OHDqIqDAPBgNVHRMBAf8EBTADAQH/MAoGCCqGSM49BAMCA0kA
MEYCIQCY5efGbkSYqS4BcUnnddOqbidjnlj1JCkineJrrnBDtAIhANomuiRk9aDk
7+gJwuMw2J9dA6j6wQeKLBr/YosA8Itj
-----END CERTIFICATE-----
";

// The same authority renewed: same subject and key, another serial number
// and a later last day.
const RENEWED_AUTHORITY_PEM: &str = "-----BEGIN CERTIFICATE-----
MIIBlDCCATmgAwIBAgIUf0qbkMoKyqIQ3LDjbz7AftURkeIwCgYIKoZIzj0EAwIw
HzEdMBsGA1UEAwwUcHJvYmUgdGVzdCBhdXRob3JpdHkwHhcNMjYxMDI4MDI1NzU4
WhcNNDYxMDIzMDI1NzU4WjAfMR0wGwYDVQQDDBRwcm9iZSB0ZXN0IGF1dGhvcml0
eTBZMBMGByqGSM49AgEGCCqGSM49AwEHA0IABL3WB2UoUa1R1qnnqDngukMcrdbC
eZg+OZXqfgtBudcCAfrVS/UkdRyf0y+L4x5G0SW8DR3lVRf3kJAlQ0arun6jUzBR
MB0GA1UdDgQWBBQSNr4596atJpngRhgCO7+OHDqIqDAfBgNVHSMEGDAWgBQSNr45
96atJpngRhgCO7+OHDqIqDAPBgNVHRMBAf8EBTADAQH/MAoGCCqGSM49BAMCA0kA
MEYCIQCHQtPvOfG68bptjVhpeWQo1vH1U56dMgmjs15DyjN3nAIhALYLDG7o3ZDR
4zf3lV6gM1cw0d5Mx7wuBh4/C2y6NwJI
-----END CERTIFICATE-----
";

// A well-formed PEM block whose contents are the bytes "not a certificate".
const NOT_A_CERTIFICATE_PEM: &str = "-----BEGIN CERTIFICATE-----
bm90IGEgY2VydGlmaWNhdGU=
-----END CERTIFICATE-----
";

#[test]
fn options_without_anything_mean_system_roots() {
    assert_eq!(TrustPolicy::from_options(&None, false), TrustPolicy::SystemRoots);
}

#[test]
fn options_with_a_path_mean_custom_authority() {
    let path = Some("/etc/probe/ca.pem".to_string());
    assert_eq!(
        TrustPolicy::from_options(&path, false),
        TrustPolicy::CustomAuthority("/etc/probe/ca.pem".to_string())
    );
}

#[test]
fn insecure_option_wins_over_a_path() {
    let path = Some("/etc/probe/ca.pem".to_string());
    assert_eq!(TrustPolicy::from_options(&path, true), TrustPolicy::Insecure);
    assert_eq!(TrustPolicy::from_options(&None, true), TrustPolicy::Insecure);
}

#[test]
fn default_policy_is_never_insecure() {
    assert_eq!(TrustPolicy::default(), TrustPolicy::SystemRoots);
    assert!(TrustPolicy::default().verifies_peer());
}

#[test]
fn only_the_insecure_policy_skips_verification() {
    assert!(TrustPolicy::SystemRoots.verifies_peer());
    assert!(TrustPolicy::CustomAuthority("ca.pem".to_string()).verifies_peer());
    assert!(!TrustPolicy::Insecure.verifies_peer());
    assert!(TrustConfig::SystemRoots.verifies_peer());
    assert!(!TrustConfig::Insecure.verifies_peer());
}

#[test]
fn only_a_custom_authority_has_a_path() {
    assert_eq!(TrustPolicy::SystemRoots.authority_path(), None);
    assert_eq!(TrustPolicy::Insecure.authority_path(), None);
    let policy = TrustPolicy::CustomAuthority("ca.pem".to_string());
    assert_eq!(policy.authority_path(), Some(&"ca.pem".to_string()));
}

#[test]
fn decodes_the_certificate_of_a_pem_text() {
    let der = decode_certificate(AUTHORITY_PEM).unwrap();
    assert_eq!(der.len(), 408);
    assert_eq!(&der[..8], &[0x30, 0x82, 0x01, 0x94, 0x30, 0x82, 0x01, 0x39]);
    assert_ne!(der.as_slice(), AUTHORITY_PEM.as_bytes());
}

#[test]
fn decodes_the_contents_of_any_pem_block() {
    let der = decode_certificate(NOT_A_CERTIFICATE_PEM).unwrap();
    assert_eq!(der, b"not a certificate".to_vec());
}

#[test]
fn decoding_fails_on_text_without_a_pem_block() {
    let r = decode_certificate("this is not PEM");
    assert!(matches!(r, Err(ConstructionError::MalformedPem(_))));
}

#[test]
fn decoding_fails_on_an_empty_text() {
    assert!(matches!(decode_certificate(""), Err(ConstructionError::MalformedPem(_))));
}

#[test]
fn decoding_fails_on_mismatched_tags() {
    let text = "-----BEGIN CERTIFICATE-----\nbm90\n-----END KEY-----\n";
    assert!(matches!(decode_certificate(text), Err(ConstructionError::MalformedPem(_))));
}

#[test]
fn decoding_fails_on_bad_base64() {
    let text = "-----BEGIN CERTIFICATE-----\n!!!!\n-----END CERTIFICATE-----\n";
    assert!(matches!(decode_certificate(text), Err(ConstructionError::MalformedPem(_))));
}

#[test]
fn a_certificate_makes_a_store_of_one_anchor() {
    let der = decode_certificate(AUTHORITY_PEM).unwrap();
    let store = single_anchor_store(der).unwrap();
    assert_eq!(store.len(), 1);
    assert!(!store.is_empty());
}

#[test]
fn a_store_keeps_the_anchor_and_not_the_certificate() {
    let first = decode_certificate(AUTHORITY_PEM).unwrap();
    let renewed = decode_certificate(RENEWED_AUTHORITY_PEM).unwrap();
    assert_ne!(first, renewed);
    let first = single_anchor_store(first).unwrap();
    let renewed = single_anchor_store(renewed).unwrap();
    assert_eq!(first.len(), 1);
    assert_eq!(renewed.len(), 1);
    assert_eq!(format!("{:?}", first.roots), format!("{:?}", renewed.roots));
}

#[test]
fn a_store_holds_the_subject_of_its_certificate() {
    let der = decode_certificate(AUTHORITY_PEM).unwrap();
    let store = single_anchor_store(der).unwrap();
    let subject: &[u8] = store.roots[0].subject().as_ref();
    let name = b"probe test authority";
    assert!(subject.windows(name.len()).any(|w| w == name));
}

#[test]
fn bytes_that_are_no_certificate_make_no_store() {
    let r = single_anchor_store(b"not a certificate".to_vec());
    assert!(matches!(r, Err(ConstructionError::InvalidAnchor(_))));
    let r = single_anchor_store(Vec::new());
    assert!(matches!(r, Err(ConstructionError::InvalidAnchor(_))));
}

#[test]
fn system_roots_resolve_without_a_file() {
    let r = resolve(&TrustPolicy::SystemRoots, AuthorityFile::Absent, PlatformRoots::Available);
    assert!(matches!(r, Ok(TrustConfig::SystemRoots)));
}

#[test]
fn system_roots_fail_where_the_platform_store_is_unavailable() {
    let found = PlatformRoots::Unavailable("could not load platform certs".to_string());
    match resolve(&TrustPolicy::SystemRoots, AuthorityFile::Absent, found) {
        Err(e) => {
            assert_eq!(e.kind(), ErrorKind::TrustStore);
            assert!(matches!(e, ConstructionError::TrustStore(why)
                if why == "could not load platform certs"));
        }
        Ok(other) => panic!("unexpected: {:?}", other),
    }
}

#[test]
fn other_policies_do_not_look_at_the_platform_store() {
    let found = PlatformRoots::Unavailable("could not load platform certs".to_string());
    let r = resolve(&TrustPolicy::Insecure, AuthorityFile::Absent, found.clone());
    assert!(matches!(r, Ok(TrustConfig::Insecure)));
    let policy = TrustPolicy::CustomAuthority("ca.pem".to_string());
    let r = resolve(&policy, AuthorityFile::Text(AUTHORITY_PEM.to_string()), found);
    assert!(matches!(r, Ok(TrustConfig::CustomAuthority(_))));
}

#[test]
fn insecure_resolves_without_a_file() {
    let r = resolve(&TrustPolicy::Insecure, AuthorityFile::Absent, PlatformRoots::Available);
    assert!(matches!(r, Ok(TrustConfig::Insecure)));
}

#[test]
fn policies_without_a_file_ignore_what_is_handed_over() {
    let r = resolve(&TrustPolicy::SystemRoots, AuthorityFile::Unreadable("denied".to_string()), PlatformRoots::Available);
    assert!(matches!(r, Ok(TrustConfig::SystemRoots)));
    let r = resolve(&TrustPolicy::Insecure, AuthorityFile::Text("junk".to_string()), PlatformRoots::Available);
    assert!(matches!(r, Ok(TrustConfig::Insecure)));
}

#[test]
fn custom_authority_resolves_to_a_store_of_its_certificate() {
    let policy = TrustPolicy::CustomAuthority("ca.pem".to_string());
    let r = resolve(&policy, AuthorityFile::Text(AUTHORITY_PEM.to_string()), PlatformRoots::Available);
    match r {
        Ok(TrustConfig::CustomAuthority(store)) => assert_eq!(store.len(), 1),
        other => panic!("unexpected: {:?}", other),
    }
}

#[test]
fn custom_authority_with_an_unreadable_file_is_an_io_failure() {
    let policy = TrustPolicy::CustomAuthority("/nonexistent/ca.pem".to_string());
    let r = resolve(&policy, AuthorityFile::Unreadable("No such file or directory".to_string()), PlatformRoots::Available);
    match r {
        Err(ConstructionError::Io(why)) => assert_eq!(why, "No such file or directory"),
        other => panic!("unexpected: {:?}", other),
    }
}

#[test]
fn custom_authority_without_a_file_is_an_io_failure() {
    let policy = TrustPolicy::CustomAuthority("ca.pem".to_string());
    match resolve(&policy, AuthorityFile::Absent, PlatformRoots::Available) {
        Err(ConstructionError::Io(why)) => assert_eq!(why, ""),
        other => panic!("unexpected: {:?}", other),
    }
}

#[test]
fn custom_authority_with_malformed_pem_is_a_parse_failure() {
    let policy = TrustPolicy::CustomAuthority("ca.pem".to_string());
    let r = resolve(&policy, AuthorityFile::Text("garbage".to_string()), PlatformRoots::Available);
    match r {
        Err(e) => {
            assert!(matches!(e, ConstructionError::MalformedPem(_)));
            assert_eq!(e.kind(), ErrorKind::CertParse);
        }
        Ok(other) => panic!("unexpected: {:?}", other),
    }
}

#[test]
fn custom_authority_with_invalid_der_is_a_parse_failure() {
    let policy = TrustPolicy::CustomAuthority("ca.pem".to_string());
    let r = resolve(&policy, AuthorityFile::Text(NOT_A_CERTIFICATE_PEM.to_string()), PlatformRoots::Available);
    match r {
        Err(e) => {
            assert!(matches!(e, ConstructionError::InvalidAnchor(_)));
            assert_eq!(e.kind(), ErrorKind::CertParse);
        }
        Ok(other) => panic!("unexpected: {:?}", other),
    }
}

#[test]
fn skip_verifier_accepts_a_real_certificate_under_any_name() {
    let der = decode_certificate(AUTHORITY_PEM).unwrap();
    let verifier = SkipServerCertVerify;
    let verdict =
        verifier.verify_server_cert(&der, &Vec::new(), "wrong.name.example", &Vec::new(), &[], 0);
    assert!(verdict.is_ok());
}

#[test]
fn skip_verifier_accepts_bytes_that_are_no_certificate() {
    let verifier = SkipServerCertVerify;
    let verdict = verifier.verify_server_cert(
        b"not a certificate",
        &vec![vec![1, 2, 3]],
        "",
        &vec![vec![4]],
        &[5, 6],
        u64::MAX,
    );
    assert!(verdict.is_ok());
}

#[test]
fn skip_verifier_accepts_long_after_expiry() {
    let der = decode_certificate(AUTHORITY_PEM).unwrap();
    let verifier = SkipServerCertVerify;
    // Year 2100, decades after the certificate's last day.
    let verdict =
        verifier.verify_server_cert(&der, &Vec::new(), "example.com", &Vec::new(), &[], 4102444800);
    assert!(verdict.is_ok());
}

#[test]
fn construction_error_contexts() {
    assert_eq!(ConstructionError::Io("x".to_string()).context(), "Failed to read CA cert file");
    assert_eq!(
        ConstructionError::TrustStore("x".to_string()).context(),
        "Failed to load the system's root CA store"
    );
    assert_eq!(
        ConstructionError::EndpointBind("x".to_string()).context(),
        "Failed to create QUIC client"
    );
    match decode_certificate("garbage") {
        Err(e) => assert_eq!(e.context(), "Failed to parse CA cert"),
        Ok(der) => panic!("unexpected: {:?}", der),
    }
    match single_anchor_store(b"not a certificate".to_vec()) {
        Err(e) => assert_eq!(e.context(), "Failed to add provided CA cert to root cert store"),
        Ok(store) => panic!("unexpected: {:?}", store),
    }
}

#[test]
fn construction_error_kinds() {
    assert_eq!(ConstructionError::Io("x".to_string()).kind(), ErrorKind::Io);
    assert_eq!(ConstructionError::TrustStore("x".to_string()).kind(), ErrorKind::TrustStore);
    assert_eq!(ConstructionError::EndpointBind("x".to_string()).kind(), ErrorKind::EndpointBind);
}
