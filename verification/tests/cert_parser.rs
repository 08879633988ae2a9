use http_visualizer_app::shared::cert_parser::{
    decode_certificate, extract_cert_info, parse_x509_basic, summarize, AltName, BasicCertInfo,
    DecodedCertificate, DecodedName, TlsSession, TlsVersion,
};

fn leaf_certificate() -> Vec<u8> {
    vec![
        48, 130, 1, 68, 48, 129, 247, 160, 3, 2, 1, 2, 2, 1, 1, 48,
        5, 6, 3, 43, 101, 112, 48, 20, 49, 18, 48, 16, 6, 3, 85, 4,
        3, 12, 9, 84, 101, 115, 116, 32, 82, 111, 111, 116, 48, 30, 23, 13,
        50, 52, 48, 49, 48, 49, 48, 48, 48, 48, 48, 48, 90, 23, 13, 51,
        52, 48, 49, 48, 49, 48, 48, 48, 48, 48, 48, 90, 48, 45, 49, 21,
        48, 19, 6, 3, 85, 4, 3, 12, 12, 101, 120, 97, 109, 112, 108, 101,
        46, 116, 101, 115, 116, 49, 20, 48, 18, 6, 3, 85, 4, 10, 12, 11,
        69, 120, 97, 109, 112, 108, 101, 32, 79, 114, 103, 48, 42, 48, 5, 6,
        3, 43, 101, 112, 3, 33, 0, 197, 28, 118, 192, 85, 14, 115, 209, 77,
        58, 67, 15, 199, 50, 161, 249, 31, 240, 53, 71, 115, 109, 11, 60, 187,
        34, 202, 254, 121, 59, 10, 83, 163, 85, 48, 83, 48, 81, 6, 3, 85,
        29, 17, 4, 74, 48, 72, 130, 12, 101, 120, 97, 109, 112, 108, 101, 46,
        116, 101, 115, 116, 130, 16, 119, 119, 119, 46, 101, 120, 97, 109, 112, 108,
        101, 46, 116, 101, 115, 116, 135, 4, 192, 168, 7, 1, 135, 16, 32, 1,
        13, 184, 0, 0, 0, 0, 0, 0, 0, 0, 0, 0, 0, 1, 129, 14,
        97, 64, 101, 120, 97, 109, 112, 108, 101, 46, 116, 101, 115, 116, 48, 5,
        6, 3, 43, 101, 112, 3, 65, 0, 35, 98, 125, 14, 233, 227, 203, 66,
        85, 39, 201, 103, 186, 2, 75, 187, 154, 225, 173, 17, 80, 3, 84, 253,
        80, 194, 4, 181, 115, 77, 4, 114, 201, 202, 211, 186, 61, 136, 202, 6,
        86, 101, 25, 8, 81, 85, 190, 215, 14, 70, 219, 151, 91, 234, 24, 36,
        15, 86, 44, 206, 56, 182, 71, 14,
    ]
}

fn nameless_certificate() -> Vec<u8> {
    vec![
        48, 129, 228, 48, 129, 151, 160, 3, 2, 1, 2, 2, 1, 2, 48, 5,
        6, 3, 43, 101, 112, 48, 28, 49, 13, 48, 11, 6, 3, 85, 4, 10,
        12, 4, 65, 99, 109, 101, 49, 11, 48, 9, 6, 3, 85, 4, 6, 19,
        2, 85, 83, 48, 30, 23, 13, 50, 52, 48, 49, 48, 49, 48, 48, 48,
        48, 48, 48, 90, 23, 13, 51, 52, 48, 49, 48, 49, 48, 48, 48, 48,
        48, 48, 90, 48, 28, 49, 13, 48, 11, 6, 3, 85, 4, 10, 12, 4,
        65, 99, 109, 101, 49, 11, 48, 9, 6, 3, 85, 4, 6, 19, 2, 85,
        83, 48, 42, 48, 5, 6, 3, 43, 101, 112, 3, 33, 0, 197, 28, 118,
        192, 85, 14, 115, 209, 77, 58, 67, 15, 199, 50, 161, 249, 31, 240, 53,
        71, 115, 109, 11, 60, 187, 34, 202, 254, 121, 59, 10, 83, 48, 5, 6,
        3, 43, 101, 112, 3, 65, 0, 53, 180, 108, 108, 133, 216, 39, 115, 21,
        5, 24, 138, 200, 223, 130, 190, 65, 47, 216, 176, 254, 170, 183, 103, 63,
        177, 175, 185, 88, 8, 93, 126, 239, 222, 176, 160, 241, 120, 28, 79, 60,
        78, 176, 128, 97, 65, 40, 162, 173, 253, 155, 215, 43, 27, 4, 149, 70,
        115, 112, 5, 210, 81, 190, 10,
    ]
}

const NOT_BEFORE: u64 = 1704067200;
const NOT_AFTER: u64 = 2019686400;

#[test]
fn test_parse_invalid_der() {
    let info = parse_x509_basic(&[0, 1, 2, 3]);
    assert!(info.issuer.is_none());
    assert!(info.subject.is_none());
}

#[test]
fn test_basic_cert_info_default() {
    let info = BasicCertInfo::default();
    assert!(info.issuer.is_none());
    assert!(info.subject.is_none());
    assert!(info.valid_from.is_none());
    assert!(info.valid_to.is_none());
    assert!(info.san.is_empty());
}

#[test]
fn invalid_der_gives_an_empty_report() {
    let info = parse_x509_basic(&[]);
    assert!(info.issuer.is_none());
    assert!(info.subject.is_none());
    assert!(info.valid_from.is_none());
    assert!(info.valid_to.is_none());
    assert!(info.san.is_empty());
    assert!(decode_certificate(&[0x30, 0x03, 0x02, 0x01, 0x01]).is_none());
}

#[test]
fn certificate_is_reported_by_common_names() {
    let info = parse_x509_basic(&leaf_certificate());
    assert_eq!(info.subject.as_deref(), Some("example.test"));
    assert_eq!(info.issuer.as_deref(), Some("Test Root"));
    assert_eq!(info.valid_from, Some(NOT_BEFORE));
    assert_eq!(info.valid_to, Some(NOT_AFTER));
}

#[test]
fn alternative_names_are_rendered() {
    let info = parse_x509_basic(&leaf_certificate());
    assert_eq!(
        info.san,
        vec![
            "example.test".to_string(),
            "www.example.test".to_string(),
            "192.168.7.1".to_string(),
            "IPv6:2001:...".to_string(),
        ]
    );
}

#[test]
fn name_without_common_name_is_reported_in_full() {
    let info = parse_x509_basic(&nameless_certificate());
    assert_eq!(info.subject.as_deref(), Some("O=Acme, C=US"));
    assert_eq!(info.issuer.as_deref(), Some("O=Acme, C=US"));
    assert_eq!(info.valid_from, Some(NOT_BEFORE));
    assert_eq!(info.valid_to, Some(NOT_AFTER));
    assert!(info.san.is_empty());
}

#[test]
fn decoding_copies_the_certificate_out() {
    let cert = decode_certificate(&leaf_certificate()).unwrap();
    assert_eq!(cert.subject.common_names, vec![Some("example.test".to_string())]);
    assert_eq!(cert.subject.text, "CN=example.test, O=Example Org");
    assert_eq!(cert.issuer.common_names, vec![Some("Test Root".to_string())]);
    assert_eq!(cert.not_before, 1704067200);
    assert_eq!(cert.not_after, 2019686400);
    assert_eq!(cert.alt_names.len(), 5);
    assert!(matches!(&cert.alt_names[0], AltName::Dns(name) if name == "example.test"));
    assert!(matches!(&cert.alt_names[2], AltName::Ip(bytes) if bytes == &vec![192, 168, 7, 1]));
    assert!(matches!(&cert.alt_names[3], AltName::Ip(bytes) if bytes.len() == 16));
    assert!(matches!(&cert.alt_names[4], AltName::Other));
}

fn name(common_names: Vec<Option<String>>, text: &str) -> DecodedName {
    DecodedName { common_names, text: text.to_string() }
}

#[test]
fn summary_takes_the_first_common_name_only() {
    let cert = DecodedCertificate {
        subject: name(vec![Some("first".to_string()), Some("second".to_string())], "full subject"),
        issuer: name(vec![None, Some("second".to_string())], "full issuer"),
        not_before: 0,
        not_after: 1,
        alt_names: vec![],
    };
    let info = summarize(Some(cert));
    assert_eq!(info.subject.as_deref(), Some("first"));
    // The first common name is no string: the name is reported in full.
    assert_eq!(info.issuer.as_deref(), Some("full issuer"));
    assert_eq!(info.valid_from, Some(0));
    assert_eq!(info.valid_to, Some(1));
}

#[test]
fn summary_renders_addresses_by_length() {
    let cert = DecodedCertificate {
        subject: name(vec![], "s"),
        issuer: name(vec![], "i"),
        not_before: 10,
        not_after: 20,
        alt_names: vec![
            AltName::Ip(vec![0, 10, 200, 255]),
            AltName::Other,
            AltName::Ip(vec![0x0a, 0xff, 3, 4, 5, 6, 7, 8, 9, 10, 11, 12, 13, 14, 15, 16]),
            AltName::Ip(vec![1, 2, 3]),
            AltName::Dns("a.example".to_string()),
            AltName::Ip(vec![]),
        ],
    };
    let info = summarize(Some(cert));
    assert_eq!(
        info.san,
        vec!["0.10.200.255".to_string(), "IPv6:0aff:...".to_string(), "a.example".to_string()]
    );
    assert_eq!(info.subject.as_deref(), Some("s"));
    assert_eq!(info.issuer.as_deref(), Some("i"));
}

#[test]
fn summary_of_nothing_is_empty() {
    let info = summarize(None);
    assert!(info.subject.is_none());
    assert!(info.issuer.is_none());
    assert!(info.valid_from.is_none());
    assert!(info.valid_to.is_none());
    assert!(info.san.is_empty());
}

#[test]
fn session_without_certificate_captures_nothing() {
    let none = TlsSession {
        version: TlsVersion::Tls13,
        cipher_suite: Some("TLS13_AES_128_GCM_SHA256".to_string()),
        peer_certificates: None,
    };
    assert!(extract_cert_info(&none).is_none());
    let empty = TlsSession {
        version: TlsVersion::Tls13,
        cipher_suite: None,
        peer_certificates: Some(vec![]),
    };
    assert!(extract_cert_info(&empty).is_none());
}

#[test]
fn session_is_captured_with_its_first_certificate() {
    let session = TlsSession {
        version: TlsVersion::Tls13,
        cipher_suite: Some("TLS13_AES_256_GCM_SHA384".to_string()),
        peer_certificates: Some(vec![leaf_certificate(), nameless_certificate()]),
    };
    let info = extract_cert_info(&session).unwrap();
    assert_eq!(info.protocol, "TLS 1.3");
    assert_eq!(info.cipher, "TLS13_AES_256_GCM_SHA384");
    assert_eq!(info.subject.as_deref(), Some("example.test"));
    assert_eq!(info.issuer.as_deref(), Some("Test Root"));
    assert_eq!(info.valid_from, Some(NOT_BEFORE));
    assert_eq!(info.valid_to, Some(NOT_AFTER));
    assert_eq!(info.san.len(), 4);
}

#[test]
fn protocol_and_cipher_have_fallbacks() {
    let session = |version| TlsSession {
        version,
        cipher_suite: None,
        peer_certificates: Some(vec![vec![1, 2, 3]]),
    };
    let info = extract_cert_info(&session(TlsVersion::Tls12)).unwrap();
    assert_eq!(info.protocol, "TLS 1.2");
    assert_eq!(info.cipher, "Unknown");
    // A certificate that does not parse gives a report without content.
    assert!(info.subject.is_none());
    assert!(info.issuer.is_none());
    assert!(info.valid_from.is_none());
    assert!(info.san.is_empty());
    let info = extract_cert_info(&session(TlsVersion::Other)).unwrap();
    assert_eq!(info.protocol, "TLS");
}
