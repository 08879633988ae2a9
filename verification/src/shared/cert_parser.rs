//! What a server's certificate says of itself.
//!
//! The DER encoding is read by the `x509-parser` crate. What it finds in a
//! certificate is held here as plain values, and the rules that make the
//! report out of them are stated and proved over those values.

use crate::shared::text::{decimal, decimal_text, hex_pair, hex_text};
use vstd::prelude::*;
use vstd::string::*;
use x509_parser::certificate::X509Certificate;
use x509_parser::extensions::GeneralName;
use x509_parser::prelude::FromDer;
use x509_parser::x509::X509Name;

verus! {

/// One entry of the subject alternative name extension.
#[derive(Debug)]
pub enum AltName {
    /// A DNS name.
    Dns(String),
    /// An IP address, by its bytes.
    Ip(Vec<u8>),
    /// An entry of another kind.
    Other,
}

/// One entry of the subject alternative name extension, as a value of
/// specifications.
pub enum AltNameView {
    Dns(Seq<char>),
    Ip(Seq<u8>),
    Other,
}

impl View for AltName {
    type V = AltNameView;

    open spec fn view(&self) -> AltNameView {
        match self {
            AltName::Dns(name) => AltNameView::Dns(name@),
            AltName::Ip(bytes) => AltNameView::Ip(bytes@),
            AltName::Other => AltNameView::Other,
        }
    }
}

/// A distinguished name: its common name attributes in order, each with its
/// text where its content is a string, and the name written out in full.
#[derive(Debug)]
pub struct DecodedName {
    pub common_names: Vec<Option<String>>,
    pub text: String,
}

/// A distinguished name as a value of specifications.
pub struct DecodedNameView {
    pub common_names: Seq<Option<Seq<char>>>,
    pub text: Seq<char>,
}

/// The view of an optional string.
pub open spec fn opt_view(s: Option<String>) -> Option<Seq<char>> {
    match s {
        Some(t) => Some(t@),
        None => None,
    }
}

impl View for DecodedName {
    type V = DecodedNameView;

    open spec fn view(&self) -> DecodedNameView {
        DecodedNameView {
            common_names: self.common_names@.map_values(|s: Option<String>| opt_view(s)),
            text: self.text@,
        }
    }
}

/// What a certificate holds, as far as the report needs it.
#[derive(Debug)]
pub struct DecodedCertificate {
    pub subject: DecodedName,
    pub issuer: DecodedName,
    /// The start of validity in seconds since the Unix epoch.
    pub not_before: i64,
    /// The end of validity in seconds since the Unix epoch.
    pub not_after: i64,
    /// The entries of the subject alternative name extension; none where
    /// the certificate has no such extension, or not exactly one that reads.
    pub alt_names: Vec<AltName>,
}

/// What a certificate holds, as a value of specifications.
pub struct DecodedCertificateView {
    pub subject: DecodedNameView,
    pub issuer: DecodedNameView,
    pub not_before: i64,
    pub not_after: i64,
    pub alt_names: Seq<AltNameView>,
}

impl View for DecodedCertificate {
    type V = DecodedCertificateView;

    open spec fn view(&self) -> DecodedCertificateView {
        DecodedCertificateView {
            subject: self.subject@,
            issuer: self.issuer@,
            not_before: self.not_before,
            not_after: self.not_after,
            alt_names: self.alt_names@.map_values(|a: AltName| a@),
        }
    }
}

/// What `x509_parser::certificate::X509Certificate::from_der` reads out of
/// DER bytes, by the accessors `subject`, `issuer`, `validity` and
/// `subject_alternative_name`; nothing where the bytes do not parse.
pub uninterp spec fn x509_decoded(der: Seq<u8>) -> Option<DecodedCertificateView>;

/// Parses `der` with `X509Certificate::from_der` and copies out the
/// subject and the issuer, in this order. Trusted: they are those of
/// `x509_decoded` of the bytes, and nothing comes back where that is nothing.
#[verifier::external_body]
fn decode_names(der: &[u8]) -> (r: Option<(DecodedName, DecodedName)>)
    ensures
        match r {
            Some(names) => x509_decoded(der@) matches Some(cert) && cert.subject == names.0@
                && cert.issuer == names.1@,
            None => x509_decoded(der@) is None,
        },
{
    let (_, c) = X509Certificate::from_der(der).ok()?;
    let name = |n: &X509Name| DecodedName {
        common_names: n.iter_common_name().map(|a| a.as_str().ok().map(String::from)).collect(),
        text: n.to_string(),
    };
    Some((name(c.subject()), name(c.issuer())))
}

/// Parses `der` with `X509Certificate::from_der` and copies out the start
/// and the end of validity as Unix timestamps. Trusted: they are those of
/// `x509_decoded` of the bytes, and nothing comes back where that is nothing.
#[verifier::external_body]
fn decode_validity(der: &[u8]) -> (r: Option<(i64, i64)>)
    ensures
        match r {
            Some(bounds) => x509_decoded(der@) matches Some(cert) && cert.not_before == bounds.0
                && cert.not_after == bounds.1,
            None => x509_decoded(der@) is None,
        },
{
    let (_, c) = X509Certificate::from_der(der).ok()?;
    Some((c.validity().not_before.timestamp(), c.validity().not_after.timestamp()))
}

/// Parses `der` with `X509Certificate::from_der` and copies out the entries
/// of the subject alternative name extension. Trusted: they are those of
/// `x509_decoded` of the bytes, and nothing comes back where that is nothing.
#[verifier::external_body]
fn decode_alt_names(der: &[u8]) -> (r: Option<Vec<AltName>>)
    ensures
        match r {
            Some(names) => x509_decoded(der@) matches Some(cert) && cert.alt_names
                == names@.map_values(|a: AltName| a@),
            None => x509_decoded(der@) is None,
        },
{
    let (_, c) = X509Certificate::from_der(der).ok()?;
    let san = c.subject_alternative_name().ok().flatten();
    let alt = |g: &GeneralName| match g {
        GeneralName::DNSName(d) => AltName::Dns(d.to_string()),
        GeneralName::IPAddress(b) => AltName::Ip(b.to_vec()),
        _ => AltName::Other,
    };
    Some(san.map(|e| e.value.general_names.iter().map(alt).collect()).unwrap_or_default())
}

/// What the certificate in `der` holds; nothing where the bytes do not
/// parse.
pub fn decode_certificate(der: &[u8]) -> (r: Option<DecodedCertificate>)
    ensures
        match r {
            Some(cert) => x509_decoded(der@) == Some(cert@),
            None => x509_decoded(der@) is None,
        },
{
    match (decode_names(der), decode_validity(der), decode_alt_names(der)) {
        (Some(names), Some(bounds), Some(alt_names)) => {
            let cert = DecodedCertificate {
                subject: names.0,
                issuer: names.1,
                not_before: bounds.0,
                not_after: bounds.1,
                alt_names,
            };
            Some(cert)
        },
        _ => None,
    }
}

/// The first common name of a distinguished name, where it has one and its
/// content is a string.
pub open spec fn first_common_name(name: DecodedNameView) -> Option<Seq<char>> {
    if name.common_names.len() > 0 {
        name.common_names[0]
    } else {
        None
    }
}

/// How a distinguished name is reported: by its first common name, or in
/// full where it has none that is a string.
pub open spec fn reported_name(name: DecodedNameView) -> Seq<char> {
    match first_common_name(name) {
        Some(cn) => cn,
        None => name.text,
    }
}

/// Four bytes as a dotted quad.
pub open spec fn dotted_quad(b: Seq<u8>) -> Seq<char>
    recommends
        b.len() == 4,
{
    decimal(b[0] as nat) + "."@ + decimal(b[1] as nat) + "."@ + decimal(b[2] as nat) + "."@
        + decimal(b[3] as nat)
}

/// The short form in which sixteen bytes of an IPv6 address are reported:
/// the first two bytes in hexadecimal, the rest left out.
pub open spec fn short_ipv6(b: Seq<u8>) -> Seq<char>
    recommends
        b.len() == 16,
{
    "IPv6:"@ + hex_pair(b[0]) + hex_pair(b[1]) + ":..."@
}

/// How an alternative name is reported: a DNS name as it is, four bytes as
/// a dotted quad, sixteen bytes in the short IPv6 form; nothing else is.
pub open spec fn alt_name_text(name: AltNameView) -> Option<Seq<char>> {
    match name {
        AltNameView::Dns(dns) => Some(dns),
        AltNameView::Ip(bytes) => if bytes.len() == 4 {
            Some(dotted_quad(bytes))
        } else if bytes.len() == 16 {
            Some(short_ipv6(bytes))
        } else {
            None
        },
        AltNameView::Other => None,
    }
}

/// The alternative names that are reported, in their order.
pub open spec fn alt_name_texts(names: Seq<AltNameView>) -> Seq<Seq<char>>
    decreases names.len(),
{
    if names.len() == 0 {
        Seq::empty()
    } else {
        match alt_name_text(names.last()) {
            Some(text) => alt_name_texts(names.drop_last()).push(text),
            None => alt_name_texts(names.drop_last()),
        }
    }
}

/// What a certificate says of itself.
#[derive(Debug)]
pub struct BasicCertInfo {
    pub issuer: Option<String>,
    pub subject: Option<String>,
    pub valid_from: Option<u64>,
    pub valid_to: Option<u64>,
    pub san: Vec<String>,
}

/// What a certificate says of itself, as a value of specifications.
pub struct BasicCertInfoView {
    pub issuer: Option<Seq<char>>,
    pub subject: Option<Seq<char>>,
    pub valid_from: Option<u64>,
    pub valid_to: Option<u64>,
    pub san: Seq<Seq<char>>,
}

impl View for BasicCertInfo {
    type V = BasicCertInfoView;

    open spec fn view(&self) -> BasicCertInfoView {
        BasicCertInfoView {
            issuer: opt_view(self.issuer),
            subject: opt_view(self.subject),
            valid_from: self.valid_from,
            valid_to: self.valid_to,
            san: self.san@.map_values(|s: String| s@),
        }
    }
}

impl Default for BasicCertInfo {
    fn default() -> (info: Self)
        ensures
            info@ == summary(None),
    {
        let info = BasicCertInfo {
            issuer: None,
            subject: None,
            valid_from: None,
            valid_to: None,
            san: Vec::new(),
        };
        assert(info@.san =~= Seq::empty());
        info
    }
}

/// What is reported of a certificate: nothing of one that did not parse;
/// else subject and issuer by their reported names, the bounds of validity
/// as Unix timestamps, and the alternative names that are reported.
pub open spec fn summary(decoded: Option<DecodedCertificateView>) -> BasicCertInfoView {
    match decoded {
        None => BasicCertInfoView {
            issuer: None,
            subject: None,
            valid_from: None,
            valid_to: None,
            san: Seq::empty(),
        },
        Some(cert) => BasicCertInfoView {
            issuer: Some(reported_name(cert.issuer)),
            subject: Some(reported_name(cert.subject)),
            valid_from: Some(cert.not_before as u64),
            valid_to: Some(cert.not_after as u64),
            san: alt_name_texts(cert.alt_names),
        },
    }
}

/// How a distinguished name is reported.
fn name_text(name: DecodedName) -> (text: String)
    ensures
        text@ == reported_name(name@),
{
    let DecodedName { mut common_names, text } = name;
    if common_names.len() > 0 {
        match common_names.swap_remove(0) {
            Some(cn) => cn,
            None => text,
        }
    } else {
        text
    }
}

/// How an alternative name is reported, if it is.
fn alt_text(name: &AltName) -> (text: Option<String>)
    ensures
        opt_view(text) == alt_name_text(name@),
{
    match name {
        AltName::Dns(dns) => Some(dns.clone()),
        AltName::Ip(bytes) => {
            if bytes.len() == 4 {
                let mut text = decimal_text(bytes[0] as u64);
                text.append(".");
                text.append(decimal_text(bytes[1] as u64).as_str());
                text.append(".");
                text.append(decimal_text(bytes[2] as u64).as_str());
                text.append(".");
                text.append(decimal_text(bytes[3] as u64).as_str());
                Some(text)
            } else if bytes.len() == 16 {
                let mut text = String::from_str("IPv6:");
                text.append(hex_text(bytes[0]).as_str());
                text.append(hex_text(bytes[1]).as_str());
                text.append(":...");
                Some(text)
            } else {
                None
            }
        },
        AltName::Other => None,
    }
}

/// What is reported of a certificate, given what decoding found in it.
pub fn summarize(decoded: Option<DecodedCertificate>) -> (info: BasicCertInfo)
    ensures
        info@ == summary(
            match decoded {
                Some(cert) => Some(cert@),
                None => None,
            },
        ),
{
    match decoded {
        None => BasicCertInfo::default(),
        Some(cert) => {
            let ghost names = cert@.alt_names;
            let mut san: Vec<String> = Vec::new();
            let mut i: usize = 0;
            while i < cert.alt_names.len()
                invariant
                    i <= cert.alt_names@.len(),
                    names == cert.alt_names@.map_values(|a: AltName| a@),
                    san@.map_values(|s: String| s@) == alt_name_texts(names.take(i as int)),
                decreases cert.alt_names@.len() - i,
            {
                proof {
                    assert(names.take(i + 1).drop_last() == names.take(i as int));
                }
                match alt_text(&cert.alt_names[i]) {
                    Some(text) => {
                        san.push(text);
                    },
                    None => {},
                }
                i = i + 1;
            }
            proof {
                assert(names.take(names.len() as int) == names);
            }
            BasicCertInfo {
                issuer: Some(name_text(cert.issuer)),
                subject: Some(name_text(cert.subject)),
                valid_from: Some(cert.not_before as u64),
                valid_to: Some(cert.not_after as u64),
                san,
            }
        },
    }
}

/// What the certificate in `der` says of itself. Bytes that do not parse
/// give a report without content.
pub fn parse_x509_basic(der: &[u8]) -> (info: BasicCertInfo)
    ensures
        info@ == summary(x509_decoded(der@)),
{
    summarize(decode_certificate(der))
}

/// Subject and issuer are reported by their common names where they have
/// one that is a string, and the bounds of validity are the timestamps that
/// the certificate holds wherever these are not negative.
pub proof fn lemma_summary_faithful(cert: DecodedCertificateView)
    ensures
        first_common_name(cert.subject) matches Some(cn) ==> summary(Some(cert)).subject == Some(
            cn,
        ),
        first_common_name(cert.issuer) matches Some(cn) ==> summary(Some(cert)).issuer == Some(cn),
        cert.not_before >= 0 ==> summary(Some(cert)).valid_from == Some(cert.not_before as u64)
            && cert.not_before as u64 == cert.not_before,
        cert.not_after >= 0 ==> summary(Some(cert)).valid_to == Some(cert.not_after as u64)
            && cert.not_after as u64 == cert.not_after,
{
}

/// The version of TLS that a session runs.
#[derive(Debug, Clone, Copy, PartialEq, Eq)]
pub enum TlsVersion {
    Tls12,
    Tls13,
    /// Another version, or none that is known.
    Other,
}

/// What a TLS session shows once the handshake is done.
#[derive(Debug)]
pub struct TlsSession {
    pub version: TlsVersion,
    /// The name of the negotiated cipher suite, where one was negotiated.
    pub cipher_suite: Option<String>,
    /// The certificates that the peer presented, its own first, each in DER.
    pub peer_certificates: Option<Vec<Vec<u8>>>,
}

/// The TLS session and the server's certificate, as captured at the
/// handshake.
#[derive(Debug, Clone)]
pub struct CapturedCertInfo {
    pub protocol: String,
    pub cipher: String,
    pub issuer: Option<String>,
    pub subject: Option<String>,
    pub valid_from: Option<u64>,
    pub valid_to: Option<u64>,
    pub san: Vec<String>,
}

/// The name under which a TLS version is reported.
pub open spec fn protocol_name(version: TlsVersion) -> Seq<char> {
    match version {
        TlsVersion::Tls12 => "TLS 1.2"@,
        TlsVersion::Tls13 => "TLS 1.3"@,
        TlsVersion::Other => "TLS"@,
    }
}

/// The certificate that the peer presented for itself, if it presented any.
pub open spec fn peer_certificate(session: TlsSession) -> Option<Seq<u8>> {
    match session.peer_certificates {
        Some(certs) => if certs@.len() > 0 {
            Some(certs@[0]@)
        } else {
            None
        },
        None => None,
    }
}

/// `info` is what is captured of a session that runs `version` with the
/// cipher suite `cipher_suite` and whose certificate reads as `cert`.
pub open spec fn captures(
    info: CapturedCertInfo,
    version: TlsVersion,
    cipher_suite: Option<Seq<char>>,
    cert: BasicCertInfoView,
) -> bool {
    &&& info.protocol@ == protocol_name(version)
    &&& info.cipher@ == match cipher_suite {
        Some(name) => name,
        None => "Unknown"@,
    }
    &&& opt_view(info.issuer) == cert.issuer
    &&& opt_view(info.subject) == cert.subject
    &&& info.valid_from == cert.valid_from
    &&& info.valid_to == cert.valid_to
    &&& info.san@.map_values(|s: String| s@) == cert.san
}

/// `r` is what is captured of `session`: nothing where the peer presented
/// no certificate; else the protocol, the cipher suite and what the peer's
/// own certificate says of itself.
pub open spec fn extracted(r: Option<CapturedCertInfo>, session: TlsSession) -> bool {
    match peer_certificate(session) {
        None => r is None,
        Some(der) => r matches Some(info) && captures(
            info,
            session.version,
            opt_view(session.cipher_suite),
            summary(x509_decoded(der)),
        ),
    }
}

/// What is captured of a TLS session.
pub fn extract_cert_info(session: &TlsSession) -> (r: Option<CapturedCertInfo>)
    ensures
        extracted(r, *session),
{
    let protocol = String::from_str(
        match session.version {
            TlsVersion::Tls12 => "TLS 1.2",
            TlsVersion::Tls13 => "TLS 1.3",
            TlsVersion::Other => "TLS",
        },
    );
    let cipher = match &session.cipher_suite {
        Some(name) => name.clone(),
        None => String::from_str("Unknown"),
    };
    match &session.peer_certificates {
        None => None,
        Some(certs) => {
            if certs.len() == 0 {
                None
            } else {
                let cert = parse_x509_basic(certs[0].as_slice());
                Some(
                    CapturedCertInfo {
                        protocol,
                        cipher,
                        issuer: cert.issuer,
                        subject: cert.subject,
                        valid_from: cert.valid_from,
                        valid_to: cert.valid_to,
                        san: cert.san,
                    },
                )
            }
        },
    }
}

} // verus!
