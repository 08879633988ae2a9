//! The result of an execution, made from the last response and from what
//! was observed on the way to it.

use crate::infra::decompressor::{decompress_body, decompressed};
use crate::proxy::headers::{lookup, Headers};
use crate::proxy::types::{
    CompressionRatio, ErrorCode, ProxyResponse, RedirectHop, ResponseData, SizeBreakdown, TlsInfo,
};
use crate::shared::cert_parser::{
    captures, first_common_name, opt_view, summary, CapturedCertInfo, DecodedCertificateView,
    TlsVersion,
};
use crate::shared::status_text::{reason_phrase, status_text};
use crate::shared::text::{
    byte_count, contains, decimal, decimal_text, from_utf8_lossy, has_part, lossy_text, lowercase,
    to_lowercase,
};
use crate::shared::timing::DetailedTiming;
use base64::Engine;
use vstd::prelude::*;
use vstd::string::*;
use vstd::utf8::encode_utf8;

verus! {

/// A content type names text when, in lowercase, it holds one of these:
/// `text/`, `application/json`, `application/xml`, `application/javascript`,
/// `application/x-javascript`, `application/ecmascript`,
/// `application/x-www-form-urlencoded`, `+json`, `+xml`.
pub open spec fn names_text(lowered: Seq<char>) -> bool {
    ||| has_part(lowered, "text/"@)
    ||| has_part(lowered, "application/json"@)
    ||| has_part(lowered, "application/xml"@)
    ||| has_part(lowered, "application/javascript"@)
    ||| has_part(lowered, "application/x-javascript"@)
    ||| has_part(lowered, "application/ecmascript"@)
    ||| has_part(lowered, "application/x-www-form-urlencoded"@)
    ||| has_part(lowered, "+json"@)
    ||| has_part(lowered, "+xml"@)
}

/// A body is binary when its content type is known and does not name text.
pub open spec fn is_binary(content_type: Option<Seq<char>>) -> bool {
    match content_type {
        Some(ct) => !names_text(lowercase(ct)),
        None => false,
    }
}

/// Whether a content type, given in lowercase, names text.
pub fn is_text_type(lowered: &str) -> (b: bool)
    ensures
        b == names_text(lowered@),
{
    contains(lowered, "text/") || contains(lowered, "application/json") || contains(
        lowered,
        "application/xml",
    ) || contains(lowered, "application/javascript") || contains(
        lowered,
        "application/x-javascript",
    ) || contains(lowered, "application/ecmascript") || contains(
        lowered,
        "application/x-www-form-urlencoded",
    ) || contains(lowered, "+json") || contains(lowered, "+xml")
}

/// Whether a body of the given content type is binary. A body without a
/// content type is text.
pub fn is_binary_content(content_type: Option<&str>) -> (b: bool)
    ensures
        b == is_binary(
            match content_type {
                Some(ct) => Some(ct@),
                None => None,
            },
        ),
{
    match content_type {
        Some(ct) => {
            let lowered = to_lowercase(ct);
            !is_text_type(lowered.as_str())
        },
        None => false,
    }
}

/// The versions of HTTP.
#[derive(Debug, Clone, Copy, PartialEq, Eq)]
pub enum HttpVersion {
    Http09,
    Http10,
    Http11,
    Http2,
    Http3,
    /// A version without a name of its own.
    Other,
}

/// The name of a version of HTTP; a version without a name of its own goes
/// by `HTTP/1.1`.
pub open spec fn version_name(version: HttpVersion) -> Seq<char> {
    match version {
        HttpVersion::Http09 => "HTTP/0.9"@,
        HttpVersion::Http10 => "HTTP/1.0"@,
        HttpVersion::Http11 => "HTTP/1.1"@,
        HttpVersion::Http2 => "HTTP/2"@,
        HttpVersion::Http3 => "HTTP/3"@,
        HttpVersion::Other => "HTTP/1.1"@,
    }
}

/// The name of a version of HTTP.
pub fn version_to_string(version: HttpVersion) -> (name: String)
    ensures
        name@ == version_name(version),
{
    String::from_str(
        match version {
            HttpVersion::Http09 => "HTTP/0.9",
            HttpVersion::Http10 => "HTTP/1.0",
            HttpVersion::Http11 => "HTTP/1.1",
            HttpVersion::Http2 => "HTTP/2",
            HttpVersion::Http3 => "HTTP/3",
            HttpVersion::Other => "HTTP/1.1",
        },
    )
}

/// What `base64::engine::general_purpose::STANDARD` encodes bytes to: the
/// standard alphabet, with padding.
pub uninterp spec fn base64_text(bytes: Seq<u8>) -> Seq<char>;

/// So many bytes can be encoded in base64: four characters for every three
/// bytes, and the number of the characters fits `usize`.
pub open spec fn encodable(bytes: nat) -> bool {
    (bytes / 3) * 4 + 4 <= usize::MAX
}

/// Encodes with `base64::engine::general_purpose::STANDARD`. Trusted: the
/// result is `base64_text` of the bytes. The encoder gives up where the
/// length of its output does not fit `usize`; such input is not admitted.
#[verifier::external_body]
fn base64_encode(bytes: &[u8]) -> (r: String)
    requires
        encodable(bytes@.len()),
    ensures
        r@ == base64_text(bytes@),
{
    base64::engine::general_purpose::STANDARD.encode(bytes)
}

/// The number of bytes of a text in UTF-8.
pub open spec fn utf8_len(s: Seq<char>) -> nat {
    encode_utf8(s).len()
}

/// A size, capped at the largest that `usize` holds.
pub open spec fn capped(n: int) -> usize {
    if n > usize::MAX {
        usize::MAX
    } else {
        n as usize
    }
}

/// The bytes that the pairs take on the wire: for each pair its name, its
/// value, and two bytes after each of the two.
pub open spec fn pairs_size(m: Seq<(Seq<char>, Seq<char>)>) -> nat
    decreases m.len(),
{
    if m.len() == 0 {
        0
    } else {
        pairs_size(m.drop_last()) + utf8_len(m.last().0) + 2 + utf8_len(m.last().1) + 2
    }
}

/// The status line of a response.
pub open spec fn status_line(version: HttpVersion, status: u16) -> Seq<char> {
    version_name(version) + " "@ + decimal(status as nat) + " "@ + reason_phrase(status)
}

/// The bytes that status line and headers take on the wire, close to what
/// was sent: the pairs, the status line, and two bytes after it.
pub open spec fn head_size(m: Seq<(Seq<char>, Seq<char>)>, version: HttpVersion, status: u16) -> nat {
    pairs_size(m) + utf8_len(status_line(version, status)) + 2
}

/// The number of bytes of a text in UTF-8.
fn text_size(s: &str) -> (n: usize)
    ensures
        n == utf8_len(s@),
{
    s.as_bytes().len()
}

/// The bytes that the pairs of `headers` take on the wire, capped.
fn measure_pairs(headers: &Headers) -> (n: usize)
    ensures
        n == capped(pairs_size(headers@) as int),
{
    let mut total: usize = 0;
    let mut i: usize = 0;
    while i < headers.len()
        invariant
            i <= headers@.len(),
            total == capped(pairs_size(headers@.take(i as int)) as int),
        decreases headers@.len() - i,
    {
        proof {
            assert(headers@.take(i + 1).drop_last() == headers@.take(i as int));
        }
        match headers.entry(i) {
            Some(pair) => {
                total = total.saturating_add(text_size(pair.name.as_str()));
                total = total.saturating_add(2);
                total = total.saturating_add(text_size(pair.value.as_str()));
                total = total.saturating_add(2);
            },
            None => {},
        }
        i = i + 1;
    }
    proof {
        assert(headers@.take(headers@.len() as int) == headers@);
    }
    total
}

/// The bytes that status line and headers take on the wire, capped.
pub fn measure_head(headers: &Headers, version: HttpVersion, status: u16) -> (n: usize)
    ensures
        n == capped(head_size(headers@, version, status) as int),
{
    let mut line = version_to_string(version);
    line.append(" ");
    line.append(decimal_text(status as u64).as_str());
    line.append(" ");
    line.append(status_text(status).as_str());
    let pairs = measure_pairs(headers);
    pairs.saturating_add(text_size(line.as_str())).saturating_add(2)
}

/// What is needed to make the result of an execution.
#[derive(Debug)]
pub struct ResponseBuildParams {
    pub status: u16,
    pub headers: Headers,
    /// The body as it came, before decompression.
    pub body_bytes: Vec<u8>,
    pub timing: DetailedTiming,
    pub final_url: String,
    pub redirect_chain: Vec<RedirectHop>,
    pub tls_info: Option<CapturedCertInfo>,
    pub http_version: HttpVersion,
    /// The address of the server, as text.
    pub server_ip: Option<String>,
    pub request_headers: Headers,
    pub request_body_size: Option<usize>,
}

/// `tls` reports what `info` captured.
pub open spec fn reports_tls(tls: Option<TlsInfo>, info: Option<CapturedCertInfo>) -> bool {
    match info {
        None => tls is None,
        Some(captured) => {
            &&& tls matches Some(t)
            &&& t.protocol == Some(captured.protocol)
            &&& t.cipher == Some(captured.cipher)
            &&& t.issuer == captured.issuer
            &&& t.subject == captured.subject
            &&& t.valid_from == captured.valid_from
            &&& t.valid_to == captured.valid_to
            &&& t.valid == Some(true)
        },
    }
}

/// `sizes` breaks down a response whose head takes `head` bytes and whose
/// body takes `compressed` bytes as it came and `body` bytes decompressed,
/// under the content encoding `encoding`. Compressed and uncompressed size
/// are given where a content encoding is, the ratio also only where the
/// body is not empty.
pub open spec fn breaks_down(
    sizes: SizeBreakdown,
    head: usize,
    compressed: usize,
    body: usize,
    encoding: Option<Seq<char>>,
) -> bool {
    &&& sizes.headers == head
    &&& sizes.body == body
    &&& sizes.total == capped(head + body)
    &&& sizes.compressed == if encoding is Some {
        Some(compressed)
    } else {
        None
    }
    &&& sizes.uncompressed == if encoding is Some {
        Some(body)
    } else {
        None
    }
    &&& opt_view(sizes.encoding) == encoding
    &&& sizes.compression_ratio == if encoding is Some && body > 0 {
        Some(CompressionRatio { compressed, uncompressed: body })
    } else {
        None
    }
}

/// `data` is the result made of `params` at the instant `now`, for a body
/// that decompressed to `body_size` bytes and is rendered as `body` and
/// `body_base64`.
pub open spec fn assembled(
    data: ResponseData,
    params: ResponseBuildParams,
    now: u64,
    body_size: usize,
    binary: bool,
    body: Seq<char>,
    body_base64: Option<Seq<char>>,
) -> bool {
    &&& data.status == params.status
    &&& data.status_text@ == reason_phrase(params.status)
    &&& data.headers == params.headers
    &&& data.request_headers == Some(params.request_headers)
    &&& data.body@ == body
    &&& opt_view(data.body_base64) == body_base64
    &&& data.is_binary == binary
    &&& data.size == body_size
    &&& data.timing == params.timing.durations(now)
    &&& data.url == params.final_url
    &&& data.redirected == (params.redirect_chain@.len() > 0)
    &&& data.redirect_chain == if params.redirect_chain@.len() > 0 {
        Some(params.redirect_chain)
    } else {
        None
    }
    &&& reports_tls(data.tls, params.tls_info)
    &&& data.size_breakdown matches Some(sizes)
    &&& breaks_down(
        sizes,
        capped(head_size(params.headers@, params.http_version, params.status) as int),
        params.body_bytes@.len() as usize,
        body_size,
        lookup(params.headers@, "content-encoding"@),
    )
    &&& data.server_ip == params.server_ip
    &&& opt_view(data.protocol) == Some(version_name(params.http_version))
    &&& data.from_cache == Some(false)
    &&& opt_view(data.resource_type) == Some("fetch"@)
    &&& data.request_body_size == params.request_body_size
    &&& opt_view(data.connection) == lookup(params.headers@, "connection"@)
    &&& opt_view(data.server_software) == lookup(params.headers@, "server"@)
}

/// A copy of the value held under `name`, if there is one.
fn header_value(headers: &Headers, name: &str) -> (r: Option<String>)
    ensures
        opt_view(r) == lookup(headers@, name@),
{
    match headers.get(name) {
        Some(value) => Some(value.clone()),
        None => None,
    }
}

/// A body as it is reported: text read from the bytes as UTF-8, or, for a
/// binary body, no text and the bytes in base64.
pub fn render_body(binary: bool, bytes: &[u8]) -> (r: (String, Option<String>))
    requires
        binary ==> encodable(bytes@.len()),
    ensures
        r.0@ == if binary {
            Seq::<char>::empty()
        } else {
            lossy_text(bytes@)
        },
        opt_view(r.1) == if binary {
            Some(base64_text(bytes@))
        } else {
            None
        },
{
    if binary {
        (String::new(), Some(base64_encode(bytes)))
    } else {
        (from_utf8_lossy(bytes), None)
    }
}

/// The result made of `params` at the instant `now`, for a body that
/// decompressed to `body_size` bytes and is rendered as `body` and
/// `body_base64`.
pub fn assemble(
    params: ResponseBuildParams,
    now: u64,
    body_size: usize,
    binary: bool,
    body: String,
    body_base64: Option<String>,
) -> (data: ResponseData)
    ensures
        assembled(data, params, now, body_size, binary, body@, opt_view(body_base64)),
{
    let head = measure_head(&params.headers, params.http_version, params.status);
    let compressed = params.body_bytes.len();
    let encoding = header_value(&params.headers, "content-encoding");
    let encoded = encoding.is_some();
    let sizes = SizeBreakdown {
        headers: head,
        body: body_size,
        total: head.saturating_add(body_size),
        compressed: if encoded {
            Some(compressed)
        } else {
            None
        },
        uncompressed: if encoded {
            Some(body_size)
        } else {
            None
        },
        encoding,
        compression_ratio: if encoded && body_size > 0 {
            Some(CompressionRatio { compressed, uncompressed: body_size })
        } else {
            None
        },
    };
    let tls = match params.tls_info {
        Some(info) => Some(
            TlsInfo {
                protocol: Some(info.protocol),
                cipher: Some(info.cipher),
                issuer: info.issuer,
                subject: info.subject,
                valid_from: info.valid_from,
                valid_to: info.valid_to,
                valid: Some(true),
            },
        ),
        None => None,
    };
    let server_software = header_value(&params.headers, "server");
    let connection = header_value(&params.headers, "connection");
    let redirected = params.redirect_chain.len() > 0;
    ResponseData {
        status: params.status,
        status_text: status_text(params.status),
        headers: params.headers,
        request_headers: Some(params.request_headers),
        body,
        body_base64,
        is_binary: binary,
        size: body_size,
        timing: params.timing.to_timing_info(now),
        url: params.final_url,
        redirected,
        redirect_chain: if redirected {
            Some(params.redirect_chain)
        } else {
            None
        },
        tls,
        size_breakdown: Some(sizes),
        server_ip: params.server_ip,
        protocol: Some(version_to_string(params.http_version)),
        from_cache: Some(false),
        resource_type: Some(String::from_str("fetch")),
        request_body_size: params.request_body_size,
        connection,
        server_software,
    }
}

/// `response` is the result of an execution that ended with `params` at the
/// instant `now`: its body is decompressed as its content encoding says,
/// and a body that does not decompress makes the execution fail.
pub open spec fn built(response: ProxyResponse, params: ResponseBuildParams, now: u64) -> bool {
    let binary = is_binary(lookup(params.headers@, "content-type"@));
    match decompressed(params.body_bytes@, lookup(params.headers@, "content-encoding"@)) {
        Err(message) => response.fails_with(message, ErrorCode::DecompressionError),
        Ok(bytes) => {
            &&& response matches ProxyResponse::Success { data }
            &&& assembled(
                data,
                params,
                now,
                bytes.len() as usize,
                binary,
                if binary {
                    Seq::<char>::empty()
                } else {
                    lossy_text(bytes)
                },
                if binary {
                    Some(base64_text(bytes))
                } else {
                    None
                },
            )
        },
    }
}

/// The result of an execution that ended with `params` at the instant
/// `now`.
pub fn build_response(params: ResponseBuildParams, now: u64) -> (response: ProxyResponse)
    ensures
        built(response, params, now),
{
    let binary = {
        let content_type = params.headers.get("content-type");
        match content_type {
            Some(ct) => is_binary_content(Some(ct.as_str())),
            None => is_binary_content(None),
        }
    };
    let outcome = {
        let encoding = params.headers.get("content-encoding");
        match encoding {
            Some(name) => decompress_body(params.body_bytes.as_slice(), Some(name.as_str())),
            None => decompress_body(params.body_bytes.as_slice(), None),
        }
    };
    match outcome {
        Err(message) => ProxyResponse::failure(message, ErrorCode::DecompressionError),
        Ok(bytes) => {
            let size = byte_count(bytes.as_slice());
            let (body, body_base64) = render_body(binary, bytes.as_slice());
            let data = assemble(params, now, size, binary, body, body_base64);
            ProxyResponse::success(data)
        },
    }
}

/// The TLS report of a result names subject and issuer by the common names
/// of the certificate, where it has them, and gives the bounds of validity
/// as the certificate holds them, where they are not negative.
pub proof fn lemma_tls_report_faithful(
    tls: Option<TlsInfo>,
    info: CapturedCertInfo,
    version: TlsVersion,
    cipher_suite: Option<Seq<char>>,
    cert: DecodedCertificateView,
)
    requires
        reports_tls(tls, Some(info)),
        captures(info, version, cipher_suite, summary(Some(cert))),
    ensures
        tls is Some,
        first_common_name(cert.subject) matches Some(cn) ==> opt_view(tls->0.subject) == Some(cn),
        first_common_name(cert.issuer) matches Some(cn) ==> opt_view(tls->0.issuer) == Some(cn),
        cert.not_before >= 0 ==> tls->0.valid_from == Some(cert.not_before as u64)
            && cert.not_before as u64 == cert.not_before,
        cert.not_after >= 0 ==> tls->0.valid_to == Some(cert.not_after as u64) && cert.not_after as u64
            == cert.not_after,
{
}

} // verus!
