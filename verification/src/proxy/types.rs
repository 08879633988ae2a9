//! The request that comes in and the result that goes out.

use crate::proxy::headers::Headers;
use vstd::prelude::*;
use vstd::string::*;

verus! {

/// A request to execute.
#[derive(Debug)]
pub struct ProxyRequest {
    pub method: String,
    pub url: String,
    pub headers: Headers,
    pub body: Option<String>,
    /// Timeout in milliseconds.
    pub timeout: Option<u64>,
}

/// The timeout that holds where a request names none, in milliseconds.
pub const DEFAULT_TIMEOUT_MS: u64 = 30000;

/// How long the phases of a request took, in milliseconds.
#[derive(Debug)]
pub struct TimingInfo {
    /// From the start of the execution to the end of the download.
    pub total: u64,
    /// DNS lookup.
    pub dns: Option<u64>,
    /// TCP connection.
    pub tcp: Option<u64>,
    /// TLS handshake.
    pub tls: Option<u64>,
    /// From sending the request to the first byte of the response.
    pub ttfb: Option<u64>,
    /// Download of the body.
    pub download: Option<u64>,
    /// Time spent blocked or queued.
    pub blocked: Option<u64>,
}

impl Default for TimingInfo {
    fn default() -> (info: Self)
        ensures
            info == (TimingInfo {
                total: 0,
                dns: None,
                tcp: None,
                tls: None,
                ttfb: None,
                download: None,
                blocked: None,
            }),
    {
        TimingInfo {
            total: 0,
            dns: None,
            tcp: None,
            tls: None,
            ttfb: None,
            download: None,
            blocked: None,
        }
    }
}

/// One redirect that was followed.
#[derive(Debug)]
pub struct RedirectHop {
    /// The URL that answered with the redirect.
    pub url: String,
    pub status: u16,
    /// How long the hop took, in milliseconds.
    pub duration: u64,
    /// The headers of the redirecting response.
    pub headers: Option<Headers>,
    pub opaque: Option<bool>,
    /// Where the redirect leads.
    pub message: Option<String>,
}

/// What the TLS session and the server's certificate showed.
#[derive(Debug)]
pub struct TlsInfo {
    pub protocol: Option<String>,
    pub cipher: Option<String>,
    pub issuer: Option<String>,
    pub subject: Option<String>,
    pub valid_from: Option<u64>,
    pub valid_to: Option<u64>,
    pub valid: Option<bool>,
}

/// The sizes of a compressed body and of what it holds: the ratio of the
/// first to the second is the compression ratio.
#[derive(Debug, Clone, Copy, PartialEq, Eq)]
pub struct CompressionRatio {
    pub compressed: usize,
    pub uncompressed: usize,
}

/// The bytes of a response by part.
#[derive(Debug)]
pub struct SizeBreakdown {
    pub headers: usize,
    pub body: usize,
    pub total: usize,
    pub compressed: Option<usize>,
    pub uncompressed: Option<usize>,
    pub encoding: Option<String>,
    pub compression_ratio: Option<CompressionRatio>,
}

/// A response and what was observed on the way to it.
#[derive(Debug)]
pub struct ResponseData {
    pub status: u16,
    pub status_text: String,
    pub headers: Headers,
    pub request_headers: Option<Headers>,
    pub body: String,
    pub body_base64: Option<String>,
    pub is_binary: bool,
    pub size: usize,
    pub timing: TimingInfo,
    pub url: String,
    pub redirected: bool,
    pub redirect_chain: Option<Vec<RedirectHop>>,
    pub tls: Option<TlsInfo>,
    pub size_breakdown: Option<SizeBreakdown>,
    pub server_ip: Option<String>,
    pub protocol: Option<String>,
    pub from_cache: Option<bool>,
    pub resource_type: Option<String>,
    pub request_body_size: Option<usize>,
    pub connection: Option<String>,
    pub server_software: Option<String>,
}

/// Why an execution failed.
#[derive(Debug)]
pub struct ErrorData {
    pub message: String,
    pub code: String,
    pub name: Option<String>,
}

/// The kinds of failure of an execution.
#[derive(Debug, Clone, Copy, PartialEq, Eq)]
pub enum ErrorCode {
    InvalidUrl,
    InvalidMethod,
    DnsError,
    ConnectionFailed,
    Timeout,
    TlsError,
    HttpError,
    RequestFailed,
    BodyReadError,
    TooManyRedirects,
    DecompressionError,
    RequestBuildError,
    ProxyDisabled,
}

impl ErrorCode {
    /// The code as it is written in a result.
    pub open spec fn text(self) -> Seq<char> {
        match self {
            ErrorCode::InvalidUrl => "INVALID_URL"@,
            ErrorCode::InvalidMethod => "INVALID_METHOD"@,
            ErrorCode::DnsError => "DNS_ERROR"@,
            ErrorCode::ConnectionFailed => "CONNECTION_FAILED"@,
            ErrorCode::Timeout => "TIMEOUT"@,
            ErrorCode::TlsError => "TLS_ERROR"@,
            ErrorCode::HttpError => "HTTP_ERROR"@,
            ErrorCode::RequestFailed => "REQUEST_FAILED"@,
            ErrorCode::BodyReadError => "BODY_READ_ERROR"@,
            ErrorCode::TooManyRedirects => "TOO_MANY_REDIRECTS"@,
            ErrorCode::DecompressionError => "DECOMPRESSION_ERROR"@,
            ErrorCode::RequestBuildError => "REQUEST_BUILD_ERROR"@,
            ErrorCode::ProxyDisabled => "PROXY_DISABLED"@,
        }
    }

    /// The code as it is written in a result.
    pub fn as_str(self) -> (code: &'static str)
        ensures
            code@ == self.text(),
    {
        match self {
            ErrorCode::InvalidUrl => "INVALID_URL",
            ErrorCode::InvalidMethod => "INVALID_METHOD",
            ErrorCode::DnsError => "DNS_ERROR",
            ErrorCode::ConnectionFailed => "CONNECTION_FAILED",
            ErrorCode::Timeout => "TIMEOUT",
            ErrorCode::TlsError => "TLS_ERROR",
            ErrorCode::HttpError => "HTTP_ERROR",
            ErrorCode::RequestFailed => "REQUEST_FAILED",
            ErrorCode::BodyReadError => "BODY_READ_ERROR",
            ErrorCode::TooManyRedirects => "TOO_MANY_REDIRECTS",
            ErrorCode::DecompressionError => "DECOMPRESSION_ERROR",
            ErrorCode::RequestBuildError => "REQUEST_BUILD_ERROR",
            ErrorCode::ProxyDisabled => "PROXY_DISABLED",
        }
    }
}

/// The result of an execution: a response, or the reason why there is none.
#[derive(Debug)]
pub enum ProxyResponse {
    Success { data: ResponseData },
    Failure { error: ErrorData },
}

impl ProxyResponse {
    /// The result that carries `data`.
    pub fn success(data: ResponseData) -> (response: Self)
        ensures
            response == (ProxyResponse::Success { data }),
    {
        ProxyResponse::Success { data }
    }

    /// The failure with the given message and code, without a name.
    pub fn error(message: String, code: String) -> (response: Self)
        ensures
            response == (ProxyResponse::Failure {
                error: ErrorData { message, code, name: None },
            }),
    {
        ProxyResponse::Failure { error: ErrorData { message, code, name: None } }
    }

    /// The failure of kind `code` with the given message.
    pub fn failure(message: String, code: ErrorCode) -> (response: Self)
        ensures
            response.fails_with(message@, code),
            response matches ProxyResponse::Failure { error } && error.message == message,
    {
        ProxyResponse::error(message, String::from_str(code.as_str()))
    }

    /// The result is the failure of kind `code` with the message `message`.
    pub open spec fn fails_with(self, message: Seq<char>, code: ErrorCode) -> bool {
        &&& self matches ProxyResponse::Failure { error }
        &&& error.message@ == message
        &&& error.code@ == code.text()
        &&& error.name is None
    }

    /// Whether the result carries a response.
    pub fn is_success(&self) -> (b: bool)
        ensures
            b == (self is Success),
    {
        match self {
            ProxyResponse::Success { .. } => true,
            ProxyResponse::Failure { .. } => false,
        }
    }

    /// The response, where there is one.
    pub fn data(&self) -> (r: Option<&ResponseData>)
        ensures
            match *self {
                ProxyResponse::Success { data } => r == Some(&data),
                ProxyResponse::Failure { .. } => r is None,
            },
    {
        match self {
            ProxyResponse::Success { data } => Some(data),
            ProxyResponse::Failure { .. } => None,
        }
    }

    /// The reason of the failure, where the execution failed.
    pub fn error_data(&self) -> (r: Option<&ErrorData>)
        ensures
            match *self {
                ProxyResponse::Success { .. } => r is None,
                ProxyResponse::Failure { error } => r == Some(&error),
            },
    {
        match self {
            ProxyResponse::Success { .. } => None,
            ProxyResponse::Failure { error } => Some(error),
        }
    }
}

} // verus!
