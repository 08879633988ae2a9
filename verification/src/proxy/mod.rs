//! The request executor and what it returns.

pub mod executor;
pub mod headers;
pub mod outgoing;
pub mod redirect;
pub mod response_builder;
pub mod service;
pub mod types;

pub use executor::{execute_request, Action, Event, Execution, ExecutionState, Phase, Step};
pub use headers::{Header, Headers};
pub use outgoing::OutgoingRequest;
pub use redirect::{advance, initialize, HopState, InvalidUrl};
pub use response_builder::{
    build_response, is_binary_content, version_to_string, HttpVersion, ResponseBuildParams,
};
pub use service::HttpProxyService;
pub use types::{
    CompressionRatio, ErrorCode, ErrorData, ProxyRequest, ProxyResponse, RedirectHop, ResponseData,
    SizeBreakdown, TimingInfo, TlsInfo,
};
